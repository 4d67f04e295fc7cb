//! Labels for the metrics of the HTTP server.

use vstd::prelude::*;

use crate::text::{begins, same, starts_with};

verus! {

/// The label for requests to a path.
pub open spec fn endpoint_label(path: Seq<char>) -> Seq<char> {
    if begins(path, "/images/"@) {
        "image"@
    } else if begins(path, "/os/"@) {
        "os_image"@
    } else if begins(path, "/boot-debian/"@) {
        "boot_debian_asset"@
    } else if begins(path, "/boot/pxelinux.cfg"@) {
        "pxelinux_config"@
    } else if begins(path, "/boot/"@) {
        "boot"@
    } else if begins(path, "/ipxe/"@) {
        "ipxe_artifact"@
    } else if begins(path, "/api/"@) {
        "api"@
    } else if path == "/metrics"@ || path == "/favicon.ico"@ {
        "infra"@
    } else {
        "other"@
    }
}

/// All labels that there are.
pub open spec fn endpoint_labels() -> Seq<Seq<char>> {
    seq![
        "image"@,
        "os_image"@,
        "boot_debian_asset"@,
        "pxelinux_config"@,
        "boot"@,
        "ipxe_artifact"@,
        "api"@,
        "infra"@,
        "other"@,
    ]
}

/// The label for requests to a path. Coarse on purpose: there are few labels, however many paths
/// are asked for.
pub fn classify(path: &str) -> (r: &'static str)
    ensures
        r@ == endpoint_label(path@),
{
    if starts_with(path, "/images/") {
        "image"
    } else if starts_with(path, "/os/") {
        "os_image"
    } else if starts_with(path, "/boot-debian/") {
        "boot_debian_asset"
    } else if starts_with(path, "/boot/pxelinux.cfg") {
        "pxelinux_config"
    } else if starts_with(path, "/boot/") {
        "boot"
    } else if starts_with(path, "/ipxe/") {
        "ipxe_artifact"
    } else if starts_with(path, "/api/") {
        "api"
    } else if same(path, "/metrics") || same(path, "/favicon.ico") {
        "infra"
    } else {
        "other"
    }
}

/// Whatever path is asked for, the label is one of nine.
pub proof fn labels_are_bounded(path: Seq<char>)
    ensures
        endpoint_labels().contains(endpoint_label(path)),
        endpoint_labels().len() == 9,
{
    let all = endpoint_labels();
    assert(all[0] == "image"@);
    assert(all[1] == "os_image"@);
    assert(all[2] == "boot_debian_asset"@);
    assert(all[3] == "pxelinux_config"@);
    assert(all[4] == "boot"@);
    assert(all[5] == "ipxe_artifact"@);
    assert(all[6] == "api"@);
    assert(all[7] == "infra"@);
    assert(all[8] == "other"@);
}

/// The label for an HTTP method.
pub open spec fn label_of_method(method: Seq<char>) -> Seq<char> {
    if method == "GET"@ || method == "POST"@ || method == "PUT"@ || method == "DELETE"@ || method
        == "PATCH"@ || method == "HEAD"@ || method == "OPTIONS"@ {
        method
    } else {
        "other"@
    }
}

/// The label for an HTTP method.
pub fn method_label(method: &str) -> (r: &'static str)
    ensures
        r@ == label_of_method(method@),
{
    if same(method, "GET") {
        "GET"
    } else if same(method, "POST") {
        "POST"
    } else if same(method, "PUT") {
        "PUT"
    } else if same(method, "DELETE") {
        "DELETE"
    } else if same(method, "PATCH") {
        "PATCH"
    } else if same(method, "HEAD") {
        "HEAD"
    } else if same(method, "OPTIONS") {
        "OPTIONS"
    } else {
        "other"
    }
}

/// A path is labelled by what it begins with, whatever follows.
pub proof fn paths_are_labelled_by_their_start(rest: Seq<char>)
    ensures
        endpoint_label("/images/"@ + rest) == "image"@,
        endpoint_label("/os/"@ + rest) == "os_image"@,
        endpoint_label("/boot-debian/"@ + rest) == "boot_debian_asset"@,
        endpoint_label("/boot/pxelinux.cfg"@ + rest) == "pxelinux_config"@,
        begins("/boot/"@ + rest, "/boot/pxelinux.cfg"@) || endpoint_label("/boot/"@ + rest) == "boot"@,
        endpoint_label("/ipxe/"@ + rest) == "ipxe_artifact"@,
        endpoint_label("/api/"@ + rest) == "api"@,
{
    reveal_strlit("/images/");
    reveal_strlit("/os/");
    reveal_strlit("/boot-debian/");
    reveal_strlit("/boot/pxelinux.cfg");
    reveal_strlit("/boot/");
    reveal_strlit("/ipxe/");
    reveal_strlit("/api/");
    assert(("/images/"@ + rest).subrange(0, 8) =~= "/images/"@);
    assert(("/os/"@ + rest).subrange(0, 4) =~= "/os/"@);
    differs_early("/os/"@, rest, "/images/"@, 1);
    assert(("/boot-debian/"@ + rest).subrange(0, 13) =~= "/boot-debian/"@);
    differs_early("/boot-debian/"@, rest, "/images/"@, 1);
    differs_early("/boot-debian/"@, rest, "/os/"@, 1);
    assert(("/boot/pxelinux.cfg"@ + rest).subrange(0, 18) =~= "/boot/pxelinux.cfg"@);
    differs_early("/boot/pxelinux.cfg"@, rest, "/images/"@, 1);
    differs_early("/boot/pxelinux.cfg"@, rest, "/os/"@, 1);
    differs_early("/boot/pxelinux.cfg"@, rest, "/boot-debian/"@, 5);
    assert(("/boot/"@ + rest).subrange(0, 6) =~= "/boot/"@);
    differs_early("/boot/"@, rest, "/images/"@, 1);
    differs_early("/boot/"@, rest, "/os/"@, 1);
    differs_early("/boot/"@, rest, "/boot-debian/"@, 5);
    assert(("/ipxe/"@ + rest).subrange(0, 6) =~= "/ipxe/"@);
    differs_early("/ipxe/"@, rest, "/images/"@, 2);
    differs_early("/ipxe/"@, rest, "/os/"@, 1);
    differs_early("/ipxe/"@, rest, "/boot-debian/"@, 1);
    differs_early("/ipxe/"@, rest, "/boot/pxelinux.cfg"@, 1);
    differs_early("/ipxe/"@, rest, "/boot/"@, 1);
    assert(("/api/"@ + rest).subrange(0, 5) =~= "/api/"@);
    differs_early("/api/"@, rest, "/images/"@, 1);
    differs_early("/api/"@, rest, "/os/"@, 1);
    differs_early("/api/"@, rest, "/boot-debian/"@, 1);
    differs_early("/api/"@, rest, "/boot/pxelinux.cfg"@, 1);
    differs_early("/api/"@, rest, "/boot/"@, 1);
    differs_early("/api/"@, rest, "/ipxe/"@, 1);
}

proof fn differs_early(start: Seq<char>, rest: Seq<char>, other: Seq<char>, i: int)
    requires
        0 <= i < start.len(),
        i < other.len(),
        start[i] != other[i],
    ensures
        !begins(start + rest, other),
{
    let s = start + rest;
    if begins(s, other) {
        assert(s.subrange(0, other.len() as int)[i] == s[i]);
        assert(s[i] == start[i]);
    }
}

} // verus!
