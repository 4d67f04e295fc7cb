//! Boot artifacts: which are served, which are made or fetched, and how a fetch goes on.

use vstd::prelude::*;

use crate::text::{
    begins, contains, ends, ends_with, holds, is_part, part, parts_make_up_the_text, pieces,
    pieces_of_two, same, split, stands_at, starts_with,
};

verus! {

// ---------------------------------------------------------------------------------------------
// What is asked for
// ---------------------------------------------------------------------------------------------

/// How a request for an artifact is met.
#[derive(Clone, Debug, PartialEq, Eq)]
pub enum ArtifactPlan {
    /// It is refused, with a status and a text.
    Refuse(u16, String),
    /// The file that is there is served, as this type.
    ServeCached(String),
    /// The overlay of the agent is made and served.
    MakeOverlay,
    /// A script is made and served.
    MakeScript,
    /// The artifact is fetched from this address and served.
    Fetch(String),
}

/// `ArtifactPlan` as a mathematical value.
pub enum ArtifactPlanView {
    Refuse(u16, Seq<char>),
    ServeCached(Seq<char>),
    MakeOverlay,
    MakeScript,
    Fetch(Seq<char>),
}

impl DeepView for ArtifactPlan {
    type V = ArtifactPlanView;

    open spec fn deep_view(&self) -> ArtifactPlanView {
        match self {
            ArtifactPlan::Refuse(status, text) => ArtifactPlanView::Refuse(*status, text@),
            ArtifactPlan::ServeCached(kind) => ArtifactPlanView::ServeCached(kind@),
            ArtifactPlan::MakeOverlay => ArtifactPlanView::MakeOverlay,
            ArtifactPlan::MakeScript => ArtifactPlanView::MakeScript,
            ArtifactPlan::Fetch(url) => ArtifactPlanView::Fetch(url@),
        }
    }
}

/// The path leads nowhere but down from where the artifacts are.
pub open spec fn is_plain_path(path: Seq<char>) -> bool {
    !holds(path, ".."@) && !holds(path, "\\"@)
}

/// The type as which a file is served.
pub open spec fn content_type(path: Seq<char>) -> Seq<char> {
    if ends(path, ".ipxe"@) {
        "text/plain"@
    } else if ends(path, ".tar.gz"@) {
        "application/gzip"@
    } else {
        "application/octet-stream"@
    }
}

/// The name of a script without its ending; one that is nothing but the ending stays as it is.
pub open spec fn script_stem(path: Seq<char>) -> Seq<char> {
    let name = pieces(path, '/').last();
    if name.len() > 5 {
        name.take(name.len() - 5)
    } else {
        name
    }
}

/// The scripts that may be served from files.
pub open spec fn is_allowed_script(stem: Seq<char>) -> bool {
    stem == "hookos"@ || stem == "dragonfly-agent"@
}

/// Where an artifact is fetched from.
pub open spec fn remote_url(path: Seq<char>) -> Option<Seq<char>> {
    if path == "dragonfly-agent/vmlinuz"@ {
        Some(
            "https://dl-cdn.alpinelinux.org/alpine/latest-stable/releases/x86_64/netboot/vmlinuz-lts"@,
        )
    } else if path == "dragonfly-agent/initramfs-lts"@ {
        Some(
            "https://dl-cdn.alpinelinux.org/alpine/latest-stable/releases/x86_64/netboot/initramfs-lts"@,
        )
    } else if path == "dragonfly-agent/modloop"@ {
        Some(
            "https://dl-cdn.alpinelinux.org/alpine/latest-stable/releases/x86_64/netboot/modloop-lts"@,
        )
    } else if path == "ubuntu/jammy-server-cloudimg-amd64.img"@ {
        Some(
            "https://cloud-images.ubuntu.com/jammy/current/jammy-server-cloudimg-amd64.img"@,
        )
    } else {
        None
    }
}

/// How a request for an artifact is met, by its path and whether there is a file.
pub open spec fn artifact_plan(path: Seq<char>, exists: bool) -> ArtifactPlanView {
    if !is_plain_path(path) {
        ArtifactPlanView::Refuse(400, "Invalid artifact path"@)
    } else if exists {
        if ends(path, ".ipxe"@) && !is_allowed_script(script_stem(path)) {
            ArtifactPlanView::Refuse(404, "iPXE Script Not Found"@)
        } else {
            ArtifactPlanView::ServeCached(content_type(path))
        }
    } else if path == "dragonfly-agent/localhost.apkovl.tar.gz"@ {
        ArtifactPlanView::MakeOverlay
    } else if ends(path, ".ipxe"@) {
        ArtifactPlanView::MakeScript
    } else {
        match remote_url(path) {
            Some(url) => ArtifactPlanView::Fetch(url),
            None => ArtifactPlanView::Refuse(404, "Unknown iPXE artifact"@),
        }
    }
}

fn type_of(path: &str) -> (r: &'static str)
    ensures
        r@ == content_type(path@),
{
    if ends_with(path, ".ipxe") {
        "text/plain"
    } else if ends_with(path, ".tar.gz") {
        "application/gzip"
    } else {
        "application/octet-stream"
    }
}

fn stem_of(path: &str) -> (r: String)
    ensures
        r@ == script_stem(path@),
{
    let parts: Vec<String> = split(path, '/');
    let n: usize = parts.len();
    assert(parts.deep_view().last() == parts@[n - 1]@);
    let name = parts[n - 1].as_str();
    let len: usize = name.unicode_len();
    if len > 5 {
        assert(name@.subrange(0, len - 5) =~= name@.take(len - 5));
        part(name, 0, len - 5)
    } else {
        name.to_owned()
    }
}

fn source_of(path: &str) -> (r: Option<String>)
    ensures
        r.deep_view() == remote_url(path@),
{
    if same(path, "dragonfly-agent/vmlinuz") {
        Some(
            "https://dl-cdn.alpinelinux.org/alpine/latest-stable/releases/x86_64/netboot/vmlinuz-lts".to_owned(),
        )
    } else if same(path, "dragonfly-agent/initramfs-lts") {
        Some(
            "https://dl-cdn.alpinelinux.org/alpine/latest-stable/releases/x86_64/netboot/initramfs-lts".to_owned(),
        )
    } else if same(path, "dragonfly-agent/modloop") {
        Some(
            "https://dl-cdn.alpinelinux.org/alpine/latest-stable/releases/x86_64/netboot/modloop-lts".to_owned(),
        )
    } else if same(path, "ubuntu/jammy-server-cloudimg-amd64.img") {
        Some(
            "https://cloud-images.ubuntu.com/jammy/current/jammy-server-cloudimg-amd64.img".to_owned(),
        )
    } else {
        None
    }
}

/// Decides how a request for an artifact is met.
pub fn serve_ipxe_artifact(requested_path: &str, exists: bool) -> (r: ArtifactPlan)
    ensures
        r.deep_view() == artifact_plan(requested_path@, exists),
{
    if contains(requested_path, "..") || contains(requested_path, "\\") {
        return ArtifactPlan::Refuse(400, "Invalid artifact path".to_owned());
    }
    if exists {
        if ends_with(requested_path, ".ipxe") {
            let stem = stem_of(requested_path);
            if !same(stem.as_str(), "hookos") && !same(stem.as_str(), "dragonfly-agent") {
                return ArtifactPlan::Refuse(404, "iPXE Script Not Found".to_owned());
            }
        }
        ArtifactPlan::ServeCached(type_of(requested_path).to_owned())
    } else if same(requested_path, "dragonfly-agent/localhost.apkovl.tar.gz") {
        ArtifactPlan::MakeOverlay
    } else if ends_with(requested_path, ".ipxe") {
        ArtifactPlan::MakeScript
    } else {
        match source_of(requested_path) {
            Some(url) => ArtifactPlan::Fetch(url),
            None => ArtifactPlan::Refuse(404, "Unknown iPXE artifact".to_owned()),
        }
    }
}

/// A path that leads upwards is refused, whatever is there.
pub proof fn upward_paths_are_refused(path: Seq<char>, exists: bool)
    requires
        holds(path, ".."@),
    ensures
        artifact_plan(path, exists) matches ArtifactPlanView::Refuse(400, _),
{
}

/// Nothing is fetched but what is known, and nothing that is there is fetched again.
pub proof fn only_known_artifacts_are_fetched(path: Seq<char>, exists: bool)
    ensures
        artifact_plan(path, exists) matches ArtifactPlanView::Fetch(url) ==> !exists && remote_url(
            path,
        ) == Some(url),
{
}

/// The path of an artifact below a directory; a path from the root stands for itself.
pub open spec fn below(dir: Seq<char>, path: Seq<char>) -> Seq<char> {
    if begins(path, "/"@) {
        path
    } else if ends(dir, "/"@) || dir.len() == 0 {
        dir + path
    } else {
        dir + "/"@ + path
    }
}

/// The path of an artifact below a directory.
pub fn artifact_path(dir: &str, path: &str) -> (r: String)
    ensures
        r@ == below(dir@, path@),
{
    if starts_with(path, "/") {
        path.to_owned()
    } else if ends_with(dir, "/") || dir.is_empty() {
        dir.to_owned().concat(path)
    } else {
        dir.to_owned().concat("/").concat(path)
    }
}

/// Where the overlay of the agent is made.
pub const AGENT_APKOVL_PATH: &'static str =
    "/var/lib/dragonfly/ipxe-artifacts/dragonfly-agent/localhost.apkovl.tar.gz";

/// Where serving an artifact failed. The texts are those of the errors.
#[derive(Debug, PartialEq, Eq)]
pub enum ArtifactFailure {
    /// Reading the file that is there.
    ReadCached,
    /// Making the overlay: the address of the server is not set.
    OverlayConfiguration,
    /// Making the overlay at this path.
    MakeOverlay(String, String),
    /// Reading the overlay that was made.
    ReadOverlay,
    /// Making a script that there is not.
    UnknownScript,
    /// Making a script.
    MakeScript(String),
    /// Fetching.
    Fetch(String),
}

/// The answer where serving an artifact failed.
pub open spec fn failure_answer(f: ArtifactFailure) -> (u16, Seq<char>) {
    match f {
        ArtifactFailure::ReadCached => (500, "Error reading iPXE artifact"@),
        ArtifactFailure::OverlayConfiguration => (
            500,
            "Server configuration error for apkovl generation"@,
        ),
        ArtifactFailure::MakeOverlay(path, e) => (500, "Failed to generate "@ + path@ + ": "@ + e@),
        ArtifactFailure::ReadOverlay => (500, "Error reading newly generated apkovl"@),
        ArtifactFailure::UnknownScript => (404, "Unknown or Ungeneratable IPXE Script"@),
        ArtifactFailure::MakeScript(e) => (500, "Failed to generate script: "@ + e@),
        ArtifactFailure::Fetch(e) => (500, "Error streaming artifact: "@ + e@),
    }
}

/// Answers where serving an artifact failed.
pub fn answer_failure(f: &ArtifactFailure) -> (r: (u16, String))
    ensures
        (r.0, r.1@) == failure_answer(*f),
{
    match f {
        ArtifactFailure::ReadCached => (500, "Error reading iPXE artifact".to_owned()),
        ArtifactFailure::OverlayConfiguration => (
            500,
            "Server configuration error for apkovl generation".to_owned(),
        ),
        ArtifactFailure::MakeOverlay(path, e) => (
            500,
            "Failed to generate ".to_owned().concat(path.as_str()).concat(": ").concat(e.as_str()),
        ),
        ArtifactFailure::ReadOverlay => (500, "Error reading newly generated apkovl".to_owned()),
        ArtifactFailure::UnknownScript => (404, "Unknown or Ungeneratable IPXE Script".to_owned()),
        ArtifactFailure::MakeScript(e) => (
            500,
            "Failed to generate script: ".to_owned().concat(e.as_str()),
        ),
        ArtifactFailure::Fetch(e) => (500, "Error streaming artifact: ".to_owned().concat(e.as_str())),
    }
}

// ---------------------------------------------------------------------------------------------
// A fetch
// ---------------------------------------------------------------------------------------------

/// Where a fetch could not even begin. The texts are those of the errors.
#[derive(Debug, PartialEq, Eq)]
pub enum FetchFailure {
    Directory(String),
    Request(String),
    Status(String),
    File(String),
}

/// What is said where a fetch could not begin.
pub fn fetch_failure(f: &FetchFailure) -> (r: String)
    ensures
        r@ == (match f {
            FetchFailure::Directory(e) => "Failed to create directory: "@ + e@,
            FetchFailure::Request(e) => "HTTP request failed: "@ + e@,
            FetchFailure::Status(e) => "HTTP error: "@ + e@,
            FetchFailure::File(e) => "Failed to create cache file: "@ + e@,
        }),
{
    match f {
        FetchFailure::Directory(e) => "Failed to create directory: ".to_owned().concat(e.as_str()),
        FetchFailure::Request(e) => "HTTP request failed: ".to_owned().concat(e.as_str()),
        FetchFailure::Status(e) => "HTTP error: ".to_owned().concat(e.as_str()),
        FetchFailure::File(e) => "Failed to create cache file: ".to_owned().concat(e.as_str()),
    }
}

/// How far a fetch is: it writes every chunk to a file, and hands it on to the client as long as
/// there is one.
#[derive(Clone, Copy, Debug, PartialEq, Eq, Structural)]
pub struct Fetch {
    /// How many bytes there are; 0 where that is not known.
    pub total: u64,
    /// How many have come.
    pub downloaded: u64,
    /// The client has gone.
    pub client_gone: bool,
    /// Something failed: the fetch is over.
    pub failed: bool,
    /// The progress is reported.
    pub reporting: bool,
}

/// What happens in a fetch.
#[derive(Clone, Copy, Debug, PartialEq, Eq, Structural)]
pub enum FetchEvent {
    /// A chunk of so many bytes came.
    Chunk(u64),
    /// The last thing was handed to the client, or could not be.
    HandedOn(bool),
    /// The last chunk was written to the file, or could not be.
    Written(bool),
    /// The stream broke.
    Broken,
    /// The stream ended.
    Ended,
}

/// What is done in a fetch.
#[derive(Clone, Copy, Debug, PartialEq, Eq, Structural)]
pub struct FetchAction {
    /// Write the chunk to the file.
    pub write: bool,
    /// Hand the chunk, or the error, on to the client.
    pub hand_on: bool,
    /// Report that so many bytes have come.
    pub report: Option<u64>,
    /// Stop.
    pub stop: bool,
}

/// Nothing is done.
pub open spec fn no_action() -> FetchAction {
    FetchAction { write: false, hand_on: false, report: None, stop: false }
}

/// What follows an event in a fetch.
pub open spec fn fetch_next(f: Fetch, event: FetchEvent) -> (Fetch, FetchAction) {
    match event {
        FetchEvent::Chunk(n) => {
            let downloaded = (f.downloaded + n) as u64;
            (
                Fetch { downloaded, ..f },
                FetchAction {
                    write: true,
                    hand_on: !f.client_gone,
                    report: if f.reporting && f.total > 0 {
                        Some(downloaded)
                    } else {
                        None
                    },
                    stop: false,
                },
            )
        },
        FetchEvent::HandedOn(ok) => (
            Fetch { client_gone: f.client_gone || !ok, ..f },
            no_action(),
        ),
        FetchEvent::Written(ok) => (
            Fetch { failed: f.failed || !ok, ..f },
            FetchAction { stop: !ok, ..no_action() },
        ),
        FetchEvent::Broken => (
            Fetch { failed: true, ..f },
            FetchAction { hand_on: !f.client_gone, stop: true, ..no_action() },
        ),
        FetchEvent::Ended => (
            f,
            FetchAction {
                report: if !f.failed && f.reporting && f.total > 0 {
                    Some(f.total)
                } else {
                    None
                },
                stop: true,
                ..no_action()
            },
        ),
    }
}

/// How a fetch ended.
#[derive(Clone, Copy, Debug, PartialEq, Eq, Structural)]
pub enum FetchEnd {
    /// The client has all of it, and so has the file.
    Complete,
    /// The file has all of it.
    CompleteWithoutClient,
    /// The file may lack something.
    Incomplete,
}

impl Fetch {
    /// The beginning of a fetch of so many bytes, if that is known.
    pub fn start(content_length: Option<u64>, reporting: bool) -> (r: Fetch)
        ensures
            r == (Fetch {
                total: content_length.unwrap_or(0),
                downloaded: 0,
                client_gone: false,
                failed: false,
                reporting,
            }),
    {
        Fetch {
            total: match content_length {
                Some(n) => n,
                None => 0,
            },
            downloaded: 0,
            client_gone: false,
            failed: false,
            reporting,
        }
    }

    /// Goes on from an event. As many bytes as there are numbers for can come.
    pub fn next(&mut self, event: FetchEvent) -> (r: FetchAction)
        requires
            event matches FetchEvent::Chunk(n) ==> old(self).downloaded + n <= u64::MAX,
        ensures
            (*final(self), r) == fetch_next(*old(self), event),
    {
        match event {
            FetchEvent::Chunk(n) => {
                self.downloaded = self.downloaded + n;
                FetchAction {
                    write: true,
                    hand_on: !self.client_gone,
                    report: if self.reporting && self.total > 0 {
                        Some(self.downloaded)
                    } else {
                        None
                    },
                    stop: false,
                }
            },
            FetchEvent::HandedOn(ok) => {
                self.client_gone = self.client_gone || !ok;
                FetchAction { write: false, hand_on: false, report: None, stop: false }
            },
            FetchEvent::Written(ok) => {
                self.failed = self.failed || !ok;
                FetchAction { write: false, hand_on: false, report: None, stop: !ok }
            },
            FetchEvent::Broken => {
                self.failed = true;
                FetchAction { write: false, hand_on: !self.client_gone, report: None, stop: true }
            },
            FetchEvent::Ended => FetchAction {
                write: false,
                hand_on: false,
                report: if !self.failed && self.reporting && self.total > 0 {
                    Some(self.total)
                } else {
                    None
                },
                stop: true,
            },
        }
    }

    /// How the fetch ended.
    pub fn end(&self) -> (r: FetchEnd)
        ensures
            r == (if self.failed {
                FetchEnd::Incomplete
            } else if self.client_gone {
                FetchEnd::CompleteWithoutClient
            } else {
                FetchEnd::Complete
            }),
    {
        if self.failed {
            FetchEnd::Incomplete
        } else if self.client_gone {
            FetchEnd::CompleteWithoutClient
        } else {
            FetchEnd::Complete
        }
    }
}

/// A client that goes does not end a fetch: its chunks are still written, but no longer handed on.
pub proof fn fetch_outlives_its_client(f: Fetch, n: u64)
    ensures
        ({
            let gone = fetch_next(f, FetchEvent::HandedOn(false)).0;
            let action = fetch_next(gone, FetchEvent::Chunk(n)).1;
            &&& !fetch_next(f, FetchEvent::HandedOn(false)).1.stop
            &&& action.write && !action.hand_on && !action.stop
        }),
{
}

/// A fetch that failed stays so, and never reports that it is complete.
pub proof fn failure_is_final(f: Fetch, event: FetchEvent)
    requires
        f.failed,
    ensures
        fetch_next(f, event).0.failed,
        event == FetchEvent::Ended ==> fetch_next(f, event).1.report is None,
{
}

/// How a fetch that has begun is answered.
#[derive(Clone, Copy, Debug, PartialEq, Eq, Structural)]
pub enum FetchAnswer {
    /// From the file, by the range that was asked for.
    FromFile,
    /// As the chunks come.
    AsItComes,
}

/// Decides how a fetch that has begun is answered: a range is served from the file.
pub fn answer_fetch(range_given: bool) -> (r: FetchAnswer)
    ensures
        r == (if range_given {
            FetchAnswer::FromFile
        } else {
            FetchAnswer::AsItComes
        }),
{
    if range_given {
        FetchAnswer::FromFile
    } else {
        FetchAnswer::AsItComes
    }
}

/// The parts from which the agent boots are served even where they are not there yet: the kernel, the
/// initial file system and the modules are fetched from the release of Alpine, under their own names,
/// and the overlay is made.
pub proof fn agent_parts_are_served()
    ensures
        artifact_plan("dragonfly-agent/vmlinuz"@, false) == ArtifactPlanView::Fetch(
            "https://dl-cdn.alpinelinux.org/alpine/latest-stable/releases/x86_64/netboot/vmlinuz-lts"@,
        ),
        artifact_plan("dragonfly-agent/initramfs-lts"@, false) == ArtifactPlanView::Fetch(
            "https://dl-cdn.alpinelinux.org/alpine/latest-stable/releases/x86_64/netboot/initramfs-lts"@,
        ),
        artifact_plan("dragonfly-agent/modloop"@, false) == ArtifactPlanView::Fetch(
            "https://dl-cdn.alpinelinux.org/alpine/latest-stable/releases/x86_64/netboot/modloop-lts"@,
        ),
        artifact_plan("dragonfly-agent/localhost.apkovl.tar.gz"@, false)
            == ArtifactPlanView::MakeOverlay,
{
    reveal_strlit("dragonfly-agent/vmlinuz");
    reveal_strlit("dragonfly-agent/initramfs-lts");
    reveal_strlit("dragonfly-agent/modloop");
    reveal_strlit("dragonfly-agent/localhost.apkovl.tar.gz");
    assert("dragonfly-agent/vmlinuz"@.len() != "dragonfly-agent/initramfs-lts"@.len());
    assert("dragonfly-agent/vmlinuz"@[16] != "dragonfly-agent/modloop"@[16]);
    assert("dragonfly-agent/initramfs-lts"@.len() != "dragonfly-agent/modloop"@.len());
    assert("dragonfly-agent/vmlinuz"@.len() != "dragonfly-agent/localhost.apkovl.tar.gz"@.len());
    assert("dragonfly-agent/initramfs-lts"@.len() != "dragonfly-agent/localhost.apkovl.tar.gz"@.len());
    assert("dragonfly-agent/modloop"@.len() != "dragonfly-agent/localhost.apkovl.tar.gz"@.len());
    reveal_strlit("..");
    reveal_strlit("\\");
    reveal_strlit(".ipxe");
    plain_if_no_dots("dragonfly-agent/vmlinuz"@);
    plain_if_no_dots("dragonfly-agent/initramfs-lts"@);
    plain_if_no_dots("dragonfly-agent/modloop"@);
    plain_if_no_dots("dragonfly-agent/localhost.apkovl.tar.gz"@);
}

proof fn plain_if_no_dots(path: Seq<char>)
    requires
        forall|i: int| 0 <= i < path.len() ==> path[i] != '\\',
        forall|i: int| 0 <= i < path.len() - 1 ==> !(#[trigger] path[i] == '.' && path[i + 1] == '.'),
        path.len() > 5,
        path.last() != 'e',
    ensures
        is_plain_path(path),
        !ends(path, ".ipxe"@),
{
    reveal_strlit("..");
    reveal_strlit("\\");
    reveal_strlit(".ipxe");
    if holds(path, ".."@) {
        let i = choose|i: int| stands_at(path, ".."@, i);
        assert(path.subrange(i, i + 2)[0] == '.');
        assert(path.subrange(i, i + 2)[1] == '.');
        assert(path[i] == '.' && path[i + 1] == '.');
    }
    if holds(path, "\\"@) {
        let i = choose|i: int| stands_at(path, "\\"@, i);
        assert(path.subrange(i, i + 1)[0] == '\\');
        assert(path[i] == '\\');
    }
    if ends(path, ".ipxe"@) {
        assert(path.subrange(path.len() - 5, path.len() as int)[4] == 'e');
    }
}

/// What is there is served as it is, by its ending; of the scripts only those that are known. What is
/// not there is made if it is a script, and refused if nothing is known of it. A path that leads out of
/// the directory is refused in any case.
pub proof fn artifacts_are_served_by_their_paths(path: Seq<char>)
    ensures
        !is_plain_path(path) <==> is_part(".."@, path) || is_part("\\"@, path),
        !is_plain_path(path) ==> artifact_plan(path, true) == artifact_plan(path, false)
            && artifact_plan(path, true) == ArtifactPlanView::Refuse(400, "Invalid artifact path"@),
        is_plain_path(path) && (exists|t: Seq<char>| path == #[trigger] (t + ".tar.gz"@))
            ==> artifact_plan(path, true) == ArtifactPlanView::ServeCached("application/gzip"@),
        is_plain_path(path) && (exists|t: Seq<char>| path == #[trigger] (t + ".ipxe"@))
            ==> artifact_plan(path, false) == ArtifactPlanView::MakeScript,
        is_plain_path(path) && !(exists|t: Seq<char>| path == #[trigger] (t + ".tar.gz"@)) && !(
        exists|t: Seq<char>| path == #[trigger] (t + ".ipxe"@)) ==> artifact_plan(path, true)
            == ArtifactPlanView::ServeCached("application/octet-stream"@),
        is_plain_path(path) && !(exists|t: Seq<char>| path == #[trigger] (t + ".ipxe"@)) && path
            != "dragonfly-agent/localhost.apkovl.tar.gz"@ && remote_url(path) is None
            ==> artifact_plan(path, false) == ArtifactPlanView::Refuse(
            404,
            "Unknown iPXE artifact"@,
        ),
        remote_url(path) is Some ==> path == "dragonfly-agent/vmlinuz"@ || path
            == "dragonfly-agent/initramfs-lts"@ || path == "dragonfly-agent/modloop"@ || path
            == "ubuntu/jammy-server-cloudimg-amd64.img"@,
{
    parts_make_up_the_text(path, ".."@);
    parts_make_up_the_text(path, "\\"@);
    parts_make_up_the_text(path, ".tar.gz"@);
    parts_make_up_the_text(path, ".ipxe"@);
    reveal_strlit(".tar.gz");
    reveal_strlit(".ipxe");
    reveal_strlit("dragonfly-agent/localhost.apkovl.tar.gz");
    if ends(path, ".ipxe"@) {
        assert(path.subrange(path.len() - 5, path.len() as int)[4] == 'e');
        assert(path.last() == 'e');
    }
    if ends(path, ".tar.gz"@) {
        assert(path.subrange(path.len() - 7, path.len() as int)[6] == 'z');
        assert(path.last() == 'z');
    }
    assert("dragonfly-agent/localhost.apkovl.tar.gz"@.last() == 'z');
}

/// A script that is there is served exactly where its name is one of the two that are known, in
/// whatever directory.
pub proof fn known_scripts_are_served(dir: Seq<char>, stem: Seq<char>)
    requires
        !stem.contains('/'),
        stem.len() > 0,
        is_plain_path(dir + seq!['/'] + (stem + ".ipxe"@)),
    ensures
        artifact_plan(dir + seq!['/'] + (stem + ".ipxe"@), true) == (if stem == "hookos"@ || stem
            == "dragonfly-agent"@ {
            ArtifactPlanView::ServeCached("text/plain"@)
        } else {
            ArtifactPlanView::Refuse(404, "iPXE Script Not Found"@)
        }),
{
    reveal_strlit(".ipxe");
    let name = stem + ".ipxe"@;
    let path = dir + seq!['/'] + name;
    assert forall|i: int| 0 <= i < name.len() implies name[i] != '/' by {
        if i < stem.len() {
            assert(stem.contains(stem[i]));
        }
    }
    assert(!name.contains('/'));
    pieces_of_two(dir, '/', name);
    pieces_of_two(name, '/', Seq::empty());
    assert(pieces(path, '/').last() == name);
    assert(name.take(name.len() - 5) =~= stem);
    assert(path.subrange(path.len() - 5, path.len() as int) =~= ".ipxe"@);
}

/// An artifact lies below its directory, whether that is written with a slash at its end or without.
pub proof fn artifacts_lie_below_their_directory(dir: Seq<char>, path: Seq<char>)
    requires
        dir.len() > 0,
        dir.last() != '/',
        path.len() > 0 ==> path[0] != '/',
    ensures
        below(dir, path) == dir + seq!['/'] + path,
        below(dir + seq!['/'], path) == dir + seq!['/'] + path,
{
    reveal_strlit("/");
    assert("/"@ =~= seq!['/']);
    if begins(path, "/"@) {
        assert(path.subrange(0, 1)[0] == '/');
    }
    if ends(dir, "/"@) {
        assert(dir.subrange(dir.len() - 1, dir.len() as int)[0] == '/');
    }
    let slashed = dir + seq!['/'];
    assert(slashed.subrange(slashed.len() - 1, slashed.len() as int) =~= "/"@);
}

/// A fetch after several events.
pub open spec fn fetched(f: Fetch, events: Seq<FetchEvent>) -> Fetch
    decreases events.len(),
{
    if events.len() == 0 {
        f
    } else {
        fetch_next(fetched(f, events.drop_last()), events.last()).0
    }
}

/// The bytes of the chunks among the events.
pub open spec fn bytes_in(events: Seq<FetchEvent>) -> nat
    decreases events.len(),
{
    if events.len() == 0 {
        0
    } else {
        bytes_in(events.drop_last()) + (match events.last() {
            FetchEvent::Chunk(n) => n as nat,
            _ => 0,
        })
    }
}

/// What a fetch has downloaded are the bytes of all of its chunks, and these alone. Every chunk is
/// written, is handed on as long as there is a client, and is reported with all bytes so far; nothing
/// else is ever written. A fetch is complete exactly where everything was written and nothing broke.
pub proof fn every_chunk_counts(f: Fetch, events: Seq<FetchEvent>)
    requires
        f.downloaded == 0,
        !f.failed,
        !f.client_gone,
        bytes_in(events) <= u64::MAX,
        events.len() > 0,
    ensures
        fetched(f, events).downloaded == bytes_in(events),
        ({
            let action = fetch_next(fetched(f, events.drop_last()), events.last()).1;
            &&& action.write <==> events.last() is Chunk
            &&& events.last() is Chunk ==> !action.stop && action.hand_on == !fetched(
                f,
                events.drop_last(),
            ).client_gone && action.report == (if f.reporting && f.total > 0 {
                Some(bytes_in(events) as u64)
            } else {
                None
            })
            &&& events.last() is Ended && !fetched(f, events).failed && f.reporting && f.total > 0
                ==> action.report == Some(f.total)
        }),
        fetched(f, events).failed <==> events.contains(FetchEvent::Broken) || events.contains(
            FetchEvent::Written(false),
        ),
        fetched(f, events).client_gone <==> events.contains(FetchEvent::HandedOn(false)),
        fetched(f, events).total == f.total,
        fetched(f, events).reporting == f.reporting,
    decreases events.len(),
{
    let before = events.drop_last();
    let last = events.last();
    assert(events =~= before.push(last));
    if before.len() > 0 {
        every_chunk_counts(f, before);
    }
    assert forall|e: FetchEvent| #[trigger] events.contains(e) <==> before.contains(e) || e == last by {
        if events.contains(e) {
            let i = events.index_of(e);
            if i < before.len() {
                assert(before[i] == e);
            }
        }
        if before.contains(e) {
            let i = before.index_of(e);
            assert(events[i] == e);
        }
        if e == last {
            assert(events[events.len() - 1] == e);
        }
    }
}

} // verus!
