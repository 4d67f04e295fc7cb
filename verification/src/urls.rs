//! Addresses, and the host names in them.

use vstd::prelude::*;

use crate::text::{
    contains, counted_is_held, holds, is_part, parts_make_up_the_text, pieces, pieces_of_two, split,
};

verus! {

/// The host that `url::Url` finds in a text: nothing where the text is no URL, else its host, if
/// it has one.
pub uninterp spec fn url_host(s: Seq<char>) -> Option<Option<Seq<char>>>;

/// `url::Url::parse`, and of what it read the host.
#[verifier::external_body]
pub(crate) fn host_of_url(s: &str) -> (r: Option<Option<String>>)
    ensures
        r.deep_view() == url_host(s@),
{
    url::Url::parse(s).ok().map(|u| u.host_str().map(str::to_owned))
}

/// The host name in an address, which may have a scheme and a port; `parsed` is what the address
/// is as a URL.
pub open spec fn bare_host(url: Seq<char>, parsed: Option<Option<Seq<char>>>) -> Seq<char> {
    if holds(url, "://"@) {
        match parsed {
            Some(host) => host.unwrap_or("localhost"@),
            None => pieces(url, ':')[0],
        }
    } else if holds(url, ":"@) {
        pieces(url, ':')[0]
    } else {
        url
    }
}

fn before_colon(s: &str) -> (r: String)
    ensures
        r@ == pieces(s@, ':')[0],
{
    let parts: Vec<String> = split(s, ':');
    assert(parts.deep_view()[0] == parts@[0]@);
    parts[0].clone()
}

/// The host name in an address, given what the address is as a URL.
pub fn bare_host_of(url: &str, parsed: Option<Option<String>>) -> (r: String)
    ensures
        r@ == bare_host(url@, parsed.deep_view()),
{
    if contains(url, "://") {
        match parsed {
            Some(Some(host)) => host,
            Some(None) => "localhost".to_owned(),
            None => before_colon(url),
        }
    } else if contains(url, ":") {
        before_colon(url)
    } else {
        url.to_owned()
    }
}

/// The host name in an address, which may have a scheme and a port.
pub fn parse_url_to_bare(url: &str) -> (r: String)
    ensures
        r@ == bare_host(url@, url_host(url@)),
{
    bare_host_of(url, host_of_url(url))
}

/// The host of an address without a scheme is what stands before its first colon, or all of it; the
/// host of one with a scheme is the one that it has as a URL, or the local one where it has none.
pub proof fn host_stands_before_the_port(
    host: Seq<char>,
    rest: Seq<char>,
    parsed: Option<Option<Seq<char>>>,
    found: Seq<char>,
)
    requires
        !host.contains(':'),
    ensures
        bare_host(host, parsed) == host,
        !is_part("://"@, host + seq![':'] + rest) ==> bare_host(host + seq![':'] + rest, parsed)
            == host,
        is_part("://"@, host + seq![':'] + rest) ==> bare_host(
            host + seq![':'] + rest,
            Some(Some(found)),
        ) == found && bare_host(host + seq![':'] + rest, Some(None)) == "localhost"@ && bare_host(
            host + seq![':'] + rest,
            None,
        ) == host,
{
    reveal_strlit(":");
    reveal_strlit("://");
    assert(":"@ =~= seq![':']);
    let url = host + seq![':'] + rest;
    parts_make_up_the_text(url, "://"@);
    parts_make_up_the_text(host, "://"@);
    counted_is_held(host, ':');
    counted_is_held(url, ':');
    assert(url[host.len() as int] == ':');
    pieces_of_two(host, ':', rest);
    if is_part("://"@, host) {
        let (a, b) = choose|a: Seq<char>, b: Seq<char>| host == #[trigger] (a + "://"@ + b);
        assert(host[a.len() as int] == ':');
    }
}

} // verus!
