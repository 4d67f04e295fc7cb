//! Serving files whole or in part.

use vstd::prelude::*;

use crate::text::{
    begins, counted_is_held, decimal, decimal_of, decimals_are_plain, decimals_are_read_back,
    numeral, parse_number, parts_make_up_the_text, pieces, pieces_lie_between_separators,
    pieces_of_two, split, starts_with, tail, tally, tally_of_two, trim, trimmed, trimmed_text_stays,
};

verus! {

/// How many bytes of a whole file are read at a time.
pub const READ_SIZE: u64 = 65_536;

/// The first and the last byte that a range with these two bounds asks for. Without a first bound
/// the second says how many of the last bytes are asked for; without a second bound the range goes
/// to the end.
pub open spec fn range_bounds(start: Seq<char>, end: Seq<char>, total_size: u64) -> Option<
    (u64, u64),
> {
    let end_of_file: u64 = if total_size == 0 {
        0
    } else {
        (total_size - 1) as u64
    };
    if start.len() == 0 {
        match numeral(end, 10) {
            Some(n) => Some(
                (
                    if n >= total_size {
                        0
                    } else {
                        (total_size - n) as u64
                    },
                    end_of_file,
                ),
            ),
            None => None,
        }
    } else {
        let last: Option<u64> = if end.len() > 0 {
            numeral(end, 10)
        } else {
            Some(end_of_file)
        };
        match (numeral(start, 10), last) {
            (Some(a), Some(b)) => Some((a, b)),
            _ => None,
        }
    }
}

/// The first and the last byte that a `Range` header asks for, if it asks for some that are there.
pub open spec fn byte_range(header: Seq<char>, total_size: u64) -> Option<(u64, u64)> {
    if !begins(header, "bytes="@) {
        None
    } else {
        let parts = pieces(header.skip(6), '-');
        if parts.len() != 2 {
            None
        } else {
            match range_bounds(trimmed(parts[0]), trimmed(parts[1]), total_size) {
                Some((a, b)) => if a <= b < total_size {
                    Some((a, b))
                } else {
                    None
                },
                None => None,
            }
        }
    }
}

fn bounds_of(start: &str, end: &str, total_size: u64) -> (r: Option<(u64, u64)>)
    ensures
        r == range_bounds(start@, end@, total_size),
{
    let end_of_file: u64 = if total_size == 0 {
        0
    } else {
        total_size - 1
    };
    if start.is_empty() {
        return match parse_number(end, 10) {
            Ok(n) => Some(
                (
                    if n >= total_size {
                        0
                    } else {
                        total_size - n
                    },
                    end_of_file,
                ),
            ),
            Err(_) => None,
        };
    }
    let last: Option<u64> = if !end.is_empty() {
        parse_number(end, 10).ok()
    } else {
        Some(end_of_file)
    };
    match (parse_number(start, 10).ok(), last) {
        (Some(a), Some(b)) => Some((a, b)),
        _ => None,
    }
}

/// The first and the last byte that a `Range` header asks for.
pub fn parse_range_header(range_str: &str, total_size: u64) -> (r: Option<(u64, u64)>)
    ensures
        r == byte_range(range_str@, total_size),
        r matches Some((start, end)) ==> start <= end < total_size,
{
    if !starts_with(range_str, "bytes=") {
        return None;
    }
    proof {
        reveal_strlit("bytes=");
        assert(range_str@.subrange(6, range_str@.len() as int) =~= range_str@.skip(6));
    }
    let value = tail(range_str, 6);
    let parts: Vec<String> = split(value.as_str(), '-');
    if parts.len() != 2 {
        return None;
    }
    assert(parts.deep_view()[0] == parts@[0]@);
    assert(parts.deep_view()[1] == parts@[1]@);
    let start = trim(parts[0].as_str());
    let end = trim(parts[1].as_str());
    match bounds_of(start.as_str(), end.as_str(), total_size) {
        Some((a, b)) => if a > b || b >= total_size {
            None
        } else {
            Some((a, b))
        },
        None => None,
    }
}

/// What of a file is served.
#[derive(Clone, Debug, PartialEq, Eq)]
pub struct Serving {
    pub start: u64,
    pub length: u64,
    /// The `Content-Range` header, where it is a part.
    pub content_range: Option<String>,
}

/// `Serving` as a mathematical value.
pub struct ServingView {
    pub start: u64,
    pub length: u64,
    pub content_range: Option<Seq<char>>,
}

impl DeepView for Serving {
    type V = ServingView;

    open spec fn deep_view(&self) -> ServingView {
        ServingView {
            start: self.start,
            length: self.length,
            content_range: self.content_range.deep_view(),
        }
    }
}

/// The `Content-Range` header for a part of a file.
pub open spec fn content_range(start: u64, end: u64, total_size: u64) -> Seq<char> {
    "bytes "@ + decimal(start as nat) + "-"@ + decimal(end as nat) + "/"@ + decimal(
        total_size as nat,
    )
}

/// What of a file is served: the part that the header asks for, or all of it where there is no
/// header, or none that asks for bytes that are there.
pub open spec fn serving(header: Option<Seq<char>>, total_size: u64) -> ServingView {
    let range = match header {
        Some(h) => byte_range(h, total_size),
        None => None,
    };
    match range {
        Some((start, end)) => ServingView {
            start,
            length: (end - start + 1) as u64,
            content_range: Some(content_range(start, end, total_size)),
        },
        None => ServingView { start: 0, length: total_size, content_range: None },
    }
}

/// Decides what of a file is served. `range_header` is none where there is no header, or where it
/// is no text.
pub fn plan_serving(range_header: Option<&str>, total_size: u64) -> (r: Serving)
    ensures
        r.deep_view() == serving(
            match range_header {
                Some(h) => Some(h@),
                None => None,
            },
            total_size,
        ),
{
    let range: Option<(u64, u64)> = match range_header {
        Some(h) => parse_range_header(h, total_size),
        None => None,
    };
    match range {
        Some((start, end)) => {
            let mut text = "bytes ".to_owned();
            text.append(decimal_of(start).as_str());
            text.append("-");
            text.append(decimal_of(end).as_str());
            text.append("/");
            text.append(decimal_of(total_size).as_str());
            Serving { start, length: end - start + 1, content_range: Some(text) }
        },
        None => Serving { start: 0, length: total_size, content_range: None },
    }
}

/// What is served of a file lies within it, and only a part has a `Content-Range`. Of a file that
/// is not empty at least one byte is served.
pub proof fn served_bytes_are_there(header: Option<Seq<char>>, total_size: u64)
    ensures
        ({
            let s = serving(header, total_size);
            &&& s.start + s.length <= total_size
            &&& s.content_range is None ==> s.start == 0 && s.length == total_size
            &&& total_size > 0 ==> s.length > 0
        }),
{
}

/// How many bytes to read next of a whole file, of which so many remain.
pub fn next_read(remaining: u64) -> (r: u64)
    ensures
        r == (if remaining < READ_SIZE {
            remaining
        } else {
            READ_SIZE
        }),
{
    if remaining < READ_SIZE {
        remaining
    } else {
        READ_SIZE
    }
}

// ---------------------------------------------------------------------------------------------
// The head of the answer
// ---------------------------------------------------------------------------------------------

/// The head of an answer that streams a file.
#[derive(Clone, Debug, PartialEq, Eq)]
pub struct StreamHead {
    pub status: u16,
    pub headers: Vec<(String, String)>,
}

/// A list of headers as a mathematical value.
pub open spec fn headers_view(headers: Seq<(String, String)>) -> Seq<(Seq<char>, Seq<char>)> {
    headers.map_values(|h: (String, String)| (h.0@, h.1@))
}

/// The status of an answer that streams a file, or a part of one.
pub open spec fn stream_status(is_part: bool) -> u16 {
    if is_part {
        206
    } else {
        200
    }
}

/// How the length of an answer is declared: by its number where it is known, else in chunks where
/// the answer is whole.
pub open spec fn length_headers(length: Option<u64>, is_part: bool) -> Seq<(Seq<char>, Seq<char>)> {
    match length {
        Some(n) => seq![("content-length"@, decimal(n as nat))],
        None => if is_part {
            Seq::empty()
        } else {
            seq![("transfer-encoding"@, "chunked"@)]
        },
    }
}

/// The headers of an answer that streams a file.
pub open spec fn stream_headers(
    content_type: Seq<char>,
    length: Option<u64>,
    range: Option<Seq<char>>,
) -> Seq<(Seq<char>, Seq<char>)> {
    seq![
        ("content-type"@, content_type),
        ("accept-ranges"@, "bytes"@),
        ("content-encoding"@, "identity"@),
    ] + length_headers(length, range is Some) + (match range {
        Some(r) => seq![("content-range"@, r)],
        None => Seq::empty(),
    })
}

fn add_header(headers: &mut Vec<(String, String)>, name: &str, value: String)
    ensures
        headers_view(final(headers)@) == headers_view(old(headers)@).push((name@, value@)),
{
    headers.push((name.to_owned(), value));
    assert(headers_view(headers@) =~= headers_view(old(headers)@).push((name@, value@)));
}

/// The head of an answer that streams a file, or a part of one.
pub fn create_streaming_response(
    content_type: &str,
    content_length: Option<u64>,
    content_range: Option<String>,
) -> (r: StreamHead)
    ensures
        r.status == stream_status(content_range is Some),
        headers_view(r.headers@) == stream_headers(
            content_type@,
            content_length,
            content_range.deep_view(),
        ),
{
    let is_part = content_range.is_some();
    let ghost range = content_range.deep_view();
    let mut headers: Vec<(String, String)> = Vec::new();
    assert(headers_view(headers@) =~= Seq::empty());
    add_header(&mut headers, "content-type", content_type.to_owned());
    add_header(&mut headers, "accept-ranges", "bytes".to_owned());
    add_header(&mut headers, "content-encoding", "identity".to_owned());
    match content_length {
        Some(n) => {
            add_header(&mut headers, "content-length", decimal_of(n));
        },
        None => {
            if !is_part {
                add_header(&mut headers, "transfer-encoding", "chunked".to_owned());
            }
        },
    }
    match content_range {
        Some(r) => {
            add_header(&mut headers, "content-range", r);
        },
        None => {},
    }
    assert(headers_view(headers@) =~= stream_headers(content_type@, content_length, range));
    StreamHead { status: if is_part { 206 } else { 200 }, headers }
}

proof fn range_is_read(first: Seq<char>, last: Seq<char>, total_size: u64)
    requires
        !first.contains('-'),
        !last.contains('-'),
    ensures
        byte_range("bytes="@ + first + seq!['-'] + last, total_size) == (match range_bounds(
            trimmed(first),
            trimmed(last),
            total_size,
        ) {
            Some((a, b)) => if a <= b < total_size {
                Some((a, b))
            } else {
                None
            },
            None => None,
        }),
{
    reveal_strlit("bytes=");
    let header = "bytes="@ + first + seq!['-'] + last;
    assert(header.subrange(0, 6) =~= "bytes="@);
    assert(header.skip(6) =~= first + seq!['-'] + last);
    pieces_of_two(first, '-', last);
    pieces_of_two(last, '-', Seq::empty());
}

/// A range that names its first and its last byte is exactly that, if both are there; one that names
/// only its first goes to the end; one that names only a number is that many bytes at the end, or the
/// whole file where it has no more.
pub proof fn ranges_are_what_they_name(a: u64, b: u64, total_size: u64)
    ensures
        byte_range(
            "bytes="@ + decimal(a as nat) + seq!['-'] + decimal(b as nat),
            total_size,
        ) == (if a <= b && b < total_size {
            Some((a, b))
        } else {
            None
        }),
        a < total_size ==> byte_range(
            "bytes="@ + decimal(a as nat) + seq!['-'] + Seq::empty(),
            total_size,
        ) == Some((a, (total_size - 1) as u64)),
        0 < a <= total_size ==> byte_range(
            "bytes="@ + Seq::empty() + seq!['-'] + decimal(a as nat),
            total_size,
        ) == Some(((total_size - a) as u64, (total_size - 1) as u64)),
        a > total_size > 0 ==> byte_range(
            "bytes="@ + Seq::empty() + seq!['-'] + decimal(a as nat),
            total_size,
        ) == Some((0u64, (total_size - 1) as u64)),
{
    decimals_are_plain(a as nat, '-');
    decimals_are_plain(b as nat, '-');
    decimals_are_read_back(a as nat);
    decimals_are_read_back(b as nat);
    let none = Seq::<char>::empty();
    trimmed_text_stays(none);
    range_is_read(decimal(a as nat), decimal(b as nat), total_size);
    range_is_read(decimal(a as nat), none, total_size);
    range_is_read(none, decimal(a as nat), total_size);
}

/// A header that does not begin with the unit of bytes asks for nothing.
pub proof fn only_bytes_are_asked_for(header: Seq<char>, total_size: u64)
    requires
        !(exists|t: Seq<char>| header == #[trigger] ("bytes="@ + t)),
    ensures
        byte_range(header, total_size) is None,
{
    parts_make_up_the_text(header, "bytes="@);
}

/// A header without exactly one hyphen asks for nothing.
pub proof fn one_range_is_asked_for(header: Seq<char>, total_size: u64)
    requires
        tally(header, '-') != 1,
    ensures
        byte_range(header, total_size) is None,
{
    if begins(header, "bytes="@) {
        reveal_strlit("bytes=");
        let head = header.subrange(0, 6);
        let rest = header.skip(6);
        pieces_lie_between_separators(rest, '-');
        assert(head == "bytes="@);
        tally_of_two(head, rest, '-');
        assert(head + rest =~= header);
        assert(!head.contains('-'));
        counted_is_held(head, '-');
    }
}

/// A part is served from its first byte on, as many as it has, and says which of how many; without one
/// the whole file is served.
pub proof fn part_is_served(header: Seq<char>, total_size: u64)
    ensures
        byte_range(header, total_size) matches Some((a, b)) ==> {
            let s = serving(Some(header), total_size);
            &&& s.start == a
            &&& s.start + s.length == b + 1
            &&& s.content_range == Some(
                "bytes "@ + decimal(a as nat) + "-"@ + decimal(b as nat) + "/"@ + decimal(
                    total_size as nat,
                ),
            )
        },
        byte_range(header, total_size) is None ==> serving(Some(header), total_size) == serving(
            None,
            total_size,
        ),
        serving(None, total_size) == (ServingView {
            start: 0,
            length: total_size,
            content_range: None,
        }),
{
}

/// The head of an answer says what it carries: its type, that ranges are served and nothing is encoded,
/// its length where that is known, and which part it is where it is one.
pub proof fn head_says_what_is_carried(
    content_type: Seq<char>,
    length: Option<u64>,
    range: Option<Seq<char>>,
)
    ensures
        ({
            let h = stream_headers(content_type, length, range);
            &&& h.contains(("content-type"@, content_type))
            &&& h.contains(("accept-ranges"@, "bytes"@))
            &&& h.contains(("content-encoding"@, "identity"@))
            &&& length matches Some(n) ==> h.contains(("content-length"@, decimal(n as nat)))
            &&& range matches Some(r) ==> h.contains(("content-range"@, r))
            &&& length is None && range is None ==> h.contains(("transfer-encoding"@, "chunked"@))
            &&& h.len() == 3 + (if length is Some || range is None {
                1nat
            } else {
                0
            }) + (if range is Some {
                1nat
            } else {
                0
            })
        }),
        stream_status(range is Some) == (if range is Some {
            206u16
        } else {
            200u16
        }),
{
    let h = stream_headers(content_type, length, range);
    assert(h[0] == ("content-type"@, content_type));
    assert(h[1] == ("accept-ranges"@, "bytes"@));
    assert(h[2] == ("content-encoding"@, "identity"@));
    if let Some(n) = length {
        assert(h[3] == ("content-length"@, decimal(n as nat)));
    } else if range is None {
        assert(h[3] == ("transfer-encoding"@, "chunked"@));
    }
    if let Some(r) = range {
        assert(h[h.len() - 1] == ("content-range"@, r));
    }
}

} // verus!
