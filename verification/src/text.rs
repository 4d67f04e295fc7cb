//! Text as sequences of characters: what the string operations of this library mean, and the
//! operations themselves.

use vstd::prelude::*;
use vstd::slice::slice_subrange;

verus! {

/// `String::push` appends one character.
pub assume_specification[ String::push ](s: &mut String, c: char)
    ensures
        final(s)@ == old(s)@.push(c),
;

// ---------------------------------------------------------------------------------------------
// Meanings
// ---------------------------------------------------------------------------------------------

/// `p` stands in `s` at position `i`.
pub open spec fn stands_at(s: Seq<char>, p: Seq<char>, i: int) -> bool {
    0 <= i && i + p.len() <= s.len() && s.subrange(i, i + p.len()) == p
}

/// `s` begins with `p`.
pub open spec fn begins(s: Seq<char>, p: Seq<char>) -> bool {
    stands_at(s, p, 0)
}

/// `s` ends with `p`.
pub open spec fn ends(s: Seq<char>, p: Seq<char>) -> bool {
    stands_at(s, p, s.len() - p.len())
}

/// `p` stands somewhere in `s`.
pub open spec fn holds(s: Seq<char>, p: Seq<char>) -> bool {
    exists|i: int| stands_at(s, p, i)
}

/// The first position, not before `from`, at which `p` stands in `s`.
pub open spec fn position_from(s: Seq<char>, p: Seq<char>, from: int) -> Option<int>
    decreases s.len() + 1 - from,
{
    if from < 0 || from + p.len() > s.len() {
        None
    } else if stands_at(s, p, from) {
        Some(from)
    } else {
        position_from(s, p, from + 1)
    }
}

/// The first position at which `p` stands in `s`.
pub open spec fn position(s: Seq<char>, p: Seq<char>) -> Option<int> {
    position_from(s, p, 0)
}

/// The text before the first `c`, and the text behind it.
pub open spec fn cut(s: Seq<char>, c: char) -> Option<(Seq<char>, Seq<char>)> {
    match position(s, seq![c]) {
        Some(i) => Some((s.subrange(0, i), s.subrange(i + 1, s.len() as int))),
        None => None,
    }
}

/// What stands before and behind the first `p`.
pub open spec fn parted(s: Seq<char>, p: Seq<char>) -> Option<(Seq<char>, Seq<char>)> {
    match position(s, p) {
        Some(i) => Some((s.subrange(0, i), s.subrange(i + p.len(), s.len() as int))),
        None => None,
    }
}

/// The pieces of `s` between the occurrences of `c`: always at least one.
pub open spec fn pieces(s: Seq<char>, c: char) -> Seq<Seq<char>>
    decreases s.len(),
{
    if s.len() == 0 {
        seq![s]
    } else {
        let rest = pieces(s.drop_last(), c);
        if s.last() == c {
            rest.push(Seq::empty())
        } else {
            rest.update(rest.len() - 1, rest.last().push(s.last()))
        }
    }
}

/// `s` with every occurrence of `from`, taken from the left without overlap, replaced by `to`.
pub open spec fn replaced(s: Seq<char>, from: Seq<char>, to: Seq<char>) -> Seq<char>
    decreases s.len(),
{
    if from.len() == 0 || s.len() < from.len() {
        s
    } else if begins(s, from) {
        to + replaced(s.subrange(from.len() as int, s.len() as int), from, to)
    } else {
        seq![s[0]] + replaced(s.drop_first(), from, to)
    }
}

/// `s` with every `a` replaced by `b`.
pub open spec fn swapped(s: Seq<char>, a: char, b: char) -> Seq<char> {
    Seq::new(s.len(), |i: int| if s[i] == a { b } else { s[i] })
}

/// `s` without any `c`.
pub open spec fn without(s: Seq<char>, c: char) -> Seq<char> {
    s.filter(|x: char| x != c)
}

/// How many characters of `s` are `c`.
pub open spec fn tally(s: Seq<char>, c: char) -> nat
    decreases s.len(),
{
    if s.len() == 0 {
        0
    } else {
        tally(s.drop_last(), c) + if s.last() == c { 1nat } else { 0nat }
    }
}

/// The Unicode property White_Space.
pub open spec fn blank(c: char) -> bool {
    let n = c as u32;
    ||| 0x09 <= n <= 0x0D
    ||| n == 0x20
    ||| n == 0x85
    ||| n == 0xA0
    ||| n == 0x1680
    ||| 0x2000 <= n <= 0x200A
    ||| n == 0x2028
    ||| n == 0x2029
    ||| n == 0x202F
    ||| n == 0x205F
    ||| n == 0x3000
}

/// `s` without its leading white space.
pub open spec fn trimmed_start(s: Seq<char>) -> Seq<char>
    decreases s.len(),
{
    if s.len() > 0 && blank(s[0]) {
        trimmed_start(s.drop_first())
    } else {
        s
    }
}

/// `s` without its trailing white space.
pub open spec fn trimmed_end(s: Seq<char>) -> Seq<char>
    decreases s.len(),
{
    if s.len() > 0 && blank(s.last()) {
        trimmed_end(s.drop_last())
    } else {
        s
    }
}

/// `s` without white space at either end.
pub open spec fn trimmed(s: Seq<char>) -> Seq<char> {
    trimmed_end(trimmed_start(s))
}

/// `s` without any `c` at its start.
pub open spec fn stripped_start(s: Seq<char>, c: char) -> Seq<char>
    decreases s.len(),
{
    if s.len() > 0 && s[0] == c {
        stripped_start(s.drop_first(), c)
    } else {
        s
    }
}

/// `s` without any `c` at its end.
pub open spec fn stripped_end(s: Seq<char>, c: char) -> Seq<char>
    decreases s.len(),
{
    if s.len() > 0 && s.last() == c {
        stripped_end(s.drop_last(), c)
    } else {
        s
    }
}

/// `s` without any `c` at either end.
pub open spec fn stripped(s: Seq<char>, c: char) -> Seq<char> {
    stripped_end(stripped_start(s, c), c)
}

/// `s` with the prefix `p` taken away as often as it stands there.
pub open spec fn peeled(s: Seq<char>, p: Seq<char>) -> Seq<char>
    decreases s.len(),
{
    if p.len() > 0 && begins(s, p) {
        peeled(s.subrange(p.len() as int, s.len() as int), p)
    } else {
        s
    }
}

/// A line without the carriage return that ended it together with a line feed.
pub open spec fn without_return(s: Seq<char>) -> Seq<char> {
    if s.len() > 0 && s.last() == '\r' {
        s.drop_last()
    } else {
        s
    }
}

/// The lines of `s`: ended by a line feed, or by a carriage return and a line feed; the last
/// line needs no end.
pub open spec fn lines(s: Seq<char>) -> Seq<Seq<char>>
    decreases s.len(),
{
    if s.len() == 0 {
        Seq::empty()
    } else {
        match position(s, seq!['\n']) {
            Some(i) if 0 <= i < s.len() => seq![without_return(s.subrange(0, i))] + lines(
                s.subrange(i + 1, s.len() as int),
            ),
            _ => seq![s],
        }
    }
}

/// The words of `s`: its longest runs without white space.
pub open spec fn words(s: Seq<char>) -> Seq<Seq<char>>
    decreases s.len(),
{
    if s.len() == 0 {
        Seq::empty()
    } else {
        let rest = words(s.drop_last());
        if blank(s.last()) {
            rest
        } else if s.len() == 1 || blank(s[s.len() - 2]) {
            rest.push(seq![s.last()])
        } else {
            rest.update(rest.len() - 1, rest.last().push(s.last()))
        }
    }
}

/// `parts` one after the other with `sep` between them.
pub open spec fn joined(parts: Seq<Seq<char>>, sep: Seq<char>) -> Seq<char>
    decreases parts.len(),
{
    if parts.len() == 0 {
        Seq::empty()
    } else if parts.len() == 1 {
        parts[0]
    } else {
        joined(parts.drop_last(), sep) + sep + parts.last()
    }
}

/// The value of a digit in a base up to sixteen.
pub open spec fn digit(c: char, base: nat) -> Option<nat> {
    let v: int = if '0' <= c <= '9' {
        c as u32 - '0' as u32
    } else if 'a' <= c <= 'f' {
        c as u32 - 'a' as u32 + 10
    } else if 'A' <= c <= 'F' {
        c as u32 - 'A' as u32 + 10
    } else {
        16
    };
    if v < base {
        Some(v as nat)
    } else {
        None
    }
}

/// All characters are digits in the base.
pub open spec fn all_digits(s: Seq<char>, base: nat) -> bool {
    forall|i: int| 0 <= i < s.len() ==> (#[trigger] digit(s[i], base)) is Some
}

/// The number that a sequence of digits stands for.
pub open spec fn digits_value(s: Seq<char>, base: nat) -> nat
    decreases s.len(),
{
    if s.len() == 0 {
        0
    } else {
        digits_value(s.drop_last(), base) * base + digit(s.last(), base).unwrap_or(0)
    }
}

/// A numeral without its optional plus sign.
pub open spec fn unsigned_body(s: Seq<char>) -> Seq<char> {
    if s.len() > 1 && s[0] == '+' {
        s.drop_first()
    } else {
        s
    }
}

/// `s` is a numeral: digits, at least one, behind an optional plus sign.
pub open spec fn is_numeral(s: Seq<char>, base: nat) -> bool {
    unsigned_body(s).len() > 0 && all_digits(unsigned_body(s), base)
}

/// The number that `s` stands for, if it is a numeral below two to the power of sixty-four.
pub open spec fn numeral(s: Seq<char>, base: nat) -> Option<u64> {
    let v = digits_value(unsigned_body(s), base);
    if is_numeral(s, base) && v <= u64::MAX {
        Some(v as u64)
    } else {
        None
    }
}

/// The character of a digit below sixteen, letters in lower case.
pub open spec fn digit_char(d: nat) -> char {
    if d < 10 {
        ('0' as u32 + d) as char
    } else {
        ('a' as u32 + d - 10) as char
    }
}

/// The decimal numeral of `n`, without leading zeros.
pub open spec fn decimal(n: nat) -> Seq<char>
    decreases n,
{
    if n < 10 {
        seq![digit_char(n)]
    } else {
        decimal(n / 10).push(digit_char(n % 10))
    }
}

/// The decimal numeral of an integer, with a minus sign where it is negative.
pub open spec fn decimal_int(n: int) -> Seq<char> {
    if n < 0 {
        seq!['-'] + decimal((-n) as nat)
    } else {
        decimal(n as nat)
    }
}

/// A byte as two hexadecimal digits.
pub open spec fn hex2(b: u8) -> Seq<char> {
    seq![digit_char((b / 16) as nat), digit_char((b % 16) as nat)]
}

/// An ASCII capital as its small letter; any other character as it is.
pub open spec fn ascii_small(c: char) -> char {
    if 'A' <= c <= 'Z' {
        (c as u32 + 32) as char
    } else {
        c
    }
}

/// A small ASCII letter as its capital; any other character as it is.
pub open spec fn ascii_capital(c: char) -> char {
    if 'a' <= c <= 'z' {
        (c as u32 - 32) as char
    } else {
        c
    }
}

/// All characters are ASCII.
pub open spec fn all_ascii(s: Seq<char>) -> bool {
    forall|i: int| 0 <= i < s.len() ==> (#[trigger] s[i] as u32) < 128
}

/// How many bytes `s` takes in UTF-8.
pub open spec fn byte_count(s: Seq<char>) -> nat {
    vstd::utf8::encode_utf8(s).len()
}

// ---------------------------------------------------------------------------------------------
// Conversions and comparisons
// ---------------------------------------------------------------------------------------------

/// The characters of a string, in order.
pub(crate) fn chars_of(s: &str) -> (r: Vec<char>)
    ensures
        r@ == s@,
{
    let mut out: Vec<char> = Vec::new();
    for c in it: s.chars()
        invariant
            it.seq() == s@,
            out@ == s@.take(it.index()),
    {
        out.push(c);
        assert(s@.take(it.index() + 1) =~= s@.take(it.index()).push(c));
    }
    assert(s@.take(s@.len() as int) =~= s@);
    out
}

/// The string made of the given characters.
pub(crate) fn string_of(cs: &[char]) -> (r: String)
    ensures
        r@ == cs@,
{
    let mut out = String::new();
    let mut i: usize = 0;
    while i < cs.len()
        invariant
            i <= cs.len(),
            out@ == cs@.take(i as int),
        decreases cs.len() - i,
    {
        out.push(cs[i]);
        assert(cs@.take(i + 1) =~= cs@.take(i as int).push(cs@[i as int]));
        i = i + 1;
    }
    assert(cs@.take(cs@.len() as int) =~= cs@);
    out
}

/// The characters from `from` up to `to`, as a string.
pub(crate) fn slice_of(cs: &Vec<char>, from: usize, to: usize) -> (r: String)
    requires
        from <= to <= cs@.len(),
    ensures
        r@ == cs@.subrange(from as int, to as int),
{
    string_of(slice_subrange(cs.as_slice(), from, to))
}

/// How many bytes `s` takes in UTF-8.
pub(crate) fn byte_len(s: &str) -> (r: usize)
    ensures
        r == byte_count(s@),
{
    s.as_bytes().len()
}

/// Two strings hold the same characters.
pub(crate) fn same(a: &str, b: &str) -> (r: bool)
    ensures
        r == (a@ == b@),
{
    let x: Vec<char> = chars_of(a);
    let y: Vec<char> = chars_of(b);
    if x.len() != y.len() {
        return false;
    }
    let r = matches_at(&x, &y, 0);
    assert(a@.subrange(0, b@.len() as int) =~= a@);
    r
}

/// `p` stands in `s` at position `i`.
pub(crate) fn matches_at(s: &Vec<char>, p: &Vec<char>, i: usize) -> (r: bool)
    ensures
        r == stands_at(s@, p@, i as int),
{
    if p.len() > s.len() || i > s.len() - p.len() {
        return false;
    }
    let mut k: usize = 0;
    while k < p.len()
        invariant
            k <= p.len(),
            i + p.len() <= s.len(),
            forall|j: int| 0 <= j < k ==> s@[i + j] == p@[j],
        decreases p.len() - k,
    {
        if s[i + k] != p[k] {
            assert(s@.subrange(i as int, i + p@.len())[k as int] == s@[i + k]);
            return false;
        }
        k = k + 1;
    }
    assert(s@.subrange(i as int, i + p@.len()) =~= p@);
    true
}

/// The first position, not before `from`, at which `p` stands in `s`.
pub(crate) fn index_from(s: &Vec<char>, p: &Vec<char>, from: usize) -> (r: Option<usize>)
    requires
        from <= s.len(),
    ensures
        (match r {
            Some(i) => Some(i as int),
            None => None,
        }) == position_from(s@, p@, from as int),
        r matches Some(i) ==> from <= i && stands_at(s@, p@, i as int),
{
    let mut i: usize = from;
    while p.len() <= s.len() && i <= s.len() - p.len()
        invariant
            from <= i <= s.len() + 1,
            position_from(s@, p@, from as int) == position_from(s@, p@, i as int),
        decreases s.len() + 1 - i,
    {
        if matches_at(s, p, i) {
            return Some(i);
        }
        assert(p@.len() > 0) by {
            if p@.len() == 0 {
                assert(s@.subrange(i as int, i + p@.len()) =~= p@);
            }
        }
        i = i + 1;
    }
    None
}

/// A position that was found is one at which the text stands, and none before it is.
pub proof fn position_is_first(s: Seq<char>, p: Seq<char>, from: int)
    requires
        0 <= from,
    ensures
        position_from(s, p, from) matches Some(i) ==> from <= i && stands_at(s, p, i)
            && forall|j: int| from <= j < i ==> !stands_at(s, p, j),
        position_from(s, p, from) is None ==> forall|j: int| from <= j ==> !stands_at(s, p, j),
    decreases s.len() + 1 - from,
{
    if from + p.len() > s.len() || stands_at(s, p, from) {
    } else {
        position_is_first(s, p, from + 1);
    }
}

/// `s` begins with `p`.
pub(crate) fn starts_with(s: &str, p: &str) -> (r: bool)
    ensures
        r == begins(s@, p@),
{
    matches_at(&chars_of(s), &chars_of(p), 0)
}

/// `s` ends with `p`.
pub(crate) fn ends_with(s: &str, p: &str) -> (r: bool)
    ensures
        r == ends(s@, p@),
{
    let x: Vec<char> = chars_of(s);
    let y: Vec<char> = chars_of(p);
    y.len() <= x.len() && matches_at(&x, &y, x.len() - y.len())
}

/// `p` stands somewhere in `s`.
pub(crate) fn contains(s: &str, p: &str) -> (r: bool)
    ensures
        r == holds(s@, p@),
        r == (position(s@, p@) is Some),
{
    let r = index_from(&chars_of(s), &chars_of(p), 0);
    proof {
        position_is_first(s@, p@, 0);
        if holds(s@, p@) {
            let i = choose|i: int| stands_at(s@, p@, i);
            assert(0 <= i);
        }
    }
    r.is_some()
}

/// The position of the first `p` in `s`, in characters.
pub(crate) fn find(s: &str, p: &str) -> (r: Option<usize>)
    ensures
        (match r {
            Some(i) => Some(i as int),
            None => None,
        }) == position(s@, p@),
        r matches Some(i) ==> stands_at(s@, p@, i as int),
{
    index_from(&chars_of(s), &chars_of(p), 0)
}

/// The text from character `from` up to character `to`.
pub(crate) fn part(s: &str, from: usize, to: usize) -> (r: String)
    requires
        from <= to <= s@.len(),
    ensures
        r@ == s@.subrange(from as int, to as int),
{
    slice_of(&chars_of(s), from, to)
}

/// The text from character `from` on.
pub(crate) fn tail(s: &str, from: usize) -> (r: String)
    requires
        from <= s@.len(),
    ensures
        r@ == s@.subrange(from as int, s@.len() as int),
{
    let cs: Vec<char> = chars_of(s);
    slice_of(&cs, from, cs.len())
}

/// Text is cut where a colon is put between two parts of which the first has none.
pub proof fn cut_at_first(s: Seq<char>, a: Seq<char>, b: Seq<char>)
    requires
        !a.contains(':'),
    ensures
        s == a + ":"@ + b ==> cut(s, ':') == Some((a, b)),
{
    reveal_strlit(":");
    if s == a + ":"@ + b {
        let mark = seq![':'];
        assert(":"@ =~= mark);
        position_is_first(s, mark, 0);
        assert(s.subrange(a.len() as int, a.len() as int + 1) =~= mark);
        assert(stands_at(s, mark, a.len() as int));
        assert forall|j: int| 0 <= j < a.len() implies !stands_at(s, mark, j) by {
            if stands_at(s, mark, j) {
                assert(s.subrange(j, j + 1)[0] == ':');
                assert(a[j] == ':');
            }
        }
        assert(position(s, mark) == Some(a.len() as int));
        assert(s.subrange(0, a.len() as int) =~= a);
        assert(s.subrange(a.len() as int + 1, s.len() as int) =~= b);
    }
}

/// The text before the first `c`, and the text behind it.
pub(crate) fn split_once(s: &str, c: char) -> (r: Option<(String, String)>)
    ensures
        (match r {
            Some(p) => Some((p.0@, p.1@)),
            None => None,
        }) == cut(s@, c),
{
    let cs: Vec<char> = chars_of(s);
    let mark: Vec<char> = vec![c];
    assert(mark@ =~= seq![c]);
    match index_from(&cs, &mark, 0) {
        Some(i) => {
            assert(stands_at(cs@, mark@, i as int));
            Some((slice_of(&cs, 0, i), slice_of(&cs, i + 1, cs.len())))
        },
        None => None,
    }
}


/// What stands before and behind the first `p`.
pub(crate) fn part_at(s: &str, p: &str) -> (r: Option<(String, String)>)
    ensures
        r.deep_view() == parted(s@, p@),
{
    let cs: Vec<char> = chars_of(s);
    let mark: Vec<char> = chars_of(p);
    match index_from(&cs, &mark, 0) {
        Some(i) => {
            assert(stands_at(cs@, mark@, i as int));
            assert(i + mark@.len() <= cs.len());
            Some((slice_of(&cs, 0, i), slice_of(&cs, i + mark.len(), cs.len())))
        },
        None => None,
    }
}

/// The pieces of `s` between the occurrences of `c`.
pub(crate) fn split(s: &str, c: char) -> (r: Vec<String>)
    ensures
        r.deep_view() == pieces(s@, c),
        r@.len() > 0,
{
    let cs: Vec<char> = chars_of(s);
    let mut done: Vec<String> = Vec::new();
    let mut current = String::new();
    let mut i: usize = 0;
    assert(done.deep_view().push(current@) =~= pieces(s@.take(0), c)) by {
        assert(s@.take(0) =~= Seq::<char>::empty());
    }
    while i < cs.len()
        invariant
            i <= cs.len(),
            cs@ == s@,
            done.deep_view().push(current@) == pieces(s@.take(i as int), c),
        decreases cs.len() - i,
    {
        proof {
            assert(s@.take(i + 1).drop_last() =~= s@.take(i as int));
            assert(s@.take(i + 1).last() == cs@[i as int]);
        }
        let ghost before = done.deep_view();
        let ghost open = current@;
        if cs[i] == c {
            done.push(current);
            current = String::new();
            assert(done.deep_view() =~= before.push(open));
            assert(done.deep_view().push(current@) =~= pieces(s@.take(i + 1), c));
        } else {
            current.push(cs[i]);
            assert(done.deep_view().push(current@) =~= pieces(s@.take(i + 1), c));
        }
        i = i + 1;
    }
    assert(s@.take(s@.len() as int) =~= s@);
    let ghost before = done.deep_view();
    let ghost open = current@;
    done.push(current);
    assert(done.deep_view() =~= before.push(open));
    done
}

/// `s` with every occurrence of `from` replaced by `to`.
pub(crate) fn replace(s: &str, from: &str, to: &str) -> (r: String)
    requires
        from@.len() > 0,
    ensures
        r@ == replaced(s@, from@, to@),
{
    let cs: Vec<char> = chars_of(s);
    let pat: Vec<char> = chars_of(from);
    let mut out = String::new();
    let mut i: usize = 0;
    assert(s@.skip(0) =~= s@);
    while i < cs.len()
        invariant
            i <= cs.len(),
            cs@ == s@,
            pat@ == from@,
            from@.len() > 0,
            out@ + replaced(s@.skip(i as int), from@, to@) == replaced(s@, from@, to@),
        decreases cs.len() - i,
    {
        let ghost rest = s@.skip(i as int);
        proof {
            if stands_at(s@, from@, i as int) {
                assert(rest.subrange(0, from@.len() as int) =~= s@.subrange(
                    i as int,
                    i + from@.len(),
                ));
                assert(rest.subrange(from@.len() as int, rest.len() as int) =~= s@.skip(
                    i + from@.len(),
                ));
            } else {
                if begins(rest, from@) {
                    assert(rest.subrange(0, from@.len() as int) =~= s@.subrange(
                        i as int,
                        i + from@.len(),
                    ));
                }
                assert(rest.drop_first() =~= s@.skip(i + 1));
            }
        }
        if matches_at(&cs, &pat, i) {
            let ghost before = out@;
            out.append(to);
            i = i + pat.len();
            assert(out@ + replaced(s@.skip(i as int), from@, to@) =~= before + replaced(
                rest,
                from@,
                to@,
            ));
        } else {
            let ghost before = out@;
            out.push(cs[i]);
            proof {
                if rest.len() < from@.len() {
                    assert(replaced(rest, from@, to@) == rest);
                    assert(replaced(rest.drop_first(), from@, to@) == rest.drop_first());
                }
                assert(replaced(rest, from@, to@) =~= seq![rest[0]] + replaced(
                    rest.drop_first(),
                    from@,
                    to@,
                ));
            }
            i = i + 1;
            assert(out@ + replaced(s@.skip(i as int), from@, to@) =~= before + replaced(
                rest,
                from@,
                to@,
            ));
        }
    }
    assert(s@.skip(s@.len() as int) =~= Seq::<char>::empty());
    assert(out@ + Seq::<char>::empty() =~= out@);
    out
}

/// `s` with every `a` replaced by `b`.
pub(crate) fn swap_char(s: &str, a: char, b: char) -> (r: String)
    ensures
        r@ == swapped(s@, a, b),
{
    let cs: Vec<char> = chars_of(s);
    let mut out = String::new();
    let mut i: usize = 0;
    while i < cs.len()
        invariant
            i <= cs.len(),
            cs@ == s@,
            out@ == swapped(s@, a, b).take(i as int),
        decreases cs.len() - i,
    {
        out.push(if cs[i] == a { b } else { cs[i] });
        i = i + 1;
        assert(out@ =~= swapped(s@, a, b).take(i as int));
    }
    assert(swapped(s@, a, b).take(s@.len() as int) =~= swapped(s@, a, b));
    out
}

/// `s` without any `c`.
pub(crate) fn remove_char(s: &str, c: char) -> (r: String)
    ensures
        r@ == without(s@, c),
{
    let cs: Vec<char> = chars_of(s);
    let mut out = String::new();
    let mut i: usize = 0;
    proof {
        reveal(Seq::filter);
    }
    assert(out@ =~= without(s@.take(0), c));
    while i < cs.len()
        invariant
            i <= cs.len(),
            cs@ == s@,
            out@ == without(s@.take(i as int), c),
        decreases cs.len() - i,
    {
        proof {
            reveal(Seq::filter);
            assert(s@.take(i + 1).drop_last() =~= s@.take(i as int));
            assert(s@.take(i + 1).last() == cs@[i as int]);
        }
        if cs[i] != c {
            out.push(cs[i]);
        }
        i = i + 1;
    }
    assert(s@.take(s@.len() as int) =~= s@);
    out
}

/// How many characters of `s` are `c`.
pub(crate) fn count(s: &str, c: char) -> (r: usize)
    ensures
        r == tally(s@, c),
        r <= s@.len(),
{
    let cs: Vec<char> = chars_of(s);
    let mut n: usize = 0;
    let mut i: usize = 0;
    assert(s@.take(0) =~= Seq::<char>::empty());
    while i < cs.len()
        invariant
            n <= i <= cs.len(),
            cs@ == s@,
            n == tally(s@.take(i as int), c),
        decreases cs.len() - i,
    {
        assert(s@.take(i + 1).drop_last() =~= s@.take(i as int));
        assert(s@.take(i + 1).last() == cs@[i as int]);
        if cs[i] == c {
            n = n + 1;
        }
        i = i + 1;
    }
    assert(s@.take(s@.len() as int) =~= s@);
    n
}

/// The Unicode property White_Space.
pub(crate) fn is_blank(c: char) -> (r: bool)
    ensures
        r == blank(c),
{
    let n: u32 = c as u32;
    (0x09 <= n && n <= 0x0D) || n == 0x20 || n == 0x85 || n == 0xA0 || n == 0x1680 || (0x2000 <= n
        && n <= 0x200A) || n == 0x2028 || n == 0x2029 || n == 0x202F || n == 0x205F || n == 0x3000
}

/// `s` without white space at either end.
pub(crate) fn trim(s: &str) -> (r: String)
    ensures
        r@ == trimmed(s@),
{
    let cs: Vec<char> = chars_of(s);
    let mut a: usize = 0;
    assert(s@.skip(0) =~= s@);
    while a < cs.len() && is_blank(cs[a])
        invariant
            a <= cs.len(),
            cs@ == s@,
            trimmed_start(s@.skip(a as int)) == trimmed_start(s@),
        decreases cs.len() - a,
    {
        assert(s@.skip(a as int).drop_first() =~= s@.skip(a + 1));
        a = a + 1;
    }
    let ghost left = s@.skip(a as int);
    assert(trimmed_start(s@) == left);
    let mut b: usize = cs.len();
    assert(s@.subrange(a as int, b as int) =~= left);
    while a < b && is_blank(cs[b - 1])
        invariant
            a <= b <= cs.len(),
            cs@ == s@,
            trimmed_end(s@.subrange(a as int, b as int)) == trimmed_end(left),
        decreases b,
    {
        assert(s@.subrange(a as int, b as int).drop_last() =~= s@.subrange(a as int, b - 1));
        b = b - 1;
    }
    slice_of(&cs, a, b)
}

/// `s` without any `c` at either end.
pub(crate) fn trim_char(s: &str, c: char) -> (r: String)
    ensures
        r@ == stripped(s@, c),
{
    let cs: Vec<char> = chars_of(s);
    let mut a: usize = 0;
    assert(s@.skip(0) =~= s@);
    while a < cs.len() && cs[a] == c
        invariant
            a <= cs.len(),
            cs@ == s@,
            stripped_start(s@.skip(a as int), c) == stripped_start(s@, c),
        decreases cs.len() - a,
    {
        assert(s@.skip(a as int).drop_first() =~= s@.skip(a + 1));
        a = a + 1;
    }
    let ghost left = s@.skip(a as int);
    assert(stripped_start(s@, c) == left);
    let mut b: usize = cs.len();
    assert(s@.subrange(a as int, b as int) =~= left);
    while a < b && cs[b - 1] == c
        invariant
            a <= b <= cs.len(),
            cs@ == s@,
            stripped_end(s@.subrange(a as int, b as int), c) == stripped_end(left, c),
        decreases b,
    {
        assert(s@.subrange(a as int, b as int).drop_last() =~= s@.subrange(a as int, b - 1));
        b = b - 1;
    }
    slice_of(&cs, a, b)
}

/// `s` with the prefix `p` taken away as often as it stands there.
pub(crate) fn trim_prefix(s: &str, p: &str) -> (r: String)
    ensures
        r@ == peeled(s@, p@),
{
    let cs: Vec<char> = chars_of(s);
    let pat: Vec<char> = chars_of(p);
    if pat.len() == 0 {
        return s.to_owned();
    }
    let mut a: usize = 0;
    assert(s@.skip(0) =~= s@);
    while matches_at(&cs, &pat, a)
        invariant
            a <= cs.len(),
            cs@ == s@,
            pat@ == p@,
            p@.len() > 0,
            peeled(s@.skip(a as int), p@) == peeled(s@, p@),
        decreases cs.len() - a,
    {
        let ghost rest = s@.skip(a as int);
        assert(rest.subrange(0, p@.len() as int) =~= s@.subrange(a as int, a + p@.len()));
        assert(rest.subrange(p@.len() as int, rest.len() as int) =~= s@.skip(a + p@.len()));
        a = a + pat.len();
    }
    proof {
        let rest = s@.skip(a as int);
        if begins(rest, p@) {
            assert(rest.subrange(0, p@.len() as int) =~= s@.subrange(a as int, a + p@.len()));
        }
        assert(s@.subrange(a as int, s@.len() as int) =~= rest);
    }
    slice_of(&cs, a, cs.len())
}

/// The lines of `s`.
pub(crate) fn split_lines(s: &str) -> (r: Vec<String>)
    ensures
        r.deep_view() == lines(s@),
{
    let cs: Vec<char> = chars_of(s);
    let mark: Vec<char> = vec!['\n'];
    assert(mark@ =~= seq!['\n']);
    let mut done: Vec<String> = Vec::new();
    let mut a: usize = 0;
    assert(s@.skip(0) =~= s@);
    assert(done.deep_view() + lines(s@) =~= lines(s@));
    while a < cs.len()
        invariant
            a <= cs.len(),
            cs@ == s@,
            mark@ == seq!['\n'],
            done.deep_view() + lines(s@.skip(a as int)) == lines(s@),
        decreases cs.len() - a,
    {
        let ghost rest = s@.skip(a as int);
        let ghost before = done.deep_view();
        proof {
            position_in_tail(s@, mark@, a as int);
        }
        match index_from(&cs, &mark, a) {
            Some(i) => {
                let b: usize = if i > a && cs[i - 1] == '\r' {
                    i - 1
                } else {
                    i
                };
                proof {
                    assert(rest.subrange(0, i - a) =~= s@.subrange(a as int, i as int));
                    assert(without_return(rest.subrange(0, i - a)) =~= s@.subrange(
                        a as int,
                        b as int,
                    ));
                    assert(rest.subrange(i - a + 1, rest.len() as int) =~= s@.skip(i + 1));
                }
                done.push(slice_of(&cs, a, b));
                a = i + 1;
                assert(done.deep_view() + lines(s@.skip(a as int)) =~= before + lines(rest));
            },
            None => {
                assert(s@.subrange(a as int, s@.len() as int) =~= rest);
                done.push(slice_of(&cs, a, cs.len()));
                a = cs.len();
                assert(s@.skip(a as int) =~= Seq::<char>::empty());
                assert(done.deep_view() + lines(s@.skip(a as int)) =~= before + lines(rest));
            },
        }
    }
    assert(s@.skip(a as int) =~= Seq::<char>::empty());
    assert(done.deep_view() + Seq::<Seq<char>>::empty() =~= done.deep_view());
    done
}

/// A search from a position on is a search in the tail that begins there.
proof fn position_in_tail(s: Seq<char>, p: Seq<char>, a: int)
    requires
        0 <= a <= s.len(),
    ensures
        position_from(s, p, a) == (match position(s.skip(a), p) {
            Some(i) => Some(a + i),
            None => None,
        }),
{
    position_in_tail_from(s, p, a, 0);
}

proof fn position_in_tail_from(s: Seq<char>, p: Seq<char>, a: int, i: int)
    requires
        0 <= a <= s.len(),
        0 <= i,
    ensures
        position_from(s, p, a + i) == (match position_from(s.skip(a), p, i) {
            Some(k) => Some(a + k),
            None => None,
        }),
    decreases s.len() + 1 - a - i,
{
    let t = s.skip(a);
    if i + p.len() <= t.len() {
        assert(t.subrange(i, i + p.len()) =~= s.subrange(a + i, a + i + p.len()));
        if !stands_at(t, p, i) {
            position_in_tail_from(s, p, a, i + 1);
        }
    }
}

/// The words of `s`.
pub(crate) fn split_words(s: &str) -> (r: Vec<String>)
    ensures
        r.deep_view() == words(s@),
{
    let cs: Vec<char> = chars_of(s);
    let mut done: Vec<String> = Vec::new();
    let mut current = String::new();
    let mut i: usize = 0;
    assert(s@.take(0) =~= Seq::<char>::empty());
    assert(done.deep_view() =~= Seq::<Seq<char>>::empty());
    while i < cs.len()
        invariant
            i <= cs.len(),
            cs@ == s@,
            current@.len() > 0 <==> (i > 0 && !blank(s@[i - 1])),
            current@.len() == 0 ==> done.deep_view() == words(s@.take(i as int)),
            current@.len() > 0 ==> done.deep_view().push(current@) == words(s@.take(i as int)),
        decreases cs.len() - i,
    {
        let ghost upto = s@.take(i + 1);
        proof {
            assert(upto.drop_last() =~= s@.take(i as int));
            assert(upto.last() == cs@[i as int]);
            if i > 0 {
                assert(upto[upto.len() - 2] == s@[i - 1]);
            }
        }
        let ghost before = done.deep_view();
        let ghost open = current@;
        if is_blank(cs[i]) {
            if !current.as_str().is_empty() {
                done.push(current);
                assert(done.deep_view() =~= before.push(open));
                current = String::new();
            }
        } else {
            current.push(cs[i]);
            proof {
                if open.len() == 0 {
                    assert(current@ =~= seq![upto.last()]);
                } else {
                    assert(words(upto.drop_last()).last() == open);
                }
            }
            assert(done.deep_view().push(current@) =~= words(upto));
        }
        i = i + 1;
    }
    assert(s@.take(s@.len() as int) =~= s@);
    let ghost before = done.deep_view();
    let ghost open = current@;
    if !current.as_str().is_empty() {
        done.push(current);
        assert(done.deep_view() =~= before.push(open));
    }
    done
}

/// `parts` one after the other with `sep` between them.
pub(crate) fn join(parts: &Vec<String>, sep: &str) -> (r: String)
    ensures
        r@ == joined(parts.deep_view(), sep@),
{
    let mut out = String::new();
    let mut i: usize = 0;
    while i < parts.len()
        invariant
            i <= parts.len(),
            out@ == joined(parts.deep_view().take(i as int), sep@),
        decreases parts.len() - i,
    {
        proof {
            assert(parts.deep_view().take(i + 1).drop_last() =~= parts.deep_view().take(i as int));
            assert(parts.deep_view().take(i + 1).last() == parts@[i as int]@);
        }
        if i > 0 {
            out.append(sep);
        }
        out.append(parts[i].as_str());
        i = i + 1;
        proof {
            if i == 1 {
                assert(out@ =~= parts@[0]@);
            }
        }
    }
    assert(parts.deep_view().take(parts@.len() as int) =~= parts.deep_view());
    out
}

// ---------------------------------------------------------------------------------------------
// Numbers
// ---------------------------------------------------------------------------------------------

/// The value of a digit in a base up to sixteen.
fn digit_of(c: char, base: u64) -> (r: Option<u64>)
    requires
        2 <= base <= 16,
    ensures
        (match r {
            Some(v) => Some(v as nat),
            None => None,
        }) == digit(c, base as nat),
        r matches Some(v) ==> v < base,
{
    let v: u64 = if '0' <= c && c <= '9' {
        (c as u32 - '0' as u32) as u64
    } else if 'a' <= c && c <= 'f' {
        (c as u32 - 'a' as u32 + 10) as u64
    } else if 'A' <= c && c <= 'F' {
        (c as u32 - 'A' as u32 + 10) as u64
    } else {
        16
    };
    if v < base {
        Some(v)
    } else {
        None
    }
}

/// More digits never make a smaller number.
pub proof fn digits_value_grows(s: Seq<char>, base: nat, k: int)
    requires
        0 <= k <= s.len(),
        base >= 1,
    ensures
        digits_value(s.take(k), base) <= digits_value(s, base),
    decreases s.len() - k,
{
    if k < s.len() {
        digits_value_grows(s, base, k + 1);
        let longer = s.take(k + 1);
        assert(longer.drop_last() =~= s.take(k));
        let v = digits_value(s.take(k), base);
        assert(v <= v * base) by (nonlinear_arith)
            requires
                base >= 1,
        ;
    } else {
        assert(s.take(k) =~= s);
    }
}

/// Why a text is not a number.
#[derive(Clone, Copy, Debug, PartialEq, Eq, Structural)]
pub enum NumberError {
    /// There is no digit at all.
    Empty,
    /// A character is no digit of the base.
    InvalidDigit,
    /// The number does not fit into sixty-four bits.
    TooLarge,
}

/// How reading digits ends, from place `i` on, with `v` read so far: with the number, or with the
/// first thing that stands in the way.
pub open spec fn reading(s: Seq<char>, base: nat, i: int, v: nat) -> Result<u64, NumberError>
    decreases s.len() - i,
{
    if i < 0 || i >= s.len() {
        Ok(v as u64)
    } else {
        match digit(s[i], base) {
            None => Err(NumberError::InvalidDigit),
            Some(d) => if v * base + d > u64::MAX {
                Err(NumberError::TooLarge)
            } else {
                reading(s, base, i + 1, v * base + d)
            },
        }
    }
}

/// How reading a number from `s` ends.
pub open spec fn number_result(s: Seq<char>, base: nat) -> Result<u64, NumberError> {
    if s.len() == 0 {
        Err(NumberError::Empty)
    } else {
        reading(unsigned_body(s), base, 0, 0)
    }
}

/// Reads an unsigned number in the given base.
pub(crate) fn parse_number(s: &str, base: u64) -> (r: Result<u64, NumberError>)
    requires
        2 <= base <= 16,
    ensures
        r == number_result(s@, base as nat),
        r.ok() == numeral(s@, base as nat),
{
    let cs: Vec<char> = chars_of(s);
    if cs.len() == 0 {
        return Err(NumberError::Empty);
    }
    let from: usize = if cs.len() > 1 && cs[0] == '+' {
        1
    } else {
        0
    };
    let ghost body = unsigned_body(s@);
    assert(body =~= s@.skip(from as int));
    let mut v: u64 = 0;
    let mut i: usize = from;
    assert(body.take(0) =~= Seq::<char>::empty());
    while i < cs.len()
        invariant
            from <= i <= cs.len(),
            cs@ == s@,
            cs.len() > 0,
            body == s@.skip(from as int),
            body == unsigned_body(s@),
            2 <= base <= 16,
            all_digits(body.take(i - from), base as nat),
            v == digits_value(body.take(i - from), base as nat),
            number_result(s@, base as nat) == reading(body, base as nat, i - from, v as nat),
        decreases cs.len() - i,
    {
        let ghost longer = body.take(i + 1 - from);
        proof {
            assert(longer.drop_last() =~= body.take(i - from));
            assert(longer.last() == body[i - from]);
            assert(body[i - from] == cs@[i as int]);
            digits_value_grows(body, base as nat, i + 1 - from);
        }
        match digit_of(cs[i], base) {
            Some(d) => {
                assert(digits_value(longer, base as nat) == v * base + d);
                match v.checked_mul(base) {
                    Some(m) => match m.checked_add(d) {
                        Some(w) => {
                            v = w;
                        },
                        None => {
                            return Err(NumberError::TooLarge);
                        },
                    },
                    None => {
                        return Err(NumberError::TooLarge);
                    },
                }
                assert forall|j: int| 0 <= j < longer.len() implies (#[trigger] digit(
                    longer[j],
                    base as nat,
                )) is Some by {
                    if j < i - from {
                        assert(body.take(i - from)[j] == body[j]);
                    }
                }
            },
            None => {
                return Err(NumberError::InvalidDigit);
            },
        }
        i = i + 1;
    }
    assert(body.take(body.len() as int) =~= body);
    Ok(v)
}

/// The integer that `s` stands for: a decimal numeral, with a minus sign before it where it
/// is negative, that fits into thirty-two bits.
pub open spec fn integer32(s: Seq<char>) -> Option<i32> {
    if s.len() > 1 && s[0] == '-' {
        let body = s.drop_first();
        if all_digits(body, 10) && digits_value(body, 10) <= 0x8000_0000 {
            Some((-(digits_value(body, 10) as int)) as i32)
        } else {
            None
        }
    } else {
        match numeral(s, 10) {
            Some(n) if n <= i32::MAX => Some(n as i32),
            _ => None,
        }
    }
}

/// Reads an integer of thirty-two bits.
pub(crate) fn parse_i32(s: &str) -> (r: Option<i32>)
    ensures
        r == integer32(s@),
{
    let cs: Vec<char> = chars_of(s);
    if cs.len() > 1 && cs[0] == '-' {
        let body = slice_of(&cs, 1, cs.len());
        assert(body@ =~= s@.drop_first());
        if cs[1] == '+' {
            assert(digit(body@[0], 10) is None);
            return None;
        }
        assert(unsigned_body(body@) == body@);
        match parse_number(body.as_str(), 10) {
            Ok(n) => {
                if n > 0x8000_0000 {
                    None
                } else {
                    Some((-(n as i64)) as i32)
                }
            },
            Err(_) => None,
        }
    } else {
        match parse_number(s, 10) {
            Ok(n) => {
                if n <= 0x7FFF_FFFF {
                    Some(n as i32)
                } else {
                    None
                }
            },
            Err(_) => None,
        }
    }
}

/// The character of a digit below sixteen.
fn char_of_digit(d: u8) -> (r: char)
    requires
        d < 16,
    ensures
        r == digit_char(d as nat),
{
    if d < 10 {
        (48u8 + d) as char
    } else {
        (97u8 + (d - 10)) as char
    }
}

/// Appends the decimal numeral of `n`.
pub(crate) fn push_decimal(out: &mut String, n: u64)
    ensures
        final(out)@ == old(out)@ + decimal(n as nat),
    decreases n,
{
    if n >= 10 {
        push_decimal(out, n / 10);
    }
    let ghost before = out@;
    out.push(char_of_digit((n % 10) as u8));
    assert(out@ =~= old(out)@ + decimal(n as nat));
}

/// The decimal numeral of `n`.
pub(crate) fn decimal_of(n: u64) -> (r: String)
    ensures
        r@ == decimal(n as nat),
{
    let mut out = String::new();
    push_decimal(&mut out, n);
    assert(out@ =~= decimal(n as nat));
    out
}

/// The decimal numeral of an integer, with a minus sign where it is negative.
pub(crate) fn decimal_of_int(n: i64) -> (r: String)
    ensures
        r@ == decimal_int(n as int),
{
    let mut out = String::new();
    if n < 0 {
        out.push('-');
        let m: u64 = if n == i64::MIN {
            0x8000_0000_0000_0000
        } else {
            (-n) as u64
        };
        push_decimal(&mut out, m);
        assert(out@ =~= decimal_int(n as int));
    } else {
        push_decimal(&mut out, n as u64);
        assert(out@ =~= decimal_int(n as int));
    }
    out
}

/// Appends a byte as two hexadecimal digits.
pub(crate) fn push_hex2(out: &mut String, b: u8)
    ensures
        final(out)@ == old(out)@ + hex2(b),
{
    out.push(char_of_digit(b / 16));
    out.push(char_of_digit(b % 16));
    assert(out@ =~= old(out)@ + hex2(b));
}

// ---------------------------------------------------------------------------------------------
// Letters
// ---------------------------------------------------------------------------------------------

/// What `str::to_lowercase` makes of text that is not all ASCII.
pub uninterp spec fn unicode_lowercase(s: Seq<char>) -> Seq<char>;

/// The text in small letters.
pub open spec fn lowercase(s: Seq<char>) -> Seq<char> {
    if all_ascii(s) {
        Seq::new(s.len(), |i: int| ascii_small(s[i]))
    } else {
        unicode_lowercase(s)
    }
}

/// `str::to_lowercase` maps each character to its small form by the Unicode tables. Of text
/// that is all ASCII it changes the letters A to Z and nothing else.
#[verifier::external_body]
pub(crate) fn to_lowercase(s: &str) -> (r: String)
    ensures
        all_ascii(s@) ==> r@ == lowercase(s@),
        !all_ascii(s@) ==> r@ == unicode_lowercase(s@),
{
    s.to_lowercase()
}

/// What `char::to_uppercase` yields for a character that is not ASCII.
pub uninterp spec fn unicode_uppercase(c: char) -> Seq<char>;

/// The character as a capital.
pub open spec fn uppercase_of(c: char) -> Seq<char> {
    if (c as u32) < 128 {
        seq![ascii_capital(c)]
    } else {
        unicode_uppercase(c)
    }
}

/// `char::to_uppercase` yields the capital form of a character, which can be several
/// characters. An ASCII character has one: of a to z the capital letter, of any other itself.
#[verifier::external_body]
pub(crate) fn to_uppercase(c: char) -> (r: String)
    ensures
        (c as u32) < 128 ==> r@ == seq![ascii_capital(c)],
        (c as u32) >= 128 ==> r@ == unicode_uppercase(c),
{
    c.to_uppercase().to_string()
}

/// Text that is all ASCII keeps its length in small letters, and stays as it is where it had no
/// capitals.
pub proof fn lowercase_of_ascii(s: Seq<char>)
    requires
        all_ascii(s),
    ensures
        lowercase(s).len() == s.len(),
        (forall|i: int| 0 <= i < s.len() ==> !('A' <= #[trigger] s[i] <= 'Z')) ==> lowercase(s)
            == s,
{
    if forall|i: int| 0 <= i < s.len() ==> !('A' <= #[trigger] s[i] <= 'Z') {
        assert(lowercase(s) =~= s);
    }
}

// ---------------------------------------------------------------------------------------------
// What the notions of text amount to
// ---------------------------------------------------------------------------------------------

/// Replacing a character by another one changes the places where it stands, and no other.
pub proof fn swapped_is_char_by_char(s: Seq<char>, a: char, b: char)
    ensures
        swapped(s, a, b).len() == s.len(),
        forall|i: int|
            0 <= i < s.len() ==> #[trigger] swapped(s, a, b)[i] == (if s[i] == a {
                b
            } else {
                s[i]
            }),
{
}

/// `p` stands in `s`, with something before it and something behind it.
pub open spec fn is_part(p: Seq<char>, s: Seq<char>) -> bool {
    exists|a: Seq<char>, b: Seq<char>| s == #[trigger] (a + p + b)
}

/// What ends one text and what begins another, with a text between the two, stand together in all of
/// them.
pub proof fn ends_meet(
    a: Seq<char>,
    x: Seq<char>,
    end: Seq<char>,
    between: Seq<char>,
    start: Seq<char>,
    y: Seq<char>,
    b: Seq<char>,
)
    ensures
        is_part(end + between + start, a + (x + end) + between + (start + y) + b),
{
    assert(a + (x + end) + between + (start + y) + b =~= (a + x) + (end + between + start) + (y
        + b));
}

/// A part of a part of a text is a part of the text.
pub proof fn is_part_of_part(p: Seq<char>, q: Seq<char>, s: Seq<char>)
    requires
        is_part(p, q),
        is_part(q, s),
    ensures
        is_part(p, s),
{
    let (a, b) = choose|a: Seq<char>, b: Seq<char>| q == #[trigger] (a + p + b);
    let (c, d) = choose|c: Seq<char>, d: Seq<char>| s == #[trigger] (c + q + d);
    assert(s =~= (c + a) + p + (b + d));
}

/// There is one piece more than there are separators, and the pieces hold none of them.
pub proof fn pieces_lie_between_separators(s: Seq<char>, c: char)
    ensures
        pieces(s, c).len() == tally(s, c) + 1,
        forall|i: int, j: int|
            0 <= i < pieces(s, c).len() && 0 <= j < pieces(s, c)[i].len()
                ==> #[trigger] pieces(s, c)[i][j] != c,
    decreases s.len(),
{
    if s.len() > 0 {
        pieces_lie_between_separators(s.drop_last(), c);
        let rest = pieces(s.drop_last(), c);
        let all = pieces(s, c);
        assert forall|i: int, j: int| 0 <= i < all.len() && 0 <= j < all[i].len() implies
            #[trigger] all[i][j] != c by {
            if s.last() == c {
                if i < rest.len() {
                    assert(rest[i][j] != c);
                }
            } else if i < rest.len() - 1 {
                assert(rest[i][j] != c);
            } else if j < rest.last().len() {
                assert(rest[i][j] != c);
            }
        }
    }
}

/// Putting the pieces together again, with the separator between them, gives the text.
pub proof fn pieces_make_up_the_text(s: Seq<char>, c: char)
    ensures
        joined(pieces(s, c), seq![c]) == s,
    decreases s.len(),
{
    pieces_lie_between_separators(s, c);
    let all = pieces(s, c);
    if s.len() == 0 {
        assert(all[0] =~= s);
    } else {
        let rest = pieces(s.drop_last(), c);
        pieces_lie_between_separators(s.drop_last(), c);
        pieces_make_up_the_text(s.drop_last(), c);
        if s.last() == c {
            assert(all.drop_last() =~= rest);
            assert(joined(all, seq![c]) =~= s);
        } else if rest.len() == 1 {
            assert(rest[0] == s.drop_last());
            assert(all[0] =~= s);
        } else {
            assert(all.drop_last() =~= rest.drop_last());
            assert(all.last() =~= rest.last().push(s.last()));
            assert(joined(all, seq![c]) =~= joined(rest, seq![c]).push(s.last()));
            assert(s =~= s.drop_last().push(s.last()));
        }
    }
}

/// A character that is counted stands somewhere.
pub proof fn counted_is_held(s: Seq<char>, c: char)
    ensures
        tally(s, c) > 0 <==> holds(s, seq![c]),
        tally(s, c) > 0 <==> s.contains(c),
    decreases s.len(),
{
    if s.len() > 0 {
        let front = s.drop_last();
        counted_is_held(front, c);
        if s.last() == c {
            assert(s.subrange(s.len() - 1, s.len() as int) =~= seq![c]);
            assert(stands_at(s, seq![c], s.len() - 1));
            assert(s[s.len() - 1] == c);
        }
        if front.contains(c) {
            let i = front.index_of(c);
            assert(s[i] == c);
            assert(s.subrange(i, i + 1) =~= seq![c]);
            assert(stands_at(s, seq![c], i));
        }
        if holds(s, seq![c]) {
            let i = choose|i: int| stands_at(s, seq![c], i);
            assert(s.subrange(i, i + 1)[0] == s[i]);
            if i < front.len() {
                assert(front[i] == c);
            }
        }
        if s.contains(c) {
            let i = s.index_of(c);
            if i < front.len() {
                assert(front[i] == c);
            }
        }
    }
}

/// A part of a text is a part of a longer one.
pub proof fn part_of_longer(p: Seq<char>, s: Seq<char>, t: Seq<char>)
    requires
        is_part(p, s),
    ensures
        is_part(p, s + t),
{
    let (a, b) = choose|a: Seq<char>, b: Seq<char>| s == #[trigger] (a + p + b);
    assert(s + t =~= a + p + (b + t));
}

proof fn beginning_is_a_head(s: Seq<char>, p: Seq<char>)
    ensures
        begins(s, p) <==> exists|t: Seq<char>| s == #[trigger] (p + t),
{
    if begins(s, p) {
        assert(s =~= p + s.skip(p.len() as int));
    }
    if exists|t: Seq<char>| s == #[trigger] (p + t) {
        let t = choose|t: Seq<char>| s == #[trigger] (p + t);
        assert(s.subrange(0, p.len() as int) =~= p);
    }
}

proof fn end_is_a_tail(s: Seq<char>, p: Seq<char>)
    ensures
        ends(s, p) <==> exists|t: Seq<char>| s == #[trigger] (t + p),
{
    if ends(s, p) {
        assert(s =~= s.take(s.len() - p.len()) + p);
    }
    if exists|t: Seq<char>| s == #[trigger] (t + p) {
        let t = choose|t: Seq<char>| s == #[trigger] (t + p);
        assert(s.subrange(s.len() - p.len(), s.len() as int) =~= p);
    }
}

/// What a text holds is a part of it.
pub proof fn held_is_a_part(s: Seq<char>, p: Seq<char>)
    ensures
        holds(s, p) <==> is_part(p, s),
{
    if holds(s, p) {
        let i = choose|i: int| stands_at(s, p, i);
        assert(s =~= s.take(i) + p + s.skip(i + p.len()));
    }
    if is_part(p, s) {
        let (a, b) = choose|a: Seq<char>, b: Seq<char>| s == #[trigger] (a + p + b);
        assert(s.subrange(a.len() as int, (a.len() + p.len()) as int) =~= p);
        assert(stands_at(s, p, a.len() as int));
    }
}

/// What begins, ends or holds a text is what it can be taken apart into.
pub proof fn parts_make_up_the_text(s: Seq<char>, p: Seq<char>)
    ensures
        begins(s, p) <==> exists|t: Seq<char>| s == #[trigger] (p + t),
        ends(s, p) <==> exists|t: Seq<char>| s == #[trigger] (t + p),
        holds(s, p) <==> is_part(p, s),
{
    beginning_is_a_head(s, p);
    end_is_a_tail(s, p);
    held_is_a_part(s, p);
}

/// Text is cut at the first of a character, and not at all where it has none.
pub proof fn cut_is_at_the_first(a: Seq<char>, c: char, b: Seq<char>)
    requires
        !a.contains(c),
    ensures
        cut(a + seq![c] + b, c) == Some((a, b)),
        cut(a, c) is None,
{
    let mark = seq![c];
    let s = a + mark + b;
    position_is_first(s, mark, 0);
    position_is_first(a, mark, 0);
    assert(s.subrange(a.len() as int, a.len() as int + 1) =~= mark);
    assert(stands_at(s, mark, a.len() as int));
    assert forall|j: int| 0 <= j < a.len() implies !stands_at(s, mark, j) && !stands_at(
        a,
        mark,
        j,
    ) by {
        assert(a.contains(a[j]));
        if stands_at(s, mark, j) {
            assert(s.subrange(j, j + 1)[0] == c);
            assert(a[j] == c);
        }
        if stands_at(a, mark, j) {
            assert(a.subrange(j, j + 1)[0] == c);
        }
    }
    assert(position(s, mark) == Some(a.len() as int));
    assert(s.subrange(0, a.len() as int) =~= a);
    assert(s.subrange(a.len() as int + 1, s.len() as int) =~= b);
    if let Some(i) = position(a, mark) {
        assert(stands_at(a, mark, i));
    }
}

/// What stands before and behind the first of a text makes up the whole with it, and does not hold it
/// any earlier.
pub proof fn parted_is_at_the_first(s: Seq<char>, p: Seq<char>)
    ensures
        parted(s, p) is Some <==> holds(s, p),
        parted(s, p) matches Some((a, b)) ==> s == a + p + b && forall|i: int|
            0 <= i < a.len() ==> !#[trigger] stands_at(s, p, i),
{
    position_is_first(s, p, 0);
    if let Some(i) = position(s, p) {
        assert(s =~= s.subrange(0, i) + p + s.subrange(i + p.len(), s.len() as int));
    } else if holds(s, p) {
        let j = choose|j: int| stands_at(s, p, j);
        assert(!stands_at(s, p, j));
    }
}

/// The pieces of two texts with a separator between them are those of the one and those of the other.
pub proof fn pieces_of_two(a: Seq<char>, c: char, b: Seq<char>)
    ensures
        pieces(a + seq![c] + b, c) == pieces(a, c) + pieces(b, c),
        !a.contains(c) ==> pieces(a, c) == seq![a],
    decreases b.len(), a.len(),
{
    pieces_lie_between_separators(a, c);
    pieces_lie_between_separators(b, c);
    if b.len() == 0 {
        let s = a + seq![c] + b;
        assert(s.drop_last() =~= a);
        assert(s.last() == c);
        assert(b =~= Seq::empty());
        assert(pieces(s, c) =~= pieces(a, c) + pieces(b, c));
    } else {
        pieces_of_two(a, c, b.drop_last());
        pieces_lie_between_separators(b.drop_last(), c);
        let s = a + seq![c] + b;
        assert(s.drop_last() =~= a + seq![c] + b.drop_last());
        assert(s.last() == b.last());
        assert(pieces(s, c) =~= pieces(a, c) + pieces(b, c));
    }
    if !a.contains(c) {
        if a.len() > 0 {
            assert(a.contains(a[a.len() - 1]));
            assert forall|i: int| 0 <= i < a.drop_last().len() implies a.drop_last()[i] != c by {
                assert(a.contains(a[i]));
            }
            pieces_of_two(a.drop_last(), c, Seq::empty());
            let front = pieces(a.drop_last(), c);
            assert(front == seq![a.drop_last()]);
            assert(front.last().push(a.last()) =~= a);
            assert(pieces(a, c) =~= seq![a]);
        }
    }
}

/// Replacing leaves text alone in which the pattern does not stand, and replaces the first place where
/// it does; what comes behind that is treated in the same way.
pub proof fn replaced_is_at_each_place(
    a: Seq<char>,
    from: Seq<char>,
    to: Seq<char>,
    b: Seq<char>,
)
    requires
        from.len() > 0,
        forall|i: int| 0 <= i < a.len() ==> !#[trigger] stands_at(a + from + b, from, i),
    ensures
        replaced(a + from + b, from, to) == a + to + replaced(b, from, to),
    decreases a.len(),
{
    let s = a + from + b;
    if a.len() == 0 {
        assert(s =~= from + b);
        assert(s.subrange(0, from.len() as int) =~= from);
        assert(s.subrange(from.len() as int, s.len() as int) =~= b);
        assert(a + to + replaced(b, from, to) =~= to + replaced(b, from, to));
    } else {
        assert(!stands_at(s, from, 0));
        let rest = a.drop_first();
        assert(s.drop_first() =~= rest + from + b);
        assert forall|i: int| 0 <= i < rest.len() implies !#[trigger] stands_at(
            rest + from + b,
            from,
            i,
        ) by {
            assert(!stands_at(s, from, i + 1));
            assert((rest + from + b).subrange(i, i + from.len()) =~= s.subrange(
                i + 1,
                i + 1 + from.len(),
            ));
        }
        replaced_is_at_each_place(rest, from, to, b);
        assert(a + to + replaced(b, from, to) =~= seq![a[0]] + (rest + to + replaced(b, from, to)));
    }
}

/// Replacing changes nothing in text in which the pattern does not stand.
pub proof fn nothing_is_replaced(s: Seq<char>, from: Seq<char>, to: Seq<char>)
    requires
        !holds(s, from),
    ensures
        replaced(s, from, to) == s,
    decreases s.len(),
{
    if from.len() > 0 && s.len() >= from.len() {
        assert(!stands_at(s, from, 0));
        let rest = s.drop_first();
        if holds(rest, from) {
            let i = choose|i: int| stands_at(rest, from, i);
            assert(s.subrange(i + 1, i + 1 + from.len()) =~= rest.subrange(i, i + from.len()));
            assert(stands_at(s, from, i + 1));
        }
        nothing_is_replaced(rest, from, to);
        assert(seq![s[0]] + rest =~= s);
    }
}

/// All of the characters are white space.
pub open spec fn all_blank(s: Seq<char>) -> bool {
    forall|i: int| 0 <= i < s.len() ==> blank(#[trigger] s[i])
}

proof fn trimmed_start_leaves_the_rest(s: Seq<char>)
    ensures
        exists|a: Seq<char>| all_blank(a) && s == #[trigger] (a + trimmed_start(s)),
        trimmed_start(s).len() > 0 ==> !blank(trimmed_start(s)[0]),
    decreases s.len(),
{
    if s.len() > 0 && blank(s[0]) {
        trimmed_start_leaves_the_rest(s.drop_first());
        let a = choose|a: Seq<char>|
            all_blank(a) && s.drop_first() == #[trigger] (a + trimmed_start(s.drop_first()));
        let b = seq![s[0]] + a;
        assert(s =~= seq![s[0]] + s.drop_first());
        assert(s =~= b + trimmed_start(s));
        assert(all_blank(b));
    } else {
        assert(s =~= Seq::empty() + trimmed_start(s));
        assert(all_blank(Seq::empty()));
    }
}

proof fn trimmed_end_leaves_the_rest(s: Seq<char>)
    ensures
        exists|b: Seq<char>| all_blank(b) && s == #[trigger] (trimmed_end(s) + b),
        trimmed_end(s).len() > 0 ==> !blank(trimmed_end(s).last()) && s.len() > 0
            && trimmed_end(s)[0] == s[0],
    decreases s.len(),
{
    if s.len() > 0 && blank(s.last()) {
        trimmed_end_leaves_the_rest(s.drop_last());
        let b = choose|b: Seq<char>|
            all_blank(b) && s.drop_last() == #[trigger] (trimmed_end(s.drop_last()) + b);
        let c = b.push(s.last());
        assert(s =~= s.drop_last().push(s.last()));
        assert(s =~= trimmed_end(s) + c);
        assert(all_blank(c));
    } else {
        assert(s =~= trimmed_end(s) + Seq::empty());
        assert(all_blank(Seq::empty()));
    }
}

/// Trimming takes white space away at either end, all of it, and nothing else.
pub proof fn only_white_space_is_trimmed(s: Seq<char>)
    ensures
        exists|a: Seq<char>, b: Seq<char>|
            all_blank(a) && all_blank(b) && s == #[trigger] (a + trimmed(s) + b),
        trimmed(s).len() > 0 ==> !blank(trimmed(s)[0]) && !blank(trimmed(s).last()),
{
    trimmed_start_leaves_the_rest(s);
    let t = trimmed_start(s);
    trimmed_end_leaves_the_rest(t);
    let a = choose|a: Seq<char>| all_blank(a) && s == #[trigger] (a + t);
    let b = choose|b: Seq<char>| all_blank(b) && t == #[trigger] (trimmed_end(t) + b);
    assert(s =~= a + trimmed(s) + b);
}

/// White space among the characters of ASCII is the space, the tabulators, the form feed and the ends
/// of lines.
pub proof fn ascii_white_space(c: char)
    requires
        (c as u32) < 128,
    ensures
        blank(c) <==> c == ' ' || c == '\t' || c == '\n' || c == '\r' || c as u32 == 0x0B || c as u32
            == 0x0C,
{
}

/// All of the characters are the same one.
pub open spec fn all_are(s: Seq<char>, c: char) -> bool {
    forall|i: int| 0 <= i < s.len() ==> #[trigger] s[i] == c
}

proof fn stripped_start_leaves_the_rest(s: Seq<char>, c: char)
    ensures
        exists|a: Seq<char>| all_are(a, c) && s == #[trigger] (a + stripped_start(s, c)),
        stripped_start(s, c).len() > 0 ==> stripped_start(s, c)[0] != c,
    decreases s.len(),
{
    if s.len() > 0 && s[0] == c {
        stripped_start_leaves_the_rest(s.drop_first(), c);
        let a = choose|a: Seq<char>|
            all_are(a, c) && s.drop_first() == #[trigger] (a + stripped_start(s.drop_first(), c));
        let b = seq![c] + a;
        assert(s =~= seq![c] + s.drop_first());
        assert(s =~= b + stripped_start(s, c));
        assert(all_are(b, c));
    } else {
        assert(s =~= Seq::empty() + stripped_start(s, c));
        assert(all_are(Seq::empty(), c));
    }
}

proof fn stripped_end_leaves_the_rest(s: Seq<char>, c: char)
    ensures
        exists|b: Seq<char>| all_are(b, c) && s == #[trigger] (stripped_end(s, c) + b),
        stripped_end(s, c).len() > 0 ==> stripped_end(s, c).last() != c && s.len() > 0
            && stripped_end(s, c)[0] == s[0],
    decreases s.len(),
{
    if s.len() > 0 && s.last() == c {
        stripped_end_leaves_the_rest(s.drop_last(), c);
        let b = choose|b: Seq<char>|
            all_are(b, c) && s.drop_last() == #[trigger] (stripped_end(s.drop_last(), c) + b);
        let d = b.push(c);
        assert(s =~= s.drop_last().push(c));
        assert(s =~= stripped_end(s, c) + d);
        assert(all_are(d, c));
    } else {
        assert(s =~= stripped_end(s, c) + Seq::empty());
        assert(all_are(Seq::empty(), c));
    }
}

/// Stripping takes a character away at either end, as often as it stands there, and nothing else.
pub proof fn only_the_character_is_stripped(s: Seq<char>, c: char)
    ensures
        exists|a: Seq<char>, b: Seq<char>|
            all_are(a, c) && all_are(b, c) && s == #[trigger] (a + stripped(s, c) + b),
        stripped(s, c).len() > 0 ==> stripped(s, c)[0] != c && stripped(s, c).last() != c,
{
    stripped_start_leaves_the_rest(s, c);
    let t = stripped_start(s, c);
    stripped_end_leaves_the_rest(t, c);
    let a = choose|a: Seq<char>| all_are(a, c) && s == #[trigger] (a + t);
    let b = choose|b: Seq<char>| all_are(b, c) && t == #[trigger] (stripped_end(t, c) + b);
    assert(s =~= a + stripped(s, c) + b);
}

/// A prefix is peeled off as often as it stands there, and nothing else is.
pub proof fn only_the_prefix_is_peeled(s: Seq<char>, p: Seq<char>)
    ensures
        p.len() > 0 ==> peeled(p + s, p) == peeled(s, p),
        !begins(s, p) ==> peeled(s, p) == s,
{
    let t = p + s;
    assert(t.subrange(0, p.len() as int) =~= p);
    assert(t.subrange(p.len() as int, t.len() as int) =~= s);
}

/// The lines of a text: a line that is ended stands for itself, without the end, whichever of the two
/// ends it has; a last line needs none.
pub proof fn lines_are_ended(line: Seq<char>, rest: Seq<char>)
    requires
        !line.contains('\n'),
        line.len() > 0 ==> line.last() != '\r',
    ensures
        lines(line + seq!['\n'] + rest) == seq![line] + lines(rest),
        lines(line + seq!['\r', '\n'] + rest) == seq![line] + lines(rest),
        line.len() > 0 ==> lines(line) == seq![line],
        lines(Seq::empty()) == Seq::<Seq<char>>::empty(),
{
    let mark = seq!['\n'];
    cut_is_at_the_first(line, '\n', rest);
    let s = line + mark + rest;
    position_is_first(s, mark, 0);
    position_is_first(line, mark, 0);
    assert(position(s, mark) is Some);
    assert(s.subrange(line.len() as int, line.len() as int + 1) =~= mark);
    assert(stands_at(s, mark, line.len() as int));
    let i = position(s, mark)->0;
    assert(s.subrange(i, i + 1)[0] == '\n');
    if i < line.len() {
        assert(line[i] == '\n');
    }
    assert(s.subrange(0, i) =~= line);
    assert(s.subrange(i + 1, s.len() as int) =~= rest);
    let returned = line.push('\r');
    assert forall|j: int| 0 <= j < returned.len() implies returned[j] != '\n' by {
        if j < line.len() {
            assert(line.contains(line[j]));
        }
    }
    cut_is_at_the_first(returned, '\n', rest);
    let t = returned + mark + rest;
    assert(t =~= line + seq!['\r', '\n'] + rest);
    position_is_first(t, mark, 0);
    assert(t.subrange(returned.len() as int, returned.len() as int + 1) =~= mark);
    assert(stands_at(t, mark, returned.len() as int));
    let k = position(t, mark)->0;
    assert(t.subrange(k, k + 1)[0] == '\n');
    if k < returned.len() {
        assert(returned[k] == '\n');
    }
    assert(t.subrange(0, k) =~= returned);
    assert(returned.drop_last() =~= line);
    assert(t.subrange(k + 1, t.len() as int) =~= rest);
}

proof fn words_of_word(w: Seq<char>)
    requires
        w.len() > 0,
        forall|i: int| 0 <= i < w.len() ==> !blank(#[trigger] w[i]),
    ensures
        words(w) == seq![w],
    decreases w.len(),
{
    if w.len() == 1 {
        assert(w.drop_last() =~= Seq::empty());
        assert(!blank(w[0]));
        assert(w.last() == w[0]);
        assert(seq![w.last()] =~= w);
        assert(words(w.drop_last()) == Seq::<Seq<char>>::empty());
        assert(words(w) == Seq::<Seq<char>>::empty().push(seq![w.last()]));
        assert(words(w) =~= seq![w]);
    } else {
        let front = w.drop_last();
        assert forall|i: int| 0 <= i < front.len() implies !blank(#[trigger] front[i]) by {
            assert(front[i] == w[i]);
        }
        words_of_word(front);
        assert(!blank(w[w.len() - 2]));
        assert(!blank(w[w.len() - 1]));
        assert(front.push(w.last()) =~= w);
        assert(words(w) =~= seq![w]);
    }
}

/// A text that ends in a word has one.
proof fn words_at_the_end(s: Seq<char>)
    ensures
        s.len() > 0 && !blank(s.last()) ==> words(s).len() > 0,
    decreases s.len(),
{
    if s.len() > 1 && !blank(s[s.len() - 2]) && !blank(s.last()) {
        words_at_the_end(s.drop_last());
    }
}

/// The words of two texts with white space between them are those of the one and those of the other,
/// and a text without white space is one word.
pub proof fn words_are_between_white_space(a: Seq<char>, c: char, b: Seq<char>, w: Seq<char>)
    requires
        blank(c),
        w.len() > 0,
        forall|i: int| 0 <= i < w.len() ==> !blank(#[trigger] w[i]),
    ensures
        words(a + seq![c] + b) == words(a) + words(b),
        words(w) == seq![w],
        words(Seq::empty()) == Seq::<Seq<char>>::empty(),
    decreases b.len(),
{
    words_of_word(w);
    let s = a + seq![c] + b;
    if b.len() == 0 {
        assert(s.drop_last() =~= a);
        assert(s.last() == c);
        assert(b =~= Seq::empty());
        assert(words(s) =~= words(a) + words(b));
    } else {
        words_are_between_white_space(a, c, b.drop_last(), w);
        assert(s.drop_last() =~= a + seq![c] + b.drop_last());
        assert(s.last() == b.last());
        if b.len() > 1 {
            assert(s[s.len() - 2] == b[b.len() - 2]);
            words_at_the_end(b.drop_last());
        } else {
            assert(s[s.len() - 2] == c);
            assert(b.drop_last() =~= Seq::empty());
        }
        assert(words(s) =~= words(a) + words(b));
    }
}

/// Taking a character out takes it out wherever it stands, and keeps the order of the others; counting
/// counts each once.
pub proof fn characters_are_taken_one_by_one(s: Seq<char>, x: char, c: char)
    ensures
        without(s.push(x), c) == (if x == c {
            without(s, c)
        } else {
            without(s, c).push(x)
        }),
        without(Seq::empty(), c) == Seq::<char>::empty(),
        tally(s.push(x), c) == tally(s, c) + (if x == c {
            1nat
        } else {
            0nat
        }),
        tally(Seq::empty(), c) == 0,
{
    reveal(Seq::filter);
    assert(s.push(x).drop_last() =~= s);
}

/// A number written in decimal reads as that number, and only digits are written, the first of which
/// is no zero unless it is the only one.
pub proof fn decimals_are_read_back(n: nat)
    ensures
        digits_value(decimal(n), 10) == n,
        all_digits(decimal(n), 10),
        decimal(n).len() > 0,
        '0' <= decimal(n)[0] <= '9',
        n > 0 ==> decimal(n)[0] != '0',
        n <= u64::MAX ==> numeral(decimal(n), 10) == Some(n as u64),
    decreases n,
{
    let d = (n % 10) as u32;
    assert(digit(digit_char(n % 10), 10) == Some(n % 10));
    if n < 10 {
        assert(decimal(n).drop_last() =~= Seq::empty());
        assert(digits_value(Seq::empty(), 10) == 0);
        assert(decimal(n).last() == digit_char(n));
    } else {
        decimals_are_read_back(n / 10);
        let s = decimal(n);
        assert(s.drop_last() =~= decimal(n / 10));
        assert(s.last() == digit_char(n % 10));
        assert forall|i: int| 0 <= i < s.len() implies (#[trigger] digit(s[i], 10)) is Some by {
            if i < s.len() - 1 {
                assert(digit(decimal(n / 10)[i], 10) is Some);
            }
        }
        assert(s[0] == decimal(n / 10)[0]);
    }
}

/// A byte written in hexadecimal reads as that byte.
pub proof fn hexadecimals_are_read_back(b: u8)
    ensures
        hex2(b).len() == 2,
        digits_value(hex2(b), 16) == b,
{
    let s = hex2(b);
    assert(digit(digit_char((b / 16) as nat), 16) == Some((b / 16) as nat));
    assert(digit(digit_char((b % 16) as nat), 16) == Some((b % 16) as nat));
    assert(s.drop_last() =~= seq![digit_char((b / 16) as nat)]);
    assert(s.drop_last().drop_last() =~= Seq::empty());
    assert(digits_value(Seq::empty(), 16) == 0);
    assert(digits_value(s.drop_last(), 16) == b / 16);
}

/// The digits of a number: ten of them stand for themselves, and six letters, small or capital, for
/// those from ten on; a digit is one only below the base.
pub proof fn digits_stand_for_numbers(c: char, base: nat)
    requires
        base <= 16,
    ensures
        '0' <= c <= '9' && c as u32 - 48 < base ==> digit(c, base) == Some((c as u32 - 48) as nat),
        'a' <= c <= 'f' && base == 16 ==> digit(c, base) == Some((c as u32 - 87) as nat),
        'A' <= c <= 'F' && base == 16 ==> digit(c, base) == Some((c as u32 - 55) as nat),
        digit(c, base) matches Some(d) ==> d < base && ('0' <= c <= '9' || 'a' <= c <= 'f' || 'A'
            <= c <= 'F'),
        digit('_', base) is None,
{
}

/// A digit more at the end makes the number so many times larger, and adds the digit.
pub proof fn digits_are_read_from_the_left(s: Seq<char>, c: char, base: nat)
    requires
        digit(c, base) is Some,
    ensures
        digits_value(s.push(c), base) == digits_value(s, base) * base + digit(c, base)->0,
        digits_value(Seq::empty(), base) == 0,
{
    assert(s.push(c).drop_last() =~= s);
}

/// Small letters of text that is all ASCII: capitals become small, and everything else stays.
pub proof fn capitals_become_small(s: Seq<char>)
    requires
        all_ascii(s),
    ensures
        lowercase(s).len() == s.len(),
        all_ascii(lowercase(s)),
        forall|i: int|
            0 <= i < s.len() ==> #[trigger] lowercase(s)[i] as u32 == (if 'A' <= s[i] <= 'Z' {
                s[i] as u32 + 32
            } else {
                s[i] as int
            }),
        lowercase(lowercase(s)) == lowercase(s),
{
    let t = lowercase(s);
    assert forall|i: int| 0 <= i < t.len() implies (#[trigger] t[i] as u32) < 128 by {
        assert((s[i] as u32) < 128);
    }
    assert(lowercase(t) =~= t);
}

/// Text without white space at its ends stays as it is when it is trimmed.
pub proof fn trimmed_text_stays(s: Seq<char>)
    requires
        s.len() > 0 ==> !blank(s[0]) && !blank(s.last()),
    ensures
        trimmed(s) == s,
{
    assert(trimmed_start(s) == s);
}

/// A number written in decimal is made up of digits, so it holds neither white space nor any sign.
pub proof fn decimals_are_plain(n: nat, c: char)
    requires
        !('0' <= c <= '9'),
    ensures
        !decimal(n).contains(c),
        trimmed(decimal(n)) == decimal(n),
        all_ascii(decimal(n)),
{
    decimals_are_read_back(n);
    let s = decimal(n);
    assert forall|i: int| 0 <= i < s.len() implies '0' <= #[trigger] s[i] <= '9' by {
        assert(digit(s[i], 10) is Some);
    }
    if s.contains(c) {
        let i = s.index_of(c);
        assert('0' <= s[i] <= '9');
    }
    assert('0' <= s[s.len() - 1] <= '9');
    trimmed_text_stays(s);
}

/// The characters of two texts are counted together.
pub proof fn tally_of_two(a: Seq<char>, b: Seq<char>, c: char)
    ensures
        tally(a + b, c) == tally(a, c) + tally(b, c),
    decreases b.len(),
{
    if b.len() == 0 {
        assert(a + b =~= a);
    } else {
        tally_of_two(a, b.drop_last(), c);
        assert((a + b).drop_last() =~= a + b.drop_last());
        assert((a + b).last() == b.last());
    }
}

/// Text is parted where a pattern stands for the first time.
pub proof fn parted_here(a: Seq<char>, p: Seq<char>, b: Seq<char>)
    requires
        forall|i: int| 0 <= i < a.len() ==> !#[trigger] stands_at(a + p + b, p, i),
    ensures
        parted(a + p + b, p) == Some((a, b)),
{
    let s = a + p + b;
    position_is_first(s, p, 0);
    assert(s.subrange(a.len() as int, (a.len() + p.len()) as int) =~= p);
    assert(stands_at(s, p, a.len() as int));
    let i = position(s, p)->0;
    assert(i == a.len());
    assert(s.subrange(0, i) =~= a);
    assert(s.subrange(i + p.len(), s.len() as int) =~= b);
}

/// The lines of a text that begins with a line.
pub proof fn first_line_comes_first(line: Seq<char>, rest: Seq<char>)
    requires
        !line.contains('\n'),
        line.len() > 0 ==> line.last() != '\r',
    ensures
        lines(line + seq!['\n'] + rest).len() == lines(rest).len() + 1,
        lines(line + seq!['\n'] + rest)[0] == line,
        forall|i: int|
            0 <= i < lines(rest).len() ==> #[trigger] lines(line + seq!['\n'] + rest)[i + 1]
                == lines(rest)[i],
{
    lines_are_ended(line, rest);
}

/// Two texts that are put together are both part of what comes of it.
pub proof fn stand_together(a: Seq<char>, b: Seq<char>)
    ensures
        is_part(a, a + b),
        is_part(b, a + b),
{
    let none = Seq::<char>::empty();
    assert(a + b =~= none + a + b);
    assert(a + b =~= a + b + none);
}

/// Of a text of white space nothing is left.
pub proof fn blanks_are_trimmed_away(s: Seq<char>)
    ensures
        (forall|i: int| 0 <= i < s.len() ==> #[trigger] blank(s[i])) ==> trimmed(s).len() == 0,
{
    only_white_space_is_trimmed(s);
    if forall|i: int| 0 <= i < s.len() ==> #[trigger] blank(s[i]) {
        if trimmed(s).len() > 0 {
            let (a, b) = choose|a: Seq<char>, b: Seq<char>| #[trigger] (a + trimmed(s) + b) == s;
            assert((a + trimmed(s) + b)[a.len() as int] == trimmed(s)[0]);
            assert(blank(s[a.len() as int]));
        }
    }
}

/// There is no white space around a number.
pub proof fn decimal_is_trimmed(n: nat)
    ensures
        trimmed(decimal(n)) == decimal(n),
{
    digits_are_digits(n);
    let s = decimal(n);
    assert(s.len() > 0);
    assert('0' <= s[0] <= '9');
    assert('0' <= s[s.len() - 1] <= '9');
    ascii_white_space(s[0]);
    ascii_white_space(s.last());
    trimmed_text_stays(s);
}

/// A number is written with at least one digit, and with nothing else.
pub proof fn digits_are_digits(n: nat)
    ensures
        decimal(n).len() > 0,
        forall|i: int| 0 <= i < decimal(n).len() ==> '0' <= #[trigger] decimal(n)[i] <= '9',
    decreases n,
{
    if n >= 10 {
        digits_are_digits(n / 10);
    }
}

} // verus!
