//! Memorable names for machines, made from their hardware addresses.

use vstd::prelude::*;

use crate::text::{
    NumberError, ascii_capital, chars_of, number_result, parse_number, remove_char, slice_of,
    to_uppercase, uppercase_of, without,
};
use crate::words::{is_small, is_word, word, word_at, words_are_words, words_differ};

verus! {

/// The part of a hardware address that its maker gave the device: the last three octets.
pub open spec fn device_id(address: u64) -> nat {
    address as nat % 0x100_0000
}

/// A word with a capital at its head.
pub open spec fn capitalized(s: Seq<char>) -> Seq<char> {
    if s.len() == 0 {
        Seq::empty()
    } else {
        uppercase_of(s[0]) + s.drop_first()
    }
}

/// The numbers of the four words for a device: eleven bits each, the last word for the last.
pub open spec fn word_numbers(id: nat) -> (int, int, int, int) {
    (
        id as int / 0x2_0000_0000 % 2048,
        id as int / 0x40_0000 % 2048,
        id as int / 2048 % 2048,
        id as int % 2048,
    )
}

/// The name of the device: its four words, each with a capital at its head.
pub open spec fn device_name(id: nat) -> Seq<char> {
    let n = word_numbers(id);
    capitalized(word(n.0)) + capitalized(word(n.1)) + capitalized(word(n.2)) + capitalized(
        word(n.3),
    )
}

/// The name for a hardware address: that of the device, if the address without its colons is a
/// hexadecimal number.
pub open spec fn mac_name(mac: Seq<char>) -> Result<Seq<char>, NumberError> {
    match number_result(without(mac, ':'), 16) {
        Ok(address) => Ok(device_name(device_id(address))),
        Err(e) => Err(e),
    }
}

/// The name for anything that is given for a hardware address.
pub open spec fn safe_mac_name(mac: Seq<char>) -> Seq<char> {
    match mac_name(mac) {
        Ok(name) => name,
        Err(_) => {
            let clean = without(mac, ':');
            "Machine-"@ + clean.take(if clean.len() < 8 { clean.len() as int } else { 8 })
        },
    }
}

/// A word with a capital at its head.
pub fn capitalize(s: &str) -> (r: String)
    ensures
        r@ == capitalized(s@),
{
    let cs: Vec<char> = chars_of(s);
    if cs.len() == 0 {
        return String::new();
    }
    let mut out = to_uppercase(cs[0]);
    out.append(slice_of(&cs, 1, cs.len()).as_str());
    assert(s@.subrange(1, s@.len() as int) =~= s@.drop_first());
    out
}

/// The memorable name for a hardware address such as `04:7c:16:eb:74:ed`.
///
/// The name is that of the device, so addresses that differ only in the part of the maker, the
/// first three octets, have the same one.
pub fn mac_to_words(mac: &str) -> (r: Result<String, NumberError>)
    ensures
        (match r {
            Ok(name) => Ok(name@),
            Err(e) => Err(e),
        }) == mac_name(mac@),
{
    let clean_mac = remove_char(mac, ':');
    match parse_number(clean_mac.as_str(), 16) {
        Ok(address) => {
            let id: u64 = address % 0x100_0000;
            let first: usize = (id / 0x2_0000_0000 % 2048) as usize;
            let second: usize = (id / 0x40_0000 % 2048) as usize;
            let third: usize = (id / 2048 % 2048) as usize;
            let fourth: usize = (id % 2048) as usize;
            let mut name = capitalize(word_at(first).as_str());
            name.append(capitalize(word_at(second).as_str()).as_str());
            name.append(capitalize(word_at(third).as_str()).as_str());
            name.append(capitalize(word_at(fourth).as_str()).as_str());
            Ok(name)
        },
        Err(e) => Err(e),
    }
}

/// The memorable name for a hardware address, with a substitute for what is none.
pub fn mac_to_words_safe(mac: &str) -> (r: String)
    ensures
        r@ == safe_mac_name(mac@),
{
    match mac_to_words(mac) {
        Ok(name) => name,
        Err(_) => {
            let clean: Vec<char> = chars_of(remove_char(mac, ':').as_str());
            let n: usize = if clean.len() < 8 {
                clean.len()
            } else {
                8
            };
            let mut name = "Machine-".to_owned();
            name.append(slice_of(&clean, 0, n).as_str());
            name
        },
    }
}

// ---------------------------------------------------------------------------------------------
// One name for one device
// ---------------------------------------------------------------------------------------------

/// A word with a capital at its head shows where it begins: no other letter of it is a capital.
proof fn head_is_the_only_capital(s: Seq<char>)
    requires
        is_word(s),
    ensures
        capitalized(s).len() == s.len(),
        !is_small(capitalized(s)[0]),
        forall|i: int| 0 < i < s.len() ==> is_small(#[trigger] capitalized(s)[i]),
        forall|i: int| 0 < i < s.len() ==> #[trigger] capitalized(s)[i] == s[i],
        capitalized(s)[0] == ascii_capital(s[0]),
{
    assert(is_small(s[0]));
    assert(uppercase_of(s[0]) == seq![ascii_capital(s[0])]);
}

/// Different words stay different with a capital at their heads.
proof fn capitalized_words_differ(a: Seq<char>, b: Seq<char>)
    requires
        is_word(a),
        is_word(b),
        capitalized(a) == capitalized(b),
    ensures
        a == b,
{
    head_is_the_only_capital(a);
    head_is_the_only_capital(b);
    assert(is_small(a[0]) && is_small(b[0]));
    assert(a.len() == b.len());
    assert forall|i: int| 0 <= i < a.len() implies a[i] == b[i] by {
        if i > 0 {
            assert(capitalized(a)[i] == a[i]);
            assert(capitalized(b)[i] == b[i]);
        } else {
            assert(capitalized(a)[0] == capitalized(b)[0]);
            assert(ascii_capital(a[0]) as u32 == a[0] as u32 - 32);
            assert(ascii_capital(b[0]) as u32 == b[0] as u32 - 32);
            assert(a[0] as u32 == b[0] as u32);
            assert(a[0] == b[0]);
        }
    }
    assert(a =~= b);
}

/// Two texts that begin with a word each, with a capital at its head and a capital or nothing
/// behind it, begin with the same word if they are equal.
proof fn first_word_shows(a: Seq<char>, x: Seq<char>, b: Seq<char>, y: Seq<char>)
    requires
        is_word(a),
        is_word(b),
        x.len() > 0 ==> !is_small(x[0]),
        y.len() > 0 ==> !is_small(y[0]),
        capitalized(a) + x == capitalized(b) + y,
    ensures
        a == b,
        x == y,
{
    head_is_the_only_capital(a);
    head_is_the_only_capital(b);
    let s = capitalized(a) + x;
    let t = capitalized(b) + y;
    if a.len() < b.len() {
        assert(s.len() == t.len());
        assert(s[a.len() as int] == x[0]);
        assert(t[a.len() as int] == capitalized(b)[a.len() as int]);
        assert(is_small(capitalized(b)[a.len() as int]));
    } else if b.len() < a.len() {
        assert(s.len() == t.len());
        assert(t[b.len() as int] == y[0]);
        assert(s[b.len() as int] == capitalized(a)[b.len() as int]);
        assert(is_small(capitalized(a)[b.len() as int]));
    }
    assert(s.subrange(0, a.len() as int) =~= capitalized(a));
    assert(t.subrange(0, b.len() as int) =~= capitalized(b));
    capitalized_words_differ(a, b);
    assert(s.subrange(a.len() as int, s.len() as int) =~= x);
    assert(t.subrange(b.len() as int, t.len() as int) =~= y);
}

/// Different devices have different names.
proof fn names_tell_devices_apart(a: u64, b: u64)
    requires
        device_name(device_id(a)) == device_name(device_id(b)),
    ensures
        device_id(a) == device_id(b),
{
    let m = word_numbers(device_id(a));
    let n = word_numbers(device_id(b));
    words_are_words(m.0);
    words_are_words(m.1);
    words_are_words(m.2);
    words_are_words(m.3);
    words_are_words(n.0);
    words_are_words(n.1);
    words_are_words(n.2);
    words_are_words(n.3);
    let (a1, a2, a3, a4) = (word(m.0), word(m.1), word(m.2), word(m.3));
    let (b1, b2, b3, b4) = (word(n.0), word(n.1), word(n.2), word(n.3));
    head_is_the_only_capital(a2);
    head_is_the_only_capital(a3);
    head_is_the_only_capital(a4);
    head_is_the_only_capital(b2);
    head_is_the_only_capital(b3);
    head_is_the_only_capital(b4);
    let x4 = Seq::<char>::empty();
    let x3 = capitalized(a4) + x4;
    let y3 = capitalized(b4) + x4;
    let x2 = capitalized(a3) + x3;
    let y2 = capitalized(b3) + y3;
    let x1 = capitalized(a2) + x2;
    let y1 = capitalized(b2) + y2;
    assert(device_name(device_id(a)) =~= capitalized(a1) + x1);
    assert(device_name(device_id(b)) =~= capitalized(b1) + y1);
    first_word_shows(a1, x1, b1, y1);
    first_word_shows(a2, x2, b2, y2);
    first_word_shows(a3, x3, b3, y3);
    first_word_shows(a4, x4, b4, x4);
    words_differ(m.1, n.1);
    words_differ(m.2, n.2);
    words_differ(m.3, n.3);
    let p = device_id(a) as int;
    let q = device_id(b) as int;
    assert(p / 0x40_0000 == p / 2048 / 2048) by (nonlinear_arith);
    assert(q / 0x40_0000 == q / 2048 / 2048) by (nonlinear_arith);
    assert(p / 0x40_0000 % 2048 == p / 0x40_0000);
    assert(q / 0x40_0000 % 2048 == q / 0x40_0000);
}

/// Two hardware addresses have the same name if and only if they are those of the same device,
/// whatever maker they claim.
pub proof fn same_name_for_the_same_device(a: Seq<char>, b: Seq<char>, x: u64, y: u64)
    requires
        number_result(without(a, ':'), 16) == Ok::<u64, NumberError>(x),
        number_result(without(b, ':'), 16) == Ok::<u64, NumberError>(y),
    ensures
        mac_name(a) == mac_name(b) <==> device_id(x) == device_id(y),
{
    if mac_name(a) == mac_name(b) {
        names_tell_devices_apart(x, y);
    }
}

/// The four words spell the number of a device, eleven bits each: the number is read back from them.
pub proof fn words_spell_the_number(id: nat)
    requires
        id < 0x1000_0000_0000,
    ensures
        ({
            let n = word_numbers(id);
            &&& id == ((n.0 * 2048 + n.1) * 2048 + n.2) * 2048 + n.3
            &&& 0 <= n.0 < 2048 && 0 <= n.1 < 2048 && 0 <= n.2 < 2048 && 0 <= n.3 < 2048
        }),
{
}

/// Only the last three octets of an address count.
pub proof fn maker_does_not_count(maker: u64, device: u64)
    requires
        maker < 0x100_0000,
        device < 0x100_0000,
    ensures
        device_id((maker * 0x100_0000 + device) as u64) == device,
{
}

} // verus!
