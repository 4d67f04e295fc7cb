//! The numbers that identify machines.

use vstd::prelude::*;
use vstd::arithmetic::div_mod::lemma_div_denominator;
use vstd::arithmetic::power::{lemma_pow0, lemma_pow_positive, pow};
use vstd::utf8::encode_utf8;

use crate::text::{blank, digit_char, trimmed, trimmed_end, trimmed_start};

verus! {

/// The digit number `i`, from the left, of the thirty-two hexadecimal digits of a number.
pub open spec fn id_digit(id: u128, i: int) -> char {
    digit_char((id as nat / vstd::arithmetic::power::pow(16, (31 - i) as nat) as nat) % 16)
}

/// A number as identifiers are written: thirty-two hexadecimal digits in groups of eight, four,
/// four, four and twelve, with hyphens between them.
pub open spec fn hyphenated(id: u128) -> Seq<char> {
    Seq::new(
        36,
        |k: int|
            if k == 8 || k == 13 || k == 18 || k == 23 {
                '-'
            } else if k < 8 {
                id_digit(id, k)
            } else if k < 13 {
                id_digit(id, k - 1)
            } else if k < 18 {
                id_digit(id, k - 2)
            } else if k < 23 {
                id_digit(id, k - 3)
            } else {
                id_digit(id, k - 4)
            },
    )
}

/// What `uuid::Uuid::parse_str` reads from a text: the number, if the text writes one.
pub uninterp spec fn uuid_reading(s: Seq<char>) -> Option<u128>;

/// `uuid::Uuid::parse_str`. Among what it reads is the hyphenated form in small letters.
#[verifier::external_body]
pub(crate) fn parse_uuid(s: &str) -> (r: Option<u128>)
    ensures
        r == uuid_reading(s@),
        forall|id: u128| s@ == hyphenated(id) ==> r == Some(id),
{
    uuid::Uuid::parse_str(s).ok().map(|u| u.as_u128())
}

/// What `uuid::Uuid::new_v5` makes of a name in the name space of domain names.
pub uninterp spec fn uuid_v5_dns(name: Seq<u8>) -> u128;

/// `uuid::Uuid::new_v5` in the name space of domain names.
#[verifier::external_body]
pub(crate) fn uuid_for_name(name: &[u8]) -> (r: u128)
    ensures
        r == uuid_v5_dns(name@),
{
    uuid::Uuid::new_v5(&uuid::Uuid::NAMESPACE_DNS, name).as_u128()
}

/// The number of a machine that is recorded for the first time, by its hardware address.
pub fn machine_id_for(mac_address: &str) -> (r: u128)
    ensures
        r == uuid_v5_dns(encode_utf8(mac_address@)),
{
    uuid_for_name(mac_address.as_bytes())
}

/// A hyphenated number has no white space around it.
pub proof fn hyphenated_is_trimmed(id: u128)
    ensures
        trimmed(hyphenated(id)) == hyphenated(id),
{
    let s = hyphenated(id);
    assert(s.len() == 36);
    assert(!blank(s[0])) by {
        assert(s[0] == id_digit(id, 0));
    }
    assert(!blank(s.last())) by {
        assert(s[35] == id_digit(id, 31));
    }
    assert(trimmed_start(s) == s);
    assert(trimmed_end(s) == s);
}

/// The digits of a number are those of its sixteenth, with one more at the end.
pub proof fn digits_are_those_of_the_number(id: u128, i: int)
    requires
        0 <= i < 31,
    ensures
        id_digit(id, 31) == digit_char(id as nat % 16),
        id_digit(id, i) == id_digit((id / 16) as u128, i + 1),
{
    let n = (30 - i) as nat;
    let p = pow(16, n);
    lemma_pow_positive(16, n);
    lemma_pow0(16);
    reveal(pow);
    assert(pow(16, (n + 1) as nat) == 16 * p);
    lemma_div_denominator(id as int, 16, p);
    assert(id as int / 1 == id as int);
}

/// The digits stand in groups, with hyphens between them and every digit once, in order.
pub proof fn digits_stand_in_groups(id: u128)
    ensures
        hyphenated(id).len() == 36,
        hyphenated(id)[8] == '-' && hyphenated(id)[13] == '-' && hyphenated(id)[18] == '-'
            && hyphenated(id)[23] == '-',
        forall|k: int| 0 <= k < 8 ==> #[trigger] hyphenated(id)[k] == id_digit(id, k),
        forall|k: int| 8 < k < 13 ==> #[trigger] hyphenated(id)[k] == id_digit(id, k - 1),
        forall|k: int| 13 < k < 18 ==> #[trigger] hyphenated(id)[k] == id_digit(id, k - 2),
        forall|k: int| 18 < k < 23 ==> #[trigger] hyphenated(id)[k] == id_digit(id, k - 3),
        forall|k: int| 23 < k < 36 ==> #[trigger] hyphenated(id)[k] == id_digit(id, k - 4),
{
}

} // verus!
