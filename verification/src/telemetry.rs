//! Request identifiers: a fresh random (version 4) UUID for each request,
//! in its hyphenated lowercase form.

use vstd::prelude::*;

verus! {

/// The lowercase hex digit for a number below sixteen.
pub open spec fn hex_digit(d: u128) -> char
    recommends
        d < 16,
{
    if d < 10 {
        (('0' as u32) + d) as char
    } else {
        (('a' as u32) + (d - 10)) as char
    }
}

/// The `k`-th hex digit of a 128-bit value, counted from the most
/// significant one (`k` from 0 to 31).
pub open spec fn nibble(v: u128, k: int) -> u128 {
    (v >> ((124 - 4 * k) as u128)) & 0xf
}

/// The positions of the hyphens in the hyphenated form.
pub open spec fn is_hyphen_position(i: int) -> bool {
    i == 8 || i == 13 || i == 18 || i == 23
}

/// Which hex digit stands at position `i` of the hyphenated form.
pub open spec fn digit_index(i: int) -> int {
    if i < 8 {
        i
    } else if i < 13 {
        i - 1
    } else if i < 18 {
        i - 2
    } else if i < 23 {
        i - 3
    } else {
        i - 4
    }
}

/// The hyphenated form of a UUID given as a 128-bit big-endian value:
/// 32 lowercase hex digits, most significant first, in groups of 8, 4, 4, 4
/// and 12 separated by hyphens.
pub open spec fn hyphenated(v: u128) -> Seq<char> {
    Seq::new(
        36,
        |i: int|
            if is_hyphen_position(i) {
                '-'
            } else {
                hex_digit(nibble(v, digit_index(i)))
            },
    )
}

/// A version 4 (random) UUID of the RFC 4122 variant: the version digit is 4
/// and the two top bits of the variant digit are `10`.
pub open spec fn is_v4(v: u128) -> bool {
    &&& (v >> 76u128) & 0xf == 4
    &&& (v >> 62u128) & 0x3 == 2
}

/// A character that a hyphenated lowercase UUID is made of.
pub open spec fn is_uuid_char(c: char) -> bool {
    c == '-' || ('0' <= c && c <= '9') || ('a' <= c && c <= 'f')
}

/// Calls `uuid::Uuid::new_v4` and takes its value with `Uuid::as_u128`. The
/// value is random; what holds of every outcome, as the crate's source shows
/// (`rng::u128() & 0xFFFFFFFFFFFF4FFFBFFFFFFFFFFFFFFF | 0x40008000000000000000`),
/// is the version and variant bits of a version 4 UUID.
#[verifier::external_body]
fn random_v4_value() -> (v: u128)
    ensures
        is_v4(v),
{
    uuid::Uuid::new_v4().as_u128()
}

/// Calls `Uuid::to_string` on `uuid::Uuid::from_u128(v)`: its `Display`
/// writes the hyphenated lowercase form of the value's big-endian bytes.
#[verifier::external_body]
fn hyphenated_text(v: u128) -> (t: String)
    ensures
        t@ == hyphenated(v),
{
    uuid::Uuid::from_u128(v).to_string()
}

/// The shape of the hyphenated form of a version 4 UUID: 36 characters, all
/// hex digits or hyphens, with `4` at position 14 and one of `8`, `9`, `a`,
/// `b` at position 19.
pub proof fn lemma_v4_text_shape(v: u128)
    requires
        is_v4(v),
    ensures
        hyphenated(v).len() == 36,
        forall|i: int| 0 <= i < 36 ==> is_uuid_char(#[trigger] hyphenated(v)[i]),
        hyphenated(v)[14] == '4',
        hyphenated(v)[19] == '8' || hyphenated(v)[19] == '9' || hyphenated(v)[19] == 'a'
            || hyphenated(v)[19] == 'b',
{
    assert forall|i: int| 0 <= i < 36 implies is_uuid_char(#[trigger] hyphenated(v)[i]) by {
        if !is_hyphen_position(i) {
            let k = digit_index(i);
            let s = (124 - 4 * k) as u128;
            assert((v >> s) & 0xf < 16) by (bit_vector);
        }
    }
    assert(nibble(v, 12) == 4);
    assert(8 <= (v >> 60u128) & 0xf <= 11) by (bit_vector)
        requires
            (v >> 62u128) & 0x3 == 2,
    ;
    assert(8 <= nibble(v, 16) <= 11);
}

/// Where hex digit `k` (0 to 31) stands in the hyphenated form.
pub open spec fn digit_position(k: int) -> int {
    if k < 8 {
        k
    } else if k < 12 {
        k + 1
    } else if k < 16 {
        k + 2
    } else if k < 20 {
        k + 3
    } else {
        k + 4
    }
}

/// A 128-bit value is determined by its 32 hex digits.
proof fn lemma_nibbles_determine_value(v1: u128, v2: u128)
    requires
        forall|k: int| 0 <= k < 32 ==> nibble(v1, k) == nibble(v2, k),
    ensures
        v1 == v2,
{
    assert(nibble(v1, 0) == nibble(v2, 0));
    assert(nibble(v1, 1) == nibble(v2, 1));
    assert(nibble(v1, 2) == nibble(v2, 2));
    assert(nibble(v1, 3) == nibble(v2, 3));
    assert(nibble(v1, 4) == nibble(v2, 4));
    assert(nibble(v1, 5) == nibble(v2, 5));
    assert(nibble(v1, 6) == nibble(v2, 6));
    assert(nibble(v1, 7) == nibble(v2, 7));
    assert(nibble(v1, 8) == nibble(v2, 8));
    assert(nibble(v1, 9) == nibble(v2, 9));
    assert(nibble(v1, 10) == nibble(v2, 10));
    assert(nibble(v1, 11) == nibble(v2, 11));
    assert(nibble(v1, 12) == nibble(v2, 12));
    assert(nibble(v1, 13) == nibble(v2, 13));
    assert(nibble(v1, 14) == nibble(v2, 14));
    assert(nibble(v1, 15) == nibble(v2, 15));
    assert(nibble(v1, 16) == nibble(v2, 16));
    assert(nibble(v1, 17) == nibble(v2, 17));
    assert(nibble(v1, 18) == nibble(v2, 18));
    assert(nibble(v1, 19) == nibble(v2, 19));
    assert(nibble(v1, 20) == nibble(v2, 20));
    assert(nibble(v1, 21) == nibble(v2, 21));
    assert(nibble(v1, 22) == nibble(v2, 22));
    assert(nibble(v1, 23) == nibble(v2, 23));
    assert(nibble(v1, 24) == nibble(v2, 24));
    assert(nibble(v1, 25) == nibble(v2, 25));
    assert(nibble(v1, 26) == nibble(v2, 26));
    assert(nibble(v1, 27) == nibble(v2, 27));
    assert(nibble(v1, 28) == nibble(v2, 28));
    assert(nibble(v1, 29) == nibble(v2, 29));
    assert(nibble(v1, 30) == nibble(v2, 30));
    assert(nibble(v1, 31) == nibble(v2, 31));
    assert(v1 == v2) by (bit_vector)
        requires
            (v1 >> 124u128) & 0xf == (v2 >> 124u128) & 0xf,
            (v1 >> 120u128) & 0xf == (v2 >> 120u128) & 0xf,
            (v1 >> 116u128) & 0xf == (v2 >> 116u128) & 0xf,
            (v1 >> 112u128) & 0xf == (v2 >> 112u128) & 0xf,
            (v1 >> 108u128) & 0xf == (v2 >> 108u128) & 0xf,
            (v1 >> 104u128) & 0xf == (v2 >> 104u128) & 0xf,
            (v1 >> 100u128) & 0xf == (v2 >> 100u128) & 0xf,
            (v1 >> 96u128) & 0xf == (v2 >> 96u128) & 0xf,
            (v1 >> 92u128) & 0xf == (v2 >> 92u128) & 0xf,
            (v1 >> 88u128) & 0xf == (v2 >> 88u128) & 0xf,
            (v1 >> 84u128) & 0xf == (v2 >> 84u128) & 0xf,
            (v1 >> 80u128) & 0xf == (v2 >> 80u128) & 0xf,
            (v1 >> 76u128) & 0xf == (v2 >> 76u128) & 0xf,
            (v1 >> 72u128) & 0xf == (v2 >> 72u128) & 0xf,
            (v1 >> 68u128) & 0xf == (v2 >> 68u128) & 0xf,
            (v1 >> 64u128) & 0xf == (v2 >> 64u128) & 0xf,
            (v1 >> 60u128) & 0xf == (v2 >> 60u128) & 0xf,
            (v1 >> 56u128) & 0xf == (v2 >> 56u128) & 0xf,
            (v1 >> 52u128) & 0xf == (v2 >> 52u128) & 0xf,
            (v1 >> 48u128) & 0xf == (v2 >> 48u128) & 0xf,
            (v1 >> 44u128) & 0xf == (v2 >> 44u128) & 0xf,
            (v1 >> 40u128) & 0xf == (v2 >> 40u128) & 0xf,
            (v1 >> 36u128) & 0xf == (v2 >> 36u128) & 0xf,
            (v1 >> 32u128) & 0xf == (v2 >> 32u128) & 0xf,
            (v1 >> 28u128) & 0xf == (v2 >> 28u128) & 0xf,
            (v1 >> 24u128) & 0xf == (v2 >> 24u128) & 0xf,
            (v1 >> 20u128) & 0xf == (v2 >> 20u128) & 0xf,
            (v1 >> 16u128) & 0xf == (v2 >> 16u128) & 0xf,
            (v1 >> 12u128) & 0xf == (v2 >> 12u128) & 0xf,
            (v1 >> 8u128) & 0xf == (v2 >> 8u128) & 0xf,
            (v1 >> 4u128) & 0xf == (v2 >> 4u128) & 0xf,
            (v1 >> 0u128) & 0xf == (v2 >> 0u128) & 0xf,
    ;
}

/// Different values have different hyphenated forms: two request ids made
/// from different random draws differ.
pub proof fn lemma_hyphenated_injective(v1: u128, v2: u128)
    requires
        v1 != v2,
    ensures
        hyphenated(v1) != hyphenated(v2),
{
    if hyphenated(v1) == hyphenated(v2) {
        assert forall|k: int| 0 <= k < 32 implies nibble(v1, k) == nibble(v2, k) by {
            let i = digit_position(k);
            assert(!is_hyphen_position(i) && digit_index(i) == k);
            assert(hyphenated(v1)[i] == hyphenated(v2)[i]);
            let s = (124 - 4 * k) as u128;
            assert((v1 >> s) & 0xf < 16 && (v2 >> s) & 0xf < 16) by (bit_vector);
            let d1 = nibble(v1, k);
            let d2 = nibble(v2, k);
            assert(hex_digit(d1) as u32 == if d1 < 10 { 48 + d1 } else { 87 + d1 });
            assert(hex_digit(d2) as u32 == if d2 < 10 { 48 + d2 } else { 87 + d2 });
        }
        lemma_nibbles_determine_value(v1, v2);
    }
}

/// Generates a new UUID v4 for each request.
#[derive(Clone, Copy, Debug)]
pub struct MakeRequestUuid;

impl MakeRequestUuid {
    /// A fresh request identifier: the hyphenated lowercase form of a random
    /// version 4 UUID. Every character is a hex digit or a hyphen, so the
    /// identifier is always a valid HTTP header value.
    pub fn make_request_id(&mut self) -> (id: String)
        ensures
            exists|v: u128| is_v4(v) && id@ == hyphenated(v),
            id@.len() == 36,
            forall|i: int| 0 <= i < id@.len() ==> is_uuid_char(#[trigger] id@[i]),
            id@[14] == '4',
    {
        let v = random_v4_value();
        let id = hyphenated_text(v);
        proof {
            lemma_v4_text_shape(v);
        }
        id
    }
}

} // verus!
