//! UUIDs, held as their 128-bit value, and their text form.

use vstd::prelude::*;
use vstd::arithmetic::power2::pow2;

verus! {

/// The lower-case hexadecimal digit for `d` in `0..16`.
pub open spec fn hex_digit(d: int) -> char {
    if d < 10 {
        (0x30 + d) as char
    } else {
        (0x61 + d - 10) as char
    }
}

/// The `k`-th hexadecimal digit of `v`, counted from the most significant one
/// (`k` in `0..32`).
pub open spec fn nibble(v: u128, k: int) -> int {
    (v as int / pow2((4 * (31 - k)) as nat) as int) % 16
}

/// Which hexadecimal digit stands at position `p` of the hyphenated form.
pub open spec fn digit_at(p: int) -> int {
    if p < 8 {
        p
    } else if p < 13 {
        p - 1
    } else if p < 18 {
        p - 2
    } else if p < 23 {
        p - 3
    } else {
        p - 4
    }
}

/// The hyphenated lower-case form of a UUID, such as
/// `550e8400-e29b-41d4-a716-446655440000`: 32 hexadecimal digits, most
/// significant first, in groups of 8-4-4-4-12.
pub open spec fn uuid_text(v: u128) -> Seq<char> {
    Seq::new(
        36,
        |p: int|
            if p == 8 || p == 13 || p == 18 || p == 23 {
                '-'
            } else {
                hex_digit(nibble(v, digit_at(p)))
            },
    )
}

/// The value of a hexadecimal digit of either case, or `None` for any other
/// character.
pub open spec fn hex_value(c: char) -> Option<int> {
    let u = c as int;
    if 0x30 <= u <= 0x39 {
        Some(u - 0x30)
    } else if 0x61 <= u <= 0x66 {
        Some(u - 0x61 + 10)
    } else if 0x41 <= u <= 0x46 {
        Some(u - 0x41 + 10)
    } else {
        None
    }
}

/// The number that the hexadecimal digits `d` write, most significant first.
pub open spec fn digits_value(d: Seq<char>) -> int
    decreases d.len(),
{
    if d.len() == 0 {
        0
    } else {
        digits_value(d.drop_last()) * 16 + match hex_value(d.last()) {
            Some(x) => x,
            None => 0,
        }
    }
}

/// 32 hexadecimal digits read as a UUID's value.
pub open spec fn parse_simple(d: Seq<char>) -> Option<u128> {
    if d.len() == 32 && forall|i: int| 0 <= i < 32 ==> (#[trigger] hex_value(d[i])) is Some {
        Some(digits_value(d) as u128)
    } else {
        None
    }
}

/// The 8-4-4-4-12 hyphenated form read as a UUID's value.
pub open spec fn parse_hyphenated(s: Seq<char>) -> Option<u128> {
    if s.len() == 36 && s[8] == '-' && s[13] == '-' && s[18] == '-' && s[23] == '-' {
        parse_simple(
            s.subrange(0, 8) + s.subrange(9, 13) + s.subrange(14, 18) + s.subrange(19, 23)
                + s.subrange(24, 36),
        )
    } else {
        None
    }
}

/// `c` with an ASCII capital letter made small.
pub open spec fn ascii_lower(c: char) -> char {
    if 0x41 <= c as int <= 0x5a {
        (c as int + 0x20) as char
    } else {
        c
    }
}

/// What `uuid::Uuid::parse_str` makes of a text: 32 hexadecimal digits; the
/// hyphenated form; the hyphenated form in braces; or the hyphenated form
/// after `urn:uuid:` in any case. Digits may be of either case. Any other text
/// is refused. (The parser works on the text's bytes; a text with a character
/// outside ASCII is refused either way.)
pub open spec fn uuid_parse(s: Seq<char>) -> Option<u128> {
    if s.len() == 32 {
        parse_simple(s)
    } else if s.len() == 36 {
        parse_hyphenated(s)
    } else if s.len() == 38 && s[0] == '{' && s[37] == '}' {
        parse_hyphenated(s.subrange(1, 37))
    } else if s.len() == 45 && s.subrange(0, 9).map_values(|c: char| ascii_lower(c))
        == "urn:uuid:"@ {
        parse_hyphenated(s.subrange(9, 45))
    } else {
        None
    }
}

/// The 32 hexadecimal digits of `v`, most significant first.
pub open spec fn uuid_digits(v: u128) -> Seq<char> {
    Seq::new(32, |k: int| hex_digit(nibble(v, k)))
}

proof fn lemma_hex_digit_value(x: int)
    requires
        0 <= x < 16,
    ensures
        hex_value(hex_digit(x)) == Some(x),
{
}

/// The first `k` digits of `v` write `v` shifted right by the remaining digits.
proof fn lemma_digits_prefix(v: u128, k: int)
    requires
        0 <= k <= 32,
    ensures
        digits_value(uuid_digits(v).take(k)) == v as int / pow2((4 * (32 - k)) as nat) as int,
    decreases k,
{
    let d = uuid_digits(v);
    if k == 0 {
        assert(d.take(0).len() == 0);
        vstd::arithmetic::power2::lemma2_to64();
        vstd::arithmetic::power2::lemma_pow2_adds(64, 64);
        assert(pow2(128) == pow2(64) * pow2(64));
        assert(v as int / pow2(128) as int == 0) by (nonlinear_arith)
            requires
                pow2(128) == 0x10000000000000000 * 0x10000000000000000,
                0 <= v <= u128::MAX,
        ;
    } else {
        lemma_digits_prefix(v, k - 1);
        let t = d.take(k);
        assert(t.drop_last() =~= d.take(k - 1));
        let a = pow2((4 * (32 - k)) as nat) as int;
        vstd::arithmetic::power2::lemma_pow2_pos((4 * (32 - k)) as nat);
        vstd::arithmetic::power2::lemma2_to64();
        vstd::arithmetic::power2::lemma_pow2_adds((4 * (32 - k)) as nat, 4);
        assert((4 * (32 - k)) as nat + 4 == (4 * (33 - k)) as nat);
        assert(pow2((4 * (33 - k)) as nat) as int == a * 16);
        vstd::arithmetic::div_mod::lemma_div_denominator(v as int, a, 16);
        let x = v as int / a;
        assert(x >= 0) by (nonlinear_arith)
            requires
                v >= 0,
                a > 0,
                x == v as int / a,
        ;
        let nib = nibble(v, k - 1);
        assert(31 - (k - 1) == 32 - k);
        assert(nib == x % 16);
        lemma_hex_digit_value(nib);
        assert(t.last() == hex_digit(nib));
        vstd::arithmetic::div_mod::lemma_fundamental_div_mod(x, 16);
        assert(digits_value(t) == (x / 16) * 16 + x % 16);
    }
}

/// The hyphenated lower-case text of a UUID reads back as its value.
pub proof fn law_uuid_text_reads_back(v: u128)
    ensures
        uuid_parse(uuid_text(v)) == Some(v),
{
    let s = uuid_text(v);
    let d = s.subrange(0, 8) + s.subrange(9, 13) + s.subrange(14, 18) + s.subrange(19, 23)
        + s.subrange(24, 36);
    let u = uuid_digits(v);
    assert forall|k: int| 0 <= k < 32 implies d[k] == u[k] by {
        if k < 8 {
            assert(d[k] == s[k]);
        } else if k < 12 {
            assert(d[k] == s[k + 1]);
        } else if k < 16 {
            assert(d[k] == s[k + 2]);
        } else if k < 20 {
            assert(d[k] == s[k + 3]);
        } else {
            assert(d[k] == s[k + 4]);
        }
    }
    assert(d =~= u);
    assert forall|i: int| 0 <= i < 32 implies (#[trigger] hex_value(d[i])) is Some by {
        vstd::arithmetic::power2::lemma_pow2_pos((4 * (31 - i)) as nat);
        lemma_hex_digit_value(nibble(v, i));
    }
    lemma_digits_prefix(v, 32);
    assert(u.take(32) =~= u);
    vstd::arithmetic::power2::lemma2_to64();
}

/// Calls `uuid::Uuid::parse_str` and takes the value of the UUID it returns:
/// the contract states the crate's grammar, `uuid_parse`.
#[verifier::external_body]
pub(crate) fn parse_uuid(s: &str) -> (r: Option<u128>)
    ensures
        r == uuid_parse(s@),
{
    match uuid::Uuid::parse_str(s) {
        Ok(u) => Some(u.as_u128()),
        Err(_) => None,
    }
}

/// Calls `uuid::Uuid::to_string` on the UUID of value `v`: the crate writes
/// the hyphenated lower-case form.
#[verifier::external_body]
pub(crate) fn uuid_to_string(v: u128) -> (r: String)
    ensures
        r@ == uuid_text(v),
{
    uuid::Uuid::from_u128(v).to_string()
}

} // verus!
