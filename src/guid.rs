//! Interface identities in their registry text form,
//! `xxxxxxxx-xxxx-xxxx-xxxx-xxxxxxxxxxxx`, read as one 128-bit value so that
//! identities compare by value.
use vstd::prelude::*;

verus! {

/// Number of characters in the text form.
pub const GUID_TEXT_LEN: usize = 36;

/// Where the text form has its dashes.
pub open spec fn is_dash_pos(i: int) -> bool {
    i == 8 || i == 13 || i == 18 || i == 23
}

/// How many dash positions come before position `i`.
pub open spec fn dashes_before(i: int) -> int {
    (if i > 8 { 1int } else { 0int }) + (if i > 13 { 1int } else { 0int })
        + (if i > 18 { 1int } else { 0int }) + (if i > 23 { 1int } else { 0int })
}

/// A hexadecimal digit, in either case.
pub open spec fn is_hex(c: char) -> bool {
    ('0' <= c && c <= '9') || ('a' <= c && c <= 'f') || ('A' <= c && c <= 'F')
}

/// The value of a hexadecimal digit.
pub open spec fn hex_value(c: char) -> nat {
    if '0' <= c && c <= '9' {
        (c as int - '0' as int) as nat
    } else if 'a' <= c && c <= 'f' {
        (c as int - 'a' as int + 10) as nat
    } else {
        (c as int - 'A' as int + 10) as nat
    }
}

/// The text has the registry form: 36 characters, dashes at their four
/// places, hexadecimal digits elsewhere.
pub open spec fn guid_text_ok(s: Seq<char>) -> bool {
    &&& s.len() == GUID_TEXT_LEN
    &&& forall|i: int| 0 <= i < s.len() ==> (if is_dash_pos(i) { s[i] == '-' } else { is_hex(#[trigger] s[i]) })
}

/// The digits of the text read as one number, most significant first, with
/// dashes skipped.
pub open spec fn guid_value(s: Seq<char>) -> nat
    decreases s.len(),
{
    if s.len() == 0 {
        0
    } else if s.last() == '-' {
        guid_value(s.drop_last())
    } else {
        guid_value(s.drop_last()) * 16 + hex_value(s.last())
    }
}

pub open spec fn pow16(k: nat) -> nat
    decreases k,
{
    if k == 0 {
        1
    } else {
        16 * pow16((k - 1) as nat)
    }
}

proof fn lemma_pow16_32()
    ensures
        pow16(32) == 0x1_0000_0000_0000_0000_0000_0000_0000_0000,
{
    reveal_with_fuel(pow16, 33);
}

proof fn lemma_pow16_mono(a: nat, b: nat)
    requires
        a <= b,
    ensures
        pow16(a) <= pow16(b),
    decreases b,
{
    if a < b {
        lemma_pow16_mono(a, (b - 1) as nat);
    }
}

/// The value of a hexadecimal digit, or `None` for another character.
fn hex_digit(c: char) -> (r: Option<u8>)
    ensures
        r is Some <==> is_hex(c),
        r matches Some(d) ==> d == hex_value(c) && d < 16,
{
    if '0' <= c && c <= '9' {
        Some((c as u32 - '0' as u32) as u8)
    } else if 'a' <= c && c <= 'f' {
        Some((c as u32 - 'a' as u32 + 10) as u8)
    } else if 'A' <= c && c <= 'F' {
        Some((c as u32 - 'A' as u32 + 10) as u8)
    } else {
        None
    }
}

/// Reads an identity from its registry text form; `None` where the text is
/// not in that form.
pub fn parse_guid(s: &str) -> (r: Option<u128>)
    ensures
        r is Some <==> guid_text_ok(s@),
        r matches Some(v) ==> v == guid_value(s@),
{
    let n = s.unicode_len();
    if n != GUID_TEXT_LEN {
        return None;
    }
    let mut acc: u128 = 0;
    let mut k: usize = 0;
    let mut i: usize = 0;
    while i < n
        invariant
            n == s@.len() == GUID_TEXT_LEN,
            i <= n,
            k == i - dashes_before(i as int),
            acc == guid_value(s@.take(i as int)),
            acc < pow16(k as nat),
            forall|j: int| 0 <= j < i ==> (if is_dash_pos(j) { s@[j] == '-' } else { is_hex(#[trigger] s@[j]) }),
        decreases n - i,
    {
        let c = s.get_char(i);
        proof {
            assert(s@.take(i + 1).drop_last() =~= s@.take(i as int));
            assert(s@.take(i + 1).last() == c);
        }
        if i == 8 || i == 13 || i == 18 || i == 23 {
            if c != '-' {
                return None;
            }
        } else {
            match hex_digit(c) {
                None => {
                    return None;
                },
                Some(d) => {
                    proof {
                        assert(k < 32);
                        lemma_pow16_mono((k + 1) as nat, 32);
                        lemma_pow16_32();
                        assert(pow16((k + 1) as nat) == 16 * pow16(k as nat));
                        assert(acc * 16 + d < 16 * pow16(k as nat)) by (nonlinear_arith)
                            requires
                                acc < pow16(k as nat),
                                d < 16,
                        ;
                    }
                    acc = acc * 16 + d as u128;
                    k = k + 1;
                },
            }
        }
        i = i + 1;
    }
    assert(s@.take(n as int) =~= s@);
    Some(acc)
}

} // verus!
