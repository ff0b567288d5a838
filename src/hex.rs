use vstd::prelude::*;

verus! {

/// A lowercase hexadecimal digit: `0`-`9` or `a`-`f`.
pub open spec fn is_hex_digit(b: u8) -> bool {
    (48 <= b && b <= 57) || (97 <= b && b <= 102)
}

pub open spec fn hex_digit_value(b: u8) -> nat {
    if b <= 57 {
        (b - 48) as nat
    } else {
        (b - 87) as nat
    }
}

pub open spec fn all_hex(s: Seq<u8>) -> bool {
    forall|i: int| 0 <= i < s.len() ==> is_hex_digit(#[trigger] s[i])
}

/// The number written by the digits of `s`, most significant first.
pub open spec fn hex_value(s: Seq<u8>) -> nat
    decreases s.len(),
{
    if s.len() == 0 {
        0
    } else {
        hex_value(s.drop_last()) * 16 + hex_digit_value(s.last())
    }
}

/// The lowercase digits of `v` in exactly `width` places, most significant first.
pub open spec fn hex_text(v: nat, width: nat) -> Seq<char>
    decreases width,
{
    if width == 0 {
        seq![]
    } else {
        hex_text(v / 16, (width - 1) as nat).push(digit_char(v % 16))
    }
}

pub open spec fn digit_char(d: nat) -> char {
    if d < 10 {
        ((d + 48) as u8) as char
    } else {
        ((d + 87) as u8) as char
    }
}

pub fn hex_digit(b: u8) -> (r: Option<u8>)
    ensures
        r is Some <==> is_hex_digit(b),
        r matches Some(d) ==> d as nat == hex_digit_value(b) && d < 16,
{
    if 48 <= b && b <= 57 {
        Some(b - 48)
    } else if 97 <= b && b <= 102 {
        Some(b - 87)
    } else {
        None
    }
}

/// Reads a two-digit field such as a version or a set of flags.
pub fn hex_byte(hi: u8, lo: u8) -> (r: Option<u8>)
    ensures
        r is Some <==> is_hex_digit(hi) && is_hex_digit(lo),
        r matches Some(v) ==> v as nat == hex_value(seq![hi, lo]),
{
    match (hex_digit(hi), hex_digit(lo)) {
        (Some(h), Some(l)) => {
            proof {
                let s = seq![hi, lo];
                assert(s.drop_last() =~= seq![hi]);
                assert(seq![hi].drop_last() =~= Seq::<u8>::empty());
                reveal_with_fuel(hex_value, 3);
                assert(hex_value(seq![hi]) == hex_digit_value(hi));
            }
            Some(h * 16 + l)
        },
        _ => None,
    }
}

pub proof fn lemma_hex_value_bound(s: Seq<u8>)
    requires
        all_hex(s),
    ensures
        hex_value(s) < pow16(s.len()),
    decreases s.len(),
{
    if s.len() > 0 {
        assert(all_hex(s.drop_last()));
        lemma_hex_value_bound(s.drop_last());
        assert(is_hex_digit(s[s.len() - 1]));
        let p = pow16((s.len() - 1) as nat);
        assert(hex_value(s.drop_last()) * 16 + 16 <= p * 16) by (nonlinear_arith)
            requires hex_value(s.drop_last()) < p;
    }
}

pub open spec fn pow16(n: nat) -> nat
    decreases n,
{
    if n == 0 {
        1
    } else {
        16 * pow16((n - 1) as nat)
    }
}

pub proof fn lemma_pow16_32()
    ensures
        pow16(16) == 0x1_0000_0000_0000_0000,
        pow16(32) == 0x1_0000_0000_0000_0000_0000_0000_0000_0000,
{
    reveal_with_fuel(pow16, 33);
}

} // verus!
