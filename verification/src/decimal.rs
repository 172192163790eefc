//! Decimal rendering of unsigned integers, and the zero-padding rule that
//! fixed-width tokens use.

use vstd::prelude::*;

verus! {

/// The character for a single decimal digit.
pub open spec fn digit_char(d: nat) -> char {
    if d == 0 {
        '0'
    } else if d == 1 {
        '1'
    } else if d == 2 {
        '2'
    } else if d == 3 {
        '3'
    } else if d == 4 {
        '4'
    } else if d == 5 {
        '5'
    } else if d == 6 {
        '6'
    } else if d == 7 {
        '7'
    } else if d == 8 {
        '8'
    } else {
        '9'
    }
}

/// The decimal representation of `n`, most significant digit first, with no
/// leading zeros (except for `n == 0`, which is a single `'0'`).
pub open spec fn dec_str(n: nat) -> Seq<char>
    decreases n,
{
    if n < 10 {
        seq![digit_char(n)]
    } else {
        dec_str(n / 10) + seq![digit_char(n % 10)]
    }
}

/// Ten to the power `e`.
pub open spec fn pow10(e: nat) -> nat
    decreases e,
{
    if e == 0 {
        1
    } else {
        10 * pow10((e - 1) as nat)
    }
}

/// `dec_str(n)` left-padded with `'0'` up to width `w`; left unchanged when it
/// is already at least that wide.
pub open spec fn padded_dec(n: nat, w: nat) -> Seq<char> {
    if dec_str(n).len() >= w {
        dec_str(n)
    } else {
        Seq::new((w - dec_str(n).len()) as nat, |i: int| '0') + dec_str(n)
    }
}

pub proof fn lemma_pow10_pos(e: nat)
    ensures
        pow10(e) >= 1,
    decreases e,
{
    if e > 0 {
        lemma_pow10_pos((e - 1) as nat);
    }
}

pub proof fn lemma_pow10_mono(a: nat, b: nat)
    requires
        a <= b,
    ensures
        pow10(a) <= pow10(b),
    decreases b,
{
    if a < b {
        lemma_pow10_mono(a, (b - 1) as nat);
        lemma_pow10_pos((b - 1) as nat);
    }
}

/// A number below `pow10(w)` needs at most `w` decimal digits.
pub proof fn lemma_dec_str_len(n: nat, w: nat)
    requires
        1 <= w,
        n < pow10(w),
    ensures
        dec_str(n).len() <= w,
    decreases w,
{
    if n >= 10 {
        assert(pow10(w) == 10 * pow10((w - 1) as nat));
        lemma_dec_str_len(n / 10, (w - 1) as nat);
    }
}

/// Every u64 fits in 20 decimal digits.
pub proof fn lemma_dec_str_len_u64(n: u64)
    ensures
        dec_str(n as nat).len() <= 20,
{
    assert(pow10(20) == 100000000000000000000) by {
        reveal_with_fuel(pow10, 21);
    }
    lemma_dec_str_len(n as nat, 20);
}

/// One decimal digit as a string slice.
fn digit_str(d: u64) -> (r: &'static str)
    requires
        d < 10,
    ensures
        r@ == seq![digit_char(d as nat)],
{
    let s: &'static str = if d == 0 {
        "0"
    } else if d == 1 {
        "1"
    } else if d == 2 {
        "2"
    } else if d == 3 {
        "3"
    } else if d == 4 {
        "4"
    } else if d == 5 {
        "5"
    } else if d == 6 {
        "6"
    } else if d == 7 {
        "7"
    } else if d == 8 {
        "8"
    } else {
        "9"
    };
    proof {
        reveal_strlit("0");
        reveal_strlit("1");
        reveal_strlit("2");
        reveal_strlit("3");
        reveal_strlit("4");
        reveal_strlit("5");
        reveal_strlit("6");
        reveal_strlit("7");
        reveal_strlit("8");
        reveal_strlit("9");
        assert(s@ =~= seq![digit_char(d as nat)]);
    }
    s
}

/// Renders `n` in decimal, without padding.
pub fn u64_to_string(n: u64) -> (r: String)
    ensures
        r@ == dec_str(n as nat),
    decreases n,
{
    if n < 10 {
        String::from_str(digit_str(n))
    } else {
        let mut s = u64_to_string(n / 10);
        s.append(digit_str(n % 10));
        proof {
            assert(s@ =~= dec_str(n as nat));
        }
        s
    }
}

/// The number of decimal digits of `n`.
fn dec_len_u64(n: u64) -> (r: usize)
    ensures
        r as nat == dec_str(n as nat).len(),
        1 <= r <= 20,
    decreases n,
{
    proof {
        lemma_dec_str_len_u64(n);
    }
    if n < 10 {
        1
    } else {
        1 + dec_len_u64(n / 10)
    }
}

/// Renders `n` in decimal, left-padded with zeros to width `w` (or wider, when
/// the decimal representation itself is longer than `w`).
pub fn u64_to_padded_string(n: u64, w: usize) -> (r: String)
    ensures
        r@ == padded_dec(n as nat, w as nat),
{
    let body = u64_to_string(n);
    let body_len = dec_len_u64(n);
    let pad: usize = if w > body_len {
        w - body_len
    } else {
        0
    };
    let mut r = String::new();
    let mut i: usize = 0;
    while i < pad
        invariant
            i <= pad,
            r@ =~= Seq::new(i as nat, |j: int| '0'),
        decreases pad - i,
    {
        r.append("0");
        proof {
            reveal_strlit("0");
        }
        i += 1;
    }
    r.append(body.as_str());
    proof {
        assert(r@ =~= padded_dec(n as nat, w as nat));
    }
    r
}

} // verus!
