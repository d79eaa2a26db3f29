//! Decimal rendering of natural numbers, as the timer display needs it.

use vstd::prelude::*;

verus! {

/// The character that shows the digit `d`.
pub open spec fn digit_char(d: int) -> char
    recommends
        0 <= d < 10,
{
    if d == 0 {
        '0'
    } else if d == 1 {
        '1'
    } else if d == 2 {
        '2'
    } else if d == 3 {
        '3'
    } else if d == 4 {
        '4'
    } else if d == 5 {
        '5'
    } else if d == 6 {
        '6'
    } else if d == 7 {
        '7'
    } else if d == 8 {
        '8'
    } else {
        '9'
    }
}

/// `n` in decimal, most significant digit first, without leading zeros
/// (zero itself is `"0"`).
pub open spec fn decimal(n: nat) -> Seq<char>
    decreases n,
{
    if n < 10 {
        seq![digit_char(n as int)]
    } else {
        decimal(n / 10).push(digit_char((n % 10) as int))
    }
}

/// A run of `count` zeros.
pub open spec fn zeros(count: nat) -> Seq<char> {
    Seq::new(count, |i: int| '0')
}

/// `n` in decimal, filled on the left with zeros up to `width` characters. A
/// number with more digits than `width` is shown in full.
pub open spec fn padded(n: nat, width: nat) -> Seq<char> {
    if decimal(n).len() < width {
        zeros((width - decimal(n).len()) as nat) + decimal(n)
    } else {
        decimal(n)
    }
}

fn digit_text(d: u8) -> (s: &'static str)
    requires
        d < 10,
    ensures
        s@ == seq![digit_char(d as int)],
{
    proof {
        reveal_strlit("0");
        reveal_strlit("1");
        reveal_strlit("2");
        reveal_strlit("3");
        reveal_strlit("4");
        reveal_strlit("5");
        reveal_strlit("6");
        reveal_strlit("7");
        reveal_strlit("8");
        reveal_strlit("9");
    }
    let s = match d {
        0 => "0",
        1 => "1",
        2 => "2",
        3 => "3",
        4 => "4",
        5 => "5",
        6 => "6",
        7 => "7",
        8 => "8",
        _ => "9",
    };
    assert(s@ =~= seq![digit_char(d as int)]);
    s
}

/// The number of characters in `decimal(n)`.
pub fn decimal_len(n: u128) -> (len: usize)
    ensures
        len == decimal(n as nat).len(),
        1 <= len <= 39,
{
    let mut len: usize = 1;
    let mut rest: u128 = n;
    assert(rest * pow10(0) == rest) by (nonlinear_arith)
        requires
            pow10(0) == 1,
    ;
    while rest >= 10
        invariant
            1 <= len,
            len + decimal(rest as nat).len() == decimal(n as nat).len() + 1,
            rest * pow10((len - 1) as nat) <= n,
            len <= 39,
        decreases rest,
    {
        proof {
            lemma_pow10_step((len - 1) as nat);
            assert(rest * pow10((len - 1) as nat) == (rest / 10) * pow10(len as nat) + (rest % 10)
                * pow10((len - 1) as nat)) by (nonlinear_arith)
                requires
                    pow10(len as nat) == 10 * pow10((len - 1) as nat),
            ;
            assert((rest % 10) * pow10((len - 1) as nat) >= 0) by (nonlinear_arith)
                requires
                    pow10((len - 1) as nat) >= 0,
                    rest % 10 >= 0,
            ;
            if len == 39 {
                lemma_pow10_39();
                assert((rest / 10) * pow10(39) >= pow10(39)) by (nonlinear_arith)
                    requires
                        rest / 10 >= 1,
                        pow10(39) >= 0,
                ;
            }
        }
        rest = rest / 10;
        len = len + 1;
    }
    len
}

/// Ten to the power `e`.
pub open spec fn pow10(e: nat) -> nat
    decreases e,
{
    if e == 0 {
        1
    } else {
        10 * pow10((e - 1) as nat)
    }
}

proof fn lemma_pow10_step(e: nat)
    ensures
        pow10(e + 1) == 10 * pow10(e),
        pow10(e) >= 1,
    decreases e,
{
    if e > 0 {
        lemma_pow10_step((e - 1) as nat);
    }
}

proof fn lemma_pow10_39()
    ensures
        pow10(39) > u128::MAX,
{
    reveal_with_fuel(pow10, 40);
}

/// Appends `decimal(n)` to `text`.
pub fn append_decimal(text: &mut String, n: u128)
    ensures
        final(text)@ == old(text)@ + decimal(n as nat),
    decreases n,
{
    if n >= 10 {
        append_decimal(text, n / 10);
    }
    let digit = digit_text((n % 10) as u8);
    text.append(digit);
    assert(text@ =~= old(text)@ + decimal(n as nat));
}

/// Appends `padded(n, width)` to `text`.
pub fn append_padded(text: &mut String, n: u128, width: usize)
    ensures
        final(text)@ == old(text)@ + padded(n as nat, width as nat),
{
    let len = decimal_len(n);
    let mut filled: usize = len;
    proof {
        reveal_strlit("0");
    }
    while filled < width
        invariant
            len <= filled,
            filled == len || filled <= width,
            text@ == old(text)@ + zeros((filled - len) as nat),
            "0"@ == seq!['0'],
        decreases width - filled,
    {
        text.append("0");
        filled = filled + 1;
        assert(text@ =~= old(text)@ + zeros((filled - len) as nat));
    }
    let ghost filled_text = text@;
    append_decimal(text, n);
    assert(text@ =~= old(text)@ + padded(n as nat, width as nat)) by {
        if len < width {
            assert(filled == width);
        } else {
            assert(filled == len);
            assert(filled_text =~= old(text)@);
        }
    }
}

} // verus!
