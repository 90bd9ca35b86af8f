use vstd::prelude::*;

verus! {

/// Relies on `String::push`: appends the character to the end of the string.
pub assume_specification[ String::push ](s: &mut String, ch: char)
    ensures
        final(s)@ == old(s)@.push(ch),
;

pub open spec fn pow10(k: nat) -> nat
    decreases k,
{
    if k == 0 {
        1
    } else {
        10 * pow10((k - 1) as nat)
    }
}

pub open spec fn digit_char(d: nat) -> char {
    (('0' as nat) + d) as char
}

/// The decimal numeral of `n`, without leading zeros.
pub open spec fn decimal(n: nat) -> Seq<char>
    decreases n,
{
    if n < 10 {
        seq![digit_char(n)]
    } else {
        decimal(n / 10).push(digit_char(n % 10))
    }
}

/// The last `w` decimal digits of `n`, padded with zeros on the left.
pub open spec fn fixed_digits(n: nat, w: nat) -> Seq<char>
    decreases w,
{
    if w == 0 {
        Seq::empty()
    } else {
        fixed_digits(n / 10, (w - 1) as nat).push(digit_char(n % 10))
    }
}

/// `nanos` as seconds with `d` decimals. Up to nanosecond precision the value
/// is rounded half up to the last decimal shown; decimals beyond it are zeros.
pub open spec fn seconds_text(nanos: nat, d: nat) -> Seq<char> {
    if d <= 9 {
        let unit = pow10((9 - d) as nat);
        let shown = (nanos + unit / 2) / unit;
        decimal(shown / pow10(d)) + if d == 0 {
            Seq::empty()
        } else {
            seq!['.'] + fixed_digits(shown % pow10(d), d)
        }
    } else {
        decimal(nanos / 1000000000) + seq!['.'] + fixed_digits(nanos % 1000000000, 9) + Seq::new(
            (d - 9) as nat,
            |i: int| '0',
        )
    }
}

fn pow10_small(k: usize) -> (r: u128)
    requires
        k <= 9,
    ensures
        r == pow10(k as nat),
        1 <= r <= 1000000000,
{
    proof {
        reveal_with_fuel(pow10, 10);
    }
    match k {
        0 => 1,
        1 => 10,
        2 => 100,
        3 => 1000,
        4 => 10000,
        5 => 100000,
        6 => 1000000,
        7 => 10000000,
        8 => 100000000,
        _ => 1000000000,
    }
}

fn push_digit(out: &mut String, d: u128)
    requires
        d < 10,
    ensures
        final(out)@ == old(out)@.push(digit_char(d as nat)),
{
    out.push(((d as u8) + 48) as char);
}

fn push_decimal(out: &mut String, n: u128)
    ensures
        final(out)@ == old(out)@ + decimal(n as nat),
    decreases n,
{
    if n < 10 {
        push_digit(out, n);
        assert(old(out)@.push(digit_char(n as nat)) =~= old(out)@ + decimal(n as nat));
    } else {
        push_decimal(out, n / 10);
        push_digit(out, n % 10);
        assert(final(out)@ =~= old(out)@ + decimal(n as nat));
    }
}

fn push_fixed(out: &mut String, n: u128, w: usize)
    ensures
        final(out)@ == old(out)@ + fixed_digits(n as nat, w as nat),
    decreases w,
{
    if w == 0 {
        assert(old(out)@ + fixed_digits(n as nat, 0) =~= old(out)@);
    } else {
        push_fixed(out, n / 10, w - 1);
        push_digit(out, n % 10);
        assert(final(out)@ =~= old(out)@ + fixed_digits(n as nat, w as nat));
    }
}

/// `nanos` written as seconds with `decimals` digits after the point.
pub fn format_seconds(nanos: u64, decimals: usize) -> (r: String)
    ensures
        r@ == seconds_text(nanos as nat, decimals as nat),
{
    let mut out = String::new();
    if decimals <= 9 {
        let unit = pow10_small(9 - decimals);
        let shown: u128 = (nanos as u128 + unit / 2) / unit;
        let scale = pow10_small(decimals);
        push_decimal(&mut out, shown / scale);
        if decimals > 0 {
            out.push('.');
            push_fixed(&mut out, shown % scale, decimals);
        }
        assert(out@ =~= seconds_text(nanos as nat, decimals as nat));
    } else {
        push_decimal(&mut out, nanos as u128 / 1000000000);
        out.push('.');
        push_fixed(&mut out, nanos as u128 % 1000000000, 9);
        let ghost head = out@;
        let mut k: usize = 9;
        while k < decimals
            invariant
                9 <= k <= decimals,
                out@ == head + Seq::new((k - 9) as nat, |i: int| '0'),
            decreases decimals - k,
        {
            out.push('0');
            k = k + 1;
            assert(out@ =~= head + Seq::new((k - 9) as nat, |i: int| '0'));
        }
        assert(out@ =~= seconds_text(nanos as nat, decimals as nat));
    }
    out
}

} // verus!
