//! Human-readable sizes and durations.
use vstd::prelude::*;
use crate::text::{decimal, pad2, push_char, push_decimal, push_pad2};

verus! {

/// `1024` raised to the power `k`.
pub open spec fn pow1024(k: nat) -> nat
    decreases k,
{
    if k == 0 {
        1
    } else {
        1024 * pow1024((k - 1) as nat)
    }
}

/// The name of the `k`-th unit: B, KB, MB, GB, TB.
pub open spec fn unit_name(k: nat) -> Seq<char> {
    if k == 0 {
        seq!['B']
    } else if k == 1 {
        seq!['K', 'B']
    } else if k == 2 {
        seq!['M', 'B']
    } else if k == 3 {
        seq!['G', 'B']
    } else {
        seq!['T', 'B']
    }
}

/// The unit in which `b` bytes are shown: the largest unit, up to TB,
/// that `b` reaches.
pub open spec fn unit_index(b: nat) -> nat {
    if b < pow1024(1) {
        0
    } else if b < pow1024(2) {
        1
    } else if b < pow1024(3) {
        2
    } else if b < pow1024(4) {
        3
    } else {
        4
    }
}

/// `num / den` rounded to the nearest integer, ties to the even one.
pub open spec fn round_half_even(num: nat, den: nat) -> nat {
    let q = num / den;
    let r = num % den;
    if 2 * r > den {
        q + 1
    } else if 2 * r < den {
        q
    } else if q % 2 == 0 {
        q
    } else {
        q + 1
    }
}

/// `b` bytes in hundredths of the unit in which they are shown.
pub open spec fn size_hundredths(b: nat) -> nat {
    round_half_even(100 * b, pow1024(unit_index(b)))
}

/// `b` bytes as text: the amount in its unit with two decimals, a space and
/// the unit, e.g. `1.50 KB`.
pub open spec fn bytes_text(b: nat) -> Seq<char> {
    let h = size_hundredths(b);
    decimal(h / 100) + seq!['.'] + pad2(h % 100) + seq![' '] + unit_name(unit_index(b))
}

/// `secs` seconds as `m:ss`, or `h:mm:ss` from one hour on.
pub open spec fn duration_text(secs: nat) -> Seq<char> {
    let h = secs / 3600;
    let m = (secs % 3600) / 60;
    let s = secs % 60;
    if h > 0 {
        decimal(h) + seq![':'] + pad2(m) + seq![':'] + pad2(s)
    } else {
        decimal(m) + seq![':'] + pad2(s)
    }
}

/// The divisor of the unit `k`, for `k <= 4`.
fn unit_divisor(k: u64) -> (d: u128)
    requires
        k <= 4,
    ensures
        d == pow1024(k as nat),
        d >= 1,
{
    reveal_with_fuel(pow1024, 5);
    if k == 0 {
        1
    } else if k == 1 {
        1024
    } else if k == 2 {
        1048576
    } else if k == 3 {
        1073741824
    } else {
        1099511627776
    }
}

/// Appends the name of unit `k` to `s`.
fn push_unit(s: &mut String, k: u64)
    requires
        k <= 4,
    ensures
        final(s)@ == old(s)@ + unit_name(k as nat),
{
    if k >= 1 {
        if k == 1 {
            push_char(s, 'K');
        } else if k == 2 {
            push_char(s, 'M');
        } else if k == 3 {
            push_char(s, 'G');
        } else {
            push_char(s, 'T');
        }
    }
    push_char(s, 'B');
    assert(s@ == old(s)@ + unit_name(k as nat));
}

/// Formats a byte count with two decimals in B, KB, MB, GB or TB
/// (`format_bytes(1536) == "1.50 KB"`).
pub fn format_bytes(bytes: u64) -> (s: String)
    ensures
        s@ == bytes_text(bytes as nat),
{
    reveal_with_fuel(pow1024, 5);
    let b: u128 = bytes as u128;
    let k: u64 = if b < 1024 {
        0
    } else if b < 1048576 {
        1
    } else if b < 1073741824 {
        2
    } else if b < 1099511627776 {
        3
    } else {
        4
    };
    assert(k == unit_index(bytes as nat));
    let den = unit_divisor(k);
    let num: u128 = b * 100;
    let q = num / den;
    let r = num % den;
    assert(q <= num) by (nonlinear_arith)
        requires
            den >= 1,
            q == num / den,
    ;
    let h: u128 = if 2 * r > den {
        q + 1
    } else if 2 * r < den {
        q
    } else if q % 2 == 0 {
        q
    } else {
        q + 1
    };
    assert(h == size_hundredths(bytes as nat));
    let whole: u128 = h / 100;
    let frac: u128 = h % 100;
    assert(whole <= bytes);
    let mut s = String::new();
    push_decimal(&mut s, whole as u64);
    push_char(&mut s, '.');
    push_pad2(&mut s, frac as u64);
    push_char(&mut s, ' ');
    push_unit(&mut s, k);
    assert(s@ == bytes_text(bytes as nat));
    s
}

/// Formats a number of seconds as `m:ss`, or `h:mm:ss` from one hour on
/// (`format_duration(3661) == "1:01:01"`).
pub fn format_duration(secs: u64) -> (s: String)
    ensures
        s@ == duration_text(secs as nat),
{
    let h = secs / 3600;
    let m = (secs % 3600) / 60;
    let sec = secs % 60;
    let mut s = String::new();
    if h > 0 {
        push_decimal(&mut s, h);
        push_char(&mut s, ':');
        push_pad2(&mut s, m);
    } else {
        push_decimal(&mut s, m);
    }
    push_char(&mut s, ':');
    push_pad2(&mut s, sec);
    assert(s@ == duration_text(secs as nat));
    s
}

/// A duration is written as its whole minutes and the seconds left over
/// (two digits) below one hour, and as its whole hours, the minutes left
/// over and the seconds left over (two digits each) from one hour on.
pub proof fn law_duration_parts(secs: nat)
    ensures
        secs < 3600 ==> duration_text(secs) == decimal(secs / 60) + seq![':'] + pad2(secs % 60),
        secs >= 3600 ==> duration_text(secs) == decimal(secs / 3600) + seq![':'] + pad2(
            (secs / 60) % 60,
        ) + seq![':'] + pad2(secs % 60),
        (secs / 3600) * 3600 + ((secs / 60) % 60) * 60 + secs % 60 == secs,
        (secs / 60) % 60 < 60,
        secs % 60 < 60,
{
    assert((secs % 3600) / 60 == (secs / 60) % 60) by (nonlinear_arith);
    if secs < 3600 {
        assert(secs / 3600 == 0);
        assert(secs % 3600 == secs);
    }
    assert((secs / 3600) * 3600 + ((secs / 60) % 60) * 60 + secs % 60 == secs) by (nonlinear_arith);
}

/// Sizes below one KB are written as the byte count with two zero decimals
/// and `B`; every size is shown in the largest unit it reaches, up to TB,
/// with the amount rounded to the nearest hundredth of that unit.
pub proof fn law_bytes_text(b: nat)
    ensures
        b < 1024 ==> bytes_text(b) == decimal(b) + seq!['.', '0', '0', ' ', 'B'],
        unit_index(b) <= 4,
        unit_index(b) == 0 <==> b < 1024,
        unit_index(b) > 0 ==> pow1024(unit_index(b)) <= b,
        unit_index(b) < 4 ==> b < pow1024(unit_index(b) + 1),
        2 * size_hundredths(b) * pow1024(unit_index(b)) <= 200 * b + pow1024(unit_index(b)),
        200 * b <= 2 * size_hundredths(b) * pow1024(unit_index(b)) + pow1024(unit_index(b)),
        unit_name(0) == seq!['B'] && unit_name(1) == seq!['K', 'B'] && unit_name(2) == seq![
            'M',
            'B',
        ] && unit_name(3) == seq!['G', 'B'] && unit_name(4) == seq!['T', 'B'],
{
    reveal_with_fuel(pow1024, 6);
    let k = unit_index(b);
    let d = pow1024(k);
    assert(d >= 1);
    let num = 100 * b;
    let q = num / d;
    let r = num % d;
    vstd::arithmetic::div_mod::lemma_fundamental_div_mod(num as int, d as int);
    assert(0 <= r < d) by {
        vstd::arithmetic::div_mod::lemma_mod_bound(num as int, d as int);
    }
    let h = size_hundredths(b);
    assert(num == d * q + r);
    if 2 * r > d {
        assert(h == q + 1);
        assert(h * d == q * d + d) by (nonlinear_arith)
            requires
                h == q + 1,
        ;
    } else if 2 * r < d {
        assert(h == q);
    } else if q % 2 == 0 {
        assert(h == q);
    } else {
        assert(h == q + 1);
        assert(h * d == q * d + d) by (nonlinear_arith)
            requires
                h == q + 1,
        ;
    }
    assert(d * q == q * d) by (nonlinear_arith);
    assert(2 * h * d == 2 * (h * d)) by (nonlinear_arith);
    if b < 1024 {
        assert(d == 1);
        assert(num / 1 == num);
        assert(num % 1 == 0);
        assert(h == 100 * b);
        lemma_hundredths_text(b);
    }
}

/// `100 * b` hundredths are written as `b` and two zero decimals.
proof fn lemma_hundredths_text(b: nat)
    ensures
        decimal((100 * b) / 100) + seq!['.'] + pad2((100 * b) % 100) == decimal(b) + seq![
            '.',
            '0',
            '0',
        ],
{
    assert((100 * b) / 100 == b);
    assert((100 * b) % 100 == 0);
    assert(decimal(0) =~= seq!['0']);
    assert(pad2(0) =~= seq!['0', '0']);
    assert(decimal(b) + seq!['.'] + seq!['0', '0'] =~= decimal(b) + seq!['.', '0', '0']);
}

} // verus!
