use vstd::prelude::*;

verus! {

/// The character for one decimal digit.
pub open spec fn digit_char(d: nat) -> char {
    if d == 0 {
        '0'
    } else if d == 1 {
        '1'
    } else if d == 2 {
        '2'
    } else if d == 3 {
        '3'
    } else if d == 4 {
        '4'
    } else if d == 5 {
        '5'
    } else if d == 6 {
        '6'
    } else if d == 7 {
        '7'
    } else if d == 8 {
        '8'
    } else {
        '9'
    }
}

/// The decimal digits of `n`, most significant first, without leading zeros
/// (except for `n == 0`, which is written as a single zero).
pub open spec fn dec_str(n: nat) -> Seq<char>
    decreases n,
{
    if n < 10 {
        seq![digit_char(n)]
    } else {
        dec_str(n / 10).push(digit_char(n % 10))
    }
}

/// A number of hundredths, written with exactly two digits after the point.
pub open spec fn fixed2_str(h: nat) -> Seq<char> {
    dec_str(h / 100) + seq!['.'] + pad2_str(h % 100)
}

/// Two decimal digits, with a leading zero where needed.
pub open spec fn pad2_str(f: nat) -> Seq<char> {
    if f < 10 {
        seq!['0', digit_char(f)]
    } else {
        dec_str(f)
    }
}

fn digit_string(d: u128) -> (s: String)
    requires
        d < 10,
    ensures
        s@ == seq![digit_char(d as nat)],
{
    let lit: &str = if d == 0 {
        "0"
    } else if d == 1 {
        "1"
    } else if d == 2 {
        "2"
    } else if d == 3 {
        "3"
    } else if d == 4 {
        "4"
    } else if d == 5 {
        "5"
    } else if d == 6 {
        "6"
    } else if d == 7 {
        "7"
    } else if d == 8 {
        "8"
    } else {
        "9"
    };
    proof {
        reveal_strlit("0");
        reveal_strlit("1");
        reveal_strlit("2");
        reveal_strlit("3");
        reveal_strlit("4");
        reveal_strlit("5");
        reveal_strlit("6");
        reveal_strlit("7");
        reveal_strlit("8");
        reveal_strlit("9");
        assert(lit@ =~= seq![digit_char(d as nat)]);
    }
    lit.to_owned()
}

/// The decimal rendering of `n`.
pub fn u128_to_string(n: u128) -> (s: String)
    ensures
        s@ == dec_str(n as nat),
    decreases n,
{
    if n < 10 {
        digit_string(n)
    } else {
        let mut s = u128_to_string(n / 10);
        let d = digit_string(n % 10);
        s.append(d.as_str());
        proof {
            assert(s@ =~= dec_str(n as nat));
        }
        s
    }
}

/// The decimal rendering of `n`.
pub fn u64_to_string(n: u64) -> (s: String)
    ensures
        s@ == dec_str(n as nat),
{
    u128_to_string(n as u128)
}

fn fixed2_string(h: u128) -> (s: String)
    ensures
        s@ == fixed2_str(h as nat),
{
    let mut s = u128_to_string(h / 100);
    s.append(".");
    let f = h % 100;
    if f < 10 {
        s.append("0");
        let d = digit_string(f);
        s.append(d.as_str());
    } else {
        let d = u128_to_string(f);
        s.append(d.as_str());
    }
    proof {
        reveal_strlit(".");
        reveal_strlit("0");
        assert(s@ =~= fixed2_str(h as nat));
    }
    s
}

/// Hundredths of `elems / (nanos / 10^9) / denom`, rounded half up:
/// the two-decimal mantissa of the rate, scaled by the chosen unit.
pub open spec fn scaled_hundredths(elems: u64, nanos: u64, denom: int) -> nat {
    (((elems as int) * 200_000_000_000 + (nanos as int) * denom) / (2 * (nanos as int) * denom)) as nat
}

/// Whether the rate `elems` per `nanos` nanoseconds is below `bound` per second.
pub open spec fn rate_below(elems: u64, nanos: u64, bound: int) -> bool {
    (elems as int) * 1_000_000_000 < bound * (nanos as int)
}

/// The human-readable rate of `elems` elements over `nanos` nanoseconds:
/// the value per second under the largest 1000-step unit prefix that keeps
/// the mantissa below 1000, with two decimal places. A zero-length interval
/// is deliberately rendered as an infinite rate in the largest unit, not
/// treated as an error.
pub open spec fn per_second_str(elems: u64, nanos: u64) -> Seq<char> {
    if nanos == 0 {
        "inf Gelem/s"@
    } else if rate_below(elems, nanos, 1_000) {
        fixed2_str(scaled_hundredths(elems, nanos, 1)) + " elem/s"@
    } else if rate_below(elems, nanos, 1_000_000) {
        fixed2_str(scaled_hundredths(elems, nanos, 1_000)) + " Kelem/s"@
    } else if rate_below(elems, nanos, 1_000_000_000) {
        fixed2_str(scaled_hundredths(elems, nanos, 1_000_000)) + " Melem/s"@
    } else {
        fixed2_str(scaled_hundredths(elems, nanos, 1_000_000_000)) + " Gelem/s"@
    }
}

fn scaled_string(num2: u128, nd: u128, unit: &str) -> (s: String)
    requires
        0 < nd,
        num2 <= 0xffff_ffff_ffff_ffff * 200_000_000_000,
        nd <= 0xffff_ffff_ffff_ffff * 1_000_000_000,
    ensures
        s@ == fixed2_str((((num2 + nd) / (2 * nd)) as nat)) + unit@,
{
    let h = (num2 + nd) / (2 * nd);
    let mut s = fixed2_string(h);
    s.append(unit);
    s
}

/// Renders a rate of elements per second, as `per_second_str` states.
pub fn elements_per_second(elems: u64, nanos: u64) -> (s: String)
    ensures
        s@ == per_second_str(elems, nanos),
{
    if nanos == 0 {
        proof {
            reveal_strlit("inf Gelem/s");
        }
        return "inf Gelem/s".to_owned();
    }
    let e = elems as u128;
    let n = nanos as u128;
    let rate_num = e * 1_000_000_000;
    let num2 = e * 200_000_000_000;
    if rate_num < 1_000 * n {
        scaled_string(num2, n, " elem/s")
    } else if rate_num < 1_000_000 * n {
        scaled_string(num2, n * 1_000, " Kelem/s")
    } else if rate_num < 1_000_000_000 * n {
        scaled_string(num2, n * 1_000_000, " Melem/s")
    } else {
        scaled_string(num2, n * 1_000_000_000, " Gelem/s")
    }
}

} // verus!
