//! Decimal text for the integers that appear in the formatted output:
//! offer numbers, leg numbers, counts, and the duration line.

use vstd::prelude::*;

verus! {

/// The decimal digit character for `d` (meaningful for `d < 10`).
pub open spec fn spec_digit_char(d: nat) -> char {
    if d == 0 {
        '0'
    } else if d == 1 {
        '1'
    } else if d == 2 {
        '2'
    } else if d == 3 {
        '3'
    } else if d == 4 {
        '4'
    } else if d == 5 {
        '5'
    } else if d == 6 {
        '6'
    } else if d == 7 {
        '7'
    } else if d == 8 {
        '8'
    } else {
        '9'
    }
}

/// The decimal rendering of `n`, most significant digit first, with no sign
/// and no leading zeros (`0` itself renders as `"0"`).
pub open spec fn spec_dec(n: nat) -> Seq<char>
    decreases n,
{
    if n < 10 {
        seq![spec_digit_char(n)]
    } else {
        spec_dec(n / 10).push(spec_digit_char(n % 10))
    }
}

/// The decimal rendering of a signed value: a `-` sign before the digits
/// when the value is negative.
pub open spec fn spec_signed_dec(v: int) -> Seq<char> {
    if v >= 0 {
        spec_dec(v as nat)
    } else {
        seq!['-'] + spec_dec((-v) as nat)
    }
}

fn digit_str(d: u64) -> (r: &'static str)
    requires
        d < 10,
    ensures
        r@ == seq![spec_digit_char(d as nat)],
{
    proof {
        reveal_strlit("0");
        reveal_strlit("1");
        reveal_strlit("2");
        reveal_strlit("3");
        reveal_strlit("4");
        reveal_strlit("5");
        reveal_strlit("6");
        reveal_strlit("7");
        reveal_strlit("8");
        reveal_strlit("9");
        assert(("0")@ =~= seq!['0']);
        assert(("1")@ =~= seq!['1']);
        assert(("2")@ =~= seq!['2']);
        assert(("3")@ =~= seq!['3']);
        assert(("4")@ =~= seq!['4']);
        assert(("5")@ =~= seq!['5']);
        assert(("6")@ =~= seq!['6']);
        assert(("7")@ =~= seq!['7']);
        assert(("8")@ =~= seq!['8']);
        assert(("9")@ =~= seq!['9']);
    }
    if d == 0 {
        "0"
    } else if d == 1 {
        "1"
    } else if d == 2 {
        "2"
    } else if d == 3 {
        "3"
    } else if d == 4 {
        "4"
    } else if d == 5 {
        "5"
    } else if d == 6 {
        "6"
    } else if d == 7 {
        "7"
    } else if d == 8 {
        "8"
    } else {
        "9"
    }
}

/// Appends the decimal rendering of `n` to `out`.
pub fn push_dec(out: &mut String, n: u64)
    ensures
        final(out)@ == old(out)@ + spec_dec(n as nat),
    decreases n,
{
    let ghost before: Seq<char> = out@;
    if n >= 10 {
        push_dec(out, n / 10);
    }
    let d = digit_str(n % 10);
    out.append(d);
    proof {
        if n < 10 {
            assert(out@ =~= before + spec_dec(n as nat));
        } else {
            assert(spec_dec(n as nat) == spec_dec((n / 10) as nat).push(
                spec_digit_char((n % 10) as nat),
            ));
            assert(out@ =~= before + spec_dec(n as nat));
        }
    }
}

/// The decimal rendering of `n` as an owned string.
pub fn u64_text(n: u64) -> (r: String)
    ensures
        r@ == spec_dec(n as nat),
{
    let mut out = String::new();
    push_dec(&mut out, n);
    proof {
        assert(out@ =~= spec_dec(n as nat));
    }
    out
}

/// Whole hours of a minute count: division by 60 rounding toward zero, as
/// exec division on a signed integer does.
pub open spec fn spec_hours_of(n: int) -> int {
    if n >= 0 {
        n / 60
    } else {
        -((-n) / 60)
    }
}

/// Leftover minutes of a minute count: remainder by 60 with the sign of the
/// dividend, as exec remainder on a signed integer has.
pub open spec fn spec_minutes_of(n: int) -> int {
    if n >= 0 {
        n % 60
    } else {
        -((-n) % 60)
    }
}

/// The duration line's value: `{hours}h {minutes}m`.
pub open spec fn spec_duration_text(n: int) -> Seq<char> {
    spec_signed_dec(spec_hours_of(n)) + ("h ")@ + spec_signed_dec(spec_minutes_of(n)) + ("m")@
}

/// Renders a total duration in minutes as whole hours and leftover minutes.
pub fn duration_text(n: i64) -> (r: String)
    ensures
        r@ == spec_duration_text(n as int),
{
    proof {
        reveal_strlit("h ");
        reveal_strlit("m");
        reveal_strlit("0");
        reveal_strlit("-");
        assert(("0")@ =~= seq!['0']);
        assert(("-")@ =~= seq!['-']);
    }
    let mut out = String::new();
    if n >= 0 {
        push_dec(&mut out, (n as u64) / 60);
        out.append("h ");
        push_dec(&mut out, (n as u64) % 60);
        out.append("m");
        proof {
            assert((n as u64) / 60 == spec_hours_of(n as int));
            assert((n as u64) % 60 == spec_minutes_of(n as int));
            assert(out@ =~= spec_duration_text(n as int));
        }
    } else {
        let mag: u64 = ((-(n + 1)) as u64) + 1;
        proof {
            assert(mag == -(n as int));
        }
        let h: u64 = mag / 60;
        let m: u64 = mag % 60;
        if h == 0 {
            out.append("0");
        } else {
            out.append("-");
            push_dec(&mut out, h);
        }
        out.append("h ");
        if m == 0 {
            out.append("0");
        } else {
            out.append("-");
            push_dec(&mut out, m);
        }
        out.append("m");
        proof {
            assert(spec_hours_of(n as int) == -(h as int));
            assert(spec_minutes_of(n as int) == -(m as int));
            if h == 0 {
                assert(spec_signed_dec(spec_hours_of(n as int)) =~= seq!['0']);
            }
            if m == 0 {
                assert(spec_signed_dec(spec_minutes_of(n as int)) =~= seq!['0']);
            }
            assert(out@ =~= spec_duration_text(n as int));
        }
    }
    out
}

} // verus!
