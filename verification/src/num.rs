use vstd::prelude::*;
use vstd::string::StringExecFns;

verus! {

/// The character for one decimal digit.
pub open spec fn digit_char(d: int) -> char {
    ((d + 48) as u8) as char
}

/// The decimal digits of a natural number, most significant first.
pub open spec fn dec_of_nat(n: nat) -> Seq<char>
    decreases n,
{
    if n < 10 {
        seq![digit_char(n as int)]
    } else {
        dec_of_nat(n / 10).push(digit_char((n % 10) as int))
    }
}

/// The decimal rendering of a signed 64-bit value: a minus sign for negative
/// values, then the digits of the magnitude.
pub open spec fn dec_of_i64(n: int) -> Seq<char> {
    if n < 0 {
        seq!['-'] + dec_of_nat((-n) as nat)
    } else {
        dec_of_nat(n as nat)
    }
}

fn digit_str(d: u64) -> (r: &'static str)
    requires
        d < 10,
    ensures
        r@ == seq![digit_char(d as int)],
{
    proof {
        reveal_strlit("0");
        reveal_strlit("1");
        reveal_strlit("2");
        reveal_strlit("3");
        reveal_strlit("4");
        reveal_strlit("5");
        reveal_strlit("6");
        reveal_strlit("7");
        reveal_strlit("8");
        reveal_strlit("9");
    }
    match d {
        0 => "0",
        1 => "1",
        2 => "2",
        3 => "3",
        4 => "4",
        5 => "5",
        6 => "6",
        7 => "7",
        8 => "8",
        _ => "9",
    }
}

fn push_dec_u64(s: &mut String, m: u64)
    ensures
        final(s)@ == old(s)@ + dec_of_nat(m as nat),
    decreases m,
{
    if m >= 10 {
        push_dec_u64(s, m / 10);
    }
    let d: u64 = m % 10;
    s.append(digit_str(d));
}

/// Renders a signed 64-bit integer as its exact decimal text.
pub fn i64_to_decimal(n: i64) -> (r: String)
    ensures
        r@ == dec_of_i64(n as int),
{
    let mut s = String::new();
    if n < 0 {
        proof {
            reveal_strlit("-");
        }
        s.append("-");
        let mag: u64 = ((-(n + 1)) as u64) + 1;
        assert(mag as int == -(n as int));
        push_dec_u64(&mut s, mag);
        assert(s@ == dec_of_i64(n as int));
    } else {
        push_dec_u64(&mut s, n as u64);
    }
    s
}

} // verus!
