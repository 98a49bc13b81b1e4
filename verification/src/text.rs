//! Decimal text of integers, as the screen shows them.

use vstd::prelude::*;

verus! {

/// The character that stands for the decimal digit `d` (`0 <= d <= 9`).
pub open spec fn digit_char(d: int) -> char {
    if d == 0 {
        '0'
    } else if d == 1 {
        '1'
    } else if d == 2 {
        '2'
    } else if d == 3 {
        '3'
    } else if d == 4 {
        '4'
    } else if d == 5 {
        '5'
    } else if d == 6 {
        '6'
    } else if d == 7 {
        '7'
    } else if d == 8 {
        '8'
    } else {
        '9'
    }
}

/// The decimal numeral of `n`: no sign, no leading zero but for `0` itself.
pub open spec fn decimal(n: nat) -> Seq<char>
    decreases n,
{
    if n < 10 {
        seq![digit_char(n as int)]
    } else {
        decimal(n / 10).push(digit_char((n % 10) as int))
    }
}

/// `count` times the character `0`.
pub open spec fn zeros(count: nat) -> Seq<char> {
    Seq::new(count, |i: int| '0')
}

/// The decimal numeral of `n`, with zeros in front until it has `width`
/// characters. A numeral that is already that long is left as it is.
pub open spec fn zero_padded(n: nat, width: nat) -> Seq<char> {
    if decimal(n).len() >= width {
        decimal(n)
    } else {
        zeros((width - decimal(n).len()) as nat) + decimal(n)
    }
}

/// A number of tenths written with one decimal place: `-15` is `-1.5`,
/// `7` is `0.7`, `0` is `0.0`.
pub open spec fn tenths(t: int) -> Seq<char> {
    let magnitude = if t < 0 {
        -t
    } else {
        t
    };
    let sign = if t < 0 {
        seq!['-']
    } else {
        Seq::<char>::empty()
    };
    sign + decimal((magnitude / 10) as nat) + seq!['.'] + seq![digit_char(magnitude % 10)]
}

/// One decimal digit as a string slice.
fn digit_str(d: u64) -> (s: &'static str)
    requires
        d < 10,
    ensures
        s@ == seq![digit_char(d as int)],
{
    proof {
        reveal_strlit("0");
        reveal_strlit("1");
        reveal_strlit("2");
        reveal_strlit("3");
        reveal_strlit("4");
        reveal_strlit("5");
        reveal_strlit("6");
        reveal_strlit("7");
        reveal_strlit("8");
        reveal_strlit("9");
    }
    let s = if d == 0 {
        "0"
    } else if d == 1 {
        "1"
    } else if d == 2 {
        "2"
    } else if d == 3 {
        "3"
    } else if d == 4 {
        "4"
    } else if d == 5 {
        "5"
    } else if d == 6 {
        "6"
    } else if d == 7 {
        "7"
    } else if d == 8 {
        "8"
    } else {
        "9"
    };
    assert(s@ =~= seq![digit_char(d as int)]);
    s
}

/// The decimal numeral of `n` as an owned string.
pub fn decimal_string(n: u64) -> (s: String)
    ensures
        s@ == decimal(n as nat),
    decreases n,
{
    if n < 10 {
        String::from_str(digit_str(n))
    } else {
        let mut s = decimal_string(n / 10);
        s.append(digit_str(n % 10));
        assert(s@ =~= decimal(n as nat));
        s
    }
}

/// The decimal numeral of `n`, padded with zeros to two characters.
pub fn two_digit_string(n: u64) -> (s: String)
    ensures
        s@ == zero_padded(n as nat, 2),
{
    if n < 10 {
        let mut s = String::from_str("0");
        s.append(digit_str(n));
        proof {
            reveal_strlit("0");
            assert(s@ =~= zero_padded(n as nat, 2));
        }
        s
    } else {
        proof {
            reveal_with_fuel(decimal, 2);
        }
        decimal_string(n)
    }
}

/// The decimal numeral of `n`, padded with zeros to four characters.
pub fn four_digit_string(n: u64) -> (s: String)
    ensures
        s@ == zero_padded(n as nat, 4),
{
    proof {
        reveal_with_fuel(decimal, 4);
    }
    let lead = if n < 10 {
        "000"
    } else if n < 100 {
        "00"
    } else if n < 1000 {
        "0"
    } else {
        ""
    };
    let mut s = String::from_str(lead);
    let digits = decimal_string(n);
    s.append(digits.as_str());
    proof {
        reveal_strlit("000");
        reveal_strlit("00");
        reveal_strlit("0");
        reveal_strlit("");
        assert(s@ =~= zero_padded(n as nat, 4));
    }
    s
}

/// The size of `t` without its sign.
pub fn magnitude(t: i64) -> (m: u64)
    ensures
        m == if t < 0 {
            -t
        } else {
            t as int
        },
{
    if t >= 0 {
        t as u64
    } else if t == i64::MIN {
        9223372036854775808u64
    } else {
        (-t) as u64
    }
}

/// A number of tenths as text with one decimal place.
pub fn tenths_string(t: i64) -> (s: String)
    ensures
        s@ == tenths(t as int),
{
    let m = magnitude(t);
    let mut s = String::from_str(
        if t < 0 {
            "-"
        } else {
            ""
        },
    );
    let whole = decimal_string(m / 10);
    s.append(whole.as_str());
    s.append(".");
    s.append(digit_str(m % 10));
    proof {
        reveal_strlit("-");
        reveal_strlit("");
        reveal_strlit(".");
        assert(s@ =~= tenths(t as int));
    }
    s
}

} // verus!
