//! Declarations of plainly-typed values, and in-place renumbering of a
//! vector of strings, with a verified decimal rendering of the indices.

use vstd::prelude::*;
use vstd::string::StringExecFns;

verus! {

/// One integer of each declaration style: the 64-bit one left to inference,
/// the 32-bit one typed by its literal suffix.
pub fn declare_ints() -> (r: (i64, i32))
    ensures
        r == (42i64, 32i32),
{
    let int64: i64 = 42;
    let int32 = 32i32;
    (int64, int32)
}

/// One string of each kind: a borrowed string slice and an owned `String`.
pub fn declare_string_types() -> (r: (&'static str, String))
    ensures
        r.0@ == "This is the &str"@,
        r.1@ == "This is the string"@,
{
    let ret_str: &str = "This is the &str";
    let ret_string = String::from_str("This is the string");
    (ret_str, ret_string)
}

/// The character standing for one decimal digit.
pub open spec fn digit_char(d: nat) -> char
    recommends
        d < 10,
{
    if d == 0 {
        '0'
    } else if d == 1 {
        '1'
    } else if d == 2 {
        '2'
    } else if d == 3 {
        '3'
    } else if d == 4 {
        '4'
    } else if d == 5 {
        '5'
    } else if d == 6 {
        '6'
    } else if d == 7 {
        '7'
    } else if d == 8 {
        '8'
    } else {
        '9'
    }
}

/// The decimal rendering of a natural number: most significant digit first,
/// no sign and no leading zeros.
pub open spec fn decimal_digits(n: nat) -> Seq<char>
    decreases n,
{
    if n < 10 {
        seq![digit_char(n)]
    } else {
        decimal_digits(n / 10).push(digit_char(n % 10))
    }
}

fn digit_str(d: u64) -> (s: &'static str)
    requires
        d < 10,
    ensures
        s@ == seq![digit_char(d as nat)],
{
    if d == 0 {
        proof {
            reveal_strlit("0");
        }
        "0"
    } else if d == 1 {
        proof {
            reveal_strlit("1");
        }
        "1"
    } else if d == 2 {
        proof {
            reveal_strlit("2");
        }
        "2"
    } else if d == 3 {
        proof {
            reveal_strlit("3");
        }
        "3"
    } else if d == 4 {
        proof {
            reveal_strlit("4");
        }
        "4"
    } else if d == 5 {
        proof {
            reveal_strlit("5");
        }
        "5"
    } else if d == 6 {
        proof {
            reveal_strlit("6");
        }
        "6"
    } else if d == 7 {
        proof {
            reveal_strlit("7");
        }
        "7"
    } else if d == 8 {
        proof {
            reveal_strlit("8");
        }
        "8"
    } else {
        proof {
            reveal_strlit("9");
        }
        "9"
    }
}

/// Renders a number in decimal, digit by digit, exactly as
/// `decimal_digits` spells it.
pub fn to_decimal_string(n: u64) -> (s: String)
    ensures
        s@ == decimal_digits(n as nat),
    decreases n,
{
    if n < 10 {
        let mut s = String::new();
        s.append(digit_str(n));
        proof {
            assert(s@ =~= decimal_digits(n as nat));
        }
        s
    } else {
        let mut s = to_decimal_string(n / 10);
        s.append(digit_str(n % 10));
        proof {
            assert(s@ =~= decimal_digits(n as nat));
        }
        s
    }
}

/// Replaces every element of the vector, in place, by the decimal
/// rendering of its own index.
pub fn declare_mutable_string_vec(input: &mut Vec<String>)
    ensures
        final (input).len() == old(input).len(),
        forall|i: int|
            0 <= i < old(input).len() ==> final (input)[i]@ == decimal_digits(i as nat),
{
    let mut count: usize = 0;
    while count < input.len()
        invariant
            count <= input.len(),
            input.len() == old(input).len(),
            forall|i: int| 0 <= i < count ==> input[i]@ == decimal_digits(i as nat),
        decreases input.len() - count,
    {
        input[count] = to_decimal_string(count as u64);
        count += 1;
    }
}

} // verus!
