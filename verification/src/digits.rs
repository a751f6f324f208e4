//! Decimal formatting of signed 32-bit integers, with a proof that the
//! produced string is exactly the mathematical decimal representation.

use vstd::prelude::*;
use vstd::string::StringExecFns;

verus! {

/// The character for a single decimal digit.
pub open spec fn digit_char(d: int) -> char {
    if d == 0 {
        '0'
    } else if d == 1 {
        '1'
    } else if d == 2 {
        '2'
    } else if d == 3 {
        '3'
    } else if d == 4 {
        '4'
    } else if d == 5 {
        '5'
    } else if d == 6 {
        '6'
    } else if d == 7 {
        '7'
    } else if d == 8 {
        '8'
    } else {
        '9'
    }
}

/// The decimal digits of a non-negative integer, most significant first,
/// with no leading zeros (except for the single digit of 0 itself).
pub open spec fn dec_digits(n: nat) -> Seq<char>
    decreases n,
{
    if n < 10 {
        seq![digit_char(n as int)]
    } else {
        dec_digits(n / 10) + seq![digit_char((n % 10) as int)]
    }
}

/// The decimal representation of an integer: a minus sign for negative
/// values, followed by the digits of its magnitude.
pub open spec fn dec_string(v: int) -> Seq<char> {
    if v < 0 {
        seq!['-'] + dec_digits((-v) as nat)
    } else {
        dec_digits(v as nat)
    }
}

/// The characters of a digit sequence read back to front: `s` holds digits
/// least significant first, the result is most significant first.
spec fn rev_digit_chars(s: Seq<u32>) -> Seq<char> {
    Seq::new(s.len(), |j: int| digit_char(s[s.len() - 1 - j] as int))
}

/// A one-character string slice for a single decimal digit.
fn digit_str(d: u32) -> (r: &'static str)
    requires
        d < 10,
    ensures
        r@ =~= seq![digit_char(d as int)],
{
    match d {
        0 => {
            proof {
                reveal_strlit("0");
            }
            "0"
        },
        1 => {
            proof {
                reveal_strlit("1");
            }
            "1"
        },
        2 => {
            proof {
                reveal_strlit("2");
            }
            "2"
        },
        3 => {
            proof {
                reveal_strlit("3");
            }
            "3"
        },
        4 => {
            proof {
                reveal_strlit("4");
            }
            "4"
        },
        5 => {
            proof {
                reveal_strlit("5");
            }
            "5"
        },
        6 => {
            proof {
                reveal_strlit("6");
            }
            "6"
        },
        7 => {
            proof {
                reveal_strlit("7");
            }
            "7"
        },
        8 => {
            proof {
                reveal_strlit("8");
            }
            "8"
        },
        _ => {
            proof {
                reveal_strlit("9");
            }
            "9"
        },
    }
}

/// Formats `v` in decimal.
pub fn i32_to_string(v: i32) -> (r: String)
    ensures
        r@ == dec_string(v as int),
{
    let neg: bool = v < 0;
    let mut n: u32 = if neg {
        (-(v as i64)) as u32
    } else {
        v as u32
    };
    let ghost mag: nat = n as nat;
    // Collect the digits of the magnitude, least significant first.
    let mut rev: Vec<u32> = Vec::new();
    while n >= 10
        invariant
            forall|j: int| 0 <= j < rev@.len() ==> rev@[j] < 10,
            dec_digits(mag) =~= dec_digits(n as nat) + rev_digit_chars(rev@),
        decreases n,
    {
        let d: u32 = n % 10;
        let ghost old_rev = rev@;
        let ghost old_n = n as nat;
        rev.push(d);
        n = n / 10;
        proof {
            assert(rev_digit_chars(rev@) =~= seq![digit_char(d as int)] + rev_digit_chars(old_rev));
            assert(dec_digits(mag) =~= dec_digits(n as nat) + rev_digit_chars(rev@));
        }
    }
    let ghost old_rev = rev@;
    rev.push(n);
    proof {
        assert(rev_digit_chars(rev@) =~= seq![digit_char(n as int)] + rev_digit_chars(old_rev));
        assert(dec_digits(mag) =~= rev_digit_chars(rev@));
    }
    // Emit the sign, then the digits most significant first.
    let ghost sign: Seq<char> = if neg {
        seq!['-']
    } else {
        Seq::<char>::empty()
    };
    let mut s: String = String::new();
    if neg {
        proof {
            reveal_strlit("-");
        }
        s.append("-");
        assert(s@ =~= sign);
    }
    let mut i: usize = rev.len();
    assert(s@ =~= sign + rev_digit_chars(rev@).take((rev@.len() - i) as int));
    while i > 0
        invariant
            i <= rev@.len(),
            forall|j: int| 0 <= j < rev@.len() ==> rev@[j] < 10,
            dec_digits(mag) =~= rev_digit_chars(rev@),
            s@ =~= sign + rev_digit_chars(rev@).take((rev@.len() - i) as int),
        decreases i,
    {
        i = i - 1;
        let ghost old_s = s@;
        s.append(digit_str(rev[i]));
        proof {
            let k = (rev@.len() - 1 - i) as int;
            assert(rev_digit_chars(rev@)[k] == digit_char(rev@[i as int] as int));
            assert(rev_digit_chars(rev@).take(k + 1) =~= rev_digit_chars(rev@).take(k).push(
                rev_digit_chars(rev@)[k],
            ));
            assert(s@ =~= sign + rev_digit_chars(rev@).take((rev@.len() - i) as int));
        }
    }
    proof {
        assert(rev_digit_chars(rev@).take(rev@.len() as int) =~= rev_digit_chars(rev@));
        assert(s@ =~= sign + dec_digits(mag));
        if neg {
            assert(mag == -(v as int));
        } else {
            assert(mag == v as int);
        }
        assert(s@ =~= dec_string(v as int));
    }
    s
}

} // verus!
