use vstd::prelude::*;
use vstd::string::*;

verus! {

pub open spec fn digit_char(d: nat) -> char {
    if d == 0 {
        '0'
    } else if d == 1 {
        '1'
    } else if d == 2 {
        '2'
    } else if d == 3 {
        '3'
    } else if d == 4 {
        '4'
    } else if d == 5 {
        '5'
    } else if d == 6 {
        '6'
    } else if d == 7 {
        '7'
    } else if d == 8 {
        '8'
    } else {
        '9'
    }
}

/// The decimal digits of `n`, without leading zeros.
pub open spec fn decimal(n: nat) -> Seq<char>
    decreases n,
{
    if n < 10 {
        seq![digit_char(n)]
    } else {
        decimal(n / 10).push(digit_char(n % 10))
    }
}

/// `n < 1000` written with exactly three digits.
pub open spec fn three_digits(n: nat) -> Seq<char> {
    seq![digit_char(n / 100), digit_char((n / 10) % 10), digit_char(n % 10)]
}

/// `n` in decimal with a comma between each group of three digits, counted from
/// the right.
pub open spec fn grouped(n: nat) -> Seq<char>
    decreases n,
{
    if n < 1000 {
        decimal(n)
    } else {
        grouped(n / 1000) + seq![','] + three_digits(n % 1000)
    }
}

fn digit(d: usize) -> (r: &'static str)
    requires
        d < 10,
    ensures
        r@ == seq![digit_char(d as nat)],
{
    if d == 0 {
        proof {
            reveal_strlit("0");
        }
        "0"
    } else if d == 1 {
        proof {
            reveal_strlit("1");
        }
        "1"
    } else if d == 2 {
        proof {
            reveal_strlit("2");
        }
        "2"
    } else if d == 3 {
        proof {
            reveal_strlit("3");
        }
        "3"
    } else if d == 4 {
        proof {
            reveal_strlit("4");
        }
        "4"
    } else if d == 5 {
        proof {
            reveal_strlit("5");
        }
        "5"
    } else if d == 6 {
        proof {
            reveal_strlit("6");
        }
        "6"
    } else if d == 7 {
        proof {
            reveal_strlit("7");
        }
        "7"
    } else if d == 8 {
        proof {
            reveal_strlit("8");
        }
        "8"
    } else {
        proof {
            reveal_strlit("9");
        }
        "9"
    }
}

fn push_grouped(n: usize, out: &mut String)
    ensures
        final(out)@ == old(out)@ + grouped(n as nat),
    decreases n,
{
    if n < 1000 {
        if n >= 100 {
            assert(decimal(n as nat) == decimal((n / 10) as nat).push(digit_char((n % 10) as nat)));
            assert(decimal((n / 10) as nat) == decimal((n / 100) as nat).push(
                digit_char(((n / 10) % 10) as nat),
            ));
            assert(decimal((n / 100) as nat) == seq![digit_char((n / 100) as nat)]);
            out.append(digit(n / 100));
            out.append(digit((n / 10) % 10));
        } else if n >= 10 {
            assert(decimal(n as nat) == decimal((n / 10) as nat).push(digit_char((n % 10) as nat)));
            assert(decimal((n / 10) as nat) == seq![digit_char((n / 10) as nat)]);
            out.append(digit(n / 10));
        }
        out.append(digit(n % 10));
        assert(final(out)@ =~= old(out)@ + grouped(n as nat));
    } else {
        push_grouped(n / 1000, out);
        let m = n % 1000;
        proof {
            reveal_strlit(",");
        }
        out.append(",");
        out.append(digit(m / 100));
        out.append(digit((m / 10) % 10));
        out.append(digit(m % 10));
        assert(final(out)@ =~= old(out)@ + grouped(n as nat));
    }
}

/// A count written for people to read.
pub trait Formatted {
    fn formatted(self) -> String;
}

impl Formatted for usize {
    /// The decimal digits with a comma between groups of three: `1234567`
    /// becomes `1,234,567`.
    fn formatted(self) -> (r: String)
        ensures
            r@ == grouped(self as nat),
    {
        let mut out = String::new();
        push_grouped(self, &mut out);
        assert(out@ =~= grouped(self as nat));
        out
    }
}

} // verus!
