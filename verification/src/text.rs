//! Verified text building blocks for the session command line: decimal
//! rendering of pixel sizes, defensive quoting of arguments, and joining
//! arguments into one command string.

use vstd::prelude::*;

verus! {

/// The decimal digit character for a value in 0..=9.
pub open spec fn digit_char(d: int) -> char {
    if d == 0 {
        '0'
    } else if d == 1 {
        '1'
    } else if d == 2 {
        '2'
    } else if d == 3 {
        '3'
    } else if d == 4 {
        '4'
    } else if d == 5 {
        '5'
    } else if d == 6 {
        '6'
    } else if d == 7 {
        '7'
    } else if d == 8 {
        '8'
    } else {
        '9'
    }
}

/// The usual decimal rendering of a natural number, most significant
/// digit first, with no leading zeros (and "0" for zero).
pub open spec fn decimal_of(n: nat) -> Seq<char>
    decreases n,
{
    if n < 10 {
        seq![digit_char(n as int)]
    } else {
        decimal_of(n / 10) + seq![digit_char((n % 10) as int)]
    }
}

fn digit_str(d: u32) -> (r: &'static str)
    requires
        d < 10,
    ensures
        r@ == seq![digit_char(d as int)],
{
    proof {
        reveal_strlit("0");
        reveal_strlit("1");
        reveal_strlit("2");
        reveal_strlit("3");
        reveal_strlit("4");
        reveal_strlit("5");
        reveal_strlit("6");
        reveal_strlit("7");
        reveal_strlit("8");
        reveal_strlit("9");
    }
    let r: &'static str = if d == 0 {
        "0"
    } else if d == 1 {
        "1"
    } else if d == 2 {
        "2"
    } else if d == 3 {
        "3"
    } else if d == 4 {
        "4"
    } else if d == 5 {
        "5"
    } else if d == 6 {
        "6"
    } else if d == 7 {
        "7"
    } else if d == 8 {
        "8"
    } else {
        "9"
    };
    proof {
        assert(r@ =~= seq![digit_char(d as int)]);
    }
    r
}

/// Renders a width or height as the decimal string that the compositor's
/// command line expects.
pub fn u32_to_decimal(n: u32) -> (r: String)
    ensures
        r@ == decimal_of(n as nat),
    decreases n,
{
    let d = digit_str(n % 10);
    if n < 10 {
        String::from_str(d)
    } else {
        let mut s = u32_to_decimal(n / 10);
        s.append(d);
        proof {
            assert(s@ =~= decimal_of(n as nat));
        }
        s
    }
}

/// An argument wrapped in one double quote on each side.
pub open spec fn quoted(a: Seq<char>) -> Seq<char> {
    seq!['"'] + a + seq!['"']
}

/// Wraps one re-issued argument in double quotes.
pub fn quote_arg(a: &str) -> (r: String)
    ensures
        r@ == quoted(a@),
{
    proof {
        reveal_strlit("\"");
    }
    let mut s = String::from_str("\"");
    s.append(a);
    s.append("\"");
    proof {
        assert(s@ =~= quoted(a@));
    }
    s
}

/// The parts joined with a single space between consecutive parts, and
/// nothing added around them ("" for no parts).
pub open spec fn joined_with_spaces(parts: Seq<Seq<char>>) -> Seq<char>
    decreases parts.len(),
{
    if parts.len() == 0 {
        Seq::empty()
    } else if parts.len() == 1 {
        parts[0]
    } else {
        joined_with_spaces(parts.drop_last()) + seq![' '] + parts.last()
    }
}

/// Joins the re-issued arguments into the single command string handed to
/// the nested session.
pub fn join_with_spaces(parts: &Vec<String>) -> (r: String)
    ensures
        r@ == joined_with_spaces(parts.deep_view()),
{
    let mut s = String::new();
    let n = parts.len();
    let mut i: usize = 0;
    while i < n
        invariant
            n == parts@.len(),
            i <= n,
            s@ == joined_with_spaces(parts.deep_view().take(i as int)),
        decreases n - i,
    {
        if i > 0 {
            s.append(" ");
        }
        s.append(parts[i].as_str());
        proof {
            reveal_strlit(" ");
            let dv = parts.deep_view();
            let t1 = dv.take(i + 1);
            assert(t1.drop_last() =~= dv.take(i as int));
            assert(t1.last() == dv[i as int]);
            if i == 0 {
                assert(joined_with_spaces(dv.take(0)) =~= Seq::<char>::empty());
                assert(joined_with_spaces(t1) == t1[0]);
                assert(s@ =~= joined_with_spaces(t1));
            } else {
                assert(joined_with_spaces(t1) == joined_with_spaces(t1.drop_last()) + seq![' ']
                    + t1.last());
                assert(s@ =~= joined_with_spaces(t1));
            }
        }
        i = i + 1;
    }
    proof {
        assert(parts.deep_view().take(n as int) =~= parts.deep_view());
    }
    s
}

} // verus!
