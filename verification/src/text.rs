//! Verified text building: decimal rendering of port numbers and
//! joining of header values with a `"; "` separator.

use vstd::prelude::*;
use vstd::string::StringExecFns;

verus! {

/// The character for a single decimal digit.
pub open spec fn digit_char(d: nat) -> char {
    if d == 0 {
        '0'
    } else if d == 1 {
        '1'
    } else if d == 2 {
        '2'
    } else if d == 3 {
        '3'
    } else if d == 4 {
        '4'
    } else if d == 5 {
        '5'
    } else if d == 6 {
        '6'
    } else if d == 7 {
        '7'
    } else if d == 8 {
        '8'
    } else {
        '9'
    }
}

/// The decimal rendering of `n`, most significant digit first, with
/// no leading zeros (`0` renders as `"0"`).
pub open spec fn dec_digits(n: nat) -> Seq<char>
    decreases n,
{
    if n < 10 {
        seq![digit_char(n)]
    } else {
        dec_digits(n / 10) + seq![digit_char(n % 10)]
    }
}

/// A one-character string for the decimal digit `d`.
fn digit_str(d: u16) -> (r: &'static str)
    requires
        d < 10,
    ensures
        r@ == seq![digit_char(d as nat)],
{
    proof {
        reveal_strlit("0");
        reveal_strlit("1");
        reveal_strlit("2");
        reveal_strlit("3");
        reveal_strlit("4");
        reveal_strlit("5");
        reveal_strlit("6");
        reveal_strlit("7");
        reveal_strlit("8");
        reveal_strlit("9");
    }
    let r: &'static str = match d {
        0 => "0",
        1 => "1",
        2 => "2",
        3 => "3",
        4 => "4",
        5 => "5",
        6 => "6",
        7 => "7",
        8 => "8",
        _ => "9",
    };
    proof {
        assert(r@ =~= seq![digit_char(d as nat)]);
    }
    r
}

/// Renders `n` in decimal.
pub fn u16_to_dec(n: u16) -> (s: String)
    ensures
        s@ == dec_digits(n as nat),
    decreases n,
{
    if n < 10 {
        String::from_str(digit_str(n))
    } else {
        let mut s = u16_to_dec(n / 10);
        s.append(digit_str(n % 10));
        proof {
            assert(s@ =~= dec_digits(n as nat));
        }
        s
    }
}

/// The values `vs` joined with `"; "` between consecutive elements:
/// empty input yields the empty sequence.
pub open spec fn join_sep(vs: Seq<Seq<char>>) -> Seq<char>
    decreases vs.len(),
{
    if vs.len() == 0 {
        Seq::empty()
    } else if vs.len() == 1 {
        vs[0]
    } else {
        join_sep(vs.drop_last()) + "; "@ + vs.last()
    }
}

/// Joining two values puts a single `"; "` between them.
pub proof fn lemma_join_pair(a: Seq<char>, b: Seq<char>)
    ensures
        join_sep(seq![a, b]) == a + "; "@ + b,
{
    assert(seq![a, b].drop_last() =~= seq![a]);
    assert(seq![a, b].last() == b);
    assert(join_sep(seq![a]) == a);
    assert(join_sep(seq![a, b]) == join_sep(seq![a]) + "; "@ + b);
}

/// Joining no values yields the empty sequence.
pub proof fn lemma_join_empty()
    ensures
        join_sep(Seq::<Seq<char>>::empty()) == Seq::<char>::empty(),
{
}

/// Joins the strings of `vs` with `"; "`.
pub fn join_strings(vs: &Vec<String>) -> (s: String)
    ensures
        s@ == join_sep(vs@.map_values(|v: String| v@)),
{
    let ghost views = vs@.map_values(|v: String| v@);
    let mut s = String::new();
    let mut i: usize = 0;
    while i < vs.len()
        invariant
            i <= vs.len(),
            views == vs@.map_values(|v: String| v@),
            s@ == join_sep(views.take(i as int)),
        decreases vs.len() - i,
    {
        if i > 0 {
            s.append("; ");
        }
        s.append(vs[i].as_str());
        proof {
            assert(views.take(i + 1).drop_last() =~= views.take(i as int));
            assert(views.take(i + 1).last() == views[i as int]);
            assert(s@ =~= join_sep(views.take(i + 1)));
        }
        i = i + 1;
    }
    proof {
        assert(views.take(vs@.len() as int) =~= views);
    }
    s
}

} // verus!
