//! Small text pieces of generated code: decimal numbers and comma-separated lists.

use vstd::prelude::*;
use vstd::string::StringExecFns;

verus! {

pub open spec fn digit(d: nat) -> char {
    if d == 0 { '0' } else if d == 1 { '1' } else if d == 2 { '2' } else if d == 3 { '3' }
    else if d == 4 { '4' } else if d == 5 { '5' } else if d == 6 { '6' } else if d == 7 { '7' }
    else if d == 8 { '8' } else { '9' }
}

/// The decimal digits of `n`, most significant first.
pub open spec fn decimal(n: nat) -> Seq<char>
    decreases n,
{
    if n < 10 {
        seq![digit(n)]
    } else {
        decimal(n / 10) + seq![digit(n % 10)]
    }
}

/// The items separated by `, `.
pub open spec fn join(xs: Seq<Seq<char>>) -> Seq<char>
    decreases xs.len(),
{
    if xs.len() == 0 {
        Seq::empty()
    } else if xs.len() == 1 {
        xs[0]
    } else {
        join(xs.drop_last()) + ", "@ + xs.last()
    }
}

/// `<items>`, or nothing when there are none.
pub open spec fn angle_list(xs: Seq<Seq<char>>) -> Seq<char> {
    if xs.len() == 0 {
        Seq::empty()
    } else {
        "<"@ + join(xs) + ">"@
    }
}

fn digit_str(d: usize) -> (r: &'static str)
    requires
        d < 10,
    ensures
        r@ == seq![digit(d as nat)],
{
    proof {
        reveal_strlit("0");
        reveal_strlit("1");
        reveal_strlit("2");
        reveal_strlit("3");
        reveal_strlit("4");
        reveal_strlit("5");
        reveal_strlit("6");
        reveal_strlit("7");
        reveal_strlit("8");
        reveal_strlit("9");
    }
    if d == 0 { "0" } else if d == 1 { "1" } else if d == 2 { "2" } else if d == 3 { "3" }
    else if d == 4 { "4" } else if d == 5 { "5" } else if d == 6 { "6" } else if d == 7 { "7" }
    else if d == 8 { "8" } else { "9" }
}

/// The decimal form of `n`.
pub fn decimal_string(n: usize) -> (r: String)
    ensures
        r@ == decimal(n as nat),
    decreases n,
{
    if n < 10 {
        String::from_str(digit_str(n))
    } else {
        decimal_string(n / 10).concat(digit_str(n % 10))
    }
}

/// Joins the items with `, `.
pub fn join_strings(xs: &Vec<String>) -> (r: String)
    ensures
        r@ == join(xs@.map_values(|s: String| s@)),
{
    let ghost v = xs@.map_values(|s: String| s@);
    if xs.len() == 0 {
        return String::new();
    }
    let mut r = xs[0].clone();
    let mut i: usize = 1;
    assert(v.take(1).len() == 1);
    while i < xs.len()
        invariant
            1 <= i <= xs.len(),
            v == xs@.map_values(|s: String| s@),
            r@ == join(v.take(i as int)),
        decreases xs.len() - i,
    {
        r = r.concat(", ").concat(xs[i].as_str());
        assert(v.take(i + 1).drop_last() =~= v.take(i as int));
        i += 1;
    }
    assert(v.take(i as int) =~= v);
    r
}

/// `<items>` separated by `, `, or nothing when there are none.
pub fn angle_list_string(xs: &Vec<String>) -> (r: String)
    ensures
        r@ == angle_list(xs@.map_values(|s: String| s@)),
{
    if xs.len() == 0 {
        String::new()
    } else {
        String::from_str("<").concat(join_strings(xs).as_str()).concat(">")
    }
}

} // verus!
