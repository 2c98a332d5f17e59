//! Method and trait names derived from entity identifiers.

use vstd::prelude::*;
use vstd::string::StringExecFns;
use case::CaseExt;

verus! {

/// Whether `c` is an ASCII upper-case letter.
pub open spec fn is_upper(c: char) -> bool {
    'A' <= c && c <= 'Z'
}

/// The ASCII lower-case counterpart of an upper-case letter; other characters stay.
pub open spec fn lower(c: char) -> char {
    if is_upper(c) {
        ((c as u32) + 32) as char
    } else {
        c
    }
}

/// Every upper-case letter becomes an underscore followed by its lower-case form.
pub open spec fn snake_rest(s: Seq<char>) -> Seq<char>
    decreases s.len(),
{
    if s.len() == 0 {
        Seq::empty()
    } else {
        let head = if is_upper(s[0]) { seq!['_', lower(s[0])] } else { seq![s[0]] };
        head + snake_rest(s.drop_first())
    }
}

/// The word-separated lower-case form of an identifier (`BarItem` becomes
/// `bar_item`): a leading upper-case letter is lowered without a separator.
pub open spec fn snake_case(s: Seq<char>) -> Seq<char> {
    if s.len() == 0 {
        Seq::empty()
    } else {
        seq![lower(s[0])] + snake_rest(s.drop_first())
    }
}

/// The name of the hook method with the given prefix for an entity.
pub open spec fn method_name(prefix: Seq<char>, ident: Seq<char>) -> Seq<char> {
    prefix + seq!['_'] + snake_case(ident)
}

/// The placeholder parameter name of a hook method for an entity.
pub open spec fn param_name(ident: Seq<char>) -> Seq<char> {
    seq!['_'] + snake_case(ident)
}

/// The name of the accept trait that goes with a visitor trait.
pub open spec fn accept_trait_name(visitor: Seq<char>) -> Seq<char> {
    "Accept"@ + visitor
}

/// Relies on `case::CaseExt::to_snake` for `str`: each ASCII upper-case letter is
/// lowered, and preceded by an underscore unless it is the first character.
#[verifier::external_body]
fn to_snake(s: &str) -> (r: String)
    ensures
        r@ == snake_case(s@),
{
    s.to_snake()
}

/// The hook method name `<prefix>_<snake case of ident>`.
pub fn prefixed_fn_ident(prefix: &str, ident: &str) -> (r: String)
    ensures
        r@ == method_name(prefix@, ident@),
{
    let mut r = String::from_str(prefix);
    r.append("_");
    let snake = to_snake(ident);
    r.append(snake.as_str());
    proof {
        reveal_strlit("_");
    }
    r
}

/// The placeholder parameter name `_<snake case of ident>`.
pub fn param_ident(ident: &str) -> (r: String)
    ensures
        r@ == param_name(ident@),
{
    let mut r = String::from_str("_");
    let snake = to_snake(ident);
    r.append(snake.as_str());
    proof {
        reveal_strlit("_");
    }
    r
}

} // verus!
