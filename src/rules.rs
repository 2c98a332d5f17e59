//! The traversal rules: what the synthesized code does with a field of each
//! type shape.

use vstd::prelude::*;
use vstd::string::StringExecFns;
use crate::schema::TypeExpr;

verus! {

/// What traversal does with a value of some type.
#[derive(Clone, Copy, Debug, PartialEq, Eq, Structural)]
pub enum Action {
    /// Call the accept code of an entity (or of a generic parameter bound to be acceptable).
    Recurse,
    /// Visit each element in sequence order.
    Iterate,
    /// Visit each element in the set's own iteration order.
    IterateUnordered,
    /// Visit the contained value, if any.
    IfPresent,
    /// Visit the pointee once.
    Unwrap,
    /// Visit the referenced value.
    Borrowed,
    /// Nothing: a leaf.
    Ignore,
}

/// The generic wrappers with a built-in rule, named by their type's name.
#[derive(Clone, Copy, Debug, PartialEq, Eq, Structural)]
pub enum Wrapper {
    Vec,
    HashSet,
    Option,
    Box,
    Rc,
    Arc,
}

pub open spec fn wrapper_named(name: Seq<char>) -> Option<Wrapper> {
    if name == "Vec"@ {
        Some(Wrapper::Vec)
    } else if name == "HashSet"@ {
        Some(Wrapper::HashSet)
    } else if name == "Option"@ {
        Some(Wrapper::Option)
    } else if name == "Box"@ {
        Some(Wrapper::Box)
    } else if name == "Rc"@ {
        Some(Wrapper::Rc)
    } else if name == "Arc"@ {
        Some(Wrapper::Arc)
    } else {
        None
    }
}

pub open spec fn wrapper_action(w: Wrapper) -> Action {
    match w {
        Wrapper::Vec => Action::Iterate,
        Wrapper::HashSet => Action::IterateUnordered,
        Wrapper::Option => Action::IfPresent,
        Wrapper::Box | Wrapper::Rc | Wrapper::Arc => Action::Unwrap,
    }
}

/// The names of the leaf kinds: fixed-width integers, floats, `bool` and text.
pub open spec fn leaf_names() -> Seq<Seq<char>> {
    seq![
        "u8"@, "u16"@, "u32"@, "u64"@, "u128"@, "i8"@, "i16"@, "i32"@, "i64"@, "i128"@,
        "usize"@, "isize"@, "f32"@, "f64"@, "bool"@, "String"@, "str"@,
    ]
}

/// The action for the outermost layer of `ty`, where `entities` are the names
/// of the schema's entities and `params` the type parameters in scope; `None`
/// where nothing is registered for it.
pub open spec fn action_of(entities: Seq<Seq<char>>, params: Seq<Seq<char>>, ty: TypeExpr) -> Option<Action> {
    match ty {
        TypeExpr::Reference(_) => Some(Action::Borrowed),
        TypeExpr::Slice(_) => Some(Action::Iterate),
        TypeExpr::Array(_) => Some(Action::Iterate),
        TypeExpr::Path { name, args } => {
            if args.len() == 0 && params.contains(name@) {
                Some(Action::Recurse)
            } else if entities.contains(name@) {
                Some(Action::Recurse)
            } else if args.len() == 0 && leaf_names().contains(name@) {
                Some(Action::Ignore)
            } else if args.len() == 1 && wrapper_named(name@) is Some {
                Some(wrapper_action(wrapper_named(name@)->0))
            } else {
                None
            }
        },
    }
}

/// The first name in `ty`, outside in, that resolves to no rule; `None` when
/// every layer of `ty` is registered.
pub open spec fn unregistered_in(entities: Seq<Seq<char>>, params: Seq<Seq<char>>, ty: TypeExpr) -> Option<Seq<char>>
    decreases ty,
{
    match ty {
        TypeExpr::Reference(inner) => unregistered_in(entities, params, *inner),
        TypeExpr::Slice(inner) => unregistered_in(entities, params, *inner),
        TypeExpr::Array(inner) => unregistered_in(entities, params, *inner),
        TypeExpr::Path { name, args } => match action_of(entities, params, ty) {
            None => Some(name@),
            Some(Action::Recurse) => None,
            Some(Action::Ignore) => None,
            Some(_) => if args.len() == 1 {
                unregistered_in(entities, params, args[0])
            } else {
                None
            },
        },
    }
}

/// The view of a list of strings.
pub open spec fn names_view(v: Seq<String>) -> Seq<Seq<char>> {
    v.map_values(|s: String| s@)
}

/// Whether `n` is one of `v`.
pub fn contains_name(v: &Vec<String>, n: &String) -> (r: bool)
    ensures
        r == names_view(v@).contains(n@),
{
    let mut i: usize = 0;
    while i < v.len()
        invariant
            i <= v.len(),
            forall|k: int| 0 <= k < i ==> names_view(v@)[k] != n@,
        decreases v.len() - i,
    {
        if v[i] == *n {
            assert(names_view(v@)[i as int] == n@);
            return true;
        }
        i += 1;
    }
    false
}

/// The names of the leaf kinds.
pub fn leaf_kinds() -> (r: Vec<String>)
    ensures
        names_view(r@) == leaf_names(),
{
    let mut r: Vec<String> = Vec::new();
    r.push(String::from_str("u8"));
    r.push(String::from_str("u16"));
    r.push(String::from_str("u32"));
    r.push(String::from_str("u64"));
    r.push(String::from_str("u128"));
    r.push(String::from_str("i8"));
    r.push(String::from_str("i16"));
    r.push(String::from_str("i32"));
    r.push(String::from_str("i64"));
    r.push(String::from_str("i128"));
    r.push(String::from_str("usize"));
    r.push(String::from_str("isize"));
    r.push(String::from_str("f32"));
    r.push(String::from_str("f64"));
    r.push(String::from_str("bool"));
    r.push(String::from_str("String"));
    r.push(String::from_str("str"));
    assert(names_view(r@) =~= leaf_names());
    r
}

/// The wrapper registered under a type name.
pub fn wrapper_of(name: &String) -> (r: Option<Wrapper>)
    ensures
        r == wrapper_named(name@),
{
    if *name == String::from_str("Vec") {
        Some(Wrapper::Vec)
    } else if *name == String::from_str("HashSet") {
        Some(Wrapper::HashSet)
    } else if *name == String::from_str("Option") {
        Some(Wrapper::Option)
    } else if *name == String::from_str("Box") {
        Some(Wrapper::Box)
    } else if *name == String::from_str("Rc") {
        Some(Wrapper::Rc)
    } else if *name == String::from_str("Arc") {
        Some(Wrapper::Arc)
    } else {
        None
    }
}

/// Resolves the outermost layer of a field type to its rule.
pub fn action_for(entities: &Vec<String>, params: &Vec<String>, ty: &TypeExpr) -> (r: Option<Action>)
    ensures
        r == action_of(names_view(entities@), names_view(params@), *ty),
{
    match ty {
        TypeExpr::Reference(_) => Some(Action::Borrowed),
        TypeExpr::Slice(_) => Some(Action::Iterate),
        TypeExpr::Array(_) => Some(Action::Iterate),
        TypeExpr::Path { name, args } => {
            if args.len() == 0 && contains_name(params, name) {
                Some(Action::Recurse)
            } else if contains_name(entities, name) {
                Some(Action::Recurse)
            } else if args.len() == 0 && contains_name(&leaf_kinds(), name) {
                Some(Action::Ignore)
            } else if args.len() == 1 {
                match wrapper_of(name) {
                    Some(Wrapper::Vec) => Some(Action::Iterate),
                    Some(Wrapper::HashSet) => Some(Action::IterateUnordered),
                    Some(Wrapper::Option) => Some(Action::IfPresent),
                    Some(_) => Some(Action::Unwrap),
                    None => None,
                }
            } else {
                None
            }
        },
    }
}

/// Checks that every layer of a field type is registered; returns the first
/// name that is not.
pub fn find_unregistered(entities: &Vec<String>, params: &Vec<String>, ty: &TypeExpr) -> (r: Option<String>)
    ensures
        match (r, unregistered_in(names_view(entities@), names_view(params@), *ty)) {
            (Some(n), Some(m)) => n@ == m,
            (None, None) => true,
            _ => false,
        },
    decreases ty,
{
    match ty {
        TypeExpr::Reference(inner) => find_unregistered(entities, params, inner),
        TypeExpr::Slice(inner) => find_unregistered(entities, params, inner),
        TypeExpr::Array(inner) => find_unregistered(entities, params, inner),
        TypeExpr::Path { name, args } => match action_for(entities, params, ty) {
            None => Some(name.clone()),
            Some(Action::Recurse) => None,
            Some(Action::Ignore) => None,
            Some(_) => if args.len() == 1 {
                find_unregistered(entities, params, &args[0])
            } else {
                None
            },
        },
    }
}

} // verus!
