//! The schema: records and variant groups as the front-end hands them over.

use vstd::prelude::*;

verus! {

/// A type as written in a field.
#[derive(Debug)]
pub enum TypeExpr {
    /// A named type (the last segment of its path) with its type arguments.
    Path { name: String, args: Vec<TypeExpr> },
    /// A shared reference `&T`.
    Reference(Box<TypeExpr>),
    /// A slice `[T]`.
    Slice(Box<TypeExpr>),
    /// An array `[T; N]`.
    Array(Box<TypeExpr>),
}

/// One generic parameter of an entity.
#[derive(Clone, Debug)]
pub struct GenericParam {
    /// The parameter as declared, bounds included (`T: Clone`, `'a`).
    pub decl: String,
    /// The parameter as an argument of the entity's type (`T`, `'a`).
    pub arg: String,
    /// Whether this is a type parameter (not a lifetime or a constant).
    pub is_type: bool,
}

/// The generic parameters of an entity and its `where` clause, as written.
#[derive(Clone, Debug)]
pub struct Generics {
    pub params: Vec<GenericParam>,
    /// The `where` clause, keyword included.
    pub where_clause: Option<String>,
}

#[derive(Debug)]
pub struct NamedField {
    pub name: String,
    pub ty: TypeExpr,
}

/// The fields of a record or of a variant, in declaration order.
#[derive(Debug)]
pub enum Fields {
    Named(Vec<NamedField>),
    Unnamed(Vec<TypeExpr>),
    Unit,
}

/// A record (`struct`).
#[derive(Debug)]
pub struct Record {
    pub ident: String,
    pub generics: Generics,
    pub fields: Fields,
}

#[derive(Debug)]
pub struct Variant {
    pub ident: String,
    pub fields: Fields,
}

/// A variant group (`enum`).
#[derive(Debug)]
pub struct VariantGroup {
    pub ident: String,
    pub generics: Generics,
    pub variants: Vec<Variant>,
}

/// The types of a field list, in declaration order.
pub open spec fn field_types(fields: Fields) -> Seq<TypeExpr> {
    match fields {
        Fields::Named(fs) => fs@.map_values(|f: NamedField| f.ty),
        Fields::Unnamed(ts) => ts@,
        Fields::Unit => Seq::empty(),
    }
}

/// The names of the type parameters among generic parameters.
pub open spec fn type_param_names(ps: Seq<GenericParam>) -> Seq<Seq<char>>
    decreases ps.len(),
{
    if ps.len() == 0 {
        Seq::empty()
    } else if ps.last().is_type {
        type_param_names(ps.drop_last()).push(ps.last().arg@)
    } else {
        type_param_names(ps.drop_last())
    }
}

} // verus!
