//! Synthesis of the visitor trait, the accept trait, the built-in accept
//! impls and the accept impls of the schema's entities, for one configuration.

use vstd::prelude::*;
use vstd::string::StringExecFns;
use crate::diag::{Diagnostic, DiagnosticView};
use crate::naming::{accept_trait_name, method_name, param_name, param_ident, prefixed_fn_ident};
use crate::parse::{configs_from, get_visitor_trait_configs, ConfView, ConfigDirective, VisitorTraitConf};
use crate::rules::{find_unregistered, leaf_kinds, leaf_names, names_view, unregistered_in};
use crate::schema::{
    field_types, type_param_names, Fields, GenericParam, Generics, NamedField, Record, TypeExpr,
    Variant, VariantGroup,
};
use crate::text::{angle_list, angle_list_string, decimal, decimal_string, join, join_strings};

verus! {

// ---------------------------------------------------------------------------
// The generated text, stated piece by piece.

/// `<decl, ...>`: the generic parameters as declared.
pub open spec fn decls(g: Generics) -> Seq<char> {
    angle_list(g.params@.map_values(|p: GenericParam| p.decl@))
}

/// `<arg, ...>`: the generic parameters as arguments of the entity's type.
pub open spec fn args(g: Generics) -> Seq<char> {
    angle_list(g.params@.map_values(|p: GenericParam| p.arg@))
}

pub open spec fn where_text(g: Generics) -> Seq<char> {
    match g.where_clause {
        Some(w) => " "@ + w@,
        None => Seq::empty(),
    }
}

pub open spec fn pub_kw(public: bool) -> Seq<char> {
    if public {
        "pub "@
    } else {
        Seq::empty()
    }
}

/// The call of a hook, when the configuration has its prefix.
pub open spec fn hook_line(prefix: Option<Seq<char>>, ident: Seq<char>) -> Seq<char> {
    match prefix {
        Some(p) => "        visitor."@ + method_name(p, ident) + "(self);\n"@,
        None => Seq::empty(),
    }
}

/// How the fields are reached from `self`: their names, or their positions.
pub open spec fn accessors(fields: Fields) -> Seq<Seq<char>> {
    match fields {
        Fields::Named(fs) => fs@.map_values(|f: NamedField| f.name@),
        Fields::Unnamed(ts) => Seq::new(ts.len() as nat, |i: int| decimal(i as nat)),
        Fields::Unit => Seq::empty(),
    }
}

/// One accept call per field of `self`, in order.
pub open spec fn self_accept_lines(a: Seq<char>, xs: Seq<Seq<char>>) -> Seq<char>
    decreases xs.len(),
{
    if xs.len() == 0 {
        Seq::empty()
    } else {
        self_accept_lines(a, xs.drop_last()) + ("        "@ + a + "::accept(&self."@ + xs.last()
            + ", visitor);\n"@)
    }
}

/// One accept call per bound variable, in order.
pub open spec fn binding_lines(a: Seq<char>, xs: Seq<Seq<char>>) -> Seq<char>
    decreases xs.len(),
{
    if xs.len() == 0 {
        Seq::empty()
    } else {
        binding_lines(a, xs.drop_last()) + ("                "@ + a + "::accept("@ + xs.last()
            + ", visitor);\n"@)
    }
}

/// `x0`, `x1`, ...: the variables bound to positional fields.
pub open spec fn positional_names(n: nat) -> Seq<Seq<char>> {
    Seq::new(n, |i: int| "x"@ + decimal(i as nat))
}

/// An impl of the accept trait for `target`, with the entity's generics.
pub open spec fn accept_impl(a: Seq<char>, vn: Seq<char>, g: Generics, target: Seq<char>, body: Seq<char>) -> Seq<char> {
    "impl"@ + decls(g) + " "@ + a + " for "@ + target + args(g) + where_text(g)
        + " {\n    fn accept<V: "@ + vn + ">(&self, visitor: &mut V) {\n"@ + body + "    }\n}\n"@
}

/// A record's accept body: enter hook, each field in declaration order, leave hook.
pub open spec fn record_body(c: ConfView, r: Record) -> Seq<char> {
    hook_line(c.enter, r.ident@) + self_accept_lines(accept_trait_name(c.name), accessors(r.fields))
        + hook_line(c.leave, r.ident@)
}

/// The accept impls of a record, for the owned and the borrowed form.
pub open spec fn record_impls(c: ConfView, r: Record) -> Seq<char> {
    accept_impl(accept_trait_name(c.name), c.name, r.generics, r.ident@, record_body(c, r))
        + accept_impl(accept_trait_name(c.name), c.name, r.generics, "&"@ + r.ident@, record_body(c, r))
}

/// The match arm of one variant: its fields are bound and accepted in order.
pub open spec fn variant_arm(a: Seq<char>, e: Seq<char>, v: Variant) -> Seq<char> {
    match v.fields {
        Fields::Named(fs) => "            "@ + e + "::"@ + v.ident@ + " { "@ + join(
            fs@.map_values(|f: NamedField| f.name@),
        ) + " } => {\n"@ + binding_lines(a, fs@.map_values(|f: NamedField| f.name@))
            + "            }\n"@,
        Fields::Unnamed(ts) => "            "@ + e + "::"@ + v.ident@ + "("@ + join(
            positional_names(ts.len() as nat),
        ) + ") => {\n"@ + binding_lines(a, positional_names(ts.len() as nat)) + "            }\n"@,
        Fields::Unit => "            "@ + e + "::"@ + v.ident@ + " => {}\n"@,
    }
}

pub open spec fn variant_arms(a: Seq<char>, e: Seq<char>, vs: Seq<Variant>) -> Seq<char>
    decreases vs.len(),
{
    if vs.len() == 0 {
        Seq::empty()
    } else {
        variant_arms(a, e, vs.drop_last()) + variant_arm(a, e, vs.last())
    }
}

/// A variant group's accept body: enter hook, one arm per variant, leave hook.
pub open spec fn group_body(c: ConfView, g: VariantGroup) -> Seq<char> {
    hook_line(c.enter, g.ident@) + "        match self {\n"@ + variant_arms(
        accept_trait_name(c.name),
        g.ident@,
        g.variants@,
    ) + "        }\n"@ + hook_line(c.leave, g.ident@)
}

/// The accept impls of a variant group, for the owned and the borrowed form.
pub open spec fn group_impls(c: ConfView, g: VariantGroup) -> Seq<char> {
    accept_impl(accept_trait_name(c.name), c.name, g.generics, g.ident@, group_body(c, g))
        + accept_impl(accept_trait_name(c.name), c.name, g.generics, "&"@ + g.ident@, group_body(c, g))
}

pub open spec fn all_record_impls(c: ConfView, rs: Seq<Record>) -> Seq<char>
    decreases rs.len(),
{
    if rs.len() == 0 {
        Seq::empty()
    } else {
        all_record_impls(c, rs.drop_last()) + record_impls(c, rs.last())
    }
}

pub open spec fn all_group_impls(c: ConfView, gs: Seq<VariantGroup>) -> Seq<char>
    decreases gs.len(),
{
    if gs.len() == 0 {
        Seq::empty()
    } else {
        all_group_impls(c, gs.drop_last()) + group_impls(c, gs.last())
    }
}

/// The hook method of one entity, with a no-op default body.
pub open spec fn visitor_fn(prefix: Seq<char>, ident: Seq<char>, g: Generics) -> Seq<char> {
    "    fn "@ + method_name(prefix, ident) + decls(g) + "(&mut self, "@ + param_name(ident) + ": &"@
        + ident + args(g) + ")"@ + where_text(g) + " {}\n"@
}

pub open spec fn record_fns(prefix: Seq<char>, rs: Seq<Record>) -> Seq<char>
    decreases rs.len(),
{
    if rs.len() == 0 {
        Seq::empty()
    } else {
        record_fns(prefix, rs.drop_last()) + visitor_fn(prefix, rs.last().ident@, rs.last().generics)
    }
}

pub open spec fn group_fns(prefix: Seq<char>, gs: Seq<VariantGroup>) -> Seq<char>
    decreases gs.len(),
{
    if gs.len() == 0 {
        Seq::empty()
    } else {
        group_fns(prefix, gs.drop_last()) + visitor_fn(prefix, gs.last().ident@, gs.last().generics)
    }
}

/// The hook methods with one prefix: one per record, then one per variant group.
pub open spec fn function_defs(prefix: Option<Seq<char>>, rs: Seq<Record>, gs: Seq<VariantGroup>) -> Seq<char> {
    match prefix {
        Some(p) => record_fns(p, rs) + group_fns(p, gs),
        None => Seq::empty(),
    }
}

/// The visitor trait: the enter hooks, then the leave hooks.
pub open spec fn visitor_trait(c: ConfView, rs: Seq<Record>, gs: Seq<VariantGroup>) -> Seq<char> {
    pub_kw(c.public) + "trait "@ + c.name + " {\n"@ + function_defs(c.enter, rs, gs) + function_defs(
        c.leave,
        rs,
        gs,
    ) + "}\n"@
}

/// The accept trait, generic over any implementation of the visitor trait.
pub open spec fn accept_trait(c: ConfView) -> Seq<char> {
    pub_kw(c.public) + "trait "@ + accept_trait_name(c.name) + " {\n    fn accept<V: "@ + c.name
        + ">(&self, visitor: &mut V);\n}\n"@
}

/// The accept impl of a sequence or set container: each element in iteration order.
pub open spec fn iter_impl(a: Seq<char>, vn: Seq<char>, params: Seq<char>, target: Seq<char>, extra: Seq<char>) -> Seq<char> {
    "impl"@ + params + " "@ + a + " for "@ + target + "\nwhere\n    TItem: "@ + a + extra
        + ",\n{\n    fn accept<V: "@ + vn
        + ">(&self, visitor: &mut V) {\n        for item in self.iter() {\n            item.accept(visitor);\n        }\n    }\n}\n"@
}

/// The accept impl of `Option`: the contained value, if any.
pub open spec fn option_impl(a: Seq<char>, vn: Seq<char>) -> Seq<char> {
    "impl<T> "@ + a + " for Option<T>\nwhere\n    T: "@ + a + ",\n{\n    fn accept<V: "@ + vn
        + ">(&self, visitor: &mut V) {\n        if let Some(inner) = self {\n            inner.accept(visitor);\n        }\n    }\n}\n"@
}

/// The accept impl of a pointer: the pointee, once.
pub open spec fn pointer_impl(a: Seq<char>, vn: Seq<char>, target: Seq<char>) -> Seq<char> {
    "impl<T> "@ + a + " for "@ + target + "\nwhere\n    T: "@ + a + ",\n{\n    fn accept<V: "@ + vn
        + ">(&self, visitor: &mut V) {\n        <Self as std::ops::Deref>::deref(self).accept(visitor);\n    }\n}\n"@
}

/// Text is accepted through `&str`; every other leaf kind as itself.
pub open spec fn leaf_target(n: Seq<char>) -> Seq<char> {
    if n == "str"@ {
        "&str"@
    } else {
        n
    }
}

/// The accept impl of a leaf kind: nothing to do.
pub open spec fn leaf_impl(a: Seq<char>, vn: Seq<char>, n: Seq<char>) -> Seq<char> {
    "impl "@ + a + " for "@ + leaf_target(n) + " {\n    fn accept<V: "@ + vn
        + ">(&self, _visitor: &mut V) {}\n}\n"@
}

pub open spec fn leaf_impls(a: Seq<char>, vn: Seq<char>, ns: Seq<Seq<char>>) -> Seq<char>
    decreases ns.len(),
{
    if ns.len() == 0 {
        Seq::empty()
    } else {
        leaf_impls(a, vn, ns.drop_last()) + leaf_impl(a, vn, ns.last())
    }
}

/// The built-in accept impls: one per registered container, pointer and leaf kind.
pub open spec fn builtin_impls(a: Seq<char>, vn: Seq<char>) -> Seq<char> {
    iter_impl(a, vn, "<TItem>"@, "[TItem]"@, ""@) + iter_impl(a, vn, "<TItem>"@, "&[TItem]"@, ""@)
        + iter_impl(a, vn, "<TItem, const N: usize>"@, "[TItem; N]"@, ""@) + iter_impl(
        a,
        vn,
        "<TItem>"@,
        "Vec<TItem>"@,
        ""@,
    ) + iter_impl(a, vn, "<TItem>"@, "std::collections::HashSet<TItem>"@, " + Eq + std::hash::Hash"@)
        + option_impl(a, vn) + pointer_impl(a, vn, "Box<T>"@) + pointer_impl(a, vn, "std::rc::Rc<T>"@)
        + pointer_impl(a, vn, "std::sync::Arc<T>"@) + leaf_impls(a, vn, leaf_names())
}

/// Everything generated for one configuration.
#[verifier::opaque]
pub open spec fn unit_text(c: ConfView, rs: Seq<Record>, gs: Seq<VariantGroup>) -> Seq<char> {
    visitor_trait(c, rs, gs) + accept_trait(c) + builtin_impls(accept_trait_name(c.name), c.name)
        + all_record_impls(c, rs) + all_group_impls(c, gs)
}

// ---------------------------------------------------------------------------
// Which schemas can be generated.

/// The identifiers of all entities: records, then variant groups.
pub open spec fn entity_names(rs: Seq<Record>, gs: Seq<VariantGroup>) -> Seq<Seq<char>> {
    rs.map_values(|r: Record| r.ident@) + gs.map_values(|g: VariantGroup| g.ident@)
}

/// Whether every field type resolves, with the given entities and type parameters.
pub open spec fn fields_resolve(ents: Seq<Seq<char>>, params: Seq<Seq<char>>, fields: Fields) -> bool {
    forall|k: int|
        0 <= k < field_types(fields).len() ==> unregistered_in(ents, params, #[trigger] field_types(fields)[k])
            is None
}

pub open spec fn record_resolves(ents: Seq<Seq<char>>, r: Record) -> bool {
    fields_resolve(ents, type_param_names(r.generics.params@), r.fields)
}

pub open spec fn group_resolves(ents: Seq<Seq<char>>, g: VariantGroup) -> bool {
    forall|j: int|
        0 <= j < g.variants.len() ==> fields_resolve(
            ents,
            type_param_names(g.generics.params@),
            (#[trigger] g.variants@[j]).fields,
        )
}

/// Whether every field type of every entity resolves to a traversal rule.
pub open spec fn schema_resolves(rs: Seq<Record>, gs: Seq<VariantGroup>) -> bool {
    &&& forall|i: int| 0 <= i < rs.len() ==> record_resolves(entity_names(rs, gs), #[trigger] rs[i])
    &&& forall|i: int| 0 <= i < gs.len() ==> group_resolves(entity_names(rs, gs), #[trigger] gs[i])
}

/// Whether `ty` is the unresolved name of a field of a field list.
pub open spec fn fields_report(ents: Seq<Seq<char>>, params: Seq<Seq<char>>, fields: Fields, ty: Seq<char>) -> bool {
    exists|k: int|
        0 <= k < field_types(fields).len() && unregistered_in(ents, params, #[trigger] field_types(fields)[k])
            == Some(ty)
}

/// Whether entity `e` has a field whose type fails to resolve at the name `ty`.
pub open spec fn is_unregistered_report(rs: Seq<Record>, gs: Seq<VariantGroup>, e: Seq<char>, ty: Seq<char>) -> bool {
    ||| exists|i: int|
        0 <= i < rs.len() && (#[trigger] rs[i]).ident@ == e && fields_report(
            entity_names(rs, gs),
            type_param_names(rs[i].generics.params@),
            rs[i].fields,
            ty,
        )
    ||| exists|i: int, j: int|
        0 <= i < gs.len() && 0 <= j < gs[i].variants.len() && (#[trigger] gs[i]).ident@ == e
            && fields_report(
            entity_names(rs, gs),
            type_param_names(gs[i].generics.params@),
            (#[trigger] gs[i].variants@[j]).fields,
            ty,
        )
}

/// The outcome of generating for one configuration.
pub open spec fn generate_ok(c: ConfView, rs: Seq<Record>, gs: Seq<VariantGroup>, r: Result<String, Diagnostic>) -> bool {
    match r {
        Ok(text) => schema_resolves(rs, gs) && text@ == unit_text(c, rs, gs),
        Err(e) => !schema_resolves(rs, gs) && match e@ {
            DiagnosticView::UnregisteredType { entity, ty } => is_unregistered_report(rs, gs, entity, ty),
            _ => false,
        },
    }
}

// ---------------------------------------------------------------------------
// Building the text.

fn field_names(fs: &Vec<NamedField>) -> (r: Vec<String>)
    ensures
        names_view(r@) == fs@.map_values(|f: NamedField| f.name@),
{
    let mut r: Vec<String> = Vec::new();
    let mut i: usize = 0;
    while i < fs.len()
        invariant
            i <= fs.len(),
            names_view(r@) == fs@.take(i as int).map_values(|f: NamedField| f.name@),
        decreases fs.len() - i,
    {
        r.push(fs[i].name.clone());
        assert(fs@.take(i + 1).map_values(|f: NamedField| f.name@) =~= fs@.take(i as int).map_values(
            |f: NamedField| f.name@,
        ).push(fs@[i as int].name@));
        assert(names_view(r@) =~= fs@.take(i + 1).map_values(|f: NamedField| f.name@));
        i += 1;
    }
    assert(fs@.take(i as int) =~= fs@);
    r
}

/// `0`, `1`, ...: the positions of `n` positional fields.
fn index_names(n: usize) -> (r: Vec<String>)
    ensures
        names_view(r@) == Seq::new(n as nat, |i: int| decimal(i as nat)),
{
    let mut r: Vec<String> = Vec::new();
    let mut i: usize = 0;
    while i < n
        invariant
            i <= n,
            names_view(r@) == Seq::new(i as nat, |k: int| decimal(k as nat)),
        decreases n - i,
    {
        let ghost before = names_view(r@);
        let d = decimal_string(i);
        r.push(d);
        assert(names_view(r@) =~= before.push(d@));
        assert(names_view(r@) =~= Seq::new((i + 1) as nat, |k: int| decimal(k as nat)));
        i += 1;
    }
    r
}

fn positional_vars(n: usize) -> (r: Vec<String>)
    ensures
        names_view(r@) == positional_names(n as nat),
{
    let mut r: Vec<String> = Vec::new();
    let mut i: usize = 0;
    while i < n
        invariant
            i <= n,
            names_view(r@) == positional_names(i as nat),
        decreases n - i,
    {
        let ghost before = names_view(r@);
        let x = String::from_str("x").concat(decimal_string(i).as_str());
        r.push(x);
        assert(names_view(r@) =~= before.push(x@));
        assert(names_view(r@) =~= positional_names((i + 1) as nat));
        i += 1;
    }
    r
}

fn field_accessors(fields: &Fields) -> (r: Vec<String>)
    ensures
        names_view(r@) == accessors(*fields),
{
    match fields {
        Fields::Named(fs) => field_names(fs),
        Fields::Unnamed(ts) => index_names(ts.len()),
        Fields::Unit => {
            let r: Vec<String> = Vec::new();
            assert(names_view(r@) =~= Seq::<Seq<char>>::empty());
            r
        },
    }
}

fn param_texts(g: &Generics, decl: bool) -> (r: Vec<String>)
    ensures
        decl ==> names_view(r@) == g.params@.map_values(|p: GenericParam| p.decl@),
        !decl ==> names_view(r@) == g.params@.map_values(|p: GenericParam| p.arg@),
{
    let mut r: Vec<String> = Vec::new();
    let mut i: usize = 0;
    while i < g.params.len()
        invariant
            i <= g.params.len(),
            decl ==> names_view(r@) == g.params@.take(i as int).map_values(|p: GenericParam| p.decl@),
            !decl ==> names_view(r@) == g.params@.take(i as int).map_values(|p: GenericParam| p.arg@),
        decreases g.params.len() - i,
    {
        if decl {
            r.push(g.params[i].decl.clone());
        } else {
            r.push(g.params[i].arg.clone());
        }
        assert(g.params@.take(i + 1).map_values(|p: GenericParam| p.decl@) =~= g.params@.take(
            i as int,
        ).map_values(|p: GenericParam| p.decl@).push(g.params@[i as int].decl@));
        assert(g.params@.take(i + 1).map_values(|p: GenericParam| p.arg@) =~= g.params@.take(
            i as int,
        ).map_values(|p: GenericParam| p.arg@).push(g.params@[i as int].arg@));
        proof {
            if decl {
                assert(names_view(r@) =~= g.params@.take(i + 1).map_values(|p: GenericParam| p.decl@));
            } else {
                assert(names_view(r@) =~= g.params@.take(i + 1).map_values(|p: GenericParam| p.arg@));
            }
        }
        i += 1;
    }
    assert(g.params@.take(i as int) =~= g.params@);
    r
}

fn decl_list(g: &Generics) -> (r: String)
    ensures
        r@ == decls(*g),
{
    angle_list_string(&param_texts(g, true))
}

fn arg_list(g: &Generics) -> (r: String)
    ensures
        r@ == args(*g),
{
    angle_list_string(&param_texts(g, false))
}

fn where_code(g: &Generics) -> (r: String)
    ensures
        r@ == where_text(*g),
{
    match &g.where_clause {
        Some(w) => String::from_str(" ").concat(w.as_str()),
        None => String::new(),
    }
}

/// The names of the type parameters among an entity's generic parameters.
fn type_params(g: &Generics) -> (r: Vec<String>)
    ensures
        names_view(r@) == type_param_names(g.params@),
{
    let mut r: Vec<String> = Vec::new();
    let mut i: usize = 0;
    while i < g.params.len()
        invariant
            i <= g.params.len(),
            names_view(r@) == type_param_names(g.params@.take(i as int)),
        decreases g.params.len() - i,
    {
        assert(g.params@.take(i + 1).drop_last() =~= g.params@.take(i as int));
        if g.params[i].is_type {
            r.push(g.params[i].arg.clone());
            assert(names_view(r@) =~= type_param_names(g.params@.take(i + 1)));
        }
        i += 1;
    }
    assert(g.params@.take(i as int) =~= g.params@);
    r
}

fn self_accept_code(a: &String, xs: &Vec<String>) -> (r: String)
    ensures
        r@ == self_accept_lines(a@, names_view(xs@)),
{
    let ghost v = names_view(xs@);
    let mut r = String::new();
    let mut i: usize = 0;
    while i < xs.len()
        invariant
            i <= xs.len(),
            v == names_view(xs@),
            r@ == self_accept_lines(a@, v.take(i as int)),
        decreases xs.len() - i,
    {
        let line = String::from_str("        ").concat(a.as_str()).concat("::accept(&self.").concat(
            xs[i].as_str(),
        ).concat(", visitor);\n");
        r = r.concat(line.as_str());
        assert(v.take(i + 1).drop_last() =~= v.take(i as int));
        i += 1;
    }
    assert(v.take(i as int) =~= v);
    r
}

fn binding_code(a: &String, xs: &Vec<String>) -> (r: String)
    ensures
        r@ == binding_lines(a@, names_view(xs@)),
{
    let ghost v = names_view(xs@);
    let mut r = String::new();
    let mut i: usize = 0;
    while i < xs.len()
        invariant
            i <= xs.len(),
            v == names_view(xs@),
            r@ == binding_lines(a@, v.take(i as int)),
        decreases xs.len() - i,
    {
        let line = String::from_str("                ").concat(a.as_str()).concat("::accept(").concat(
            xs[i].as_str(),
        ).concat(", visitor);\n");
        r = r.concat(line.as_str());
        assert(v.take(i + 1).drop_last() =~= v.take(i as int));
        i += 1;
    }
    assert(v.take(i as int) =~= v);
    r
}

fn accept_impl_code(a: &String, vn: &String, g: &Generics, target: &String, body: &String) -> (r: String)
    ensures
        r@ == accept_impl(a@, vn@, *g, target@, body@),
{
    String::from_str("impl").concat(decl_list(g).as_str()).concat(" ").concat(a.as_str()).concat(
        " for ",
    ).concat(target.as_str()).concat(arg_list(g).as_str()).concat(where_code(g).as_str()).concat(
        " {\n    fn accept<V: ",
    ).concat(vn.as_str()).concat(">(&self, visitor: &mut V) {\n").concat(body.as_str()).concat(
        "    }\n}\n",
    )
}

fn variant_arm_code(a: &String, e: &String, v: &Variant) -> (r: String)
    ensures
        r@ == variant_arm(a@, e@, *v),
{
    let head = String::from_str("            ").concat(e.as_str()).concat("::").concat(v.ident.as_str());
    match &v.fields {
        Fields::Named(fs) => {
            let xs = field_names(fs);
            head.concat(" { ").concat(join_strings(&xs).as_str()).concat(" } => {\n").concat(
                binding_code(a, &xs).as_str(),
            ).concat("            }\n")
        },
        Fields::Unnamed(ts) => {
            let xs = positional_vars(ts.len());
            head.concat("(").concat(join_strings(&xs).as_str()).concat(") => {\n").concat(
                binding_code(a, &xs).as_str(),
            ).concat("            }\n")
        },
        Fields::Unit => head.concat(" => {}\n"),
    }
}

/// The hook methods with one prefix for the given entities: records first,
/// then variant groups, each in declaration order.
pub fn generate_function_defs_for(prefix: &String, structs: &Vec<Record>, enums: &Vec<VariantGroup>) -> (r: String)
    ensures
        r@ == record_fns(prefix@, structs@) + group_fns(prefix@, enums@),
{
    let mut fns = String::new();
    let mut i: usize = 0;
    while i < structs.len()
        invariant
            i <= structs.len(),
            fns@ == record_fns(prefix@, structs@.take(i as int)),
        decreases structs.len() - i,
    {
        let item = &structs[i];
        let f = String::from_str("    fn ").concat(prefixed_fn_ident(prefix.as_str(), item.ident.as_str()).as_str())
            .concat(decl_list(&item.generics).as_str()).concat("(&mut self, ").concat(
            param_ident(item.ident.as_str()).as_str(),
        ).concat(": &").concat(item.ident.as_str()).concat(arg_list(&item.generics).as_str()).concat(
            ")",
        ).concat(where_code(&item.generics).as_str()).concat(" {}\n");
        fns = fns.concat(f.as_str());
        assert(structs@.take(i + 1).drop_last() =~= structs@.take(i as int));
        i += 1;
    }
    assert(structs@.take(i as int) =~= structs@);
    let mut gfns = String::new();
    let mut j: usize = 0;
    while j < enums.len()
        invariant
            j <= enums.len(),
            gfns@ == group_fns(prefix@, enums@.take(j as int)),
        decreases enums.len() - j,
    {
        let item = &enums[j];
        let f = String::from_str("    fn ").concat(prefixed_fn_ident(prefix.as_str(), item.ident.as_str()).as_str())
            .concat(decl_list(&item.generics).as_str()).concat("(&mut self, ").concat(
            param_ident(item.ident.as_str()).as_str(),
        ).concat(": &").concat(item.ident.as_str()).concat(arg_list(&item.generics).as_str()).concat(
            ")",
        ).concat(where_code(&item.generics).as_str()).concat(" {}\n");
        gfns = gfns.concat(f.as_str());
        assert(enums@.take(j + 1).drop_last() =~= enums@.take(j as int));
        j += 1;
    }
    assert(enums@.take(j as int) =~= enums@);
    fns.concat(gfns.as_str())
}

fn iter_impl_code(a: &String, vn: &String, params: &str, target: &str, extra: &str) -> (r: String)
    ensures
        r@ == iter_impl(a@, vn@, params@, target@, extra@),
{
    String::from_str("impl").concat(params).concat(" ").concat(a.as_str()).concat(" for ").concat(
        target,
    ).concat("\nwhere\n    TItem: ").concat(a.as_str()).concat(extra).concat(
        ",\n{\n    fn accept<V: ",
    ).concat(vn.as_str()).concat(
        ">(&self, visitor: &mut V) {\n        for item in self.iter() {\n            item.accept(visitor);\n        }\n    }\n}\n",
    )
}

fn option_impl_code(a: &String, vn: &String) -> (r: String)
    ensures
        r@ == option_impl(a@, vn@),
{
    String::from_str("impl<T> ").concat(a.as_str()).concat(" for Option<T>\nwhere\n    T: ").concat(
        a.as_str(),
    ).concat(",\n{\n    fn accept<V: ").concat(vn.as_str()).concat(
        ">(&self, visitor: &mut V) {\n        if let Some(inner) = self {\n            inner.accept(visitor);\n        }\n    }\n}\n",
    )
}

fn pointer_impl_code(a: &String, vn: &String, target: &str) -> (r: String)
    ensures
        r@ == pointer_impl(a@, vn@, target@),
{
    String::from_str("impl<T> ").concat(a.as_str()).concat(" for ").concat(target).concat(
        "\nwhere\n    T: ",
    ).concat(a.as_str()).concat(",\n{\n    fn accept<V: ").concat(vn.as_str()).concat(
        ">(&self, visitor: &mut V) {\n        <Self as std::ops::Deref>::deref(self).accept(visitor);\n    }\n}\n",
    )
}

fn leaf_impl_code(a: &String, vn: &String, n: &String) -> (r: String)
    ensures
        r@ == leaf_impl(a@, vn@, n@),
{
    let target = if *n == String::from_str("str") {
        String::from_str("&str")
    } else {
        n.clone()
    };
    String::from_str("impl ").concat(a.as_str()).concat(" for ").concat(target.as_str()).concat(
        " {\n    fn accept<V: ",
    ).concat(vn.as_str()).concat(">(&self, _visitor: &mut V) {}\n}\n")
}

/// Which entities are generated, and how.
pub struct CodeGenerator<'a> {
    pub structs: &'a Vec<Record>,
    pub enums: &'a Vec<VariantGroup>,
    pub conf: &'a VisitorTraitConf,
}

impl<'a> CodeGenerator<'a> {
    pub fn new(structs: &'a Vec<Record>, enums: &'a Vec<VariantGroup>, conf: &'a VisitorTraitConf) -> (r: Self)
        ensures
            r.structs == structs,
            r.enums == enums,
            r.conf == conf,
    {
        CodeGenerator { structs, enums, conf }
    }

    /// The calls of the enter and the leave hook of an entity, each empty when
    /// the configuration has no such prefix.
    pub fn generate_visit_fn_calls_for(&self, ident: &String) -> (r: (String, String))
        ensures
            r.0@ == hook_line(self.conf@.enter, ident@),
            r.1@ == hook_line(self.conf@.leave, ident@),
    {
        let enter_code = match &self.conf.enter {
            Some(p) => String::from_str("        visitor.").concat(
                prefixed_fn_ident(p.as_str(), ident.as_str()).as_str(),
            ).concat("(self);\n"),
            None => String::new(),
        };
        let leave_code = match &self.conf.leave {
            Some(p) => String::from_str("        visitor.").concat(
                prefixed_fn_ident(p.as_str(), ident.as_str()).as_str(),
            ).concat("(self);\n"),
            None => String::new(),
        };
        (enter_code, leave_code)
    }

    pub fn generate_visitor_trait(&self) -> (r: String)
        ensures
            r@ == visitor_trait(self.conf@, self.structs@, self.enums@),
    {
        let head = if self.conf.public {
            String::from_str("pub ")
        } else {
            String::new()
        };
        let enter_defs = match &self.conf.enter {
            Some(p) => generate_function_defs_for(p, self.structs, self.enums),
            None => String::new(),
        };
        let leave_defs = match &self.conf.leave {
            Some(p) => generate_function_defs_for(p, self.structs, self.enums),
            None => String::new(),
        };
        head.concat("trait ").concat(self.conf.name.as_str()).concat(" {\n").concat(enter_defs.as_str())
            .concat(leave_defs.as_str()).concat("}\n")
    }

    pub fn generate_accept_visitor_trait(&self) -> (r: String)
        ensures
            r@ == accept_trait(self.conf@),
    {
        let head = if self.conf.public {
            String::from_str("pub ")
        } else {
            String::new()
        };
        head.concat("trait ").concat(self.conf.accept_trait_ident().as_str()).concat(
            " {\n    fn accept<V: ",
        ).concat(self.conf.name.as_str()).concat(">(&self, visitor: &mut V);\n}\n")
    }

    /// The accept impls of the registered containers, pointers and leaf kinds.
    pub fn generate_accept_visitor_impls(&self) -> (r: String)
        ensures
            r@ == builtin_impls(accept_trait_name(self.conf@.name), self.conf@.name),
    {
        let a = self.conf.accept_trait_ident();
        let vn = &self.conf.name;
        let mut out = iter_impl_code(&a, vn, "<TItem>", "[TItem]", "").concat(
            iter_impl_code(&a, vn, "<TItem>", "&[TItem]", "").as_str(),
        ).concat(iter_impl_code(&a, vn, "<TItem, const N: usize>", "[TItem; N]", "").as_str()).concat(
            iter_impl_code(&a, vn, "<TItem>", "Vec<TItem>", "").as_str(),
        ).concat(
            iter_impl_code(
                &a,
                vn,
                "<TItem>",
                "std::collections::HashSet<TItem>",
                " + Eq + std::hash::Hash",
            ).as_str(),
        ).concat(option_impl_code(&a, vn).as_str()).concat(pointer_impl_code(&a, vn, "Box<T>").as_str())
            .concat(pointer_impl_code(&a, vn, "std::rc::Rc<T>").as_str()).concat(
            pointer_impl_code(&a, vn, "std::sync::Arc<T>").as_str(),
        );
        let ghost fixed = out@;
        let leaves = leaf_kinds();
        let ghost ns = names_view(leaves@);
        let mut tail = String::new();
        let mut i: usize = 0;
        while i < leaves.len()
            invariant
                i <= leaves.len(),
                ns == names_view(leaves@),
                tail@ == leaf_impls(a@, vn@, ns.take(i as int)),
            decreases leaves.len() - i,
        {
            tail = tail.concat(leaf_impl_code(&a, vn, &leaves[i]).as_str());
            assert(ns.take(i + 1).drop_last() =~= ns.take(i as int));
            i += 1;
        }
        assert(ns.take(i as int) =~= ns);
        out = out.concat(tail.as_str());
        out
    }

    /// The accept impls of a record, for the owned and the borrowed form.
    pub fn generate_accept_impl_for_struct(&self, item_struct: &Record) -> (r: String)
        ensures
            r@ == record_impls(self.conf@, *item_struct),
    {
        let a = self.conf.accept_trait_ident();
        let (enter_code, leave_code) = self.generate_visit_fn_calls_for(&item_struct.ident);
        let field_idents = field_accessors(&item_struct.fields);
        let body = enter_code.concat(self_accept_code(&a, &field_idents).as_str()).concat(
            leave_code.as_str(),
        );
        let borrowed = String::from_str("&").concat(item_struct.ident.as_str());
        accept_impl_code(&a, &self.conf.name, &item_struct.generics, &item_struct.ident, &body).concat(
            accept_impl_code(&a, &self.conf.name, &item_struct.generics, &borrowed, &body).as_str(),
        )
    }

    /// The accept impls of a variant group, for the owned and the borrowed form.
    pub fn generate_accept_impl_for_enum(&self, item_enum: &VariantGroup) -> (r: String)
        ensures
            r@ == group_impls(self.conf@, *item_enum),
    {
        let a = self.conf.accept_trait_ident();
        let e = &item_enum.ident;
        let mut match_body = String::new();
        let mut i: usize = 0;
        while i < item_enum.variants.len()
            invariant
                i <= item_enum.variants.len(),
                a@ == accept_trait_name(self.conf@.name),
                match_body@ == variant_arms(a@, e@, item_enum.variants@.take(i as int)),
            decreases item_enum.variants.len() - i,
        {
            match_body = match_body.concat(variant_arm_code(&a, e, &item_enum.variants[i]).as_str());
            assert(item_enum.variants@.take(i + 1).drop_last() =~= item_enum.variants@.take(i as int));
            i += 1;
        }
        assert(item_enum.variants@.take(i as int) =~= item_enum.variants@);
        let (enter_code, leave_code) = self.generate_visit_fn_calls_for(e);
        let body = enter_code.concat("        match self {\n").concat(match_body.as_str()).concat(
            "        }\n",
        ).concat(leave_code.as_str());
        let borrowed = String::from_str("&").concat(e.as_str());
        accept_impl_code(&a, &self.conf.name, &item_enum.generics, e, &body).concat(
            accept_impl_code(&a, &self.conf.name, &item_enum.generics, &borrowed, &body).as_str(),
        )
    }
}

fn check_fields(ents: &Vec<String>, params: &Vec<String>, fields: &Fields) -> (r: Option<String>)
    ensures
        r is None <==> fields_resolve(names_view(ents@), names_view(params@), *fields),
        r is Some ==> fields_report(names_view(ents@), names_view(params@), *fields, r->0@),
{
    let ghost e = names_view(ents@);
    let ghost p = names_view(params@);
    let ghost ts = field_types(*fields);
    let n: usize = match fields {
        Fields::Named(fs) => fs.len(),
        Fields::Unnamed(ts) => ts.len(),
        Fields::Unit => 0,
    };
    let mut i: usize = 0;
    while i < n
        invariant
            i <= n,
            n == ts.len(),
            ts == field_types(*fields),
            e == names_view(ents@),
            p == names_view(params@),
            forall|k: int| 0 <= k < i ==> unregistered_in(e, p, #[trigger] ts[k]) is None,
        decreases n - i,
    {
        let ty: &TypeExpr = match fields {
            Fields::Named(fs) => &fs[i].ty,
            Fields::Unnamed(ts) => &ts[i],
            Fields::Unit => {
                assert(false);
                return None;
            },
        };
        assert(*ty == ts[i as int]);
        match find_unregistered(ents, params, ty) {
            Some(name) => {
                return Some(name);
            },
            None => {},
        }
        i += 1;
    }
    None
}

/// The identifiers of all entities: records, then variant groups.
fn entity_idents(structs: &Vec<Record>, enums: &Vec<VariantGroup>) -> (r: Vec<String>)
    ensures
        names_view(r@) == entity_names(structs@, enums@),
{
    let mut r: Vec<String> = Vec::new();
    let mut i: usize = 0;
    while i < structs.len()
        invariant
            i <= structs.len(),
            names_view(r@) == structs@.take(i as int).map_values(|x: Record| x.ident@),
        decreases structs.len() - i,
    {
        let ghost before = names_view(r@);
        r.push(structs[i].ident.clone());
        assert(names_view(r@) =~= before.push(structs@[i as int].ident@));
        assert(structs@.take(i + 1).map_values(|x: Record| x.ident@) =~= before.push(structs@[i as int].ident@));
        i += 1;
    }
    assert(structs@.take(i as int) =~= structs@);
    let ghost first = names_view(r@);
    let mut j: usize = 0;
    while j < enums.len()
        invariant
            j <= enums.len(),
            names_view(r@) == first + enums@.take(j as int).map_values(|x: VariantGroup| x.ident@),
        decreases enums.len() - j,
    {
        let ghost before = names_view(r@);
        r.push(enums[j].ident.clone());
        assert(names_view(r@) =~= before.push(enums@[j as int].ident@));
        assert(first + enums@.take(j + 1).map_values(|x: VariantGroup| x.ident@) =~= before.push(
            enums@[j as int].ident@,
        ));
        j += 1;
    }
    assert(enums@.take(j as int) =~= enums@);
    r
}

/// Looks for a field, of a record or of a variant, whose type resolves to no
/// traversal rule; `None` when every field type resolves.
pub fn find_unregistered_type(structs: &Vec<Record>, enums: &Vec<VariantGroup>) -> (r: Option<Diagnostic>)
    ensures
        r is None <==> schema_resolves(structs@, enums@),
        r is Some ==> match r->0@ {
            DiagnosticView::UnregisteredType { entity, ty } => is_unregistered_report(structs@, enums@, entity, ty),
            _ => false,
        },
{
    let ents = entity_idents(structs, enums);
    let ghost e = entity_names(structs@, enums@);
    let mut i: usize = 0;
    while i < structs.len()
        invariant
            i <= structs.len(),
            e == names_view(ents@),
            e == entity_names(structs@, enums@),
            forall|k: int| 0 <= k < i ==> record_resolves(e, #[trigger] structs@[k]),
        decreases structs.len() - i,
    {
        let params = type_params(&structs[i].generics);
        match check_fields(&ents, &params, &structs[i].fields) {
            Some(ty) => {
                let ghost rs = structs@;
                assert(rs[i as int].ident@ == structs[i as int].ident@);
                assert(!record_resolves(e, rs[i as int]));
                return Some(Diagnostic::UnregisteredType { entity: structs[i].ident.clone(), ty });
            },
            None => {},
        }
        i += 1;
    }
    let mut j: usize = 0;
    while j < enums.len()
        invariant
            j <= enums.len(),
            e == names_view(ents@),
            e == entity_names(structs@, enums@),
            forall|k: int| 0 <= k < structs.len() ==> record_resolves(e, #[trigger] structs@[k]),
            forall|k: int| 0 <= k < j ==> group_resolves(e, #[trigger] enums@[k]),
        decreases enums.len() - j,
    {
        let g = &enums[j];
        let params = type_params(&g.generics);
        let mut v: usize = 0;
        while v < g.variants.len()
            invariant
                v <= g.variants.len(),
                j < enums.len(),
                *g == enums@[j as int],
                e == names_view(ents@),
                e == entity_names(structs@, enums@),
                forall|k: int| 0 <= k < structs.len() ==> record_resolves(e, #[trigger] structs@[k]),
                forall|k: int| 0 <= k < j ==> group_resolves(e, #[trigger] enums@[k]),
                names_view(params@) == type_param_names(g.generics.params@),
                forall|k: int|
                    0 <= k < v ==> fields_resolve(
                        e,
                        type_param_names(g.generics.params@),
                        (#[trigger] g.variants@[k]).fields,
                    ),
            decreases g.variants.len() - v,
        {
            match check_fields(&ents, &params, &g.variants[v].fields) {
                Some(ty) => {
                    assert(!group_resolves(e, enums@[j as int]));
                    assert(enums@[j as int].variants@[v as int] == g.variants@[v as int]);
                    assert(is_unregistered_report(structs@, enums@, g.ident@, ty@));
                    return Some(Diagnostic::UnregisteredType { entity: g.ident.clone(), ty });
                },
                None => {},
            }
            v += 1;
        }
        j += 1;
    }
    None
}

impl<'a> CodeGenerator<'a> {
    /// Everything generated for the configuration: the visitor trait, the
    /// accept trait, the built-in accept impls, then the accept impls of the
    /// records and of the variant groups in declaration order. Fails when a
    /// field type resolves to no traversal rule.
    pub fn generate(&self) -> (r: Result<String, Diagnostic>)
        ensures
            generate_ok(self.conf@, self.structs@, self.enums@, r),
    {
        if let Some(e) = find_unregistered_type(self.structs, self.enums) {
            return Err(e);
        }
        let visitor_trait_gen = self.generate_visitor_trait();
        let accept_trait_gen = self.generate_accept_visitor_trait();
        let accept_trait_impls = self.generate_accept_visitor_impls();
        let mut struct_impls = String::new();
        let mut i: usize = 0;
        while i < self.structs.len()
            invariant
                i <= self.structs.len(),
                struct_impls@ == all_record_impls(self.conf@, self.structs@.take(i as int)),
            decreases self.structs.len() - i,
        {
            struct_impls = struct_impls.concat(self.generate_accept_impl_for_struct(&self.structs[i]).as_str());
            assert(self.structs@.take(i + 1).drop_last() =~= self.structs@.take(i as int));
            i += 1;
        }
        assert(self.structs@.take(i as int) =~= self.structs@);
        let mut enum_impls = String::new();
        let mut j: usize = 0;
        while j < self.enums.len()
            invariant
                j <= self.enums.len(),
                enum_impls@ == all_group_impls(self.conf@, self.enums@.take(j as int)),
            decreases self.enums.len() - j,
        {
            enum_impls = enum_impls.concat(self.generate_accept_impl_for_enum(&self.enums[j]).as_str());
            assert(self.enums@.take(j + 1).drop_last() =~= self.enums@.take(j as int));
            j += 1;
        }
        assert(self.enums@.take(j as int) =~= self.enums@);
        proof {
            reveal(unit_text);
        }
        Ok(
            visitor_trait_gen.concat(accept_trait_gen.as_str()).concat(accept_trait_impls.as_str()).concat(
                struct_impls.as_str(),
            ).concat(enum_impls.as_str()),
        )
    }
}

/// The units of all configurations, concatenated in declaration order.
pub open spec fn units_text(cs: Seq<ConfView>, rs: Seq<Record>, gs: Seq<VariantGroup>) -> Seq<char>
    decreases cs.len(),
{
    if cs.len() == 0 {
        Seq::empty()
    } else {
        units_text(cs.drop_last(), rs, gs) + unit_text(cs.last(), rs, gs)
    }
}

fn unit_for(structs: &Vec<Record>, enums: &Vec<VariantGroup>, conf: &VisitorTraitConf) -> (r: String)
    requires
        schema_resolves(structs@, enums@),
    ensures
        r@ == unit_text(conf@, structs@, enums@),
{
    let generator = CodeGenerator::new(structs, enums, conf);
    match generator.generate() {
        Ok(text) => text,
        Err(_) => {
            assert(false);
            String::new()
        },
    }
}

/// Generates, for each configuration directive in declaration order, its
/// visitor trait, accept trait and accept impls, and concatenates them. A
/// configuration error comes first; then an unresolvable field type. Either
/// aborts the whole generation.
pub fn generate_all(structs: &Vec<Record>, enums: &Vec<VariantGroup>, directives: &Vec<ConfigDirective>) -> (r: Result<String, Diagnostic>)
    ensures
        match configs_from(directives@.map_values(|d: ConfigDirective| d@)) {
            Err(e) => r is Err && r->Err_0@ == e,
            Ok(cs) => if schema_resolves(structs@, enums@) {
                r is Ok && r->Ok_0@ == units_text(cs, structs@, enums@)
            } else {
                r is Err && match r->Err_0@ {
                    DiagnosticView::UnregisteredType { entity, ty } => is_unregistered_report(
                        structs@,
                        enums@,
                        entity,
                        ty,
                    ),
                    _ => false,
                }
            },
        },
{
    let confs = match get_visitor_trait_configs(directives) {
        Ok(cs) => cs,
        Err(e) => {
            return Err(e);
        },
    };
    let ghost cs = confs@.map_values(|c: VisitorTraitConf| c@);
    if let Some(e) = find_unregistered_type(structs, enums) {
        return Err(e);
    }
    let mut result = String::new();
    let mut i: usize = 0;
    while i < confs.len()
        invariant
            i <= confs.len(),
            cs == confs@.map_values(|c: VisitorTraitConf| c@),
            schema_resolves(structs@, enums@),
            result@ == units_text(cs.take(i as int), structs@, enums@),
        decreases confs.len() - i,
    {
        let text = unit_for(structs, enums, &confs[i]);
        result = result.concat(text.as_str());
        assert(cs.take(i + 1).drop_last() =~= cs.take(i as int));
        i += 1;
    }
    assert(cs.take(i as int) =~= cs);
    Ok(result)
}

} // verus!
