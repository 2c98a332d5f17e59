//! Reading and validating the requested visitor configurations.

use vstd::prelude::*;
use vstd::string::StringExecFns;
use crate::diag::{Diagnostic, DiagnosticView, Malformed};
use crate::naming::accept_trait_name;

verus! {

/// The view of an optional string.
pub open spec fn opt_view(o: Option<String>) -> Option<Seq<char>> {
    match o {
        Some(s) => Some(s@),
        None => None,
    }
}

/// One configuration directive as the front-end read it (`#![visitor(...)]`).
#[derive(Clone, Debug)]
pub struct ConfigDirective {
    /// The attribute's own name; only `visitor` is accepted.
    pub attribute: String,
    pub name: Option<String>,
    pub public: Option<bool>,
    pub enter: Option<String>,
    pub leave: Option<String>,
}

/// The mathematical value of a [`ConfigDirective`].
pub struct DirectiveView {
    pub attribute: Seq<char>,
    pub name: Option<Seq<char>>,
    pub public: Option<bool>,
    pub enter: Option<Seq<char>>,
    pub leave: Option<Seq<char>>,
}

impl View for ConfigDirective {
    type V = DirectiveView;

    open spec fn view(&self) -> DirectiveView {
        DirectiveView {
            attribute: self.attribute@,
            name: opt_view(self.name),
            public: self.public,
            enter: opt_view(self.enter),
            leave: opt_view(self.leave),
        }
    }
}

/// A validated visitor configuration: the visitor trait's name, whether it is
/// public, and the prefixes of its enter and leave hooks.
#[derive(Clone, Debug)]
pub struct VisitorTraitConf {
    pub enter: Option<String>,
    pub leave: Option<String>,
    pub public: bool,
    pub name: String,
}

/// The mathematical value of a [`VisitorTraitConf`].
pub struct ConfView {
    pub enter: Option<Seq<char>>,
    pub leave: Option<Seq<char>>,
    pub public: bool,
    pub name: Seq<char>,
}

impl View for VisitorTraitConf {
    type V = ConfView;

    open spec fn view(&self) -> ConfView {
        ConfView {
            enter: opt_view(self.enter),
            leave: opt_view(self.leave),
            public: self.public,
            name: self.name@,
        }
    }
}

/// The leave prefix used when a directive names neither prefix.
pub open spec fn default_leave() -> Seq<char> {
    "visit"@
}

/// Whether one of the configurations already uses the name `n`.
pub open spec fn name_taken(cs: Seq<ConfView>, n: Seq<char>) -> bool {
    exists|j: int| 0 <= j < cs.len() && (#[trigger] cs[j]).name == n
}

/// The configuration that directive number `i` yields, given those before it.
pub open spec fn conf_from(d: DirectiveView, i: nat, before: Seq<ConfView>) -> Result<
    ConfView,
    DiagnosticView,
> {
    if d.attribute != "visitor"@ {
        Err(DiagnosticView::MalformedConfigDirective { directive: i, reason: Malformed::UnexpectedAttribute })
    } else if d.name is None {
        Err(DiagnosticView::MalformedConfigDirective { directive: i, reason: Malformed::MissingName })
    } else if name_taken(before, d.name->0) {
        Err(DiagnosticView::DuplicateConfigName { directive: i, name: d.name->0 })
    } else {
        let leave = if d.enter is None && d.leave is None {
            Some(default_leave())
        } else {
            d.leave
        };
        if leave is Some && d.enter is Some && leave == d.enter {
            Err(DiagnosticView::SameEnterLeaveIdentifier { directive: i, ident: leave->0 })
        } else {
            Ok(
                ConfView {
                    enter: d.enter,
                    leave,
                    public: match d.public {
                        Some(p) => p,
                        None => false,
                    },
                    name: d.name->0,
                },
            )
        }
    }
}

/// The configurations of a directive list, in declaration order, or the error
/// of the first directive that fails.
pub open spec fn configs_from(ds: Seq<DirectiveView>) -> Result<Seq<ConfView>, DiagnosticView>
    decreases ds.len(),
{
    if ds.len() == 0 {
        Ok(Seq::empty())
    } else {
        match configs_from(ds.drop_last()) {
            Err(e) => Err(e),
            Ok(cs) => match conf_from(ds.last(), (ds.len() - 1) as nat, cs) {
                Err(e) => Err(e),
                Ok(c) => Ok(cs.push(c)),
            },
        }
    }
}

/// An error in a prefix of the directive list is the error of the whole list.
proof fn lemma_error_persists(ds: Seq<DirectiveView>, k: int)
    requires
        0 <= k <= ds.len(),
        configs_from(ds.take(k)) is Err,
    ensures
        configs_from(ds) == configs_from(ds.take(k)),
    decreases ds.len() - k,
{
    if k < ds.len() {
        assert(ds.take(k + 1).drop_last() =~= ds.take(k));
        lemma_error_persists(ds, k + 1);
    } else {
        assert(ds.take(k) =~= ds);
    }
}

/// A successful read yields one configuration per directive, with the
/// directive's name.
proof fn lemma_configs_shape(ds: Seq<DirectiveView>)
    requires
        configs_from(ds) is Ok,
    ensures
        configs_from(ds)->Ok_0.len() == ds.len(),
        forall|m: int| 0 <= m < ds.len() ==> ds[m].name == Some(#[trigger] configs_from(ds)->Ok_0[m].name),
    decreases ds.len(),
{
    if ds.len() > 0 {
        lemma_configs_shape(ds.drop_last());
    }
}

/// Two directives that share a name abort the read; when everything before the
/// second one reads well, the error is `DuplicateConfigName` at the second one.
pub proof fn lemma_duplicate_name_rejected(ds: Seq<DirectiveView>, i: int, j: int)
    requires
        0 <= i < j < ds.len(),
        ds[i].name is Some,
        ds[j].name == ds[i].name,
    ensures
        configs_from(ds) is Err,
        configs_from(ds.take(j)) is Ok && ds[j].attribute == "visitor"@ ==> configs_from(ds.take(j + 1))
            == Err::<Seq<ConfView>, DiagnosticView>(
            DiagnosticView::DuplicateConfigName { directive: j as nat, name: ds[j].name->0 },
        ),
{
    let p = ds.take(j + 1);
    assert(p.drop_last() =~= ds.take(j));
    assert(p.last() == ds[j]);
    if configs_from(ds.take(j)) is Ok {
        lemma_configs_shape(ds.take(j));
        let cs = configs_from(ds.take(j))->Ok_0;
        assert(ds.take(j)[i] == ds[i]);
        assert(cs[i].name == ds[j].name->0);
        assert(name_taken(cs, ds[j].name->0));
    } else {
        lemma_error_persists(p, j);
    }
    lemma_error_persists(ds, j + 1);
}

/// A directive whose enter and leave prefixes are the same identifier aborts
/// the read; when it is otherwise well formed and everything before it reads
/// well, the error is `SameEnterLeaveIdentifier` at it.
pub proof fn lemma_same_enter_leave_rejected(ds: Seq<DirectiveView>, j: int)
    requires
        0 <= j < ds.len(),
        ds[j].enter is Some,
        ds[j].leave == ds[j].enter,
    ensures
        configs_from(ds) is Err,
        configs_from(ds.take(j)) is Ok && ds[j].attribute == "visitor"@ && ds[j].name is Some
            && !name_taken(configs_from(ds.take(j))->Ok_0, ds[j].name->0) ==> configs_from(ds.take(j + 1))
            == Err::<Seq<ConfView>, DiagnosticView>(
            DiagnosticView::SameEnterLeaveIdentifier { directive: j as nat, ident: ds[j].leave->0 },
        ),
{
    let p = ds.take(j + 1);
    assert(p.drop_last() =~= ds.take(j));
    assert(p.last() == ds[j]);
    if configs_from(ds.take(j)) is Err {
        lemma_error_persists(p, j);
    }
    lemma_error_persists(ds, j + 1);
}

/// A directive that names neither prefix reads exactly as the same directive
/// with the leave prefix `visit`.
pub proof fn lemma_default_leave_is_visit(ds: Seq<DirectiveView>, j: int)
    requires
        0 <= j < ds.len(),
        ds[j].enter is None,
        ds[j].leave is None,
    ensures
        configs_from(ds) == configs_from(ds.update(j, DirectiveView { leave: Some(default_leave()), ..ds[j] })),
    decreases ds.len(),
{
    let d2 = DirectiveView { leave: Some(default_leave()), ..ds[j] };
    let es = ds.update(j, d2);
    if j == ds.len() - 1 {
        assert(es.drop_last() =~= ds.drop_last());
    } else {
        assert(es.drop_last() =~= ds.drop_last().update(j, d2));
        lemma_default_leave_is_visit(ds.drop_last(), j);
    }
}

fn clone_opt(o: &Option<String>) -> (r: Option<String>)
    ensures
        opt_view(r) == opt_view(*o),
{
    match o {
        Some(s) => Some(s.clone()),
        None => None,
    }
}

struct FileParser {
    confs: Vec<VisitorTraitConf>,
}

impl FileParser {
    /// Whether a configuration read so far is named `name`.
    fn has_name(&self, name: &String) -> (r: bool)
        ensures
            r == name_taken(self.confs@.map_values(|c: VisitorTraitConf| c@), name@),
    {
        let ghost cs = self.confs@.map_values(|c: VisitorTraitConf| c@);
        let mut j: usize = 0;
        while j < self.confs.len()
            invariant
                j <= self.confs.len(),
                cs == self.confs@.map_values(|c: VisitorTraitConf| c@),
                forall|k: int| 0 <= k < j ==> cs[k].name != name@,
            decreases self.confs.len() - j,
        {
            if self.confs[j].name == *name {
                assert(cs[j as int].name == name@);
                return true;
            }
            j += 1;
        }
        false
    }

    fn parse_attribute(&self, d: &ConfigDirective, i: usize) -> (r: Result<VisitorTraitConf, Diagnostic>)
        ensures
            match (r, conf_from(d@, i as nat, self.confs@.map_values(|c: VisitorTraitConf| c@))) {
                (Ok(c), Ok(cv)) => c@ == cv,
                (Err(e), Err(ev)) => e@ == ev,
                _ => false,
            },
    {
        let visitor = String::from_str("visitor");
        if d.attribute != visitor {
            return Err(Diagnostic::MalformedConfigDirective { directive: i, reason: Malformed::UnexpectedAttribute });
        }
        let name = match &d.name {
            Some(n) => n.clone(),
            None => {
                return Err(Diagnostic::MalformedConfigDirective { directive: i, reason: Malformed::MissingName });
            },
        };
        if self.has_name(&name) {
            return Err(Diagnostic::DuplicateConfigName { directive: i, name });
        }
        let enter = clone_opt(&d.enter);
        let leave = if d.enter.is_none() && d.leave.is_none() {
            Some(String::from_str("visit"))
        } else {
            clone_opt(&d.leave)
        };
        if let (Some(l), Some(e)) = (&leave, &enter) {
            if *l == *e {
                return Err(Diagnostic::SameEnterLeaveIdentifier { directive: i, ident: l.clone() });
            }
        }
        let public = match d.public {
            Some(p) => p,
            None => false,
        };
        Ok(VisitorTraitConf { enter, leave, public, name })
    }
}

/// Reads the directives in order into configurations. The first directive that
/// is malformed, reuses a name, or gives one identifier for both hooks aborts
/// the whole list with its error.
pub fn get_visitor_trait_configs(directives: &Vec<ConfigDirective>) -> (r: Result<
    Vec<VisitorTraitConf>,
    Diagnostic,
>)
    ensures
        match (r, configs_from(directives@.map_values(|d: ConfigDirective| d@))) {
            (Ok(cs), Ok(cvs)) => cs@.map_values(|c: VisitorTraitConf| c@) == cvs,
            (Err(e), Err(ev)) => e@ == ev,
            _ => false,
        },
{
    let ghost ds = directives@.map_values(|d: ConfigDirective| d@);
    let mut parser = FileParser { confs: Vec::new() };
    let mut i: usize = 0;
    assert(ds.take(0) =~= Seq::<DirectiveView>::empty());
    assert(parser.confs@.map_values(|c: VisitorTraitConf| c@) =~= Seq::<ConfView>::empty());
    while i < directives.len()
        invariant
            i <= directives.len(),
            ds == directives@.map_values(|d: ConfigDirective| d@),
            configs_from(ds.take(i as int)) == Ok::<Seq<ConfView>, DiagnosticView>(
                parser.confs@.map_values(|c: VisitorTraitConf| c@),
            ),
        decreases directives.len() - i,
    {
        let ghost before = parser.confs@.map_values(|c: VisitorTraitConf| c@);
        assert(ds.take(i + 1).drop_last() =~= ds.take(i as int));
        let conf = parser.parse_attribute(&directives[i], i);
        match conf {
            Ok(c) => {
                parser.confs.push(c);
                assert(parser.confs@.map_values(|c: VisitorTraitConf| c@) =~= before.push(c@));
            },
            Err(e) => {
                proof {
                    lemma_error_persists(ds, i + 1);
                }
                return Err(e);
            },
        }
        i += 1;
    }
    assert(ds.take(i as int) =~= ds);
    Ok(parser.confs)
}

impl VisitorTraitConf {
    /// The name of the accept trait: `Accept` followed by the visitor's name.
    pub fn accept_trait_ident(&self) -> (r: String)
        ensures
            r@ == accept_trait_name(self.name@),
    {
        String::from_str("Accept").concat(self.name.as_str())
    }
}

} // verus!
