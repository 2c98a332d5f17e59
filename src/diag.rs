//! The errors that abort generation.

use vstd::prelude::*;

verus! {

/// Why a configuration directive could not be read.
#[derive(Clone, Copy, Debug, PartialEq, Eq, Structural)]
pub enum Malformed {
    /// The inner attribute is not a `visitor` attribute.
    UnexpectedAttribute,
    /// The directive gives no `name`.
    MissingName,
    /// A value of the directive has the wrong shape.
    InvalidSyntax,
}

/// A fatal generation error. Configuration errors carry the position of the
/// offending directive in the directive list, so that its origin can be reported.
#[derive(Clone, Debug)]
pub enum Diagnostic {
    MalformedConfigDirective { directive: usize, reason: Malformed },
    DuplicateConfigName { directive: usize, name: String },
    SameEnterLeaveIdentifier { directive: usize, ident: String },
    /// A field of `entity` has a type that resolves to nothing known; `ty` is
    /// the name that failed to resolve.
    UnregisteredType { entity: String, ty: String },
}

/// The mathematical value of a [`Diagnostic`].
pub enum DiagnosticView {
    MalformedConfigDirective { directive: nat, reason: Malformed },
    DuplicateConfigName { directive: nat, name: Seq<char> },
    SameEnterLeaveIdentifier { directive: nat, ident: Seq<char> },
    UnregisteredType { entity: Seq<char>, ty: Seq<char> },
}

impl View for Diagnostic {
    type V = DiagnosticView;

    open spec fn view(&self) -> DiagnosticView {
        match self {
            Diagnostic::MalformedConfigDirective { directive, reason } =>
                DiagnosticView::MalformedConfigDirective { directive: *directive as nat, reason: *reason },
            Diagnostic::DuplicateConfigName { directive, name } =>
                DiagnosticView::DuplicateConfigName { directive: *directive as nat, name: name@ },
            Diagnostic::SameEnterLeaveIdentifier { directive, ident } =>
                DiagnosticView::SameEnterLeaveIdentifier { directive: *directive as nat, ident: ident@ },
            Diagnostic::UnregisteredType { entity, ty } =>
                DiagnosticView::UnregisteredType { entity: entity@, ty: ty@ },
        }
    }
}

} // verus!
