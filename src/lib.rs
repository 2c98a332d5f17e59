//! Schema-driven synthesis of hierarchical visitors: visitor traits, accept
//! traits and the traversal code that connects them, together with a model of
//! the traversal that the synthesized code performs.

pub mod codegen;
pub mod diag;
pub mod iter_utils;
pub mod naming;
pub mod parse;
pub mod rules;
pub mod schema;
pub mod traversal;
pub mod text;
