//! The raw shape of one annotation directive, as the host-language front end
//! hands it over.
//!
//! The front end splits each annotation occurrence into comma-separated
//! directives and resolves their token-level shape: a bare string literal, or
//! a name followed by an optional value. Expressions in value position are
//! parsed by the host language; this crate only carries an opaque handle to
//! each, never interprets one.

use vstd::prelude::*;

verus! {

/// The value slot of one raw directive.
#[derive(Debug, Clone, PartialEq, Eq)]
pub enum RawValue {
    /// No value was given.
    Absent,
    /// `= "text"`: a quoted literal string.
    LitStr(String),
    /// `= expr`: a host-language expression, by opaque handle.
    Expr(u64),
    /// `= ...` where the host language could not parse an expression.
    BadExpr,
    /// `(a, b, ...)`: a parenthesized argument list of expression handles,
    /// reserved for future call-style directives.
    Call(Vec<u64>),
    /// `(...)` where the host language could not parse the argument list.
    BadCall,
}

/// One raw directive out of an annotation occurrence.
#[derive(Debug, Clone, PartialEq, Eq)]
pub enum RawAttr {
    /// A bare string literal with no directive name: sugar for the
    /// literal-override directive.
    Lit(String),
    /// A named directive with its value slot.
    Named { ident: String, value: RawValue },
}

} // verus!
