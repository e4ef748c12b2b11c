//! The error taxonomy of the generator.
//!
//! Every failure is fatal to the record type being processed and carries
//! enough location context to point at the offending annotation.

use vstd::prelude::*;

verus! {

/// What went wrong while parsing directives or building a plan.
#[derive(Clone, Copy, Debug, PartialEq, Eq, Structural)]
pub enum ErrorKind {
    /// A directive name outside the fixed vocabulary.
    UnknownDirective,
    /// A directive's value slot does not fit its name: a value where none is
    /// allowed, none where one is required, a non-literal where a literal
    /// string is required, or an unparseable parenthesized argument list.
    MalformedDirective,
    /// A value position expected an expression and the host language could
    /// not parse one there.
    InvalidExpression,
    /// A single-valued slot was specified twice, or two mutually exclusive
    /// directives were both specified.
    DuplicateDirective,
    /// The record is a sum type or another shape the generator does not
    /// support.
    UnsupportedShape,
}

/// A failure inside one list of directives: `index` is the position of the
/// offending directive within that list, in source order.
#[derive(Clone, Copy, Debug, PartialEq, Eq, Structural)]
pub struct ParseError {
    pub kind: ErrorKind,
    pub index: usize,
}

/// Where in the record description an error was found.
#[derive(Clone, Copy, Debug, PartialEq, Eq, Structural)]
pub enum Site {
    /// The directive at this index among the container's annotations.
    Container(usize),
    /// The directive at index `.1` among the annotations of field `.0`.
    Field(usize, usize),
    /// The record as a whole.
    Record,
}

/// A failure while processing one record type, with its location.
#[derive(Clone, Copy, Debug, PartialEq, Eq, Structural)]
pub struct Error {
    pub kind: ErrorKind,
    pub site: Site,
}

} // verus!
