//! Generation-time planning for customizable `Debug`-style representation
//! routines.
//!
//! The crate turns a structured description of a record type (its name, its
//! field shape, and the raw annotation directives attached to the type and to
//! each field) into a validated, ordered representation plan. The host-language
//! front end (parsing source text into the structured description) and the back
//! end (emitting source code from the finished plan) live outside this crate;
//! everything in between is verified.

pub mod container;
pub mod error;
pub mod field;
pub mod plan;
pub mod raw;
pub mod render;
pub mod resolve;
mod utils;

pub use utils::has_brace;
pub use utils::needs_formatting;
