//! Merging the container-level skip mode and the field-level skip disposition
//! into one effective per-field decision.

use vstd::prelude::*;

use crate::container;
use crate::field;
use crate::field::AttrValue;

verus! {

/// The effective skip decision of one field after container and field
/// directives are merged.
#[derive(Debug, Clone, PartialEq, Eq)]
pub enum Ignore {
    /// Always show.
    No,
    /// Always skip.
    Unconditional,
    /// Skip when the value equals the field type's default.
    Default,
    /// Skip when the value equals the same field of a default instance of the
    /// container, materialized once per representation call.
    DefaultGlobal,
    /// Skip when the value equals the given expression.
    If(AttrValue),
    /// Skip when the given predicate function returns true on a reference to
    /// the value.
    Fn(AttrValue),
}

/// The precedence table: a field-level disposition always wins when present —
/// an explicit `no_skip` wins even over an unconditional container-level skip —
/// and only an absent field disposition lets the container mode through.
pub open spec fn resolve(
    global: Option<container::Skip>,
    local: Option<field::Skip>,
) -> Ignore {
    match local {
        Some(field::Skip::No) => Ignore::No,
        Some(field::Skip::Bare) => Ignore::Unconditional,
        Some(field::Skip::Default) => Ignore::Default,
        Some(field::Skip::If(v)) => Ignore::If(v),
        Some(field::Skip::Fn(v)) => Ignore::Fn(v),
        None => match global {
            None => Ignore::No,
            Some(container::Skip::Bare) => Ignore::Unconditional,
            Some(container::Skip::Defaults) => Ignore::DefaultGlobal,
        },
    }
}

impl Ignore {
    /// Merges the two levels; the field-level disposition takes precedence
    /// over the container-level mode.
    pub fn new(global: &Option<container::Skip>, local: Option<field::Skip>) -> (r: Self)
        ensures
            r == resolve(*global, local),
    {
        match local {
            Some(field::Skip::No) => Ignore::No,
            Some(field::Skip::Bare) => Ignore::Unconditional,
            Some(field::Skip::Default) => Ignore::Default,
            Some(field::Skip::If(v)) => Ignore::If(v),
            Some(field::Skip::Fn(v)) => Ignore::Fn(v),
            None => match global {
                None => Ignore::No,
                Some(container::Skip::Bare) => Ignore::Unconditional,
                Some(container::Skip::Defaults) => Ignore::DefaultGlobal,
            },
        }
    }
}

/// A field-level explicit-show always overrides the container level, whatever
/// the container's skip mode says.
pub proof fn lemma_no_skip_overrides(global: Option<container::Skip>)
    ensures
        resolve(global, Some(field::Skip::No)) == Ignore::No,
{
}

/// With no directive at either level, the default is to always show.
pub proof fn lemma_default_is_show()
    ensures
        resolve(None, None) == Ignore::No,
{
}

} // verus!
