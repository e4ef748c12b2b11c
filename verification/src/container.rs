//! Directives attached to the record type itself.
//!
//! The container vocabulary: `bare` (a literal-string override for the whole
//! type's representation, also reachable as a bare string literal with no
//! directive name), and one skip mode out of `skip` (every field skipped
//! unconditionally) and `skip_defaults` (a field skipped when it equals the
//! corresponding field of a default instance of the container). The legacy
//! names `ignore` and `ignore_defaults` mean the same as `skip` and
//! `skip_defaults`.

use vstd::prelude::*;

use crate::error::{ErrorKind, ParseError};
use crate::raw::{RawAttr, RawValue};
use crate::utils::string_is;

verus! {

/// The name of one recognized container directive.
#[derive(Debug, Clone, Copy, PartialEq, Eq, Structural)]
pub enum AttrName {
    Valuefull(ValuefullName),
    Valueless(ValuelessName),
}

/// Container directives that require a value.
#[derive(Debug, Clone, Copy, PartialEq, Eq, Structural)]
pub enum ValuefullName {
    Bare,
}

/// Container directives that forbid a value.
#[derive(Debug, Clone, Copy, PartialEq, Eq, Structural)]
pub enum ValuelessName {
    Skip,
    SkipDefaults,
}

/// The value carried by one parsed directive.
#[derive(Debug, Clone, PartialEq, Eq)]
pub enum AttrValue {
    /// A quoted literal string.
    LitStr(String),
    /// A host-language expression, by opaque handle.
    Expr(u64),
    /// A parenthesized argument list, reserved for future call-style
    /// directives; no current directive accepts one.
    Call(Vec<u64>),
}

/// One parsed container directive: a recognized name and its value slot.
#[derive(Debug, Clone, PartialEq, Eq)]
pub struct Attr {
    pub name: AttrName,
    pub value: Option<AttrValue>,
}

/// The container-level skip mode.
#[derive(Debug, Clone, Copy, PartialEq, Eq, Structural)]
pub enum Skip {
    /// Skip every field unconditionally.
    Bare,
    /// Skip each field that equals the same field of a default instance of
    /// the container.
    Defaults,
}

/// The validated directive set of one record type: at most one literal
/// override and at most one skip mode.
#[derive(Debug, Clone, PartialEq, Eq)]
pub struct Attrs {
    pub bare: Option<String>,
    pub skip: Option<Skip>,
}

/// The fixed container vocabulary, legacy aliases included.
pub open spec fn name_of(s: Seq<char>) -> Option<AttrName> {
    if s == "bare"@ {
        Some(AttrName::Valuefull(ValuefullName::Bare))
    } else if s == "skip"@ || s == "ignore"@ {
        Some(AttrName::Valueless(ValuelessName::Skip))
    } else if s == "skip_defaults"@ || s == "ignore_defaults"@ {
        Some(AttrName::Valueless(ValuelessName::SkipDefaults))
    } else {
        None
    }
}

/// What parsing one raw container directive yields.
///
/// A bare string literal is sugar for the `bare` directive. An unrecognized
/// name fails, a value the host language could not parse as an expression
/// fails, and a value slot that does not fit the directive's name fails.
pub open spec fn parse_attr(raw: RawAttr) -> Result<Attr, ErrorKind> {
    match raw {
        RawAttr::Lit(s) => Ok(
            Attr {
                name: AttrName::Valuefull(ValuefullName::Bare),
                value: Some(AttrValue::LitStr(s)),
            },
        ),
        RawAttr::Named { ident, value } => match name_of(ident@) {
            None => Err(ErrorKind::UnknownDirective),
            Some(name) => match value {
                RawValue::BadExpr => Err(ErrorKind::InvalidExpression),
                RawValue::BadCall => Err(ErrorKind::MalformedDirective),
                _ => match name {
                    AttrName::Valuefull(ValuefullName::Bare) => match value {
                        RawValue::LitStr(s) => Ok(
                            Attr { name, value: Some(AttrValue::LitStr(s)) },
                        ),
                        _ => Err(ErrorKind::MalformedDirective),
                    },
                    AttrName::Valueless(_) => match value {
                        RawValue::Absent => Ok(Attr { name, value: None }),
                        _ => Err(ErrorKind::MalformedDirective),
                    },
                },
            },
        },
    }
}

/// A parsed directive whose value slot fits its name.
pub open spec fn attr_wf(a: Attr) -> bool {
    match a.name {
        AttrName::Valuefull(ValuefullName::Bare) => match a.value {
            Some(AttrValue::LitStr(_)) => true,
            _ => false,
        },
        AttrName::Valueless(_) => a.value is None,
    }
}

/// Folding one parsed directive into the directive set: a conflicting second
/// occupant of a slot is rejected before the value is inspected.
pub open spec fn fold_step(acc: Attrs, a: Attr) -> Result<Attrs, ErrorKind> {
    match a.name {
        AttrName::Valuefull(ValuefullName::Bare) => {
            if acc.bare is Some {
                Err(ErrorKind::DuplicateDirective)
            } else {
                match a.value {
                    Some(AttrValue::LitStr(s)) => Ok(Attrs { bare: Some(s), skip: acc.skip }),
                    _ => Err(ErrorKind::MalformedDirective),
                }
            }
        },
        AttrName::Valueless(vl) => {
            if acc.skip is Some {
                Err(ErrorKind::DuplicateDirective)
            } else if a.value is Some {
                Err(ErrorKind::MalformedDirective)
            } else {
                match vl {
                    ValuelessName::Skip => Ok(Attrs { bare: acc.bare, skip: Some(Skip::Bare) }),
                    ValuelessName::SkipDefaults => Ok(
                        Attrs { bare: acc.bare, skip: Some(Skip::Defaults) },
                    ),
                }
            }
        },
    }
}

/// Left-to-right fold of the directives at positions `i` and onward.
pub open spec fn fold_from(acc: Attrs, attrs: Seq<Attr>, i: int) -> Result<Attrs, ParseError>
    decreases attrs.len() - i,
{
    if i < 0 || i >= attrs.len() {
        Ok(acc)
    } else {
        match fold_step(acc, attrs[i]) {
            Ok(acc2) => fold_from(acc2, attrs, i + 1),
            Err(kind) => Err(ParseError { kind, index: i as usize }),
        }
    }
}

/// The whole fold, from the empty directive set.
pub open spec fn fold_attrs(attrs: Seq<Attr>) -> Result<Attrs, ParseError> {
    fold_from(Attrs { bare: None, skip: None }, attrs, 0)
}

/// Parsing every raw directive at positions `i` and onward, stopping at the
/// first failure.
pub open spec fn parse_list_from(raw: Seq<RawAttr>, i: int) -> Result<Seq<Attr>, ParseError>
    decreases raw.len() - i,
{
    if i < 0 || i >= raw.len() {
        Ok(Seq::empty())
    } else {
        match parse_attr(raw[i]) {
            Err(kind) => Err(ParseError { kind, index: i as usize }),
            Ok(a) => match parse_list_from(raw, i + 1) {
                Err(e) => Err(e),
                Ok(rest) => Ok(seq![a] + rest),
            },
        }
    }
}

/// The whole container parse: each raw directive parsed independently, in
/// source order, then the parsed directives folded left to right.
pub open spec fn spec_parse(raw: Seq<RawAttr>) -> Result<Attrs, ParseError> {
    match parse_list_from(raw, 0) {
        Err(e) => Err(e),
        Ok(list) => fold_attrs(list),
    }
}

impl AttrName {
    /// Looks a directive name up in the fixed container vocabulary.
    pub fn new(ident: &String) -> (r: Option<AttrName>)
        ensures
            r == name_of(ident@),
    {
        if string_is(ident, "bare") {
            Some(AttrName::Valuefull(ValuefullName::Bare))
        } else if string_is(ident, "skip") || string_is(ident, "ignore") {
            Some(AttrName::Valueless(ValuelessName::Skip))
        } else if string_is(ident, "skip_defaults") || string_is(ident, "ignore_defaults") {
            Some(AttrName::Valueless(ValuelessName::SkipDefaults))
        } else {
            None
        }
    }
}

impl Attr {
    /// Parses one raw container directive.
    pub fn parse(raw: &RawAttr) -> (r: Result<Attr, ErrorKind>)
        ensures
            r == parse_attr(*raw),
    {
        match raw {
            RawAttr::Lit(s) => Ok(
                Attr {
                    name: AttrName::Valuefull(ValuefullName::Bare),
                    value: Some(AttrValue::LitStr(s.clone())),
                },
            ),
            RawAttr::Named { ident, value } => {
                let name = match AttrName::new(ident) {
                    Some(name) => name,
                    None => {
                        return Err(ErrorKind::UnknownDirective);
                    },
                };
                match value {
                    RawValue::BadExpr => Err(ErrorKind::InvalidExpression),
                    RawValue::BadCall => Err(ErrorKind::MalformedDirective),
                    _ => match name {
                        AttrName::Valuefull(ValuefullName::Bare) => match value {
                            RawValue::LitStr(s) => Ok(
                                Attr { name, value: Some(AttrValue::LitStr(s.clone())) },
                            ),
                            _ => Err(ErrorKind::MalformedDirective),
                        },
                        AttrName::Valueless(_) => match value {
                            RawValue::Absent => Ok(Attr { name, value: None }),
                            _ => Err(ErrorKind::MalformedDirective),
                        },
                    },
                }
            },
        }
    }
}

impl Attrs {
    /// Folds one parsed directive into the set.
    fn apply(acc: Attrs, a: &Attr) -> (r: Result<Attrs, ErrorKind>)
        ensures
            r == fold_step(acc, *a),
    {
        match &a.name {
            AttrName::Valuefull(ValuefullName::Bare) => {
                if acc.bare.is_some() {
                    Err(ErrorKind::DuplicateDirective)
                } else {
                    match &a.value {
                        Some(AttrValue::LitStr(s)) => Ok(
                            Attrs { bare: Some(s.clone()), skip: acc.skip },
                        ),
                        _ => Err(ErrorKind::MalformedDirective),
                    }
                }
            },
            AttrName::Valueless(vl) => {
                if acc.skip.is_some() {
                    Err(ErrorKind::DuplicateDirective)
                } else if a.value.is_some() {
                    Err(ErrorKind::MalformedDirective)
                } else {
                    match vl {
                        ValuelessName::Skip => Ok(Attrs { bare: acc.bare, skip: Some(Skip::Bare) }),
                        ValuelessName::SkipDefaults => Ok(
                            Attrs { bare: acc.bare, skip: Some(Skip::Defaults) },
                        ),
                    }
                }
            },
        }
    }

    /// Folds a list of parsed directives left to right, rejecting on the
    /// first conflicting second occurrence.
    pub fn try_from(parsed: &Vec<Attr>) -> (r: Result<Attrs, ParseError>)
        ensures
            r == fold_attrs(parsed@),
    {
        let mut acc = Attrs { bare: None, skip: None };
        let mut i: usize = 0;
        while i < parsed.len()
            invariant
                i <= parsed@.len(),
                fold_attrs(parsed@) == fold_from(acc, parsed@, i as int),
            decreases parsed@.len() - i,
        {
            match Attrs::apply(acc, &parsed[i]) {
                Ok(acc2) => {
                    acc = acc2;
                },
                Err(kind) => {
                    return Err(ParseError { kind, index: i });
                },
            }
            i = i + 1;
        }
        Ok(acc)
    }

    /// Parses the raw container directives of one record type, in source
    /// order, and validates the resulting directive set.
    pub fn parse(attrs: &Vec<RawAttr>) -> (r: Result<Attrs, ParseError>)
        ensures
            r == spec_parse(attrs@),
    {
        let mut parsed: Vec<Attr> = Vec::new();
        let mut i: usize = 0;
        while i < attrs.len()
            invariant
                i <= attrs@.len(),
                parsed@.len() == i,
                forall|j: int| 0 <= j < i ==> parse_attr(attrs@[j]) is Ok,
                forall|j: int|
                    0 <= j < i ==> parsed@[j] == parse_attr(attrs@[j])->Ok_0,
            decreases attrs@.len() - i,
        {
            match Attr::parse(&attrs[i]) {
                Ok(a) => {
                    parsed.push(a);
                },
                Err(kind) => {
                    proof {
                        lemma_parse_list_err(attrs@, i as int);
                    }
                    return Err(ParseError { kind, index: i });
                },
            }
            i = i + 1;
        }
        proof {
            lemma_parse_list_ok(attrs@, parsed@, 0);
        }
        Attrs::try_from(&parsed)
    }
}

/// A directive name outside the fixed vocabulary is a hard parse failure,
/// never silently ignored: the first such directive (no earlier directive
/// failing) fails the whole container parse with `UnknownDirective`, at its
/// own position, whatever its value slot holds.
pub proof fn lemma_unknown_directive(raw: Seq<RawAttr>, i: int)
    requires
        0 <= i < raw.len(),
        forall|j: int| 0 <= j < i ==> parse_attr(raw[j]) is Ok,
        raw[i] matches RawAttr::Named { ident, value } && name_of(ident@) is None,
    ensures
        spec_parse(raw) == Err::<Attrs, ParseError>(
            ParseError { kind: ErrorKind::UnknownDirective, index: i as usize },
        ),
{
    lemma_parse_list_err(raw, i);
}

/// Whether a parsed directive occupies the `bare` slot.
pub open spec fn is_bare_attr(a: Attr) -> bool {
    a.name == AttrName::Valuefull(ValuefullName::Bare)
}

/// A successfully parsed directive has a value slot that fits its name.
proof fn lemma_parse_attr_wf(raw: RawAttr)
    ensures
        parse_attr(raw) is Ok ==> attr_wf(parse_attr(raw)->Ok_0),
{
}

/// On well-formed directives the fold fails only with `DuplicateDirective`.
proof fn lemma_fold_err_kind(acc: Attrs, attrs: Seq<Attr>, i: int)
    requires
        forall|k: int| 0 <= k < attrs.len() ==> attr_wf(attrs[k]),
        fold_from(acc, attrs, i) is Err,
    ensures
        fold_from(acc, attrs, i)->Err_0.kind == ErrorKind::DuplicateDirective,
    decreases attrs.len() - i,
{
    if 0 <= i < attrs.len() {
        match fold_step(acc, attrs[i]) {
            Ok(acc2) => {
                lemma_fold_err_kind(acc2, attrs, i + 1);
            },
            Err(_) => {},
        }
    }
}

/// Once the `bare` slot is occupied, a later `bare` directive makes the fold
/// fail.
proof fn lemma_fold_occupied_bare(acc: Attrs, attrs: Seq<Attr>, i: int, j: int)
    requires
        forall|k: int| 0 <= k < attrs.len() ==> attr_wf(attrs[k]),
        0 <= i <= j < attrs.len(),
        acc.bare is Some,
        is_bare_attr(attrs[j]),
    ensures
        fold_from(acc, attrs, i) is Err,
    decreases j - i,
{
    match fold_step(acc, attrs[i]) {
        Ok(acc2) => {
            lemma_fold_occupied_bare(acc2, attrs, i + 1, j);
        },
        Err(_) => {},
    }
}

/// Two `bare` directives at or after `i` make the fold fail.
proof fn lemma_fold_two_bares(acc: Attrs, attrs: Seq<Attr>, i: int, p: int, q: int)
    requires
        forall|k: int| 0 <= k < attrs.len() ==> attr_wf(attrs[k]),
        0 <= i <= p < q < attrs.len(),
        is_bare_attr(attrs[p]),
        is_bare_attr(attrs[q]),
    ensures
        fold_from(acc, attrs, i) is Err,
    decreases p - i,
{
    match fold_step(acc, attrs[i]) {
        Ok(acc2) => {
            if i == p {
                lemma_fold_occupied_bare(acc2, attrs, i + 1, q);
            } else {
                lemma_fold_two_bares(acc2, attrs, i + 1, p, q);
            }
        },
        Err(_) => {},
    }
}

/// Specifying `bare` twice — explicitly or through the bare-literal sugar —
/// fails the container parse with `DuplicateDirective`, whenever every
/// directive is individually well formed.
pub proof fn lemma_duplicate_bare(raw: Seq<RawAttr>, i: int, j: int)
    requires
        0 <= i < j < raw.len(),
        forall|k: int| 0 <= k < raw.len() ==> parse_attr(raw[k]) is Ok,
        is_bare_attr(parse_attr(raw[i])->Ok_0),
        is_bare_attr(parse_attr(raw[j])->Ok_0),
    ensures
        spec_parse(raw) is Err,
        spec_parse(raw)->Err_0.kind == ErrorKind::DuplicateDirective,
{
    let list = Seq::new(raw.len(), |k: int| parse_attr(raw[k])->Ok_0);
    lemma_parse_list_ok(raw, list, 0);
    assert forall|k: int| 0 <= k < list.len() implies attr_wf(list[k]) by {
        lemma_parse_attr_wf(raw[k]);
    }
    let init = Attrs { bare: None, skip: None };
    lemma_fold_two_bares(init, list, 0, i, j);
    lemma_fold_err_kind(init, list, 0);
}

/// When every raw directive before `i` parses and the one at `i` fails, the
/// whole list parse fails at `i` with that failure's kind.
proof fn lemma_parse_list_err(raw: Seq<RawAttr>, i: int)
    requires
        0 <= i < raw.len(),
        forall|j: int| 0 <= j < i ==> parse_attr(raw[j]) is Ok,
        parse_attr(raw[i]) is Err,
    ensures
        parse_list_from(raw, 0) == Err::<Seq<Attr>, ParseError>(
            ParseError { kind: parse_attr(raw[i])->Err_0, index: i as usize },
        ),
    decreases i,
{
    if i > 0 {
        lemma_parse_list_err_from(raw, 0, i);
    }
}

proof fn lemma_parse_list_err_from(raw: Seq<RawAttr>, k: int, i: int)
    requires
        0 <= k <= i < raw.len(),
        forall|j: int| 0 <= j < i ==> parse_attr(raw[j]) is Ok,
        parse_attr(raw[i]) is Err,
    ensures
        parse_list_from(raw, k) == Err::<Seq<Attr>, ParseError>(
            ParseError { kind: parse_attr(raw[i])->Err_0, index: i as usize },
        ),
    decreases i - k,
{
    if k < i {
        lemma_parse_list_err_from(raw, k + 1, i);
    }
}

/// When every raw directive at positions `i` and onward parses, the list
/// parse succeeds with exactly those parsed directives, in order.
proof fn lemma_parse_list_ok(raw: Seq<RawAttr>, parsed: Seq<Attr>, i: int)
    requires
        0 <= i <= raw.len(),
        parsed.len() == raw.len() - i,
        forall|j: int| i <= j < raw.len() ==> parse_attr(raw[j]) is Ok,
        forall|j: int|
            i <= j < raw.len() ==> parsed[j - i] == parse_attr(raw[j])->Ok_0,
    ensures
        parse_list_from(raw, i) == Ok::<Seq<Attr>, ParseError>(parsed),
    decreases raw.len() - i,
{
    if i < raw.len() {
        lemma_parse_list_ok(raw, parsed.drop_first(), i + 1);
        assert(seq![parsed[0]] + parsed.drop_first() =~= parsed);
    } else {
        assert(parsed =~= Seq::<Attr>::empty());
    }
}

} // verus!
