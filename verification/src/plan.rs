//! Building the representation plan of one record type.
//!
//! The input is a structured description of the record as the host-language
//! front end supplies it: the type's name, its field shape, and for each field
//! an optional name, an opaque handle to its declared type, and its raw
//! directives. The output is an ordered plan of per-field emission
//! instructions plus the metadata the emitter needs: the record shape, whether
//! a "some field was skipped" flag must be tracked at a representation call,
//! and whether a default instance of the container must be materialized once,
//! up front.

use vstd::prelude::*;
use vstd::pervasive::unreached;

use crate::container;
use crate::error::{Error, ErrorKind, ParseError, Site};
use crate::field;
use crate::field::{AttrValue, BareOrWrapper};
use crate::raw::RawAttr;
use crate::resolve::{resolve, Ignore};
use crate::utils::{has_brace, needs_formatting};

verus! {

/// One field of the record description: its name (present exactly on named
/// fields), an opaque handle to its declared type, and its raw directives in
/// source order.
#[derive(Debug, Clone, PartialEq, Eq)]
pub struct Field {
    pub name: Option<String>,
    pub ty: u64,
    pub attrs: Vec<RawAttr>,
}

/// The field shape of a record.
#[derive(Debug, Clone, PartialEq, Eq)]
pub enum Fields {
    /// Curly-brace fields, each with a name.
    Named(Vec<Field>),
    /// Positional tuple fields, in order.
    Unnamed(Vec<Field>),
    /// No fields at all.
    Unit,
}

/// What kind of type the record is. Only plain product types are supported;
/// sum types and untagged unions fail fast.
#[derive(Debug, Clone, PartialEq, Eq)]
pub enum RecordData {
    Struct(Fields),
    Enum,
    Union,
}

/// The structured description of one record type, as the host-language front
/// end hands it over.
#[derive(Debug, Clone, PartialEq, Eq)]
pub struct RecordDesc {
    pub name: String,
    pub attrs: Vec<RawAttr>,
    pub data: RecordData,
}

impl RecordDesc {
    /// The front end guarantees that named fields carry names.
    pub open spec fn wf(self) -> bool {
        match self.data {
            RecordData::Struct(Fields::Named(fs)) => forall|i: int|
                0 <= i < fs@.len() ==> fs@[i].name is Some,
            _ => true,
        }
    }
}

/// The plan-level field shape.
#[derive(Debug, Clone, Copy, PartialEq, Eq, Structural)]
pub enum Shape {
    Named,
    Positional,
    Fieldless,
}

/// How a shown field's value is rendered.
#[derive(Debug, Clone, PartialEq, Eq)]
pub enum RenderExpr {
    /// Plain field access.
    Direct,
    /// Emit this literal text; the field's value is not consulted for
    /// display.
    Verbatim(String),
    /// Treat this text as an interpolation template and pass the field's
    /// value as a format argument.
    Interpolated(String),
    /// Render the result of applying this expression to a reference to the
    /// field's value.
    Wrapped(AttrValue),
}

/// One per-field emission instruction.
#[derive(Debug, Clone, PartialEq, Eq)]
pub struct PlanField {
    /// The field's label; present exactly in named-field plans.
    pub label: Option<String>,
    /// The opaque handle to the field's declared type.
    pub ty: u64,
    /// The effective skip decision.
    pub skip: Ignore,
    /// The render-expression selector.
    pub render: RenderExpr,
}

/// The plan of one record whose fields are visited.
#[derive(Debug, Clone, PartialEq, Eq)]
pub struct RecordPlan {
    pub name: String,
    pub shape: Shape,
    pub fields: Vec<PlanField>,
    /// Whether a representation call must track that at least one field was
    /// actually skipped, to pick between the complete and the
    /// possibly-incomplete terminator. Tracked for named-field records only.
    pub track_skipped: bool,
    /// Whether a default instance of the container must be constructed once,
    /// up front, before any field test runs.
    pub needs_container_default: bool,
}

/// The finished representation plan.
#[derive(Debug, Clone, PartialEq, Eq)]
pub enum Plan {
    /// The container-level literal override: emit this text verbatim; no
    /// field is visited, defaulted, or validated.
    Bare(String),
    /// Visit the fields as planned.
    Record(RecordPlan),
}

/// The mathematical value of a `RecordPlan`.
pub struct RecordPlanV {
    pub name: String,
    pub shape: Shape,
    pub fields: Seq<PlanField>,
    pub track_skipped: bool,
    pub needs_container_default: bool,
}

/// The mathematical value of a `Plan`.
pub enum PlanV {
    Bare(String),
    Record(RecordPlanV),
}

impl View for RecordPlan {
    type V = RecordPlanV;

    open spec fn view(&self) -> RecordPlanV {
        RecordPlanV {
            name: self.name,
            shape: self.shape,
            fields: self.fields@,
            track_skipped: self.track_skipped,
            needs_container_default: self.needs_container_default,
        }
    }
}

impl View for Plan {
    type V = PlanV;

    open spec fn view(&self) -> PlanV {
        match self {
            Plan::Bare(s) => PlanV::Bare(*s),
            Plan::Record(rp) => PlanV::Record(rp@),
        }
    }
}

/// The render-expression selector of one field: a literal override with a
/// brace anywhere in it becomes an interpolation template, one without is
/// emitted verbatim, a wrapper is applied to the value, and otherwise the
/// value is accessed directly.
pub open spec fn render_of(bw: Option<BareOrWrapper>) -> RenderExpr {
    match bw {
        None => RenderExpr::Direct,
        Some(BareOrWrapper::Bare(s)) => if has_brace(s@) {
            RenderExpr::Interpolated(s)
        } else {
            RenderExpr::Verbatim(s)
        },
        Some(BareOrWrapper::Wrapper(v)) => RenderExpr::Wrapped(v),
    }
}

/// The instruction of one field: its directives parsed and validated, the two
/// levels merged, the render expression selected.
pub open spec fn plan_field(
    global: Option<container::Skip>,
    f: Field,
    named: bool,
) -> Result<PlanField, ParseError> {
    match field::spec_parse(f.attrs@) {
        Err(e) => Err(e),
        Ok(fa) => Ok(
            PlanField {
                label: if named {
                    f.name
                } else {
                    None
                },
                ty: f.ty,
                skip: resolve(global, fa.skip),
                render: render_of(fa.bare_or_wrapper),
            },
        ),
    }
}

/// The instructions of the fields at positions `i` and onward, stopping at
/// the first field whose directives fail.
pub open spec fn plan_fields_from(
    global: Option<container::Skip>,
    fs: Seq<Field>,
    named: bool,
    i: int,
) -> Result<Seq<PlanField>, Error>
    decreases fs.len() - i,
{
    if i < 0 || i >= fs.len() {
        Ok(Seq::empty())
    } else {
        match plan_field(global, fs[i], named) {
            Err(pe) => Err(Error { kind: pe.kind, site: Site::Field(i as usize, pe.index) }),
            Ok(pf) => match plan_fields_from(global, fs, named, i + 1) {
                Err(e) => Err(e),
                Ok(rest) => Ok(seq![pf] + rest),
            },
        }
    }
}

/// Whether some field's decision requires the container-default snapshot.
pub open spec fn any_container_default(pfs: Seq<PlanField>) -> bool {
    exists|i: int| 0 <= i < pfs.len() && pfs[i].skip == Ignore::DefaultGlobal
}

/// The whole plan build: parse and validate the container directives; a
/// container-level literal override bypasses everything else; a sum type or
/// union fails fast; otherwise visit the fields in order and attach the
/// plan's metadata.
pub open spec fn spec_build_plan(desc: RecordDesc) -> Result<PlanV, Error> {
    match container::spec_parse(desc.attrs@) {
        Err(pe) => Err(Error { kind: pe.kind, site: Site::Container(pe.index) }),
        Ok(ca) => match ca.bare {
            Some(lit) => Ok(PlanV::Bare(lit)),
            None => match desc.data {
                RecordData::Enum => Err(
                    Error { kind: ErrorKind::UnsupportedShape, site: Site::Record },
                ),
                RecordData::Union => Err(
                    Error { kind: ErrorKind::UnsupportedShape, site: Site::Record },
                ),
                RecordData::Struct(fields) => match fields {
                    Fields::Named(fs) => match plan_fields_from(ca.skip, fs@, true, 0) {
                        Err(e) => Err(e),
                        Ok(pfs) => Ok(
                            PlanV::Record(
                                RecordPlanV {
                                    name: desc.name,
                                    shape: Shape::Named,
                                    fields: pfs,
                                    track_skipped: true,
                                    needs_container_default: any_container_default(pfs),
                                },
                            ),
                        ),
                    },
                    Fields::Unnamed(fs) => match plan_fields_from(ca.skip, fs@, false, 0) {
                        Err(e) => Err(e),
                        Ok(pfs) => Ok(
                            PlanV::Record(
                                RecordPlanV {
                                    name: desc.name,
                                    shape: Shape::Positional,
                                    fields: pfs,
                                    track_skipped: false,
                                    needs_container_default: any_container_default(pfs),
                                },
                            ),
                        ),
                    },
                    Fields::Unit => Ok(
                        PlanV::Record(
                            RecordPlanV {
                                name: desc.name,
                                shape: Shape::Fieldless,
                                fields: Seq::empty(),
                                track_skipped: false,
                                needs_container_default: false,
                            },
                        ),
                    ),
                },
            },
        },
    }
}

/// Selects the render expression of one field.
fn render_expr_of(bw: Option<BareOrWrapper>) -> (r: RenderExpr)
    ensures
        r == render_of(bw),
{
    match bw {
        None => RenderExpr::Direct,
        Some(BareOrWrapper::Bare(s)) => {
            if needs_formatting(s.as_str()) {
                RenderExpr::Interpolated(s)
            } else {
                RenderExpr::Verbatim(s)
            }
        },
        Some(BareOrWrapper::Wrapper(v)) => RenderExpr::Wrapped(v),
    }
}

/// Builds the instructions of all fields, in order, and reports whether any
/// of them needs the container-default snapshot.
fn build_fields(
    global: &Option<container::Skip>,
    fs: &Vec<Field>,
    named: bool,
) -> (r: Result<(Vec<PlanField>, bool), Error>)
    requires
        named ==> forall|i: int| 0 <= i < fs@.len() ==> fs@[i].name is Some,
    ensures
        r matches Ok(out) ==> plan_fields_from(*global, fs@, named, 0) == Ok::<
            Seq<PlanField>,
            Error,
        >(out.0@) && out.1 == any_container_default(out.0@),
        r matches Err(e) ==> plan_fields_from(*global, fs@, named, 0) == Err::<
            Seq<PlanField>,
            Error,
        >(e),
{
    let mut out: Vec<PlanField> = Vec::new();
    let mut needs_default = false;
    let mut i: usize = 0;
    while i < fs.len()
        invariant
            i <= fs@.len(),
            out@.len() == i,
            named ==> forall|j: int| 0 <= j < fs@.len() ==> fs@[j].name is Some,
            forall|j: int| 0 <= j < i ==> plan_field(*global, fs@[j], named) is Ok,
            forall|j: int|
                0 <= j < i ==> out@[j] == plan_field(*global, fs@[j], named)->Ok_0,
            needs_default == any_container_default(out@),
        decreases fs@.len() - i,
    {
        let f = &fs[i];
        let fa = match field::Attrs::parse(&f.attrs) {
            Ok(fa) => fa,
            Err(pe) => {
                proof {
                    lemma_plan_fields_err(*global, fs@, named, i as int);
                }
                return Err(Error { kind: pe.kind, site: Site::Field(i, pe.index) });
            },
        };
        let label: Option<String> = if named {
            match &f.name {
                Some(n) => Some(n.clone()),
                None => unreached(),
            }
        } else {
            None
        };
        let pf = PlanField {
            label,
            ty: f.ty,
            skip: Ignore::new(global, fa.skip),
            render: render_expr_of(fa.bare_or_wrapper),
        };
        let is_default_global = match &pf.skip {
            Ignore::DefaultGlobal => true,
            _ => false,
        };
        proof {
            let prev = out@;
            let next = prev.push(pf);
            if needs_default || is_default_global {
                if needs_default {
                    let w = choose|k: int|
                        0 <= k < prev.len() && prev[k].skip == Ignore::DefaultGlobal;
                    assert(next[w].skip == Ignore::DefaultGlobal);
                } else {
                    assert(next[prev.len() as int].skip == Ignore::DefaultGlobal);
                }
                assert(any_container_default(next));
            } else {
                assert forall|k: int|
                    0 <= k < next.len() implies next[k].skip != Ignore::DefaultGlobal by {
                    if k < prev.len() {
                        assert(!any_container_default(prev));
                        assert(next[k] == prev[k]);
                    }
                }
            }
        }
        if is_default_global {
            needs_default = true;
        }
        out.push(pf);
        i = i + 1;
    }
    proof {
        lemma_plan_fields_ok(*global, fs@, named, out@, 0);
    }
    Ok((out, needs_default))
}

/// When the fields before `i` all plan successfully and the one at `i` fails,
/// the whole field walk fails at `i`.
proof fn lemma_plan_fields_err(
    global: Option<container::Skip>,
    fs: Seq<Field>,
    named: bool,
    i: int,
)
    requires
        0 <= i < fs.len(),
        forall|j: int| 0 <= j < i ==> plan_field(global, fs[j], named) is Ok,
        plan_field(global, fs[i], named) is Err,
    ensures
        plan_fields_from(global, fs, named, 0) == Err::<Seq<PlanField>, Error>(
            Error {
                kind: plan_field(global, fs[i], named)->Err_0.kind,
                site: Site::Field(i as usize, plan_field(global, fs[i], named)->Err_0.index),
            },
        ),
{
    lemma_plan_fields_err_from(global, fs, named, 0, i);
}

proof fn lemma_plan_fields_err_from(
    global: Option<container::Skip>,
    fs: Seq<Field>,
    named: bool,
    k: int,
    i: int,
)
    requires
        0 <= k <= i < fs.len(),
        forall|j: int| 0 <= j < i ==> plan_field(global, fs[j], named) is Ok,
        plan_field(global, fs[i], named) is Err,
    ensures
        plan_fields_from(global, fs, named, k) == Err::<Seq<PlanField>, Error>(
            Error {
                kind: plan_field(global, fs[i], named)->Err_0.kind,
                site: Site::Field(i as usize, plan_field(global, fs[i], named)->Err_0.index),
            },
        ),
    decreases i - k,
{
    if k < i {
        lemma_plan_fields_err_from(global, fs, named, k + 1, i);
    }
}

/// When every field at positions `i` and onward plans successfully, the walk
/// yields exactly those instructions, in order.
proof fn lemma_plan_fields_ok(
    global: Option<container::Skip>,
    fs: Seq<Field>,
    named: bool,
    pfs: Seq<PlanField>,
    i: int,
)
    requires
        0 <= i <= fs.len(),
        pfs.len() == fs.len() - i,
        forall|j: int| i <= j < fs.len() ==> plan_field(global, fs[j], named) is Ok,
        forall|j: int|
            i <= j < fs.len() ==> pfs[j - i] == plan_field(global, fs[j], named)->Ok_0,
    ensures
        plan_fields_from(global, fs, named, i) == Ok::<Seq<PlanField>, Error>(pfs),
    decreases fs.len() - i,
{
    if i < fs.len() {
        lemma_plan_fields_ok(global, fs, named, pfs.drop_first(), i + 1);
        assert(seq![pfs[0]] + pfs.drop_first() =~= pfs);
    } else {
        assert(pfs =~= Seq::<PlanField>::empty());
    }
}

/// Builds the representation plan of one record type, or fails with the first
/// error, located: a directive error at the container or at a field, or an
/// unsupported record shape.
pub fn build_plan(desc: &RecordDesc) -> (r: Result<Plan, Error>)
    requires
        desc.wf(),
    ensures
        r matches Ok(p) ==> spec_build_plan(*desc) == Ok::<PlanV, Error>(p@),
        r matches Err(e) ==> spec_build_plan(*desc) == Err::<PlanV, Error>(e),
{
    let ca = match container::Attrs::parse(&desc.attrs) {
        Ok(ca) => ca,
        Err(pe) => {
            return Err(Error { kind: pe.kind, site: Site::Container(pe.index) });
        },
    };
    if let Some(lit) = ca.bare {
        return Ok(Plan::Bare(lit));
    }
    match &desc.data {
        RecordData::Enum => Err(Error { kind: ErrorKind::UnsupportedShape, site: Site::Record }),
        RecordData::Union => Err(Error { kind: ErrorKind::UnsupportedShape, site: Site::Record }),
        RecordData::Struct(fields) => match fields {
            Fields::Unit => Ok(
                Plan::Record(
                    RecordPlan {
                        name: desc.name.clone(),
                        shape: Shape::Fieldless,
                        fields: Vec::new(),
                        track_skipped: false,
                        needs_container_default: false,
                    },
                ),
            ),
            Fields::Named(fs) => match build_fields(&ca.skip, fs, true) {
                Err(e) => Err(e),
                Ok((pfs, needs_default)) => Ok(
                    Plan::Record(
                        RecordPlan {
                            name: desc.name.clone(),
                            shape: Shape::Named,
                            fields: pfs,
                            track_skipped: true,
                            needs_container_default: needs_default,
                        },
                    ),
                ),
            },
            Fields::Unnamed(fs) => match build_fields(&ca.skip, fs, false) {
                Err(e) => Err(e),
                Ok((pfs, needs_default)) => Ok(
                    Plan::Record(
                        RecordPlan {
                            name: desc.name.clone(),
                            shape: Shape::Positional,
                            fields: pfs,
                            track_skipped: false,
                            needs_container_default: needs_default,
                        },
                    ),
                ),
            },
        },
    }
}

proof fn lemma_plan_fields_shape(
    global: Option<container::Skip>,
    fs: Seq<Field>,
    named: bool,
    i: int,
)
    requires
        0 <= i <= fs.len(),
        plan_fields_from(global, fs, named, i) is Ok,
    ensures
        plan_fields_from(global, fs, named, i)->Ok_0.len() == fs.len() - i,
        forall|j: int|
            i <= j < fs.len() ==> plan_field(global, fs[j], named) is Ok && plan_fields_from(
                global,
                fs,
                named,
                i,
            )->Ok_0[j - i] == plan_field(global, fs[j], named)->Ok_0,
    decreases fs.len() - i,
{
    if i < fs.len() {
        lemma_plan_fields_shape(global, fs, named, i + 1);
    }
}

/// A successful field walk visits every field, in order: the plan holds one
/// instruction per field, each the plan of its own field, at its own
/// position — whatever the fields' skip decisions are.
pub proof fn lemma_plan_preserves_fields(
    global: Option<container::Skip>,
    fs: Seq<Field>,
    named: bool,
)
    requires
        plan_fields_from(global, fs, named, 0) is Ok,
    ensures
        plan_fields_from(global, fs, named, 0)->Ok_0.len() == fs.len(),
        forall|j: int|
            0 <= j < fs.len() ==> plan_field(global, fs[j], named) is Ok && plan_fields_from(
                global,
                fs,
                named,
                0,
            )->Ok_0[j] == plan_field(global, fs[j], named)->Ok_0,
{
    lemma_plan_fields_shape(global, fs, named, 0);
}

/// A literal override containing any brace is treated as an interpolation
/// template — the field's value will be passed as a format argument — while
/// one containing none is emitted verbatim. First brace found wins; no
/// paired-brace validation runs.
pub proof fn lemma_literal_override_mode(s: String)
    ensures
        has_brace(s@) ==> render_of(Some(BareOrWrapper::Bare(s))) == RenderExpr::Interpolated(s),
        !has_brace(s@) ==> render_of(Some(BareOrWrapper::Bare(s))) == RenderExpr::Verbatim(s),
{
}

/// A container-level literal override bypasses the field walk entirely: the
/// plan is the literal text, and no field is visited — two descriptions that
/// agree on the name and the container directives plan identically, whatever
/// their fields and field directives are.
pub proof fn lemma_bare_short_circuit(d1: RecordDesc, d2: RecordDesc)
    requires
        d1.name == d2.name,
        d1.attrs@ == d2.attrs@,
        container::spec_parse(d1.attrs@) is Ok,
        container::spec_parse(d1.attrs@)->Ok_0.bare is Some,
    ensures
        spec_build_plan(d1) == Ok::<PlanV, Error>(
            PlanV::Bare(container::spec_parse(d1.attrs@)->Ok_0.bare->0),
        ),
        spec_build_plan(d1) == spec_build_plan(d2),
{
}

} // verus!
