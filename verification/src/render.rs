//! What one representation call produces, given a plan and the runtime facts
//! about each field's value.
//!
//! The plan fixes which tests run and which text sources are used; the facts
//! carry what only the running program knows: whether the value equals the
//! relevant default or expression, what the skip predicate returned, and the
//! text the host formatter produces when the value is consulted. Evaluation
//! turns the two into the ordered entry list and the terminator choice, and
//! text assembly turns that into the final single-line representation.

use vstd::prelude::*;
use vstd::string::StringExecFns;

use crate::plan::{Plan, PlanField, PlanV, RecordPlanV, RenderExpr, Shape};
use crate::resolve::Ignore;

verus! {

/// The runtime facts about one field's value at one representation call.
#[derive(Debug, Clone, PartialEq, Eq)]
pub struct FieldFacts {
    /// Whether the value equals its own type's default.
    pub equals_type_default: bool,
    /// Whether the value equals the same field of the container-default
    /// snapshot.
    pub equals_container_default: bool,
    /// Whether the value equals the expression of a `skip_if` directive.
    pub equals_expr: bool,
    /// What the predicate function of a `skip_fn` directive returned.
    pub pred_holds: bool,
    /// The text the host formatter produces for this field when the value is
    /// consulted: the value's own rendering, the wrapper's rendering, or the
    /// interpolation template filled with the value.
    pub value_text: String,
}

/// The text of one emitted entry.
#[derive(Debug, Clone, PartialEq, Eq)]
pub enum EntryText {
    Text(String),
    /// The designated placeholder of an elided positional field.
    Elided,
}

/// One emitted entry: a label exactly in named-field renderings.
#[derive(Debug, Clone, PartialEq, Eq)]
pub struct Entry {
    pub label: Option<String>,
    pub text: EntryText,
}

/// The outcome of one representation call on a record plan.
#[derive(Debug, Clone, PartialEq, Eq)]
pub struct RecordRendering {
    pub name: String,
    pub shape: Shape,
    pub entries: Vec<Entry>,
    /// Whether the complete terminator is used; false marks that some field
    /// was skipped and the possibly-incomplete terminator is shown.
    pub exhaustive: bool,
}

/// The outcome of one representation call.
#[derive(Debug, Clone, PartialEq, Eq)]
pub enum Rendering {
    /// The container-level literal override, emitted verbatim.
    Bare(String),
    Record(RecordRendering),
}

/// The mathematical value of a `RecordRendering`.
pub struct RecordRenderingV {
    pub name: String,
    pub shape: Shape,
    pub entries: Seq<Entry>,
    pub exhaustive: bool,
}

/// The mathematical value of a `Rendering`.
pub enum RenderingV {
    Bare(String),
    Record(RecordRenderingV),
}

impl View for RecordRendering {
    type V = RecordRenderingV;

    open spec fn view(&self) -> RecordRenderingV {
        RecordRenderingV {
            name: self.name,
            shape: self.shape,
            entries: self.entries@,
            exhaustive: self.exhaustive,
        }
    }
}

impl View for Rendering {
    type V = RenderingV;

    open spec fn view(&self) -> RenderingV {
        match self {
            Rendering::Bare(s) => RenderingV::Bare(*s),
            Rendering::Record(rr) => RenderingV::Record(rr@),
        }
    }
}

/// Whether the field is skipped at this call: the decision reads exactly the
/// fact its skip kind names, and nothing else.
pub open spec fn spec_skipped(skip: Ignore, facts: FieldFacts) -> bool {
    match skip {
        Ignore::No => false,
        Ignore::Unconditional => true,
        Ignore::Default => facts.equals_type_default,
        Ignore::DefaultGlobal => facts.equals_container_default,
        Ignore::If(_) => facts.equals_expr,
        Ignore::Fn(_) => facts.pred_holds,
    }
}

/// The text of a shown field: a verbatim literal override is the literal
/// itself, the field's value never consulted; every other selector consults
/// the value through the host formatter's text.
pub open spec fn spec_text_of(render: RenderExpr, facts: FieldFacts) -> EntryText {
    match render {
        RenderExpr::Verbatim(s) => EntryText::Text(s),
        RenderExpr::Interpolated(_) => EntryText::Text(facts.value_text),
        RenderExpr::Direct => EntryText::Text(facts.value_text),
        RenderExpr::Wrapped(_) => EntryText::Text(facts.value_text),
    }
}

/// The entries of a named-field rendering, from position `i` on: a skipped
/// field is omitted entirely.
pub open spec fn named_entries(pfs: Seq<PlanField>, facts: Seq<FieldFacts>, i: int) -> Seq<Entry>
    decreases pfs.len() - i,
{
    if i < 0 || i >= pfs.len() {
        Seq::empty()
    } else {
        let rest = named_entries(pfs, facts, i + 1);
        if spec_skipped(pfs[i].skip, facts[i]) {
            rest
        } else {
            seq![Entry { label: pfs[i].label, text: spec_text_of(pfs[i].render, facts[i]) }] + rest
        }
    }
}

/// The entries of a positional rendering, from position `i` on: field count
/// and order are preserved, a skipped field is replaced by the placeholder.
pub open spec fn positional_entries(
    pfs: Seq<PlanField>,
    facts: Seq<FieldFacts>,
    i: int,
) -> Seq<Entry>
    decreases pfs.len() - i,
{
    if i < 0 || i >= pfs.len() {
        Seq::empty()
    } else {
        let e = if spec_skipped(pfs[i].skip, facts[i]) {
            Entry { label: None, text: EntryText::Elided }
        } else {
            Entry { label: None, text: spec_text_of(pfs[i].render, facts[i]) }
        };
        seq![e] + positional_entries(pfs, facts, i + 1)
    }
}

/// Whether any field is skipped at this call.
pub open spec fn any_skipped(pfs: Seq<PlanField>, facts: Seq<FieldFacts>) -> bool {
    exists|j: int| 0 <= j < pfs.len() && spec_skipped(pfs[j].skip, facts[j])
}

/// One representation call: a literal-override plan emits its text and visits
/// nothing; a named-field plan omits skipped fields and tracks whether any
/// was; a positional plan keeps every position and never tracks; a fieldless
/// plan has no entries and the complete terminator.
pub open spec fn spec_evaluate(p: PlanV, facts: Seq<FieldFacts>) -> RenderingV {
    match p {
        PlanV::Bare(lit) => RenderingV::Bare(lit),
        PlanV::Record(rp) => match rp.shape {
            Shape::Positional => RenderingV::Record(
                RecordRenderingV {
                    name: rp.name,
                    shape: rp.shape,
                    entries: positional_entries(rp.fields, facts, 0),
                    exhaustive: true,
                },
            ),
            _ => RenderingV::Record(
                RecordRenderingV {
                    name: rp.name,
                    shape: rp.shape,
                    entries: named_entries(rp.fields, facts, 0),
                    exhaustive: !(rp.track_skipped && any_skipped(rp.fields, facts)),
                },
            ),
        },
    }
}

/// Tests the field's skip decision against the facts.
fn skipped_at(skip: &Ignore, facts: &FieldFacts) -> (r: bool)
    ensures
        r == spec_skipped(*skip, *facts),
{
    match skip {
        Ignore::No => false,
        Ignore::Unconditional => true,
        Ignore::Default => facts.equals_type_default,
        Ignore::DefaultGlobal => facts.equals_container_default,
        Ignore::If(_) => facts.equals_expr,
        Ignore::Fn(_) => facts.pred_holds,
    }
}

/// Produces the text of a shown field.
fn text_at(render: &RenderExpr, facts: &FieldFacts) -> (r: EntryText)
    ensures
        r == spec_text_of(*render, *facts),
{
    match render {
        RenderExpr::Verbatim(s) => EntryText::Text(s.clone()),
        RenderExpr::Interpolated(_) => EntryText::Text(facts.value_text.clone()),
        RenderExpr::Direct => EntryText::Text(facts.value_text.clone()),
        RenderExpr::Wrapped(_) => EntryText::Text(facts.value_text.clone()),
    }
}

/// Copies a field's label.
fn label_at(label: &Option<String>) -> (r: Option<String>)
    ensures
        r == *label,
{
    match label {
        Some(l) => Some(l.clone()),
        None => None,
    }
}

/// Evaluates one representation call of the plan against the per-field facts,
/// one fact record per planned field.
pub fn evaluate(plan: &Plan, facts: &Vec<FieldFacts>) -> (r: Rendering)
    requires
        plan@ matches PlanV::Record(rp) ==> facts@.len() == rp.fields.len(),
    ensures
        r@ == spec_evaluate(plan@, facts@),
{
    match plan {
        Plan::Bare(lit) => Rendering::Bare(lit.clone()),
        Plan::Record(rp) => {
            let positional = match rp.shape {
                Shape::Positional => true,
                _ => false,
            };
            let mut entries: Vec<Entry> = Vec::new();
            let mut was_skipped = false;
            let mut i: usize = 0;
            if positional {
                while i < rp.fields.len()
                    invariant
                        i <= rp.fields@.len(),
                        facts@.len() == rp.fields@.len(),
                        positional_entries(rp.fields@, facts@, 0) == entries@ + positional_entries(
                            rp.fields@,
                            facts@,
                            i as int,
                        ),
                    decreases rp.fields@.len() - i,
                {
                    let pf = &rp.fields[i];
                    let f = &facts[i];
                    let e = if skipped_at(&pf.skip, f) {
                        Entry { label: None, text: EntryText::Elided }
                    } else {
                        Entry { label: None, text: text_at(&pf.render, f) }
                    };
                    proof {
                        let ghost_e = if spec_skipped(rp.fields@[i as int].skip, facts@[i as int]) {
                            Entry { label: None, text: EntryText::Elided }
                        } else {
                            Entry {
                                label: None,
                                text: spec_text_of(rp.fields@[i as int].render, facts@[i as int]),
                            }
                        };
                        assert(entries@ + (seq![ghost_e] + positional_entries(
                            rp.fields@,
                            facts@,
                            i as int + 1,
                        )) =~= entries@.push(ghost_e) + positional_entries(
                            rp.fields@,
                            facts@,
                            i as int + 1,
                        ));
                    }
                    entries.push(e);
                    i = i + 1;
                }
                proof {
                    assert(entries@ + positional_entries(rp.fields@, facts@, i as int) =~= entries@);
                }
                Rendering::Record(
                    RecordRendering {
                        name: rp.name.clone(),
                        shape: rp.shape,
                        entries,
                        exhaustive: true,
                    },
                )
            } else {
                while i < rp.fields.len()
                    invariant
                        i <= rp.fields@.len(),
                        facts@.len() == rp.fields@.len(),
                        named_entries(rp.fields@, facts@, 0) == entries@ + named_entries(
                            rp.fields@,
                            facts@,
                            i as int,
                        ),
                        was_skipped == exists|j: int|
                            0 <= j < i && spec_skipped(rp.fields@[j].skip, facts@[j]),
                    decreases rp.fields@.len() - i,
                {
                    let pf = &rp.fields[i];
                    let f = &facts[i];
                    if skipped_at(&pf.skip, f) {
                        proof {
                            assert(spec_skipped(rp.fields@[i as int].skip, facts@[i as int]));
                        }
                        was_skipped = true;
                    } else {
                        let e = Entry { label: label_at(&pf.label), text: text_at(&pf.render, f) };
                        proof {
                            let ghost_e = Entry {
                                label: rp.fields@[i as int].label,
                                text: spec_text_of(rp.fields@[i as int].render, facts@[i as int]),
                            };
                            assert(entries@ + (seq![ghost_e] + named_entries(
                                rp.fields@,
                                facts@,
                                i as int + 1,
                            )) =~= entries@.push(ghost_e) + named_entries(
                                rp.fields@,
                                facts@,
                                i as int + 1,
                            ));
                            if was_skipped {
                                let w = choose|j: int|
                                    0 <= j < i && spec_skipped(rp.fields@[j].skip, facts@[j]);
                                assert(0 <= w < i + 1 && spec_skipped(
                                    rp.fields@[w].skip,
                                    facts@[w],
                                ));
                            }
                        }
                        entries.push(e);
                    }
                    i = i + 1;
                }
                proof {
                    assert(entries@ + named_entries(rp.fields@, facts@, i as int) =~= entries@);
                    if was_skipped {
                        assert(any_skipped(rp.fields@, facts@));
                    } else {
                        if any_skipped(rp.fields@, facts@) {
                            let j = choose|j: int|
                                0 <= j < rp.fields@.len() && spec_skipped(
                                    rp.fields@[j].skip,
                                    facts@[j],
                                );
                            assert(false);
                        }
                    }
                }
                Rendering::Record(
                    RecordRendering {
                        name: rp.name.clone(),
                        shape: rp.shape,
                        entries,
                        exhaustive: !(rp.track_skipped && was_skipped),
                    },
                )
            }
        },
    }
}

/// A verbatim literal override is emitted as the literal itself, whatever the
/// field's value is: the text never consults the facts. The skip decision
/// reads only the four test facts, so a skip condition beside the override is
/// still evaluated — two calls whose facts agree on the tests but differ in
/// the value's text skip identically.
pub proof fn lemma_verbatim_ignores_value(
    lit: String,
    skip: Ignore,
    f1: FieldFacts,
    f2: FieldFacts,
)
    requires
        f1.equals_type_default == f2.equals_type_default,
        f1.equals_container_default == f2.equals_container_default,
        f1.equals_expr == f2.equals_expr,
        f1.pred_holds == f2.pred_holds,
    ensures
        spec_text_of(RenderExpr::Verbatim(lit), f1) == EntryText::Text(lit),
        spec_skipped(skip, f1) == spec_skipped(skip, f2),
{
}

/// An interpolated literal override consults the field's value: the shown
/// text is the host formatter's text of the template filled with the value.
pub proof fn lemma_interpolated_consults_value(lit: String, f: FieldFacts)
    ensures
        spec_text_of(RenderExpr::Interpolated(lit), f) == EntryText::Text(f.value_text),
{
}

/// Positional entries preserve the field count.
proof fn lemma_positional_entries_len(pfs: Seq<PlanField>, facts: Seq<FieldFacts>, i: int)
    requires
        0 <= i <= pfs.len(),
    ensures
        positional_entries(pfs, facts, i).len() == pfs.len() - i,
    decreases pfs.len() - i,
{
    if i < pfs.len() {
        lemma_positional_entries_len(pfs, facts, i + 1);
    }
}

/// Positional entries preserve the field order: the entry at a position is
/// that field's own, the placeholder exactly when the field is skipped.
proof fn lemma_positional_entries_index(
    pfs: Seq<PlanField>,
    facts: Seq<FieldFacts>,
    i: int,
    k: int,
)
    requires
        0 <= i <= k < pfs.len(),
    ensures
        positional_entries(pfs, facts, i)[k - i] == (if spec_skipped(pfs[k].skip, facts[k]) {
            Entry { label: None, text: EntryText::Elided }
        } else {
            Entry { label: None, text: spec_text_of(pfs[k].render, facts[k]) }
        }),
    decreases k - i,
{
    lemma_positional_entries_len(pfs, facts, i + 1);
    if i < k {
        lemma_positional_entries_index(pfs, facts, i + 1, k);
    }
}

/// A positional rendering with an unconditionally skipped field keeps the
/// field count and order, substitutes the placeholder at that position, and
/// still uses the complete terminator.
pub proof fn lemma_positional_placeholder(rp: RecordPlanV, facts: Seq<FieldFacts>, k: int)
    requires
        rp.shape == Shape::Positional,
        facts.len() == rp.fields.len(),
        0 <= k < rp.fields.len(),
        rp.fields[k].skip == Ignore::Unconditional,
    ensures
        ({
            let rr = spec_evaluate(PlanV::Record(rp), facts)->Record_0;
            &&& rr.entries.len() == rp.fields.len()
            &&& rr.entries[k] == Entry { label: None, text: EntryText::Elided }
            &&& rr.exhaustive
        }),
{
    lemma_positional_entries_len(rp.fields, facts, 0);
    lemma_positional_entries_index(rp.fields, facts, 0, k);
}

/// Every named entry carries the label of some non-skipped field at or after
/// position `i`.
proof fn lemma_named_entries_labels(pfs: Seq<PlanField>, facts: Seq<FieldFacts>, i: int, m: int)
    requires
        0 <= i,
        0 <= m < named_entries(pfs, facts, i).len(),
    ensures
        exists|j: int|
            i <= j < pfs.len() && !spec_skipped(pfs[j].skip, facts[j]) && named_entries(
                pfs,
                facts,
                i,
            )[m].label == pfs[j].label,
    decreases pfs.len() - i,
{
    if i < pfs.len() {
        if spec_skipped(pfs[i].skip, facts[i]) {
            lemma_named_entries_labels(pfs, facts, i + 1, m);
            let j = choose|j: int|
                i + 1 <= j < pfs.len() && !spec_skipped(pfs[j].skip, facts[j]) && named_entries(
                    pfs,
                    facts,
                    i + 1,
                )[m].label == pfs[j].label;
            assert(i <= j < pfs.len() && !spec_skipped(pfs[j].skip, facts[j]) && named_entries(
                pfs,
                facts,
                i,
            )[m].label == pfs[j].label);
        } else {
            if m == 0 {
                assert(named_entries(pfs, facts, i)[0].label == pfs[i].label);
            } else {
                lemma_named_entries_labels(pfs, facts, i + 1, m - 1);
                let j = choose|j: int|
                    i + 1 <= j < pfs.len() && !spec_skipped(pfs[j].skip, facts[j]) && named_entries(
                        pfs,
                        facts,
                        i + 1,
                    )[m - 1].label == pfs[j].label;
                assert(i <= j < pfs.len() && !spec_skipped(pfs[j].skip, facts[j]) && named_entries(
                    pfs,
                    facts,
                    i,
                )[m].label == pfs[j].label);
            }
        }
    }
}

/// A named-field rendering with an unconditionally skipped field omits that
/// field's entry entirely — no entry carries its label, the labels being
/// distinct — and marks the possibly-incomplete terminator.
pub proof fn lemma_named_omits_skipped(rp: RecordPlanV, facts: Seq<FieldFacts>, k: int)
    requires
        rp.shape == Shape::Named,
        rp.track_skipped,
        facts.len() == rp.fields.len(),
        0 <= k < rp.fields.len(),
        rp.fields[k].skip == Ignore::Unconditional,
        forall|j: int|
            0 <= j < rp.fields.len() && j != k ==> rp.fields[j].label != rp.fields[k].label,
    ensures
        ({
            let rr = spec_evaluate(PlanV::Record(rp), facts)->Record_0;
            &&& !rr.exhaustive
            &&& forall|m: int|
                0 <= m < rr.entries.len() ==> rr.entries[m].label != rp.fields[k].label
        }),
{
    assert(spec_skipped(rp.fields[k].skip, facts[k]));
    assert(any_skipped(rp.fields, facts));
    let rr = spec_evaluate(PlanV::Record(rp), facts)->Record_0;
    assert forall|m: int|
        0 <= m < rr.entries.len() implies rr.entries[m].label != rp.fields[k].label by {
        lemma_named_entries_labels(rp.fields, facts, 0, m);
        let j = choose|j: int|
            0 <= j < rp.fields.len() && !spec_skipped(rp.fields[j].skip, facts[j])
                && named_entries(rp.fields, facts, 0)[m].label == rp.fields[j].label;
        assert(j != k);
    }
}

/// The characters of one entry's text; the placeholder is a single underscore.
pub open spec fn text_chars(t: EntryText) -> Seq<char> {
    match t {
        EntryText::Text(s) => s@,
        EntryText::Elided => "_"@,
    }
}

/// The characters of one entry: a label is followed by a colon and a space.
pub open spec fn entry_chars(e: Entry) -> Seq<char> {
    match e.label {
        Some(l) => l@ + ": "@ + text_chars(e.text),
        None => text_chars(e.text),
    }
}

/// The first `k` entries joined with a comma and a space.
pub open spec fn entries_chars(es: Seq<Entry>, k: int) -> Seq<char>
    decreases k,
{
    if k <= 0 {
        Seq::empty()
    } else if k == 1 {
        entry_chars(es[0])
    } else {
        entries_chars(es, k - 1) + ", "@ + entry_chars(es[k - 1])
    }
}

/// The final single-line text of one representation call, exactly as the
/// host's formatting machinery frames it: named-field and fieldless
/// renderings use the curly style with `..` marking a possibly-incomplete
/// list, positional renderings use the parenthesized style, and a rendering
/// with no entries is the bare name (unless incomplete).
pub open spec fn rendering_chars(r: RenderingV) -> Seq<char> {
    match r {
        RenderingV::Bare(lit) => lit@,
        RenderingV::Record(rr) => match rr.shape {
            Shape::Positional => if rr.entries.len() == 0 {
                rr.name@
            } else {
                rr.name@ + "("@ + entries_chars(rr.entries, rr.entries.len() as int) + ")"@
            },
            _ => {
                if rr.entries.len() == 0 {
                    if rr.exhaustive {
                        rr.name@
                    } else {
                        rr.name@ + " { .. }"@
                    }
                } else {
                    if rr.exhaustive {
                        rr.name@ + " { "@ + entries_chars(rr.entries, rr.entries.len() as int)
                            + " }"@
                    } else {
                        rr.name@ + " { "@ + entries_chars(rr.entries, rr.entries.len() as int)
                            + ", .. }"@
                    }
                }
            },
        },
    }
}

/// Appends the joined entries to the string being assembled.
fn append_entries(s: &mut String, es: &Vec<Entry>)
    ensures
        final(s)@ == old(s)@ + entries_chars(es@, es@.len() as int),
{
    let mut i: usize = 0;
    while i < es.len()
        invariant
            i <= es@.len(),
            s@ == old(s)@ + entries_chars(es@, i as int),
        decreases es@.len() - i,
    {
        if i > 0 {
            s.append(", ");
        }
        match &es[i].label {
            Some(l) => {
                s.append(l.as_str());
                s.append(": ");
            },
            None => {},
        }
        match &es[i].text {
            EntryText::Text(t) => s.append(t.as_str()),
            EntryText::Elided => s.append("_"),
        }
        proof {
            assert(s@ =~= old(s)@ + entries_chars(es@, i as int + 1));
        }
        i = i + 1;
    }
}

impl Rendering {
    /// Assembles the final single-line text.
    pub fn to_text(&self) -> (out: String)
        ensures
            out@ == rendering_chars(self@),
    {
        match self {
            Rendering::Bare(lit) => lit.clone(),
            Rendering::Record(rr) => {
                let mut s = rr.name.clone();
                let positional = match rr.shape {
                    Shape::Positional => true,
                    _ => false,
                };
                if positional {
                    if rr.entries.len() > 0 {
                        s.append("(");
                        append_entries(&mut s, &rr.entries);
                        s.append(")");
                        proof {
                            assert(s@ =~= rendering_chars(self@));
                        }
                    }
                } else {
                    if rr.entries.len() == 0 {
                        if !rr.exhaustive {
                            s.append(" { .. }");
                        }
                    } else {
                        s.append(" { ");
                        append_entries(&mut s, &rr.entries);
                        if rr.exhaustive {
                            s.append(" }");
                        } else {
                            s.append(", .. }");
                        }
                        proof {
                            assert(s@ =~= rendering_chars(self@));
                        }
                    }
                }
                s
            },
        }
    }
}

} // verus!
