//! End-to-end runs of the pipeline: raw directives in a record description,
//! through the plan builder, evaluated against concrete runtime facts, down to
//! the final text.

use smart_debug::container;
use smart_debug::plan::{build_plan, Field, Fields, Plan, RecordData, RecordDesc, Shape};
use smart_debug::raw::{RawAttr, RawValue};
use smart_debug::render::{evaluate, FieldFacts};
use smart_debug::resolve::Ignore;

fn valueless(name: &str) -> RawAttr {
    RawAttr::Named {
        ident: name.to_string(),
        value: RawValue::Absent,
    }
}

fn with_lit(name: &str, lit: &str) -> RawAttr {
    RawAttr::Named {
        ident: name.to_string(),
        value: RawValue::LitStr(lit.to_string()),
    }
}

fn with_expr(name: &str, handle: u64) -> RawAttr {
    RawAttr::Named {
        ident: name.to_string(),
        value: RawValue::Expr(handle),
    }
}

fn named_field(name: &str, ty: u64, attrs: Vec<RawAttr>) -> Field {
    Field {
        name: Some(name.to_string()),
        ty,
        attrs,
    }
}

fn positional_field(ty: u64, attrs: Vec<RawAttr>) -> Field {
    Field {
        name: None,
        ty,
        attrs,
    }
}

fn facts(
    equals_type_default: bool,
    equals_container_default: bool,
    equals_expr: bool,
    pred_holds: bool,
    value_text: &str,
) -> FieldFacts {
    FieldFacts {
        equals_type_default,
        equals_container_default,
        equals_expr,
        pred_holds,
        value_text: value_text.to_string(),
    }
}

fn quiet(value_text: &str) -> FieldFacts {
    facts(false, false, false, false, value_text)
}

fn render(desc: &RecordDesc, fact_list: Vec<FieldFacts>) -> String {
    let plan = build_plan(desc).expect("plan should build");
    evaluate(&plan, &fact_list).to_text()
}

#[test]
fn basic() {
    // A named record under a container-wide show-only-non-defaults policy:
    // the field equal to the container default disappears and the terminator
    // marks the omission.
    let desc = RecordDesc {
        name: "Basic".to_string(),
        attrs: vec![valueless("skip_defaults")],
        data: RecordData::Struct(Fields::Named(vec![
            named_field("default", 1, vec![]),
            named_field("not_default", 1, vec![]),
        ])),
    };
    let out = render(
        &desc,
        vec![
            facts(true, true, false, false, "false"),
            facts(false, false, false, false, "true"),
        ],
    );
    assert_eq!(out, "Basic { not_default: true, .. }");
}

#[test]
fn kitchen_sink() {
    // Every field-level directive at once, under show-only-non-defaults.
    let desc = RecordDesc {
        name: "KitchenSink".to_string(),
        attrs: vec![valueless("skip_defaults")],
        data: RecordData::Struct(Fields::Named(vec![
            named_field("default_skipped", 1, vec![]),
            named_field("skip_skipped", 1, vec![valueless("skip")]),
            named_field("no_skip_displayed", 1, vec![valueless("no_skip")]),
            named_field("skip_if_skipped", 2, vec![with_expr("skip_if", 10)]),
            named_field("skip_if_displayed", 2, vec![with_expr("skip_if", 11)]),
            named_field("password_is_hidden", 3, vec![RawAttr::Lit("<hidden>".to_string())]),
            named_field("wrapped_display", 3, vec![with_expr("wrapper", 12)]),
        ])),
    };
    let out = render(
        &desc,
        vec![
            // value equals the container default
            facts(true, true, false, false, "()"),
            // skipped unconditionally, the facts never consulted
            facts(true, true, false, false, "()"),
            // shown despite equalling the default: the escape hatch
            facts(true, true, false, false, "()"),
            // the skip_if expression holds
            facts(true, true, true, false, "false"),
            // the skip_if expression does not hold
            facts(true, true, false, false, "false"),
            // shown as the literal, the value text ignored
            facts(false, false, false, false, "\"hunter2\""),
            // shown through the wrapper's own rendering
            facts(false, false, false, false, "Wrapped"),
        ],
    );
    assert_eq!(
        out,
        "KitchenSink { no_skip_displayed: (), skip_if_displayed: false, \
         password_is_hidden: <hidden>, wrapped_display: Wrapped, .. }"
    );
}

#[test]
fn format_str() {
    // Literal overrides with and without braces: a brace switches the literal
    // into an interpolation template and the value's formatted text is shown.
    let desc = RecordDesc {
        name: "FormatStrs".to_string(),
        attrs: vec![],
        data: RecordData::Struct(Fields::Named(vec![
            named_field("hex", 4, vec![RawAttr::Lit("{:#x}".to_string())]),
            named_field("display", 3, vec![RawAttr::Lit("{}".to_string())]),
            named_field("just_text", 1, vec![RawAttr::Lit("I am the text".to_string())]),
        ])),
    };
    let out = render(
        &desc,
        vec![
            quiet("0x1234abcd"),
            quiet("You'll see unescaped quotes -> \"\"\""),
            quiet("this text is never shown"),
        ],
    );
    assert_eq!(
        out,
        "FormatStrs { hex: 0x1234abcd, display: You'll see unescaped quotes -> \"\"\", \
         just_text: I am the text }"
    );
}

#[test]
fn unit_struct() {
    let desc = RecordDesc {
        name: "Unit".to_string(),
        attrs: vec![],
        data: RecordData::Struct(Fields::Unit),
    };
    let out = render(&desc, vec![]);
    assert_eq!(out, "Unit");
}

#[test]
fn tuple_struct() {
    // A plain positional record shows every field in order.
    let desc = RecordDesc {
        name: "Tuple".to_string(),
        attrs: vec![],
        data: RecordData::Struct(Fields::Unnamed(vec![
            positional_field(2, vec![]),
            positional_field(5, vec![]),
        ])),
    };
    let out = render(&desc, vec![quiet("false"), quiet("0")]);
    assert_eq!(out, "Tuple(false, 0)");

    // A container-wide unconditional skip turns every position into the
    // placeholder, the count and order preserved.
    let desc = RecordDesc {
        name: "GlobalSkip".to_string(),
        attrs: vec![valueless("skip")],
        data: RecordData::Struct(Fields::Unnamed(vec![
            positional_field(1, vec![]),
            positional_field(1, vec![]),
        ])),
    };
    let out = render(&desc, vec![quiet("()"), quiet("()")]);
    assert_eq!(out, "GlobalSkip(_, _)");

    // A field-level explicit-show pierces the container-wide skip; its
    // siblings stay placeholders.
    let desc = RecordDesc {
        name: "GlobalSkipWithLocalOverride".to_string(),
        attrs: vec![valueless("skip")],
        data: RecordData::Struct(Fields::Unnamed(vec![
            positional_field(3, vec![valueless("no_skip")]),
            positional_field(1, vec![]),
        ])),
    };
    let out = render(&desc, vec![quiet("\"Local override\""), quiet("()")]);
    assert_eq!(out, "GlobalSkipWithLocalOverride(\"Local override\", _)");

    // A skipped first field still occupies its position.
    let desc = RecordDesc {
        name: "FirstFieldSkipped".to_string(),
        attrs: vec![],
        data: RecordData::Struct(Fields::Unnamed(vec![
            positional_field(1, vec![valueless("skip")]),
            positional_field(1, vec![]),
        ])),
    };
    let out = render(&desc, vec![quiet("()"), quiet("()")]);
    assert_eq!(out, "FirstFieldSkipped(_, ())");
}

#[test]
fn container_lit_str() {
    let desc = RecordDesc {
        name: "CustomDebugRepr".to_string(),
        attrs: vec![with_lit("bare", "This is a custom debug repr")],
        data: RecordData::Struct(Fields::Unit),
    };
    let out = render(&desc, vec![]);
    assert_eq!(out, "This is a custom debug repr");
}

#[test]
fn container_lit_str_as_sugar() {
    // The same override through the bare-literal sugar, on a record with
    // fields: none of them is visited.
    let desc = RecordDesc {
        name: "CustomDebugRepr".to_string(),
        attrs: vec![RawAttr::Lit("This is a custom debug repr".to_string())],
        data: RecordData::Struct(Fields::Named(vec![named_field(
            "ignored",
            1,
            vec![valueless("skip")],
        )])),
    };
    let plan = build_plan(&desc).expect("plan should build");
    assert_eq!(plan, Plan::Bare("This is a custom debug repr".to_string()));
    let out = evaluate(&plan, &vec![]).to_text();
    assert_eq!(out, "This is a custom debug repr");
}

#[test]
fn plan_metadata() {
    // The plan's metadata: a named shape tracks skipping, the container
    // default snapshot is demanded exactly when some field needs it.
    let desc = RecordDesc {
        name: "Meta".to_string(),
        attrs: vec![valueless("skip_defaults")],
        data: RecordData::Struct(Fields::Named(vec![
            named_field("a", 1, vec![]),
            named_field("b", 1, vec![valueless("skip")]),
        ])),
    };
    match build_plan(&desc).expect("plan should build") {
        Plan::Record(rp) => {
            assert_eq!(rp.shape, Shape::Named);
            assert!(rp.track_skipped);
            assert!(rp.needs_container_default);
            assert_eq!(rp.fields.len(), 2);
            assert_eq!(rp.fields[0].skip, Ignore::DefaultGlobal);
            assert_eq!(rp.fields[1].skip, Ignore::Unconditional);
        }
        Plan::Bare(_) => panic!("expected a record plan"),
    }

    // Without the defaults mode nothing demands the snapshot.
    let desc = RecordDesc {
        name: "Meta".to_string(),
        attrs: vec![],
        data: RecordData::Struct(Fields::Unnamed(vec![positional_field(1, vec![])])),
    };
    match build_plan(&desc).expect("plan should build") {
        Plan::Record(rp) => {
            assert_eq!(rp.shape, Shape::Positional);
            assert!(!rp.track_skipped);
            assert!(!rp.needs_container_default);
            assert_eq!(rp.fields[0].label, None);
        }
        Plan::Bare(_) => panic!("expected a record plan"),
    }
}

#[test]
fn fieldless_plan_is_empty_and_complete() {
    // A fieldless record without a container override: an empty field
    // sequence and the complete terminator.
    let desc = RecordDesc {
        name: "Nothing".to_string(),
        attrs: vec![],
        data: RecordData::Struct(Fields::Unit),
    };
    match build_plan(&desc).expect("plan should build") {
        Plan::Record(rp) => {
            assert_eq!(rp.shape, Shape::Fieldless);
            assert!(rp.fields.is_empty());
            assert!(!rp.needs_container_default);
        }
        Plan::Bare(_) => panic!("expected a record plan"),
    }
    assert_eq!(render(&desc, vec![]), "Nothing");
}

#[test]
fn named_empty_but_incomplete() {
    // Every field of a named record skipped: the text keeps the curly frame
    // with only the omission mark.
    let desc = RecordDesc {
        name: "AllHidden".to_string(),
        attrs: vec![valueless("skip")],
        data: RecordData::Struct(Fields::Named(vec![
            named_field("a", 1, vec![]),
            named_field("b", 1, vec![]),
        ])),
    };
    let out = render(&desc, vec![quiet("1"), quiet("2")]);
    assert_eq!(out, "AllHidden { .. }");
}

#[test]
fn verbatim_override_never_consults_value() {
    // The same record rendered twice with different value texts: the verbatim
    // field's output is identical, only the plain field follows the value.
    let desc = RecordDesc {
        name: "Hidden".to_string(),
        attrs: vec![],
        data: RecordData::Struct(Fields::Named(vec![
            named_field("secret", 3, vec![RawAttr::Lit("<hidden>".to_string())]),
            named_field("open", 3, vec![]),
        ])),
    };
    let first = render(&desc, vec![quiet("\"hunter2\""), quiet("\"a\"")]);
    let second = render(&desc, vec![quiet("\"swordfish\""), quiet("\"b\"")]);
    assert_eq!(first, "Hidden { secret: <hidden>, open: \"a\" }");
    assert_eq!(second, "Hidden { secret: <hidden>, open: \"b\" }");
}

#[test]
fn container_skip_mode_reaches_every_field() {
    // Container-level unconditional skip with no field overrides: a named
    // record collapses to the omission mark even though values differ.
    let desc = RecordDesc {
        name: "Quiet".to_string(),
        attrs: vec![container_skip_raw()],
        data: RecordData::Struct(Fields::Named(vec![
            named_field("x", 1, vec![]),
            named_field("y", 1, vec![]),
        ])),
    };
    let out = render(&desc, vec![quiet("1"), quiet("2")]);
    assert_eq!(out, "Quiet { .. }");
}

fn container_skip_raw() -> RawAttr {
    RawAttr::Named {
        ident: "skip".to_string(),
        value: RawValue::Absent,
    }
}

#[test]
fn skip_fn_follows_predicate() {
    let desc = RecordDesc {
        name: "Pred".to_string(),
        attrs: vec![],
        data: RecordData::Struct(Fields::Named(vec![
            named_field("gone", 1, vec![with_expr("skip_fn", 7)]),
            named_field("kept", 1, vec![with_expr("skip_fn", 7)]),
        ])),
    };
    let out = render(
        &desc,
        vec![facts(false, false, false, true, "1"), facts(false, false, false, false, "2")],
    );
    assert_eq!(out, "Pred { kept: 2, .. }");
}

#[test]
fn skip_default_uses_type_default() {
    let desc = RecordDesc {
        name: "Dflt".to_string(),
        attrs: vec![],
        data: RecordData::Struct(Fields::Named(vec![
            named_field("zeroed", 4, vec![valueless("skip_default")]),
            named_field("set", 4, vec![valueless("skip_default")]),
        ])),
    };
    let out = render(
        &desc,
        vec![facts(true, false, false, false, "0"), facts(false, false, false, false, "9")],
    );
    assert_eq!(out, "Dflt { set: 9, .. }");
}

#[test]
fn empty_tuple_renders_as_bare_name() {
    let desc = RecordDesc {
        name: "Nil".to_string(),
        attrs: vec![],
        data: RecordData::Struct(Fields::Unnamed(vec![])),
    };
    assert_eq!(render(&desc, vec![]), "Nil");
}

#[test]
fn verbatim_override_beside_skip_condition() {
    // The literal hides the value from display, but the skip test still reads
    // it: when the condition holds the field disappears, literal and all.
    let desc = RecordDesc {
        name: "Guarded".to_string(),
        attrs: vec![],
        data: RecordData::Struct(Fields::Named(vec![named_field(
            "secret",
            3,
            vec![RawAttr::Lit("<hidden>".to_string()), with_expr("skip_if", 1)],
        )])),
    };
    let shown = render(&desc, vec![facts(false, false, false, false, "\"x\"")]);
    assert_eq!(shown, "Guarded { secret: <hidden> }");
    let hidden = render(&desc, vec![facts(false, false, true, false, "\"x\"")]);
    assert_eq!(hidden, "Guarded { .. }");
}

#[test]
fn container_parse_collects_both_slots() {
    let attrs = vec![
        with_lit("bare", "text"),
        RawAttr::Named {
            ident: "skip".to_string(),
            value: RawValue::Absent,
        },
    ];
    let parsed = container::Attrs::parse(&attrs).expect("both slots at once are legal");
    assert_eq!(parsed.bare, Some("text".to_string()));
    assert_eq!(parsed.skip, Some(container::Skip::Bare));
}
