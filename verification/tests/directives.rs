//! The directive parser's vocabulary, its legacy aliases, and every error in
//! the taxonomy.

use smart_debug::container;
use smart_debug::error::{ErrorKind, ParseError, Site};
use smart_debug::field;
use smart_debug::needs_formatting;
use smart_debug::plan::{build_plan, Field, Fields, RecordData, RecordDesc};
use smart_debug::raw::{RawAttr, RawValue};

fn valueless(name: &str) -> RawAttr {
    RawAttr::Named {
        ident: name.to_string(),
        value: RawValue::Absent,
    }
}

fn with_lit(name: &str, lit: &str) -> RawAttr {
    RawAttr::Named {
        ident: name.to_string(),
        value: RawValue::LitStr(lit.to_string()),
    }
}

fn with_expr(name: &str, handle: u64) -> RawAttr {
    RawAttr::Named {
        ident: name.to_string(),
        value: RawValue::Expr(handle),
    }
}

fn with_bad_expr(name: &str) -> RawAttr {
    RawAttr::Named {
        ident: name.to_string(),
        value: RawValue::BadExpr,
    }
}

#[test]
fn unknown_directive_fails() {
    // Never silently ignored, at either level.
    let err = container::Attrs::parse(&vec![valueless("frobnicate")]).unwrap_err();
    assert_eq!(err, ParseError { kind: ErrorKind::UnknownDirective, index: 0 });

    let err = field::Attrs::parse(&vec![valueless("skip"), valueless("sikp")]).unwrap_err();
    assert_eq!(err, ParseError { kind: ErrorKind::UnknownDirective, index: 1 });

    // A field-only name is unknown at the container level, and the other way
    // round.
    let err = container::Attrs::parse(&vec![valueless("no_skip")]).unwrap_err();
    assert_eq!(err.kind, ErrorKind::UnknownDirective);
    let err = field::Attrs::parse(&vec![valueless("skip_defaults")]).unwrap_err();
    assert_eq!(err.kind, ErrorKind::UnknownDirective);
}

#[test]
fn duplicate_bare_fails() {
    let err = container::Attrs::parse(&vec![
        with_lit("bare", "a"),
        RawAttr::Lit("b".to_string()),
    ])
    .unwrap_err();
    assert_eq!(err, ParseError { kind: ErrorKind::DuplicateDirective, index: 1 });

    let err = field::Attrs::parse(&vec![
        RawAttr::Lit("a".to_string()),
        RawAttr::Lit("b".to_string()),
    ])
    .unwrap_err();
    assert_eq!(err, ParseError { kind: ErrorKind::DuplicateDirective, index: 1 });
}

#[test]
fn duplicate_skip_mode_fails() {
    let err = container::Attrs::parse(&vec![valueless("skip"), valueless("skip_defaults")])
        .unwrap_err();
    assert_eq!(err, ParseError { kind: ErrorKind::DuplicateDirective, index: 1 });

    let err =
        field::Attrs::parse(&vec![valueless("no_skip"), valueless("skip_default")]).unwrap_err();
    assert_eq!(err, ParseError { kind: ErrorKind::DuplicateDirective, index: 1 });

    let err = field::Attrs::parse(&vec![with_expr("skip_if", 1), with_expr("skip_fn", 2)])
        .unwrap_err();
    assert_eq!(err, ParseError { kind: ErrorKind::DuplicateDirective, index: 1 });
}

#[test]
fn bare_beside_wrapper_fails() {
    // The two render-slot directives are mutually exclusive, in either order.
    let err = field::Attrs::parse(&vec![with_lit("bare", "x"), with_expr("wrapper", 1)])
        .unwrap_err();
    assert_eq!(err, ParseError { kind: ErrorKind::DuplicateDirective, index: 1 });

    let err = field::Attrs::parse(&vec![with_expr("wrapper", 1), RawAttr::Lit("x".to_string())])
        .unwrap_err();
    assert_eq!(err, ParseError { kind: ErrorKind::DuplicateDirective, index: 1 });
}

#[test]
fn malformed_value_slots_fail() {
    // A value where none is allowed.
    let err = container::Attrs::parse(&vec![with_lit("skip", "x")]).unwrap_err();
    assert_eq!(err, ParseError { kind: ErrorKind::MalformedDirective, index: 0 });
    let err = field::Attrs::parse(&vec![with_expr("no_skip", 1)]).unwrap_err();
    assert_eq!(err, ParseError { kind: ErrorKind::MalformedDirective, index: 0 });

    // No value where one is required.
    let err = container::Attrs::parse(&vec![valueless("bare")]).unwrap_err();
    assert_eq!(err, ParseError { kind: ErrorKind::MalformedDirective, index: 0 });
    let err = field::Attrs::parse(&vec![valueless("wrapper")]).unwrap_err();
    assert_eq!(err, ParseError { kind: ErrorKind::MalformedDirective, index: 0 });
    let err = field::Attrs::parse(&vec![valueless("skip_if")]).unwrap_err();
    assert_eq!(err, ParseError { kind: ErrorKind::MalformedDirective, index: 0 });

    // The literal override takes a literal string, not an expression.
    let err = container::Attrs::parse(&vec![with_expr("bare", 1)]).unwrap_err();
    assert_eq!(err, ParseError { kind: ErrorKind::MalformedDirective, index: 0 });
    let err = field::Attrs::parse(&vec![with_expr("bare", 1)]).unwrap_err();
    assert_eq!(err, ParseError { kind: ErrorKind::MalformedDirective, index: 0 });

    // A parenthesized argument list fits no current directive.
    let err = field::Attrs::parse(&vec![RawAttr::Named {
        ident: "wrapper".to_string(),
        value: RawValue::Call(vec![1, 2]),
    }])
    .unwrap_err();
    assert_eq!(err, ParseError { kind: ErrorKind::MalformedDirective, index: 0 });

    // An argument list the host language could not parse.
    let err = field::Attrs::parse(&vec![RawAttr::Named {
        ident: "skip_fn".to_string(),
        value: RawValue::BadCall,
    }])
    .unwrap_err();
    assert_eq!(err, ParseError { kind: ErrorKind::MalformedDirective, index: 0 });
}

#[test]
fn invalid_expression_fails() {
    let err = field::Attrs::parse(&vec![with_bad_expr("skip_if")]).unwrap_err();
    assert_eq!(err, ParseError { kind: ErrorKind::InvalidExpression, index: 0 });
    let err = container::Attrs::parse(&vec![with_bad_expr("skip")]).unwrap_err();
    assert_eq!(err, ParseError { kind: ErrorKind::InvalidExpression, index: 0 });
}

#[test]
fn legacy_aliases_mean_the_same() {
    let new_names = container::Attrs::parse(&vec![valueless("skip_defaults")]).unwrap();
    let old_names = container::Attrs::parse(&vec![valueless("ignore_defaults")]).unwrap();
    assert_eq!(new_names, old_names);

    let new_names = container::Attrs::parse(&vec![valueless("skip")]).unwrap();
    let old_names = container::Attrs::parse(&vec![valueless("ignore")]).unwrap();
    assert_eq!(new_names, old_names);

    let pairs = [
        (valueless("no_skip"), valueless("no_ignore")),
        (valueless("skip"), valueless("ignore")),
        (valueless("skip_default"), valueless("ignore_default")),
        (with_expr("skip_if", 3), with_expr("ignore_if", 3)),
        (with_expr("skip_fn", 3), with_expr("ignore_fn", 3)),
    ];
    for (new_raw, old_raw) in pairs {
        let new_names = field::Attrs::parse(&vec![new_raw]).unwrap();
        let old_names = field::Attrs::parse(&vec![old_raw]).unwrap();
        assert_eq!(new_names, old_names);
    }
}

#[test]
fn field_directive_set_collects_both_slots() {
    let parsed = field::Attrs::parse(&vec![with_expr("wrapper", 5), valueless("skip_default")])
        .unwrap();
    assert_eq!(
        parsed.bare_or_wrapper,
        Some(field::BareOrWrapper::Wrapper(field::AttrValue::Expr(5)))
    );
    assert_eq!(parsed.skip, Some(field::Skip::Default));

    let parsed = field::Attrs::parse(&vec![with_expr("skip_if", 8)]).unwrap();
    assert_eq!(parsed.skip, Some(field::Skip::If(field::AttrValue::Expr(8))));
    assert_eq!(parsed.bare_or_wrapper, None);
}

#[test]
fn empty_directive_lists_parse_to_empty_sets() {
    let parsed = container::Attrs::parse(&vec![]).unwrap();
    assert_eq!(parsed, container::Attrs { bare: None, skip: None });
    let parsed = field::Attrs::parse(&vec![]).unwrap();
    assert_eq!(parsed, field::Attrs { bare_or_wrapper: None, skip: None });
}

#[test]
fn errors_are_located() {
    // A container error names the directive's position.
    let desc = RecordDesc {
        name: "Broken".to_string(),
        attrs: vec![valueless("skip"), valueless("mystery")],
        data: RecordData::Struct(Fields::Unit),
    };
    let err = build_plan(&desc).unwrap_err();
    assert_eq!(err.kind, ErrorKind::UnknownDirective);
    assert_eq!(err.site, Site::Container(1));

    // A field error names the field and the directive within it.
    let desc = RecordDesc {
        name: "Broken".to_string(),
        attrs: vec![],
        data: RecordData::Struct(Fields::Named(vec![
            Field {
                name: Some("fine".to_string()),
                ty: 1,
                attrs: vec![],
            },
            Field {
                name: Some("bad".to_string()),
                ty: 1,
                attrs: vec![valueless("skip"), valueless("skip")],
            },
        ])),
    };
    let err = build_plan(&desc).unwrap_err();
    assert_eq!(err.kind, ErrorKind::DuplicateDirective);
    assert_eq!(err.site, Site::Field(1, 1));
}

#[test]
fn unsupported_shapes_fail_fast() {
    let desc = RecordDesc {
        name: "Choice".to_string(),
        attrs: vec![],
        data: RecordData::Enum,
    };
    let err = build_plan(&desc).unwrap_err();
    assert_eq!(err.kind, ErrorKind::UnsupportedShape);
    assert_eq!(err.site, Site::Record);

    let desc = RecordDesc {
        name: "Raw".to_string(),
        attrs: vec![],
        data: RecordData::Union,
    };
    let err = build_plan(&desc).unwrap_err();
    assert_eq!(err.kind, ErrorKind::UnsupportedShape);

    // The container-level literal override short-circuits even the shape
    // check: no field is visited, nothing is validated.
    let desc = RecordDesc {
        name: "Choice".to_string(),
        attrs: vec![RawAttr::Lit("stand-in".to_string())],
        data: RecordData::Enum,
    };
    assert!(build_plan(&desc).is_ok());
}

#[test]
fn brace_detection_is_a_bare_substring_test() {
    assert!(!needs_formatting(""));
    assert!(!needs_formatting("I am the text"));
    assert!(needs_formatting("{"));
    assert!(needs_formatting("}"));
    assert!(needs_formatting("a{b"));
    assert!(needs_formatting("{:#x}"));
    // An unmatched brace still counts: first brace found wins, nothing is
    // validated.
    assert!(needs_formatting("oops {"));
}
