use derive_gen::builder_gen::{generate_builder, BuilderPlan, SlotKind};
use derive_gen::builder_run::{build, find_method, new_builder, set_field};
use derive_gen::builder_run::{append_field, FieldValue};
use derive_gen::diag::Severity;
use derive_gen::model::{FieldDescriptor, RawAttr, Token, TypeDescriptor, TypeExpr};

fn ident(name: &str) -> String {
    name.to_string()
}

fn simple(name: &str) -> TypeExpr {
    TypeExpr { path: vec![ident(name)], args: vec![] }
}

fn wrap(name: &str, inner: TypeExpr) -> TypeExpr {
    TypeExpr { path: vec![ident(name)], args: vec![inner] }
}

fn field(name: &str, ty: TypeExpr, attrs: Vec<RawAttr>) -> FieldDescriptor {
    FieldDescriptor { name: ident(name), ty, attrs, span: 0 }
}

fn each_attr(accumulator: &str, span: usize) -> RawAttr {
    RawAttr {
        path: ident("builder"),
        tokens: vec![
            Token::LParen,
            Token::Ident(ident("each")),
            Token::Equals,
            Token::StrLit(ident(accumulator)),
            Token::RParen,
        ],
        span,
    }
}

fn end_to_end_descriptor() -> TypeDescriptor {
    TypeDescriptor {
        name: ident("Thing"),
        generics: vec![],
        fields: vec![
            field("x", simple("u32"), vec![]),
            field("y", wrap("Option", simple("u32")), vec![]),
            field("items", wrap("Vec", simple("u32")), vec![each_attr("item", 7)]),
        ],
    }
}

fn plan_of(td: TypeDescriptor) -> BuilderPlan {
    let out = generate_builder(td);
    assert!(out.diagnostics.is_empty());
    out.plan.expect("generation should succeed")
}

#[test]
fn plan_layout_and_names() {
    let plan = plan_of(end_to_end_descriptor());
    assert_eq!(plan.record_name, "Thing");
    assert_eq!(plan.builder_name, "ThingBuilder");
    assert_eq!(plan.fields.len(), 3);
    assert_eq!(plan.fields[0].field_name, "x");
    assert_eq!(plan.fields[0].method_name, "x");
    assert_eq!(plan.fields[0].kind, SlotKind::RequiredSingle);
    assert_eq!(plan.fields[1].kind, SlotKind::OptionalSingle);
    assert_eq!(plan.fields[2].kind, SlotKind::Many);
    assert_eq!(plan.fields[2].method_name, "item");
    assert_eq!(plan.fields[2].field_name, "items");
    assert_eq!(plan.fields[1].elem.path, vec![ident("u32")]);
}

#[test]
fn build_succeeds_iff_every_required_field_set() {
    let td = TypeDescriptor {
        name: ident("Pair"),
        generics: vec![],
        fields: vec![
            field("a", simple("u32"), vec![]),
            field("b", wrap("Option", simple("u32")), vec![]),
            field("c", simple("u32"), vec![]),
        ],
    };
    let plan = plan_of(td);
    let mut b = new_builder(&plan);
    assert!(build(&plan, &b).is_err());
    // setter call order must not matter
    set_field(&mut b, 2, 30);
    assert!(build(&plan, &b).is_err());
    set_field(&mut b, 0, 10);
    let inst = build(&plan, &b).expect("all required fields are set");
    assert_eq!(inst.values[0], FieldValue::One(10));
    assert_eq!(inst.values[1], FieldValue::MaybeOne(None));
    assert_eq!(inst.values[2], FieldValue::One(30));
}

#[test]
fn build_error_names_first_missing_field_in_order() {
    let td = TypeDescriptor {
        name: ident("Pair"),
        generics: vec![],
        fields: vec![field("a", simple("u32"), vec![]), field("b", simple("u32"), vec![])],
    };
    let plan = plan_of(td);
    let b = new_builder(&plan);
    assert_eq!(build(&plan, &b).unwrap_err(), "a not set");
    let mut b = new_builder(&plan);
    set_field(&mut b, 0, 1);
    assert_eq!(build(&plan, &b).unwrap_err(), "b not set");
}

#[test]
fn build_is_idempotent_and_non_consuming() {
    let plan = plan_of(end_to_end_descriptor());
    let mut b = new_builder(&plan);
    set_field(&mut b, 0, 5);
    let first = build(&plan, &b).expect("x is set");
    let second = build(&plan, &b).expect("builder is not consumed");
    assert_eq!(first, second);
    // the builder stays usable and mutable afterwards
    set_field(&mut b, 1, 9);
    let third = build(&plan, &b).unwrap();
    assert_eq!(third.values[1], FieldValue::MaybeOne(Some(9)));
    // both builds of a failing state give the same message
    let empty = new_builder(&plan);
    assert_eq!(build(&plan, &empty).unwrap_err(), build(&plan, &empty).unwrap_err());
}

#[test]
fn repeated_field_accumulates_in_call_order() {
    let plan = plan_of(end_to_end_descriptor());
    let mut b = new_builder(&plan);
    set_field(&mut b, 0, 1);
    let empty = build(&plan, &b).unwrap();
    assert_eq!(empty.values[2], FieldValue::Many(vec![]));
    append_field(&mut b, 2, 4);
    append_field(&mut b, 2, 2);
    append_field(&mut b, 2, 9);
    let inst = build(&plan, &b).unwrap();
    assert_eq!(inst.values[2], FieldValue::Many(vec![4, 2, 9]));
}

#[test]
fn setter_overwrites_previous_value() {
    let plan = plan_of(end_to_end_descriptor());
    let mut b = new_builder(&plan);
    set_field(&mut b, 0, 1);
    set_field(&mut b, 0, 2);
    let inst = build(&plan, &b).unwrap();
    assert_eq!(inst.values[0], FieldValue::One(2));
}

#[test]
fn method_dispatch_by_name() {
    let plan = plan_of(end_to_end_descriptor());
    assert_eq!(find_method(&plan, "x"), Some(0));
    assert_eq!(find_method(&plan, "y"), Some(1));
    assert_eq!(find_method(&plan, "item"), Some(2));
    assert_eq!(find_method(&plan, "items"), None);
    assert_eq!(find_method(&plan, "absent"), None);
}

#[test]
fn end_to_end_scenario() {
    let plan = plan_of(end_to_end_descriptor());
    let mut b = new_builder(&plan);
    set_field(&mut b, find_method(&plan, "x").unwrap(), 7);
    let item = find_method(&plan, "item").unwrap();
    append_field(&mut b, item, 1);
    append_field(&mut b, item, 2);
    let inst = build(&plan, &b).unwrap();
    assert_eq!(inst.values[0], FieldValue::One(7));
    assert_eq!(inst.values[1], FieldValue::MaybeOne(None));
    assert_eq!(inst.values[2], FieldValue::Many(vec![1, 2]));

    let mut omitting = new_builder(&plan);
    append_field(&mut omitting, item, 1);
    let err = build(&plan, &omitting).unwrap_err();
    assert_eq!(err, "x not set");
}

#[test]
fn each_on_optional_field_is_a_blocking_conflict() {
    let td = TypeDescriptor {
        name: ident("Bad"),
        generics: vec![],
        fields: vec![
            field("a", simple("u32"), vec![]),
            field("opts", wrap("Option", simple("u32")), vec![each_attr("opt", 3)]),
        ],
    };
    let out = generate_builder(td);
    assert!(out.plan.is_none());
    let last = out.diagnostics.last().expect("a blocking diagnostic is owed");
    assert_eq!(last.severity, Severity::Blocking);
    assert_eq!(last.message, "`each` on an optional field: a repeated field is never also optional");
    assert_eq!(last.span, 0);
}

#[test]
fn bare_optional_wrapper_is_a_blocking_arity_error() {
    let td = TypeDescriptor {
        name: ident("Bad"),
        generics: vec![],
        fields: vec![field("y", simple("Option"), vec![])],
    };
    let out = generate_builder(td);
    assert!(out.plan.is_none());
    let last = out.diagnostics.last().unwrap();
    assert_eq!(last.severity, Severity::Blocking);
    assert_eq!(last.message, "a wrapper must take exactly one generic argument");
}

#[test]
fn each_on_non_wrapper_is_a_blocking_arity_error() {
    let td = TypeDescriptor {
        name: ident("Bad"),
        generics: vec![],
        fields: vec![field("xs", simple("u32"), vec![each_attr("x", 5)])],
    };
    let out = generate_builder(td);
    assert!(out.plan.is_none());
    assert_eq!(out.diagnostics.last().unwrap().severity, Severity::Blocking);
}

#[test]
fn malformed_builder_attribute_is_non_blocking() {
    let wrong_key = RawAttr {
        path: ident("builder"),
        tokens: vec![
            Token::LParen,
            Token::Ident(ident("eac")),
            Token::Equals,
            Token::StrLit(ident("x")),
            Token::RParen,
        ],
        span: 42,
    };
    let td = TypeDescriptor {
        name: ident("Thing"),
        generics: vec![],
        fields: vec![field("x", simple("u32"), vec![wrong_key])],
    };
    let out = generate_builder(td);
    // the field proceeds as if the attribute were absent
    let plan = out.plan.expect("non-blocking diagnostics do not abandon generation");
    assert_eq!(plan.fields[0].kind, SlotKind::RequiredSingle);
    assert_eq!(out.diagnostics.len(), 1);
    assert_eq!(out.diagnostics[0].severity, Severity::NonBlocking);
    assert_eq!(out.diagnostics[0].message, "expected `builder(each = \"...\")`");
    assert_eq!(out.diagnostics[0].span, 42);
}

#[test]
fn builder_attribute_missing_equals_is_non_blocking() {
    let missing_eq = RawAttr {
        path: ident("builder"),
        tokens: vec![
            Token::LParen,
            Token::Ident(ident("each")),
            Token::StrLit(ident("x")),
            Token::RParen,
        ],
        span: 8,
    };
    let td = TypeDescriptor {
        name: ident("Thing"),
        generics: vec![],
        fields: vec![field("x", simple("u32"), vec![missing_eq])],
    };
    let out = generate_builder(td);
    assert!(out.plan.is_some());
    assert_eq!(out.diagnostics.len(), 1);
    assert_eq!(out.diagnostics[0].severity, Severity::NonBlocking);
}

#[test]
fn builder_attribute_wrong_literal_kind_is_non_blocking() {
    let wrong_literal = RawAttr {
        path: ident("builder"),
        tokens: vec![
            Token::LParen,
            Token::Ident(ident("each")),
            Token::Equals,
            Token::Other,
            Token::RParen,
        ],
        span: 9,
    };
    let td = TypeDescriptor {
        name: ident("Thing"),
        generics: vec![],
        fields: vec![field("x", simple("u32"), vec![wrong_literal])],
    };
    let out = generate_builder(td);
    assert!(out.plan.is_some());
    assert_eq!(out.diagnostics.len(), 1);
    assert_eq!(out.diagnostics[0].severity, Severity::NonBlocking);
    assert_eq!(out.diagnostics[0].span, 9);
}

#[test]
fn notes_precede_the_blocking_diagnostic() {
    let wrong_key = RawAttr {
        path: ident("builder"),
        tokens: vec![
            Token::LParen,
            Token::Ident(ident("iter")),
            Token::Equals,
            Token::StrLit(ident("x")),
            Token::RParen,
        ],
        span: 21,
    };
    let td = TypeDescriptor {
        name: ident("Bad"),
        generics: vec![],
        fields: vec![
            field("a", simple("u32"), vec![wrong_key]),
            field("opts", wrap("Option", simple("u32")), vec![each_attr("opt", 22)]),
            // never reached: generation stops at the conflict above
            field("later", simple("Option"), vec![]),
        ],
    };
    let out = generate_builder(td);
    assert!(out.plan.is_none());
    assert_eq!(out.diagnostics.len(), 2);
    assert_eq!(out.diagnostics[0].severity, Severity::NonBlocking);
    assert_eq!(out.diagnostics[0].span, 21);
    assert_eq!(out.diagnostics[1].severity, Severity::Blocking);
    assert_eq!(
        out.diagnostics[1].message,
        "`each` on an optional field: a repeated field is never also optional"
    );
}

#[test]
fn later_each_attribute_overrides_earlier() {
    let td = TypeDescriptor {
        name: ident("Thing"),
        generics: vec![],
        fields: vec![field(
            "items",
            wrap("Vec", simple("u32")),
            vec![each_attr("first", 1), each_attr("second", 2)],
        )],
    };
    let plan = plan_of(td);
    assert_eq!(plan.fields[0].method_name, "second");
}
