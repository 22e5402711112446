use derive_gen::builder_run::{build, new_builder, set_field};
use derive_gen::builder_run::{append_field, FieldValue, Instance};
use derive_gen::debug_gen::{generate_debug, DebugFieldPlan, DebugPlan};
use derive_gen::model::{FieldDescriptor, RawAttr, Token, TypeDescriptor, TypeExpr};
use derive_gen::render::{apply_template, render_dec, render_field, render_instance, render_value};
use derive_gen::sample::{assert_debug, Field, Trait};

fn ident(name: &str) -> String {
    name.to_string()
}

fn plain_field(name: &str) -> DebugFieldPlan {
    DebugFieldPlan { name: ident(name), template: None }
}

#[test]
fn decimal_rendering_is_exact() {
    assert_eq!(render_dec(0), "0");
    assert_eq!(render_dec(7), "7");
    assert_eq!(render_dec(10), "10");
    assert_eq!(render_dec(12345), "12345");
    assert_eq!(render_dec(u64::MAX), "18446744073709551615");
}

#[test]
fn renderings_agree_with_the_standard_facility() {
    for v in [0u64, 1, 2, 7, 9, 10, 11, 99, 100, 12345, u64::MAX] {
        assert_eq!(render_dec(v), format!("{}", v));
        assert_eq!(apply_template("{}", v), format!("{}", v));
        assert_eq!(apply_template("0b{:b}", v), format!("0b{:b}", v));
        assert_eq!(apply_template("{:b} wide", v), format!("{:b} wide", v));
    }
}

#[test]
fn plain_template_matches_default_rendering() {
    // the pass-through template renders as the bare value does
    assert_eq!(apply_template("{}", 7), render_value(&FieldValue::One(7)));
    assert_eq!(apply_template("{}", 7), "7");
    assert_eq!(apply_template("{}", 12345), "12345");
}

#[test]
fn binary_template_has_prefix_and_binary_digits() {
    let out = apply_template("0b{:b}", 7);
    assert_eq!(out, "0b111");
    assert!(out.starts_with("0b"));
    assert_eq!(apply_template("0b{:b}", 8), "0b1000");
    assert_eq!(apply_template("0b{:b}", 0), "0b0");
    assert_eq!(apply_template("{:b} wide", 5), "101 wide");
}

#[test]
fn template_without_placeholder_renders_as_itself() {
    assert_eq!(apply_template("fixed", 7), "fixed");
    assert_eq!(apply_template("open {", 7), "open {");
}

#[test]
fn default_renderings_of_wrapped_values() {
    assert_eq!(render_value(&FieldValue::MaybeOne(None)), "None");
    assert_eq!(render_value(&FieldValue::MaybeOne(Some(7))), "Some(7)");
    assert_eq!(render_value(&FieldValue::Many(vec![])), "[]");
    assert_eq!(render_value(&FieldValue::Many(vec![1])), "[1]");
    assert_eq!(render_value(&FieldValue::Many(vec![1, 2])), "[1, 2]");
}

#[test]
fn template_on_wrapped_value_keeps_default_rendering() {
    let f = DebugFieldPlan { name: ident("xs"), template: Some(ident("0b{:b}")) };
    assert_eq!(render_field(&f, &FieldValue::Many(vec![1, 2])), "[1, 2]");
    let g = DebugFieldPlan { name: ident("x"), template: Some(ident("0b{:b}")) };
    assert_eq!(render_field(&g, &FieldValue::One(7)), "0b111");
}

#[test]
fn instance_renders_in_named_struct_layout() {
    let plan = DebugPlan {
        record_name: ident("Thing"),
        params: vec![],
        where_paths: vec![],
        fields: vec![plain_field("x"), plain_field("y"), plain_field("items")],
    };
    let inst = Instance {
        values: vec![
            FieldValue::One(7),
            FieldValue::MaybeOne(None),
            FieldValue::Many(vec![1, 2]),
        ],
    };
    assert_eq!(render_instance(&plan, &inst), "Thing { x: 7, y: None, items: [1, 2] }");
}

#[test]
fn fieldless_record_renders_as_its_name() {
    let plan = DebugPlan {
        record_name: ident("Unit"),
        params: vec![],
        where_paths: vec![],
        fields: vec![],
    };
    let inst = Instance { values: vec![] };
    assert_eq!(render_instance(&plan, &inst), "Unit");
}

#[test]
fn generated_plans_compose_into_rendered_output() {
    // one description through both pipelines: build an instance, then
    // render it with the debug plan's template override
    let td = TypeDescriptor {
        name: ident("Probe"),
        generics: vec![],
        fields: vec![
            FieldDescriptor {
                name: ident("bits"),
                ty: TypeExpr { path: vec![ident("u32")], args: vec![] },
                attrs: vec![RawAttr {
                    path: ident("debug"),
                    tokens: vec![Token::Equals, Token::StrLit(ident("0b{:b}"))],
                    span: 0,
                }],
                span: 0,
            },
            FieldDescriptor {
                name: ident("items"),
                ty: TypeExpr {
                    path: vec![ident("Vec")],
                    args: vec![TypeExpr { path: vec![ident("u32")], args: vec![] }],
                },
                attrs: vec![RawAttr {
                    path: ident("builder"),
                    tokens: vec![
                        Token::LParen,
                        Token::Ident(ident("each")),
                        Token::Equals,
                        Token::StrLit(ident("item")),
                        Token::RParen,
                    ],
                    span: 0,
                }],
                span: 0,
            },
        ],
    };
    let debug_plan = generate_debug(&td);
    let builder_plan = derive_gen::builder_gen::generate_builder(td).plan.unwrap();
    let mut b = new_builder(&builder_plan);
    set_field(&mut b, 0, 7);
    append_field(&mut b, 1, 3);
    let inst = build(&builder_plan, &b).unwrap();
    assert_eq!(render_instance(&debug_plan, &inst), "Probe { bits: 0b111, items: [3] }");
}

struct Id;

impl Trait for Id {
    type Value = u8;
}

#[test]
fn associated_type_supplies_the_debug_capability() {
    // Id itself has no Debug rendering, but its associated type does:
    // exactly the situation the inferred where-clause predicate covers.
    assert_debug::<<Id as Trait>::Value>();
    assert_debug::<u32>();
    let _sample: Field<Id, String> = Field {
        values: vec![core::marker::PhantomData],
        values2: vec![3u8],
        values3: vec!["s".to_string()],
    };
}
