use derive_gen::debug_gen::{generate_debug, DebugPlan};
use derive_gen::model::{FieldDescriptor, GenericParam, RawAttr, Token, TypeDescriptor, TypeExpr};

fn ident(name: &str) -> String {
    name.to_string()
}

fn simple(name: &str) -> TypeExpr {
    TypeExpr { path: vec![ident(name)], args: vec![] }
}

fn wrap(name: &str, inner: TypeExpr) -> TypeExpr {
    TypeExpr { path: vec![ident(name)], args: vec![inner] }
}

fn qualified(segments: &[&str]) -> TypeExpr {
    TypeExpr { path: segments.iter().map(|s| ident(s)).collect(), args: vec![] }
}

fn param(name: &str) -> GenericParam {
    GenericParam { name: ident(name), bounds: vec![] }
}

fn field(name: &str, ty: TypeExpr) -> FieldDescriptor {
    FieldDescriptor { name: ident(name), ty, attrs: vec![], span: 0 }
}

fn debug_attr(template: &str, span: usize) -> RawAttr {
    RawAttr {
        path: ident("debug"),
        tokens: vec![Token::Equals, Token::StrLit(ident(template))],
        span,
    }
}

fn bound_of<'a>(plan: &'a DebugPlan, name: &str) -> &'a derive_gen::debug_gen::DebugParamPlan {
    plan.params.iter().find(|p| p.name == name).expect("parameter is in the plan")
}

/// The worked example: one parameter seen only through the marker wrapper
/// and an associated-type path, one used directly.
fn associated_type_descriptor() -> TypeDescriptor {
    TypeDescriptor {
        name: ident("Field"),
        generics: vec![param("T"), param("S")],
        fields: vec![
            field("values", wrap("Vec", wrap("PhantomData", qualified(&["T", "Value"])))),
            field("values2", wrap("Vec", qualified(&["T", "Value"]))),
            field("values3", wrap("Vec", simple("S"))),
        ],
    }
}

#[test]
fn associated_type_gets_where_clause_not_direct_bound() {
    let td = associated_type_descriptor();
    let plan = generate_debug(&td);
    assert_eq!(plan.record_name, "Field");
    assert!(!bound_of(&plan, "T").needs_debug_bound);
    assert!(bound_of(&plan, "S").needs_debug_bound);
    assert_eq!(plan.where_paths, vec![vec![ident("T"), ident("Value")]]);
}

#[test]
fn marker_only_parameter_gets_no_bound() {
    let td = TypeDescriptor {
        name: ident("Tagged"),
        generics: vec![param("U")],
        fields: vec![field("tag", wrap("PhantomData", simple("U")))],
    };
    let plan = generate_debug(&td);
    assert!(!bound_of(&plan, "U").needs_debug_bound);
    assert!(plan.where_paths.is_empty());
}

#[test]
fn parameter_inside_ordinary_wrapper_is_still_direct() {
    let td = TypeDescriptor {
        name: ident("Holder"),
        generics: vec![param("P")],
        fields: vec![field("items", wrap("Vec", simple("P")))],
    };
    let plan = generate_debug(&td);
    assert!(bound_of(&plan, "P").needs_debug_bound);
}

#[test]
fn bare_parameter_field_is_direct() {
    let td = TypeDescriptor {
        name: ident("Holder"),
        generics: vec![param("P"), param("Q")],
        fields: vec![field("value", simple("P"))],
    };
    let plan = generate_debug(&td);
    assert!(bound_of(&plan, "P").needs_debug_bound);
    assert!(!bound_of(&plan, "Q").needs_debug_bound);
}

#[test]
fn parameter_both_direct_and_qualified_gets_both() {
    let td = TypeDescriptor {
        name: ident("Both"),
        generics: vec![param("T")],
        fields: vec![field("a", simple("T")), field("b", qualified(&["T", "Value"]))],
    };
    let plan = generate_debug(&td);
    assert!(bound_of(&plan, "T").needs_debug_bound);
    assert_eq!(plan.where_paths, vec![vec![ident("T"), ident("Value")]]);
}

#[test]
fn qualified_paths_are_deduplicated() {
    let td = TypeDescriptor {
        name: ident("Twice"),
        generics: vec![param("T")],
        fields: vec![
            field("a", qualified(&["T", "Value"])),
            field("b", wrap("Vec", qualified(&["T", "Value"]))),
            field("c", qualified(&["T", "Other"])),
        ],
    };
    let plan = generate_debug(&td);
    assert_eq!(plan.where_paths.len(), 2);
    assert!(plan.where_paths.contains(&vec![ident("T"), ident("Value")]));
    assert!(plan.where_paths.contains(&vec![ident("T"), ident("Other")]));
}

#[test]
fn qualified_path_of_non_parameter_is_ignored() {
    let td = TypeDescriptor {
        name: ident("Plain"),
        generics: vec![param("T")],
        fields: vec![field("a", qualified(&["std", "string", "String"]))],
    };
    let plan = generate_debug(&td);
    assert!(plan.where_paths.is_empty());
    assert!(!bound_of(&plan, "T").needs_debug_bound);
}

#[test]
fn pre_existing_bounds_are_carried_through() {
    let td = TypeDescriptor {
        name: ident("Kept"),
        generics: vec![GenericParam { name: ident("T"), bounds: vec![ident("Trait")] }],
        fields: vec![field("value", simple("T"))],
    };
    let plan = generate_debug(&td);
    assert_eq!(bound_of(&plan, "T").carried_bounds, vec![ident("Trait")]);
}

#[test]
fn debug_template_is_recorded_per_field() {
    let td = TypeDescriptor {
        name: ident("Shown"),
        generics: vec![],
        fields: vec![
            FieldDescriptor {
                name: ident("x"),
                ty: simple("u32"),
                attrs: vec![debug_attr("0b{:b}", 4)],
                span: 0,
            },
            field("y", simple("u32")),
        ],
    };
    let plan = generate_debug(&td);
    assert_eq!(plan.fields[0].template.as_deref(), Some("0b{:b}"));
    assert_eq!(plan.fields[1].template, None);
    assert_eq!(plan.fields[0].name, "x");
}

#[test]
fn malformed_debug_attribute_is_silently_ignored() {
    let td = TypeDescriptor {
        name: ident("Shown"),
        generics: vec![],
        fields: vec![FieldDescriptor {
            name: ident("x"),
            ty: simple("u32"),
            attrs: vec![RawAttr {
                path: ident("debug"),
                tokens: vec![Token::Equals, Token::Other],
                span: 1,
            }],
            span: 0,
        }],
    };
    let plan = generate_debug(&td);
    assert_eq!(plan.fields[0].template, None);
}
