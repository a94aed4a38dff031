use macrokit::ast::{
    Annotation, AnnotationBody, DefBody, FieldDef, MetaItem, TypeDef, TypeExpr,
};
use macrokit::ast::Anchor;
use macrokit::builder::{
    is_record, overrides_fit, plan_builder, InitialValue, Mutation, ParamShape,
};
use macrokit::meta::{builder_meta, BuilderMeta};
use macrokit::shape::{classify, wrapper_arg, FieldShape};
use macrokit::state::{apply_accessor, finalize, new_builder, FieldOut, Stored};

fn name_ty(n: &str) -> TypeExpr {
    TypeExpr::Name { name: n.to_string() }
}

fn wrap_ty(head: &str, inner: TypeExpr) -> TypeExpr {
    TypeExpr::Generic { head: head.to_string(), arg: Box::new(inner) }
}

fn plain_field(n: &str, ty: TypeExpr) -> FieldDef {
    FieldDef { name: n.to_string(), ty, annotations: vec![] }
}

fn each_annotation(value: &str) -> Annotation {
    Annotation {
        segments: vec!["builder".to_string()],
        body: AnnotationBody::List {
            items: vec![MetaItem::StrProp {
                key: "each".to_string(),
                value: value.to_string(),
            }],
        },
    }
}

fn command_def() -> TypeDef {
    // struct Command { executable: String, env: Option<String>, args: Vec<String> #[builder(each = "arg")] }
    TypeDef {
        name: "Command".to_string(),
        body: DefBody::Record {
            fields: vec![
                plain_field("executable", name_ty("String")),
                plain_field("env", wrap_ty("Option", name_ty("String"))),
                FieldDef {
                    name: "args".to_string(),
                    ty: wrap_ty("Vec", name_ty("String")),
                    annotations: vec![each_annotation("arg")],
                },
            ],
        },
    }
}

#[test]
fn classify_shapes() {
    assert_eq!(classify(&name_ty("String")), FieldShape::Plain);
    assert_eq!(classify(&wrap_ty("Option", name_ty("u32"))), FieldShape::Optional);
    assert_eq!(classify(&wrap_ty("Vec", name_ty("u32"))), FieldShape::Repeated);
    assert_eq!(classify(&wrap_ty("Box", name_ty("u32"))), FieldShape::Plain);
    assert_eq!(classify(&TypeExpr::Other), FieldShape::Plain);
    // only the outermost wrapper counts
    assert_eq!(
        classify(&wrap_ty("Option", wrap_ty("Vec", name_ty("u32")))),
        FieldShape::Optional
    );
}

#[test]
fn wrapper_arg_extracts_inner() {
    let t = wrap_ty("Option", name_ty("String"));
    assert_eq!(wrapper_arg(&t, "Option"), Some(&name_ty("String")));
    assert_eq!(wrapper_arg(&t, "Vec"), None);
    assert_eq!(wrapper_arg(&name_ty("Option"), "Option"), None);
}

#[test]
fn meta_each_found() {
    let attrs = vec![each_annotation("arg")];
    assert_eq!(
        builder_meta(&attrs),
        BuilderMeta::Each { annotation: 0, name: "arg".to_string() }
    );
}

#[test]
fn meta_absent_without_builder_annotation() {
    let other = Annotation {
        segments: vec!["serde".to_string()],
        body: AnnotationBody::Other,
    };
    assert_eq!(builder_meta(&vec![]), BuilderMeta::Absent);
    assert_eq!(builder_meta(&vec![other]), BuilderMeta::Absent);
}

#[test]
fn meta_malformed_shapes() {
    // #[builder(bogus = "x")]
    let bogus = Annotation {
        segments: vec!["builder".to_string()],
        body: AnnotationBody::List {
            items: vec![MetaItem::StrProp {
                key: "bogus".to_string(),
                value: "x".to_string(),
            }],
        },
    };
    assert_eq!(builder_meta(&vec![bogus]), BuilderMeta::Malformed { annotation: 0 });
    // #[builder(each = 5)]
    let non_str = Annotation {
        segments: vec!["builder".to_string()],
        body: AnnotationBody::List {
            items: vec![MetaItem::OtherProp { key: "each".to_string() }],
        },
    };
    assert_eq!(builder_meta(&vec![non_str]), BuilderMeta::Malformed { annotation: 0 });
    // bare #[builder]
    let bare = Annotation {
        segments: vec!["builder".to_string()],
        body: AnnotationBody::Other,
    };
    assert_eq!(builder_meta(&vec![bare]), BuilderMeta::Malformed { annotation: 0 });
}

#[test]
fn plan_slots_one_per_field() {
    let def = command_def();
    assert!(is_record(&def));
    let plan = plan_builder(&def).unwrap();
    assert_eq!(plan.name.as_str(), "CommandBuilder");
    assert_eq!(plan.fields.len(), 3);

    assert_eq!(plan.fields[0].field.as_str(), "executable");
    assert_eq!(plan.fields[0].shape, FieldShape::Plain);
    assert_eq!(plan.fields[0].slot.value, ParamShape::Whole);
    assert_eq!(plan.fields[0].init, InitialValue::Absent);
    assert_eq!(plan.fields[0].accessor.name.as_str(), "executable");
    assert_eq!(plan.fields[0].accessor.param, ParamShape::Whole);
    assert_eq!(plan.fields[0].accessor.mutation, Mutation::Replace);

    // an Option<T> field is stored as the original Option<T>, not re-wrapped
    assert_eq!(plan.fields[1].shape, FieldShape::Optional);
    assert_eq!(plan.fields[1].slot.value, ParamShape::Element);
    assert_eq!(plan.fields[1].init, InitialValue::Absent);
    assert_eq!(plan.fields[1].accessor.name.as_str(), "env");
    assert_eq!(plan.fields[1].accessor.param, ParamShape::Element);
    assert_eq!(plan.fields[1].accessor.mutation, Mutation::Replace);

    // a repeated field with an append directive starts present-but-empty
    assert_eq!(plan.fields[2].shape, FieldShape::Repeated);
    assert_eq!(plan.fields[2].slot.value, ParamShape::Whole);
    assert_eq!(plan.fields[2].init, InitialValue::EmptyList);
    assert_eq!(plan.fields[2].accessor.name.as_str(), "arg");
    assert_eq!(plan.fields[2].accessor.param, ParamShape::Element);
    assert_eq!(plan.fields[2].accessor.mutation, Mutation::Append);
}

#[test]
fn plan_repeated_without_each_is_whole_setter() {
    let def = TypeDef {
        name: "Wrapper".to_string(),
        body: DefBody::Record {
            fields: vec![plain_field("items", wrap_ty("Vec", name_ty("u8")))],
        },
    };
    let plan = plan_builder(&def).unwrap();
    assert_eq!(plan.fields[0].shape, FieldShape::Repeated);
    assert_eq!(plan.fields[0].init, InitialValue::Absent);
    assert_eq!(plan.fields[0].accessor.name.as_str(), "items");
    assert_eq!(plan.fields[0].accessor.param, ParamShape::Whole);
    assert_eq!(plan.fields[0].accessor.mutation, Mutation::Replace);
}

#[test]
fn plan_each_on_optional_renames_setter() {
    let def = TypeDef {
        name: "Job".to_string(),
        body: DefBody::Record {
            fields: vec![FieldDef {
                name: "tag".to_string(),
                ty: wrap_ty("Option", name_ty("String")),
                annotations: vec![each_annotation("label")],
            }],
        },
    };
    let plan = plan_builder(&def).unwrap();
    assert_eq!(plan.fields[0].accessor.name.as_str(), "label");
    assert_eq!(plan.fields[0].accessor.param, ParamShape::Element);
    assert_eq!(plan.fields[0].accessor.mutation, Mutation::Replace);
}

#[test]
fn plan_malformed_annotation_is_diagnosed() {
    let def = TypeDef {
        name: "Command".to_string(),
        body: DefBody::Record {
            fields: vec![
                plain_field("executable", name_ty("String")),
                FieldDef {
                    name: "args".to_string(),
                    ty: wrap_ty("Vec", name_ty("String")),
                    annotations: vec![Annotation {
                        segments: vec!["builder".to_string()],
                        body: AnnotationBody::List {
                            items: vec![MetaItem::StrProp {
                                key: "bogus".to_string(),
                                value: "x".to_string(),
                            }],
                        },
                    }],
                },
            ],
        },
    };
    let d = plan_builder(&def).unwrap_err();
    assert_eq!(d.anchor, Anchor::Annotation { field: 1, index: 0 });
    assert_eq!(d.message.as_str(), "expected `builder(each = \"...\")`");
}

#[test]
fn overrides_fit_rejects_each_on_plain() {
    let bad = vec![FieldDef {
        name: "current_dir".to_string(),
        ty: name_ty("String"),
        annotations: vec![each_annotation("dir")],
    }];
    assert!(!overrides_fit(&bad));
    let good = vec![FieldDef {
        name: "args".to_string(),
        ty: wrap_ty("Vec", name_ty("String")),
        annotations: vec![each_annotation("arg")],
    }];
    assert!(overrides_fit(&good));
}

#[test]
fn build_round_trip_equals_direct_record() {
    let def = command_def();
    let plan = plan_builder(&def).unwrap();
    let mut b = new_builder::<&str>(&plan);
    apply_accessor(&plan, &mut b, 0, Stored::One("cargo"));
    apply_accessor(&plan, &mut b, 1, Stored::One("RUST_LOG=info"));
    apply_accessor(&plan, &mut b, 2, Stored::One("build"));
    let rec = finalize(&plan, &b).unwrap();
    let direct = vec![
        FieldOut::Single("cargo"),
        FieldOut::Maybe(Some("RUST_LOG=info")),
        FieldOut::Items(vec!["build"]),
    ];
    assert_eq!(rec, direct);
}

#[test]
fn finalize_unset_required_field_fails() {
    let def = command_def();
    let plan = plan_builder(&def).unwrap();
    let b = new_builder::<&str>(&plan);
    let e = finalize(&plan, &b).unwrap_err();
    assert_eq!(e.field.as_str(), "executable");
    assert_eq!(e.message().as_str(), "executable is not set.");
    assert!(e.message().contains("is not set."));
}

#[test]
fn finalize_unset_optional_field_succeeds() {
    let def = command_def();
    let plan = plan_builder(&def).unwrap();
    let mut b = new_builder::<&str>(&plan);
    apply_accessor(&plan, &mut b, 0, Stored::One("cargo"));
    // env never set, args never appended
    let rec = finalize(&plan, &b).unwrap();
    assert_eq!(
        rec,
        vec![
            FieldOut::Single("cargo"),
            FieldOut::Maybe(None),
            FieldOut::Items(vec![]),
        ]
    );
}

#[test]
fn append_accumulates_in_call_order() {
    let def = command_def();
    let plan = plan_builder(&def).unwrap();
    let mut b = new_builder::<i32>(&plan);
    apply_accessor(&plan, &mut b, 0, Stored::One(0));
    apply_accessor(&plan, &mut b, 2, Stored::One(10));
    apply_accessor(&plan, &mut b, 2, Stored::One(20));
    apply_accessor(&plan, &mut b, 2, Stored::One(30));
    let rec = finalize(&plan, &b).unwrap();
    assert_eq!(rec[2], FieldOut::Items(vec![10, 20, 30]));
}

#[test]
fn finalize_keeps_builder_usable() {
    let def = command_def();
    let plan = plan_builder(&def).unwrap();
    let mut b = new_builder::<i32>(&plan);
    assert!(finalize(&plan, &b).is_err());
    apply_accessor(&plan, &mut b, 0, Stored::One(7));
    let rec = finalize(&plan, &b).unwrap();
    assert_eq!(rec[0], FieldOut::Single(7));
}

#[test]
fn empty_record_builds_empty() {
    let def = TypeDef {
        name: "Unit".to_string(),
        body: DefBody::Record { fields: vec![] },
    };
    let plan = plan_builder(&def).unwrap();
    assert_eq!(plan.name.as_str(), "UnitBuilder");
    assert_eq!(plan.fields.len(), 0);
    let b = new_builder::<i32>(&plan);
    assert_eq!(finalize(&plan, &b).unwrap(), vec![]);
}

#[test]
fn first_malformed_annotation_wins() {
    let bad = |field: &str| FieldDef {
        name: field.to_string(),
        ty: name_ty("String"),
        annotations: vec![Annotation {
            segments: vec!["builder".to_string()],
            body: AnnotationBody::Other,
        }],
    };
    let def = TypeDef {
        name: "Pair".to_string(),
        body: DefBody::Record { fields: vec![bad("a"), bad("b")] },
    };
    let d = plan_builder(&def).unwrap_err();
    assert_eq!(d.anchor, Anchor::Annotation { field: 0, index: 0 });
}

#[test]
fn whole_list_setter_replaces() {
    let def = TypeDef {
        name: "Wrapper".to_string(),
        body: DefBody::Record {
            fields: vec![plain_field("items", wrap_ty("Vec", name_ty("u8")))],
        },
    };
    let plan = plan_builder(&def).unwrap();
    let mut b = new_builder::<i32>(&plan);
    let e = finalize(&plan, &b).unwrap_err();
    assert_eq!(e.message().as_str(), "items is not set.");
    apply_accessor(&plan, &mut b, 0, Stored::Many(vec![1, 2]));
    apply_accessor(&plan, &mut b, 0, Stored::Many(vec![3]));
    let rec = finalize(&plan, &b).unwrap();
    assert_eq!(rec, vec![FieldOut::Items(vec![3])]);
}
