use macrokit::ast::{Anchor, DefBody, TypeDef, VariantDef};
use macrokit::order::{check_sorted, sorted_check};
use macrokit::text::{str_eq, str_lt};

fn enum_def(name: &str, variants: &[&str]) -> TypeDef {
    TypeDef {
        name: name.to_string(),
        body: DefBody::Enum {
            variants: variants
                .iter()
                .map(|v| VariantDef { name: v.to_string() })
                .collect(),
        },
    }
}

#[test]
fn sorted_variants_pass() {
    let def = enum_def("Fruit", &["Apple", "Banana", "Cherry"]);
    assert!(sorted_check(&def).is_ok());
}

#[test]
fn unsorted_variants_fail_with_pair() {
    let def = enum_def("Fruit", &["Banana", "Apple", "Cherry"]);
    let d = sorted_check(&def).unwrap_err();
    assert_eq!(d.message.as_str(), "Apple should sort before Banana");
    assert_eq!(d.anchor, Anchor::Variant { index: 1 });
}

#[test]
fn violation_names_earliest_larger_variant() {
    let def = enum_def("Fruit", &["Banana", "Cherry", "Apple"]);
    let d = sorted_check(&def).unwrap_err();
    assert_eq!(d.message.as_str(), "Apple should sort before Banana");
    assert_eq!(d.anchor, Anchor::Variant { index: 2 });
}

#[test]
fn non_enum_input_fails() {
    let def = TypeDef {
        name: "Error".to_string(),
        body: DefBody::Record { fields: vec![] },
    };
    let d = sorted_check(&def).unwrap_err();
    assert_eq!(d.message.as_str(), "expected enum or match expression");
    assert_eq!(d.anchor, Anchor::CallSite);
}

#[test]
fn adjacent_duplicates_pass() {
    let variants = vec![
        VariantDef { name: "Apple".to_string() },
        VariantDef { name: "Apple".to_string() },
        VariantDef { name: "Banana".to_string() },
    ];
    assert!(check_sorted(&variants).is_ok());
}

#[test]
fn empty_and_singleton_pass() {
    assert!(check_sorted(&vec![]).is_ok());
    assert!(check_sorted(&vec![VariantDef { name: "Only".to_string() }]).is_ok());
}

#[test]
fn lexicographic_primitives() {
    assert!(str_lt("Apple", "Banana"));
    assert!(!str_lt("Banana", "Apple"));
    assert!(!str_lt("Apple", "Apple"));
    assert!(str_lt("App", "Apple"));
    assert!(str_lt("", "A"));
    // byte-wise: upper case sorts before lower case
    assert!(str_lt("Zebra", "apple"));
    assert!(str_eq("Apple", "Apple"));
    assert!(!str_eq("Apple", "Banana"));
    assert!(!str_eq("Apple", "Appl"));
}
