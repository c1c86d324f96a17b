use rmod_gen::rust_component::Field;
use rmod_gen::rust_component::RustComponentTrait;
use rmod_gen::rust_component::Visibility;
use rmod_gen::EnumVariant;
use rmod_gen::EnumVariantBuilder;
use rmod_gen::RustEnum;

#[test]
fn test_empty_variant() {
    let variant = EnumVariantBuilder::new("Carton").build();

    assert_eq!(variant.to_rust_string(0), "Carton,");
}

#[test]
fn test_value_variant() {
    let variant = EnumVariantBuilder::new("Carton")
        .with_value("u64")
        .with_value("u64")
        .build();

    assert_eq!(variant.to_rust_string(0), "Carton(u64, u64),");
}

#[test]
fn test_value_variant_2() {
    let variant = EnumVariantBuilder::new("Carton")
        .with_value("u64")
        .with_value("u64")
        .with_value("String")
        .build();

    assert_eq!(variant.to_rust_string(0), "Carton(u64, u64, String),");
}

#[test]
fn test_struct_variant() {
    let variant = EnumVariantBuilder::new("Carton")
        .with_field("capacity", "u64")
        .with_field("brand", "String")
        .build();

    assert_eq!(
        variant.to_rust_string(0),
        "Carton {\n    capacity: u64,\n    brand: String,\n},"
    );
}

#[test]
fn test_empty_variant_enum() {
    let e = RustEnum::new("Animals")
        .with_variant(EnumVariant::new_empty("Cow"))
        .with_variant(EnumVariant::new_empty("Dog"));

    assert_eq!(
        e.to_rust_string(0),
        "enum Animals {\n    Cow,\n    Dog,\n}\n".to_string()
    );
}

#[test]
fn test_value_variant_enum() {
    let e = RustEnum::new("Animals")
        .with_variant(EnumVariant::build("Cow").with_value("u64").build())
        .with_variant(
            EnumVariant::build("Dog")
                .with_value("u64")
                .with_value("u64")
                .build(),
        );

    assert_eq!(
        e.to_rust_string(0),
        "enum Animals {\n    Cow(u64),\n    Dog(u64, u64),\n}\n".to_string()
    );
}

#[test]
fn test_struct_variant_enum() {
    let e = RustEnum::new("Animals")
        .with_variant(EnumVariant::build("Cow").with_field("age", "u64").build())
        .with_variant(
            EnumVariant::build("Dog")
                .with_field("age", "u64")
                .with_field("weight", "u64")
                .build(),
        );

    assert_eq!(
        e.to_rust_string(0),
        "enum Animals {\n    Cow {\n        age: u64,\n    },\n    Dog {\n        age: u64,\n        weight: u64,\n    },\n}\n".to_string()
    );
}

#[test]
fn test_pub_enum() {
    let e = RustEnum::new("Animals")
        .with_visibility(Visibility::Public)
        .with_variant(EnumVariant::build("Cow").with_field("age", "u64").build())
        .with_variant(
            EnumVariant::build("Dog")
                .with_field("age", "u64")
                .with_field("weight", "u64")
                .build(),
        );

    assert_eq!(
        e.to_rust_string(0),
        "pub enum Animals {\n    Cow {\n        age: u64,\n    },\n    Dog {\n        age: u64,\n        weight: u64,\n    },\n}\n".to_string()
    );
}

#[test]
fn test_template_enum() {
    let e = RustEnum::new("Animals")
        .with_visibility(Visibility::CrateVisible)
        .with_template("T")
        .with_variant(EnumVariant::build("Cow").with_field("age", "u64").build())
        .with_variant(
            EnumVariant::build("Dog")
                .with_field("age", "u64")
                .with_field("weight", "u64")
                .build(),
        );

    assert_eq!(
        e.to_rust_string(0),
        "pub(crate) enum Animals<T> {\n    Cow {\n        age: u64,\n    },\n    Dog {\n        age: u64,\n        weight: u64,\n    },\n}\n".to_string()
    );
}

#[test]
fn enum_extra_test() {
    let e = RustEnum::new("n").with_extra("where T: Debug");

    assert_eq!(e.to_rust_string(0), "enum n where T: Debug {\n}\n");
}

#[test]
fn enum_cfg_test() {
    let e = RustEnum::new("n").with_cfg("#[derive(Clone)]");

    assert_eq!(e.to_rust_string(0), "#[derive(Clone)]\nenum n {\n}\n");
}

#[test]
fn mixed_builder_keeps_positional_names_test() {
    let variant = EnumVariantBuilder::new("Carton")
        .with_value("u64")
        .with_field("brand", "String")
        .build();

    assert_eq!(
        variant.to_rust_string(0),
        "Carton {\n    0: u64,\n    brand: String,\n},"
    );
}

#[test]
fn positional_names_reach_two_digits_test() {
    let mut builder = EnumVariantBuilder::new("Wide");
    for _ in 0..11 {
        builder.push_value("u8");
    }
    builder.push_field("last", "u8");
    let out = builder.build().to_rust_string(0);

    assert!(out.contains("    10: u8,\n"));
    assert!(out.contains("    0: u8,\n"));
    assert!(out.contains("    last: u8,\n"));
}

#[test]
fn new_struct_variant_test() {
    let variant = EnumVariant::new_struct(
        "Carton",
        vec![Field::private("capacity", "u64")],
    );

    assert_eq!(variant.to_rust_string(1), "    Carton {\n        capacity: u64,\n    },");
}

#[test]
fn new_value_variant_test() {
    let variant = EnumVariant::new_value("Carton", vec![String::from("u64")]);

    assert_eq!(variant.to_rust_string(0), "Carton(u64),");
}

#[test]
fn enum_indented_test() {
    let e = RustEnum::new("Animals").with_variant(EnumVariant::new_empty("Cow"));

    assert_eq!(e.to_rust_string(1), "    enum Animals {\n        Cow,\n    }\n");
}
