use rmod_gen::rust_component::Field;
use rmod_gen::rust_component::RustComponentTrait;
use rmod_gen::RustStruct;

#[test]
fn simple_test() {
    let s = RustStruct::new("Time")
        .with_field(Field::private("seconds", "u64"))
        .with_field(Field::private("minutes", "u64"))
        .with_field(Field::private("hours", "u64"));

    assert_eq!(
        s.to_rust_string(0),
        "struct Time {\n    seconds: u64,\n    minutes: u64,\n    hours: u64,\n}\n"
    );
}

#[test]
fn lifetimes_test() {
    let s = RustStruct::new("Time")
        .with_lifetime("a")
        .with_lifetime("b")
        .with_field(Field::private("seconds", "&'a u64"))
        .with_field(Field::private("minutes", "u64"))
        .with_field(Field::private("hours", "u64"));

    assert_eq!(
        s.to_rust_string(0),
        "struct Time<'a, 'b> {\n    seconds: &'a u64,\n    minutes: u64,\n    hours: u64,\n}\n"
    );
}

#[test]
fn template_test() {
    let s = RustStruct::new("Time")
        .with_template("T")
        .with_template("P")
        .with_field(Field::private("seconds", "T"))
        .with_field(Field::private("minutes", "P"))
        .with_field(Field::private("hours", "u64"));

    assert_eq!(
        s.to_rust_string(0),
        "struct Time<T, P> {\n    seconds: T,\n    minutes: P,\n    hours: u64,\n}\n"
    );
}

#[test]
fn mixed_test() {
    let s = RustStruct::new("Time")
        .with_lifetime("a")
        .with_lifetime("b")
        .with_template("T")
        .with_field(Field::private("seconds", "u64"))
        .with_field(Field::private("minutes", "u64"))
        .with_field(Field::private("hours", "u64"));

    assert_eq!(
        s.to_rust_string(0),
        "struct Time<'a, 'b, T> {\n    seconds: u64,\n    minutes: u64,\n    hours: u64,\n}\n"
    );
}

#[test]
fn mixed_test_indented() {
    let s = RustStruct::new("Time")
        .with_cfg("#[derive(Clone)]")
        .with_lifetime("a")
        .with_lifetime("b")
        .with_template("T")
        .with_field(Field::private("seconds", "u64"))
        .with_field(Field::private("minutes", "u64"))
        .with_field(Field::private("hours", "u64"));

    assert_eq!(
        s.to_rust_string(1),
        "    #[derive(Clone)]\n    struct Time<'a, 'b, T> {\n        seconds: u64,\n        minutes: u64,\n        hours: u64,\n    }\n"
    );
}

#[test]
fn struct_extra_test() {
    let s = RustStruct::new("struct_name").with_extra("where T: Debug");

    assert_eq!(s.to_rust_string(0), "struct struct_name where T: Debug {\n}\n");
}

#[test]
fn struct_visibility_test() {
    let s = RustStruct::new("Carton")
        .with_visibility(rmod_gen::rust_component::Visibility::Public)
        .with_field(Field::new("label", "String", rmod_gen::rust_component::Visibility::Public));

    assert_eq!(s.to_rust_string(0), "pub struct Carton {\n    pub label: String,\n}\n");
}

#[test]
fn struct_setters_test() {
    let mut s = RustStruct::new("my_struct");
    s.push_field(Field::private("a", "u64"));
    s.push_template("T");
    s.set_extra("where T: Debug");
    s.set_cfg("#[derive(Debug)]");

    assert_eq!(
        s.to_rust_string(0),
        "#[derive(Debug)]\nstruct my_struct<T> where T: Debug {\n    a: u64,\n}\n"
    );
}

#[test]
fn struct_render_idempotent_test() {
    let s = RustStruct::new("Time")
        .with_lifetime("a")
        .with_template("T")
        .with_field(Field::private("seconds", "u64"));

    assert_eq!(s.to_rust_string(2), s.to_rust_string(2));
}

#[test]
fn struct_minimal_has_no_optional_punctuation_test() {
    let s = RustStruct::new("Plain").with_field(Field::private("a", "u64"));
    let out = s.to_rust_string(0);

    assert!(!out.contains('<'));
    assert!(!out.contains('>'));
    assert!(!out.contains("pub"));
    assert!(!out.contains("where"));
}
