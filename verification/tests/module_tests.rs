use rmod_gen::rust_component::Field;
use rmod_gen::rust_component::RustComponentTrait;
use rmod_gen::rust_component::Visibility;
use rmod_gen::RustModule;
use rmod_gen::RustStruct;

#[test]
fn test_struct_module() {
    let m = RustModule::new("test_module").with_component(
        RustStruct::new("Time")
            .with_lifetime("a")
            .with_lifetime("b")
            .with_template("T")
            .with_field(Field::private("seconds", "u64"))
            .with_field(Field::private("minutes", "u64"))
            .with_field(Field::private("hours", "u64"))
            .into(),
    );

    assert_eq!(
        m.to_rust_string(0),
        "mod test_module {\n    struct Time<'a, 'b, T> {\n        seconds: u64,\n        minutes: u64,\n        hours: u64,\n    }\n}\n"
    );
}

#[test]
fn test_struct_module_imports() {
    let m = RustModule::new("test_module")
        .with_import("use crate::other_module::Struct")
        .with_component(
            RustStruct::new("Time")
                .with_lifetime("a")
                .with_lifetime("b")
                .with_template("T")
                .with_field(Field::private("seconds", "u64"))
                .with_field(Field::private("minutes", "u64"))
                .with_field(Field::private("hours", "u64"))
                .into(),
        );

    assert_eq!(
        m.to_rust_string(0),
        "mod test_module {\n    use crate::other_module::Struct;\n\n    struct Time<'a, 'b, T> {\n        seconds: u64,\n        minutes: u64,\n        hours: u64,\n    }\n}\n"
    );
}

#[test]
fn module_visibility_test() {
    let m = RustModule::new("api").with_visibility(Visibility::Public);

    assert_eq!(m.to_rust_string(0), "pub mod api {\n}\n");
}

#[test]
fn module_cfg_test() {
    let m = RustModule::new("tests").with_cfg("#[cfg(test)]");

    assert_eq!(m.to_rust_string(0), "#[cfg(test)]\nmod tests {\n}\n");
}

#[test]
fn nested_module_test() {
    let inner = RustModule::new("inner").with_component(
        RustStruct::new("S").with_field(Field::private("a", "u8")).into(),
    );
    let outer = RustModule::new("outer").with_component(inner.into());

    assert_eq!(
        outer.to_rust_string(0),
        "mod outer {\n    mod inner {\n        struct S {\n            a: u8,\n        }\n    }\n}\n"
    );
}

#[test]
fn module_cfg_indented_test() {
    let m = RustModule::new("tests").with_cfg("#[cfg(test)]");

    assert_eq!(m.to_rust_string(1), "    #[cfg(test)]\n    mod tests {\n    }\n");
}
