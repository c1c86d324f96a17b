use rmod_gen::rust_component::Field;
use rmod_gen::RustFile;
use rmod_gen::RustModule;
use rmod_gen::RustStruct;

#[test]
fn test_single_file() {
    let my_file = RustFile::new()
        .with_import("use std::fmt")
        .with_component(
            RustStruct::new("Logger")
                .with_template("T")
                .with_extra("where T: Write")
                .with_field(Field::private("sink", "T"))
                .into(),
        )
        .with_component(RustModule::new("tests").with_cfg("#[cfg(test)]").into());

    let comp = "use std::fmt;\n\nstruct Logger<T> where T: Write {\n    sink: T,\n}\n\n#[cfg(test)]\nmod tests {\n}\n\n";

    assert_eq!(comp.to_string(), my_file.into_rust_code());
}

#[test]
fn file_docstring_test() {
    let documented = RustFile::new().with_file_docstring("Documentation!\nMore!");

    assert_eq!(documented.into_rust_code(), "//! Documentation!\n//! More!\n");
}

#[test]
fn file_empty_test() {
    assert_eq!(RustFile::new().into_rust_code(), "");
}

#[test]
fn file_top_bottom_test() {
    let f = RustFile::new()
        .with_top_string("#![allow(dead_code)]")
        .with_bottom_string("// end");

    assert_eq!(f.into_rust_code(), "#![allow(dead_code)]\n\n// end\n");
}

#[test]
fn file_with_collections_test() {
    let f = RustFile::new()
        .with_imports(vec![String::from("use a"), String::from("use b")])
        .with_components(vec![RustStruct::new("S").into()]);

    assert_eq!(f.into_rust_code(), "use a;\nuse b;\n\nstruct S {\n}\n\n");
}

#[test]
fn file_push_test() {
    let mut f = RustFile::new();
    f.push_import(String::from("use std::fmt"));
    f.push_component(RustStruct::new("S").into());

    assert_eq!(f.into_rust_code(), "use std::fmt;\n\nstruct S {\n}\n\n");
}

#[test]
fn file_to_rust_code_test() {
    let f = RustFile::new()
        .with_import("use std::fmt")
        .with_component(RustStruct::new("S").into());

    assert_eq!(f.to_rust_code(), "use std::fmt;\n\nstruct S {\n}\n\n");
}

#[test]
fn file_to_rust_code_empty_test() {
    assert_eq!(RustFile::new().to_rust_code(), "");
}

#[test]
fn file_to_rust_code_docstring_test() {
    let f = RustFile::new().with_file_docstring("Doc!");

    assert_eq!(f.to_rust_code(), "//! Doc!\n");
}

#[test]
fn file_to_rust_code_keeps_file_test() {
    let f = RustFile::new().with_top_string("// top");
    let first = f.to_rust_code();
    let second = f.to_rust_code();

    assert_eq!(first, second);
}

#[test]
fn file_docstring_trailing_newline_test() {
    let documented = RustFile::new().with_file_docstring("Documentation!\n");

    assert_eq!(documented.into_rust_code(), "//! Documentation!\n\n");
}
