use rmod_gen::rust_component::RustComponentTrait;
use rmod_gen::rust_component::Visibility;
use rmod_gen::RustVariable;

#[test]
pub fn test_basic_variable() {
    let variable = RustVariable::new_let("people");

    assert_eq!(variable.to_rust_string(0), "let people;");
}

#[test]
pub fn test_basic_variable_value() {
    let variable = RustVariable::new_let("people").with_value("52");

    assert_eq!(variable.to_rust_string(0), "let people = 52;");
}

#[test]
pub fn test_basic_variable_type() {
    let variable = RustVariable::new_let("people").with_value("52").with_type("u64");

    assert_eq!(variable.to_rust_string(0), "let people: u64 = 52;");
}

#[test]
pub fn test_static_variable() {
    let variable = RustVariable::new_static("people");

    assert_eq!(variable.to_rust_string(0), "static people;");
}

#[test]
pub fn test_const_variable() {
    let variable = RustVariable::new_const("people");

    assert_eq!(variable.to_rust_string(0), "const people;");
}

#[test]
pub fn test_variable_public_visibility() {
    let variable = RustVariable::new_const("people").with_visibility(Visibility::Public);

    assert_eq!(variable.to_rust_string(0), "pub const people;");
}

#[test]
pub fn test_variable_crate_visibility() {
    let variable = RustVariable::new_const("people").with_visibility(Visibility::CrateVisible);

    assert_eq!(variable.to_rust_string(0), "pub(crate) const people;");
}

#[test]
fn mutable_variable_test() {
    let variable = RustVariable::new_let("people").with_mut();

    assert_eq!(variable.to_rust_string(0), "let mut people;");
}

#[test]
fn variable_indented_test() {
    let variable = RustVariable::new_let("var").with_value("\"carton\"").with_type("&str");

    assert_eq!(variable.to_rust_string(1), "    let var: &str = \"carton\";");
}

#[test]
fn variable_setters_test() {
    let mut variable = RustVariable::new_static("count");
    variable.set_mut(true);
    variable.set_type("u64");
    variable.set_value("0");
    variable.set_visibility(Visibility::Public);

    assert_eq!(variable.to_rust_string(0), "pub static mut count: u64 = 0;");
}
