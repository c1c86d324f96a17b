use rmod_gen::rust_component::RustComponentTrait;
use rmod_gen::rust_component::Visibility;
use rmod_gen::RustMethod;

#[test]
fn test_basic_method() {
    let method = RustMethod::new("create_cow");

    assert_eq!(method.to_rust_string(0), "fn create_cow() {\n}\n");
}

#[test]
fn test_basic_method_return() {
    let method = RustMethod::new("create_cow").with_return_type("Cow");

    assert_eq!(method.to_rust_string(0), "fn create_cow() -> Cow {\n}\n");
}

#[test]
fn test_basic_method_args() {
    let method = RustMethod::new("create_cow")
        .with_return_type("Cow")
        .with_argument("name: &str")
        .with_argument("age: u64");

    assert_eq!(
        method.to_rust_string(0),
        "fn create_cow(name: &str, age: u64) -> Cow {\n}\n"
    );
}

#[test]
fn test_basic_public_method() {
    let method = RustMethod::new("create_cow")
        .with_visibility(Visibility::Public)
        .with_return_type("Cow")
        .with_argument("name: &str")
        .with_argument("age: u64");

    assert_eq!(
        method.to_rust_string(0),
        "pub fn create_cow(name: &str, age: u64) -> Cow {\n}\n"
    );
}

#[test]
fn test_basic_unsafe_method() {
    let method = RustMethod::new("create_cow")
        .with_fn_type("unsafe")
        .with_visibility(Visibility::Public)
        .with_return_type("Cow")
        .with_argument("name: &str")
        .with_argument("age: u64");

    assert_eq!(
        method.to_rust_string(0),
        "pub unsafe fn create_cow(name: &str, age: u64) -> Cow {\n}\n"
    );
}

#[test]
fn test_basic_unsafe_method_with_body() {
    let method = RustMethod::new("create_cow")
        .with_body("let cow = Cow::new();\nreturn cow;\n")
        .with_fn_type("unsafe")
        .with_visibility(Visibility::Public)
        .with_return_type("Cow")
        .with_argument("name: &str")
        .with_argument("age: u64");

    assert_eq!(
        method.to_rust_string(0),
        "pub unsafe fn create_cow(name: &str, age: u64) -> Cow {\n    let cow = Cow::new();\n    return cow;\n}\n"
    );
}

#[test]
fn test_basic_unsafe_method_with_templates() {
    let method = RustMethod::new("create_cow")
        .with_lifetime("a")
        .with_template("T")
        .with_body("let cow = Cow::new();\nreturn cow;\n")
        .with_fn_type("unsafe")
        .with_visibility(Visibility::Public)
        .with_return_type("Cow")
        .with_argument("name: &str")
        .with_argument("age: u64");

    assert_eq!(
        method.to_rust_string(0),
        "pub unsafe fn create_cow<'a, T>(name: &str, age: u64) -> Cow {\n    let cow = Cow::new();\n    return cow;\n}\n"
    );
}

#[test]
fn method_fn_type_only_test() {
    let method = RustMethod::new("my_method").with_fn_type("unsafe");

    assert_eq!(method.to_rust_string(0), "unsafe fn my_method() {\n}\n");
}

#[test]
fn method_setters_test() {
    let mut method = RustMethod::new("my_method");
    method.set_fn_type("const");
    method.set_visibility(Visibility::CrateVisible);
    method.push_argument("x: u8");
    method.set_return_type("u8");
    method.set_body("x");
    method.push_lifetime("a");
    method.push_template("T");

    assert_eq!(
        method.to_rust_string(1),
        "    pub(crate) const fn my_method<'a, T>(x: u8) -> u8 {\n        x\n    }\n"
    );
}

#[test]
fn method_minimal_has_no_optional_punctuation_test() {
    let method = RustMethod::new("plain").with_argument("x: u8");
    let out = method.to_rust_string(0);

    assert!(!out.contains("->"));
    assert!(!out.contains('<'));
    assert!(!out.contains('>'));
    assert!(!out.contains("pub"));
}

#[test]
fn method_indented_body_test() {
    let method = RustMethod::new("f").with_body("a();\n\nb();");

    assert_eq!(
        method.to_rust_string(1),
        "    fn f() {\n        a();\n        \n        b();\n    }\n"
    );
}
