use rmod_gen::rust_component::RustComponentTrait;
use rmod_gen::RustImplementation;
use rmod_gen::RustMethod;

#[test]
fn test_impl_empty() {
    let s = RustImplementation::new("Carton").to_rust_string(0);
    let cmp = "impl Carton {\n}\n".to_string();

    assert_eq!(s, cmp);
}

#[test]
fn test_impl_for_empty() {
    let s = RustImplementation::new_for("Container", "Carton").to_rust_string(0);
    let cmp = "impl Container for Carton {\n}\n".to_string();

    assert_eq!(s, cmp);
}

#[test]
fn test_impl_for_template() {
    let s = RustImplementation::new_for("Container", "Carton")
        .with_template("B")
        .to_rust_string(0);
    let cmp = "impl<B> Container for Carton<B> {\n}\n".to_string();

    assert_eq!(s, cmp);
}

#[test]
fn test_impl_for_impl_template() {
    let s = RustImplementation::new_for("Container", "Carton")
        .with_impl_template("B")
        .to_rust_string(0);
    let cmp = "impl<B> Container for Carton {\n}\n".to_string();

    assert_eq!(s, cmp);
}

#[test]
fn test_impl_for_target_template() {
    let s = RustImplementation::new_for("Container", "Carton")
        .with_target_template("B")
        .to_rust_string(0);
    let cmp = "impl Container for Carton<B> {\n}\n".to_string();

    assert_eq!(s, cmp);
}

#[test]
fn impl_lifetimes_test() {
    let s = RustImplementation::new("Carton")
        .with_lifetime("a")
        .with_impl_lifetime("b")
        .to_rust_string(0);

    assert_eq!(s, "impl<'a, 'b> Carton<'a> {\n}\n");
}

#[test]
fn impl_extra_test() {
    let s = RustImplementation::new("Carton")
        .with_extra("where T: Debug")
        .to_rust_string(0);

    assert_eq!(s, "impl Carton where T: Debug {\n}\n");
}

#[test]
fn impl_with_method_test() {
    let s = RustImplementation::new("Carton")
        .with_component(RustMethod::new("seal").into())
        .to_rust_string(0);

    assert_eq!(s, "impl Carton {\n    fn seal() {\n    }\n\n}\n");
}

#[test]
fn impl_with_two_methods_test() {
    let s = RustImplementation::new("Carton")
        .with_component(RustMethod::new("seal").into())
        .with_component(RustMethod::new("open").into())
        .to_rust_string(0);

    assert_eq!(
        s,
        "impl Carton {\n    fn seal() {\n    }\n\n    fn open() {\n    }\n\n}\n"
    );
}
