use rmod_gen::rust_component::RustComponentTrait;
use rmod_gen::rust_component::Visibility;
use rmod_gen::RustMethod;
use rmod_gen::RustText;
use rmod_gen::RustTrait;

#[test]
fn trait_empty_test() {
    let r_trait = RustTrait::new("MyTrait");

    assert_eq!(r_trait.to_rust_string(0), "trait MyTrait {\n}\n");
}

#[test]
fn trait_bounds_test() {
    let r_trait = RustTrait::new("MyTrait").with_bound("Debug").with_bound("Display");

    assert_eq!(r_trait.to_rust_string(0), "trait MyTrait: Debug + Display {\n}\n");
}

#[test]
fn trait_lifetimes_test() {
    let r_trait = RustTrait::new("MyTrait").with_lifetime("a").with_lifetime("b");

    assert_eq!(r_trait.to_rust_string(0), "trait MyTrait<'a, 'b> {\n}\n");
}

#[test]
fn trait_cfg_test() {
    let r_trait = RustTrait::new("MyTrait").with_cfg("#[my_cfg]");

    assert_eq!(r_trait.to_rust_string(0), "#[my_cfg]\ntrait MyTrait {\n}\n");
}

#[test]
fn trait_extra_test() {
    let r_trait = RustTrait::new("MyTrait").with_extra("where T: Debug");

    assert_eq!(r_trait.to_rust_string(0), "trait MyTrait where T: Debug {\n}\n");
}

#[test]
fn trait_full_test() {
    let r_trait = RustTrait::new("Explosive")
        .with_visibility(Visibility::Public)
        .with_bound("std::fmt::Debug")
        .with_lifetime("a")
        .with_template("T")
        .with_component(RustText::new("fn my_method();").into());

    assert_eq!(
        r_trait.to_rust_string(0),
        "pub trait Explosive<'a, T>: std::fmt::Debug {\n    fn my_method();\n}\n"
    );
}

#[test]
fn trait_with_method_test() {
    let r_trait = RustTrait::new("Openable")
        .with_component(RustMethod::new("open").into());

    assert_eq!(r_trait.to_rust_string(0), "trait Openable {\n    fn open() {\n    }\n\n}\n");
}

#[test]
fn trait_setters_test() {
    let mut r_trait = RustTrait::new("MyTrait");
    r_trait.set_visibility(Visibility::CrateVisible);
    r_trait.push_bound("Clone");
    r_trait.push_lifetime("a");
    r_trait.push_template("T");
    r_trait.set_cfg("#[marker]");
    r_trait.set_extra("where T: Clone");

    assert_eq!(
        r_trait.to_rust_string(1),
        "    #[marker]\n    pub(crate) trait MyTrait<'a, T>: Clone where T: Clone {\n    }\n"
    );
}
