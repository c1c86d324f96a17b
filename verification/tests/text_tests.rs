use rmod_gen::rust_component::RustComponentTrait;
use rmod_gen::rust_component::RustComponent;
use rmod_gen::RustText;

#[test]
fn text_verbatim_test() {
    let component = RustText::new("#[cfg(test)]").to_rust_string(0);

    assert_eq!(component, "#[cfg(test)]".to_string());
}

#[test]
fn text_indented_test() {
    let component = RustText::new("// note").to_rust_string(2);

    assert_eq!(component, "        // note");
}

#[test]
fn component_dispatch_test() {
    let component: RustComponent = RustText::new("x").into();

    assert_eq!(component.to_rust_string(1), "    x");
}

#[test]
fn render_idempotent_test() {
    let component: RustComponent = rmod_gen::RustStruct::new("Time")
        .with_field(rmod_gen::rust_component::Field::private("seconds", "u64"))
        .into();

    assert_eq!(component.to_rust_string(3), component.to_rust_string(3));
}
