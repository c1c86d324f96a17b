use rmod_gen::rust_component::create_lifetime_string;
use rmod_gen::rust_component::create_template_string;

#[test]
fn test_create_lifetime_string() {
    let lifetimes = vec![String::from("a"), String::from("b")];

    assert_eq!(create_lifetime_string(&lifetimes), String::from("'a, 'b"));
}

#[test]
fn test_create_lifetime_string_2() {
    let lifetimes = vec![];

    assert_eq!(create_lifetime_string(&lifetimes), String::new());
}

#[test]
fn test_create_template_string() {
    let lifetimes = vec![String::from("a"), String::from("b")];
    let templates = vec![String::from("T")];

    assert_eq!(
        create_template_string(&templates, &lifetimes),
        String::from("<'a, 'b, T>")
    );
}

#[test]
fn test_create_template_string_2() {
    let lifetimes = vec![String::from("a"), String::from("b")];
    let templates = vec![];

    assert_eq!(
        create_template_string(&templates, &lifetimes),
        String::from("<'a, 'b>")
    );
}

#[test]
fn test_create_template_string_3() {
    let lifetimes = vec![];
    let templates = vec![String::from("T")];

    assert_eq!(create_template_string(&templates, &lifetimes), String::from("<T>"));
}

#[test]
fn test_create_template_string_4() {
    let lifetimes = Vec::new();
    let templates = Vec::new();

    assert_eq!(create_template_string(&templates, &lifetimes), String::new());
}
