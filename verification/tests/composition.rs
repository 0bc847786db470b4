use daisy_rsx::class::{compose, push_fragment};

fn is_tidy(class: &str) -> bool {
    !class.starts_with(' ') && !class.ends_with(' ') && !class.contains("  ")
}

#[test]
fn compose_without_fragments_is_the_base() {
    assert_eq!(compose("btn", &[]), "btn");
    assert_eq!(compose("flex flex-col gap-1", &[]), "flex flex-col gap-1");
    assert_eq!(compose("", &[]), "");
}

#[test]
fn compose_skips_an_empty_fragment() {
    assert_eq!(compose("base", &["f1", "", "f2"]), "base f1 f2");
}

#[test]
fn compose_skips_empty_fragments_wherever_they_stand() {
    assert_eq!(compose("base", &["", "f1", "f2"]), "base f1 f2");
    assert_eq!(compose("base", &["f1", "f2", ""]), "base f1 f2");
    assert_eq!(compose("base", &["", "", ""]), "base");
    assert_eq!(compose("base", &["", "f1", "", "", "f2", ""]), compose("base", &["f1", "f2"]));
}

#[test]
fn compose_keeps_the_order_of_the_fragments() {
    assert_eq!(compose("btn", &["b", "a", "c"]), "btn b a c");
    assert_eq!(compose("btn", &["c", "a", "b"]), "btn c a b");
}

#[test]
fn compose_onto_an_empty_base_has_no_leading_space() {
    assert_eq!(compose("", &["a"]), "a");
    assert_eq!(compose("", &["", "a", "b"]), "a b");
}

#[test]
fn compose_in_two_steps_is_compose_in_one() {
    let first = compose("btn", &["btn-primary", ""]);
    let both = compose(first.as_str(), &["btn-lg", "wide"]);
    assert_eq!(both, compose("btn", &["btn-primary", "", "btn-lg", "wide"]));
    assert_eq!(both, "btn btn-primary btn-lg wide");
}

#[test]
fn compose_of_tidy_parts_is_tidy() {
    let cases: Vec<(&str, Vec<&str>)> = vec![
        ("btn", vec![]),
        ("btn", vec!["", "", ""]),
        ("btn", vec!["btn-primary", "", "btn-lg", ""]),
        ("", vec!["", "a", "", "b c"]),
        ("input input-bordered", vec!["", "input-sm"]),
    ];
    for (base, fragments) in cases {
        let class = compose(base, &fragments);
        assert!(is_tidy(&class), "{:?}", class);
    }
}

#[test]
fn compose_keeps_the_base_and_every_fragment() {
    let class = compose("btn", &["btn-primary", "", "btn-lg"]);
    assert!(class.starts_with("btn"));
    assert!(class.contains("btn-primary"));
    assert!(class.contains("btn-lg"));
}

#[test]
fn push_fragment_joins_with_one_space() {
    let mut class = String::from("btn");
    push_fragment(&mut class, "btn-lg");
    assert_eq!(class, "btn btn-lg");
    push_fragment(&mut class, "");
    assert_eq!(class, "btn btn-lg");
    let mut empty = String::new();
    push_fragment(&mut empty, "solo");
    assert_eq!(empty, "solo");
    push_fragment(&mut empty, "");
    assert_eq!(empty, "solo");
}
