use daisy_rsx::attr::{find, is_class, merge, put, AttrValue, Attribute};

fn text_of<'a>(attrs: &'a [Attribute], name: &str) -> Option<&'a str> {
    attrs.iter().find(|a| a.name == name).and_then(|a| match &a.value {
        AttrValue::Text(text) => Some(text.as_str()),
        _ => None,
    })
}

fn names(attrs: &[Attribute]) -> Vec<&str> {
    attrs.iter().map(|a| a.name.as_str()).collect()
}

#[test]
fn merge_joins_a_passed_class_to_the_computed_class() {
    let computed = vec![Attribute::text("class", "btn primary")];
    let passed = vec![Attribute::text("class", "custom")];
    let merged = merge(computed, &passed);
    assert_eq!(merged, vec![Attribute::text("class", "btn primary custom")]);
    let class = text_of(&merged, "class").unwrap();
    assert!(class.contains("btn primary"));
    assert!(class.contains("custom"));
}

#[test]
fn merge_without_passthrough_is_the_computed_list() {
    let computed = vec![Attribute::text("class", "btn"), Attribute::text("type", "radio")];
    let merged = merge(computed, &vec![]);
    assert_eq!(merged, vec![Attribute::text("class", "btn"), Attribute::text("type", "radio")]);
}

#[test]
fn merge_adds_new_names_at_the_end_in_their_order() {
    let computed = vec![Attribute::text("class", "btn")];
    let passed = vec![
        Attribute::text("id", "save"),
        Attribute::flag("disabled", true),
        Attribute::handler("onclick", 7),
    ];
    let merged = merge(computed, &passed);
    assert_eq!(
        merged,
        vec![
            Attribute::text("class", "btn"),
            Attribute::text("id", "save"),
            Attribute::flag("disabled", true),
            Attribute::handler("onclick", 7),
        ]
    );
}

#[test]
fn merge_lets_passthrough_overwrite_in_place() {
    let computed = vec![
        Attribute::text("type", "radio"),
        Attribute::text("class", "tab"),
        Attribute::text("name", "tabs"),
    ];
    let passed = vec![Attribute::text("type", "checkbox")];
    let merged = merge(computed, &passed);
    assert_eq!(
        merged,
        vec![
            Attribute::text("type", "checkbox"),
            Attribute::text("class", "tab"),
            Attribute::text("name", "tabs"),
        ]
    );
}

#[test]
fn merge_last_write_wins() {
    let computed = vec![Attribute::text("id", "computed")];
    let passed = vec![
        Attribute::text("id", "first"),
        Attribute::text("title", "t"),
        Attribute::flag("id", false),
        Attribute::text("id", "last"),
    ];
    let merged = merge(computed, &passed);
    assert_eq!(merged, vec![Attribute::text("id", "last"), Attribute::text("title", "t")]);
}

#[test]
fn merge_joins_every_passed_class_in_order() {
    let computed = vec![Attribute::text("class", "btn")];
    let passed = vec![
        Attribute::text("class", "one"),
        Attribute::text("id", "x"),
        Attribute::text("class", ""),
        Attribute::text("class", "two three"),
    ];
    let merged = merge(computed, &passed);
    assert_eq!(text_of(&merged, "class"), Some("btn one two three"));
    assert_eq!(text_of(&merged, "id"), Some("x"));
    assert_eq!(names(&merged), vec!["class", "id"]);
}

#[test]
fn merge_keeps_the_computed_class_when_the_passed_class_is_no_text() {
    let computed = vec![Attribute::text("class", "btn")];
    let passed = vec![Attribute::flag("class", true), Attribute::handler("class", 3)];
    let merged = merge(computed, &passed);
    assert_eq!(merged, vec![Attribute::text("class", "btn")]);
}

#[test]
fn merge_takes_a_passed_class_where_none_is_computed() {
    let passed = vec![Attribute::text("class", "mine"), Attribute::text("class", "too")];
    let merged = merge(vec![], &passed);
    assert_eq!(merged, vec![Attribute::text("class", "mine too")]);
}

#[test]
fn merge_drops_no_name_and_makes_none_up() {
    let computed = vec![Attribute::text("class", "btn"), Attribute::text("role", "tablist")];
    let passed = vec![
        Attribute::text("id", "a"),
        Attribute::text("role", "list"),
        Attribute::text("aria-label", "tabs"),
        Attribute::text("class", "wide"),
    ];
    let merged = merge(computed, &passed);
    let mut got = names(&merged);
    got.sort();
    assert_eq!(got, vec!["aria-label", "class", "id", "role"]);
}

#[test]
fn merge_keeps_names_distinct() {
    let computed = vec![Attribute::text("class", "btn"), Attribute::text("id", "a")];
    let passed = vec![
        Attribute::text("id", "b"),
        Attribute::text("id", "c"),
        Attribute::text("class", "x"),
        Attribute::text("title", "t"),
        Attribute::text("title", "u"),
    ];
    let merged = merge(computed, &passed);
    let mut got = names(&merged);
    let before = got.len();
    got.sort();
    got.dedup();
    assert_eq!(got.len(), before);
    assert_eq!(before, 3);
}

#[test]
fn merge_leaves_the_passthrough_list_as_it_was() {
    let passed = vec![Attribute::text("class", "custom"), Attribute::handler("onclick", 1)];
    let _ = merge(vec![Attribute::text("class", "btn")], &passed);
    assert_eq!(passed, vec![Attribute::text("class", "custom"), Attribute::handler("onclick", 1)]);
}

#[test]
fn merge_twice_gives_the_same_list() {
    let passed = vec![Attribute::text("class", "custom"), Attribute::text("id", "x")];
    let first = merge(vec![Attribute::text("class", "btn")], &passed);
    let second = merge(vec![Attribute::text("class", "btn")], &passed);
    assert_eq!(first, second);
}

#[test]
fn put_sets_in_place_or_appends() {
    let mut attrs = vec![Attribute::text("class", "btn"), Attribute::text("id", "a")];
    put(&mut attrs, Attribute::text("id", "b"));
    assert_eq!(attrs, vec![Attribute::text("class", "btn"), Attribute::text("id", "b")]);
    put(&mut attrs, Attribute::flag("hidden", true));
    assert_eq!(
        attrs,
        vec![Attribute::text("class", "btn"), Attribute::text("id", "b"), Attribute::flag("hidden", true)]
    );
    put(&mut attrs, Attribute::text("class", "wide"));
    assert_eq!(text_of(&attrs, "class"), Some("btn wide"));
}

#[test]
fn find_gives_the_first_place_of_a_name() {
    let attrs = vec![
        Attribute::text("class", "btn"),
        Attribute::text("id", "a"),
        Attribute::text("id", "b"),
    ];
    assert_eq!(find(&attrs, &String::from("class")), Some(0));
    assert_eq!(find(&attrs, &String::from("id")), Some(1));
    assert_eq!(find(&attrs, &String::from("title")), None);
    assert_eq!(find(&vec![], &String::from("class")), None);
}

#[test]
fn is_class_knows_the_class_name_only() {
    assert!(is_class(&String::from("class")));
    assert!(!is_class(&String::from("Class")));
    assert!(!is_class(&String::from("class ")));
    assert!(!is_class(&String::from("")));
}

#[test]
fn attribute_clone_is_equal() {
    let attrs = vec![
        Attribute::text("class", "btn"),
        Attribute::flag("checked", true),
        Attribute::handler("onclick", 9),
    ];
    for a in &attrs {
        assert_eq!(&a.clone(), a);
    }
    assert_eq!(Attribute::text("a", "b").value, AttrValue::Text(String::from("b")));
    assert_eq!(Attribute::flag("a", false).value, AttrValue::Flag(false));
    assert_eq!(Attribute::handler("a", 4).value, AttrValue::Handler(4));
}
