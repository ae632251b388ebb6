use leptix_primitives::slot::{merge_attr, merge_attrs, merge_styles, AttrValue};

fn text(s: &str) -> AttrValue {
    AttrValue::Text(s.to_string())
}

#[test]
fn merged_attrs() {
    assert_eq!(
        merge_attrs(
            &vec![("class".to_string(), text("text-blue-500 outline-none"))],
            &vec![("class".to_string(), text("bg-neutral-500"))]
        ),
        vec![(
            "class".to_string(),
            text("text-blue-500 outline-none bg-neutral-500")
        )]
    )
}

#[test]
fn merged_styles_are_trimmed_and_joined() {
    assert_eq!(
        merge_styles(&text("  color: red "), &text("margin: 0  ")),
        text("color: red; margin: 0")
    );
}

#[test]
fn merge_of_non_text_takes_the_child() {
    assert_eq!(merge_attr(&text("a"), &AttrValue::Flag(true)), AttrValue::Flag(true));
    assert_eq!(
        merge_attr(&AttrValue::Optional(None), &text("b")),
        text("b")
    );
}

#[test]
fn child_attrs_come_first_then_unmatched_parent_attrs() {
    let parent = vec![
        ("id".to_string(), text("p")),
        ("style".to_string(), text("color: red")),
        ("data-x".to_string(), AttrValue::Flag(true)),
    ];
    let child = vec![
        ("style".to_string(), text("margin: 0")),
        ("id".to_string(), text("c")),
        ("role".to_string(), text("button")),
    ];
    assert_eq!(
        merge_attrs(&parent, &child),
        vec![
            ("style".to_string(), text("color: red; margin: 0")),
            ("id".to_string(), text("c")),
            ("role".to_string(), text("button")),
            ("data-x".to_string(), AttrValue::Flag(true)),
        ]
    );
}

#[test]
fn only_the_first_parent_attr_of_a_name_is_consumed() {
    let parent = vec![
        ("class".to_string(), text("a")),
        ("class".to_string(), text("b")),
    ];
    let child = vec![("class".to_string(), text("c"))];
    assert_eq!(
        merge_attrs(&parent, &child),
        vec![
            ("class".to_string(), text("a c")),
            ("class".to_string(), text("b")),
        ]
    );
}

#[test]
fn parent_only_attrs_follow_in_parent_order() {
    let parent = vec![
        ("a".to_string(), text("1")),
        ("class".to_string(), text("p")),
        ("b".to_string(), text("2")),
        ("a".to_string(), text("3")),
    ];
    let child = vec![("class".to_string(), text("c"))];
    assert_eq!(
        merge_attrs(&parent, &child),
        vec![
            ("class".to_string(), text("p c")),
            ("a".to_string(), text("1")),
            ("b".to_string(), text("2")),
            ("a".to_string(), text("3")),
        ]
    );
}

#[test]
fn disjoint_names_append_the_parent() {
    let parent = vec![("x".to_string(), text("1"))];
    let child = vec![("y".to_string(), AttrValue::Optional(None))];
    assert_eq!(
        merge_attrs(&parent, &child),
        vec![("y".to_string(), AttrValue::Optional(None)), ("x".to_string(), text("1"))]
    );
}
