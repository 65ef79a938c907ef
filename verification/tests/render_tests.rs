use modal_values::event::SubmittedField;
use modal_values::render::render_submission;

fn field(id: &str, values: Vec<&str>) -> SubmittedField {
    SubmittedField {
        field_id: id.to_string(),
        values: values.into_iter().map(|v| v.to_string()).collect(),
    }
}

#[test]
fn empty_mapping_renders_as_bare_braces() {
    assert_eq!(render_submission(&vec![]), "{}");
}

#[test]
fn single_field_single_value() {
    let fields = vec![field("example_select_menu", vec!["option-1"])];
    assert_eq!(
        render_submission(&fields),
        "{\n  \"example_select_menu\": [\n    \"option-1\"\n  ]\n}"
    );
}

#[test]
fn several_fields_and_an_empty_value_list() {
    let fields = vec![field("alpha", vec!["x", "y"]), field("beta", vec![])];
    assert_eq!(
        render_submission(&fields),
        "{\n  \"alpha\": [\n    \"x\",\n    \"y\"\n  ],\n  \"beta\": []\n}"
    );
}

#[test]
fn quotes_backslashes_and_newlines_are_escaped() {
    let fields = vec![field("weird", vec!["a\"b\\c\nd"])];
    assert_eq!(
        render_submission(&fields),
        "{\n  \"weird\": [\n    \"a\\\"b\\\\c\\nd\"\n  ]\n}"
    );
}

#[test]
fn control_characters_are_escaped() {
    let fields = vec![field("ctl", vec!["r\rt\tu\u{1}v\u{1f}w"])];
    assert_eq!(
        render_submission(&fields),
        "{\n  \"ctl\": [\n    \"r\\rt\\tu\\u0001v\\u001fw\"\n  ]\n}"
    );
}

#[test]
fn field_identifiers_are_escaped_too() {
    let fields = vec![field("a\"b", vec![])];
    assert_eq!(render_submission(&fields), "{\n  \"a\\\"b\": []\n}");
}

#[test]
fn replaying_the_same_mapping_renders_identically() {
    let fields = vec![field("example_select_menu", vec!["role-456"])];
    assert_eq!(render_submission(&fields), render_submission(&fields));
}
