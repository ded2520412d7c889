use schema_usage::parse_reference;

#[test]
fn full_component_pointer_resolves_to_name_and_kind() {
    let (name, kind) = parse_reference("#/components/schemas/Widget");
    assert_eq!(name, "Widget");
    assert_eq!(kind, "schemas");
}

#[test]
fn bare_name_resolves_with_empty_kind() {
    let (name, kind) = parse_reference("Widget");
    assert_eq!(name, "Widget");
    assert_eq!(kind, "");
}

#[test]
fn empty_pointer_resolves_to_empty_tokens() {
    let (name, kind) = parse_reference("");
    assert_eq!(name, "");
    assert_eq!(kind, "");
}

#[test]
fn single_slash_yields_both_tokens() {
    let (name, kind) = parse_reference("parameters/Limit");
    assert_eq!(name, "Limit");
    assert_eq!(kind, "parameters");
}

#[test]
fn trailing_slash_yields_empty_name() {
    let (name, kind) = parse_reference("schemas/");
    assert_eq!(name, "");
    assert_eq!(kind, "schemas");
}

#[test]
fn other_kinds_pass_through_untouched() {
    let (name, kind) = parse_reference("#/components/responses/NotFound");
    assert_eq!(name, "NotFound");
    assert_eq!(kind, "responses");
    let (name, kind) = parse_reference("#/definitions/Thing");
    assert_eq!(name, "Thing");
    assert_eq!(kind, "definitions");
}
