use schema_usage::schema::RefOr;
use schema_usage::schema::ScalarKind;
use schema_usage::schema::SchemaNode;
use schema_usage::is_complex;

fn scalar(kind: ScalarKind, enumeration_len: usize) -> SchemaNode {
    SchemaNode::Scalar { kind, enumeration_len }
}

#[test]
fn boolean_is_always_simple() {
    assert!(!is_complex(&SchemaNode::Boolean));
}

#[test]
fn object_is_always_complex() {
    assert!(is_complex(&SchemaNode::Object));
}

#[test]
fn scalar_complexity_tracks_enumeration_length() {
    assert!(!is_complex(&scalar(ScalarKind::Str, 0)));
    assert!(is_complex(&scalar(ScalarKind::Str, 2)));
    assert!(!is_complex(&scalar(ScalarKind::Number, 0)));
    assert!(is_complex(&scalar(ScalarKind::Number, 1)));
    assert!(!is_complex(&scalar(ScalarKind::Integer, 0)));
    assert!(is_complex(&scalar(ScalarKind::Integer, 3)));
}

#[test]
fn array_without_items_is_simple() {
    assert!(!is_complex(&SchemaNode::Array { items: None }));
}

#[test]
fn array_of_complex_inline_item_is_complex() {
    let node = SchemaNode::Array { items: Some(Box::new(RefOr::Item(SchemaNode::Object))) };
    assert!(is_complex(&node));
}

#[test]
fn array_of_simple_inline_item_is_simple() {
    let node = SchemaNode::Array { items: Some(Box::new(RefOr::Item(SchemaNode::Boolean))) };
    assert!(!is_complex(&node));
}

#[test]
fn array_of_reference_item_is_simple() {
    let node = SchemaNode::Array {
        items: Some(Box::new(RefOr::Reference {
            reference: "#/components/schemas/Widget".to_string(),
        })),
    };
    assert!(!is_complex(&node));
}

fn mixed_members() -> Vec<RefOr<SchemaNode>> {
    vec![RefOr::Item(SchemaNode::Boolean), RefOr::Item(SchemaNode::Object)]
}

fn simple_members() -> Vec<RefOr<SchemaNode>> {
    vec![RefOr::Item(SchemaNode::Boolean), RefOr::Item(scalar(ScalarKind::Str, 0))]
}

fn reference_members() -> Vec<RefOr<SchemaNode>> {
    vec![
        RefOr::Reference { reference: "#/components/schemas/Widget".to_string() },
        RefOr::Reference { reference: "#/components/schemas/Gadget".to_string() },
    ]
}

#[test]
fn combinators_take_the_or_of_inline_members() {
    assert!(is_complex(&SchemaNode::OneOf { members: mixed_members() }));
    assert!(is_complex(&SchemaNode::AnyOf { members: mixed_members() }));
    assert!(is_complex(&SchemaNode::AllOf { members: mixed_members() }));

    assert!(!is_complex(&SchemaNode::OneOf { members: simple_members() }));
    assert!(!is_complex(&SchemaNode::AnyOf { members: simple_members() }));
    assert!(!is_complex(&SchemaNode::AllOf { members: simple_members() }));
}

#[test]
fn reference_members_never_flip_a_combinator_to_complex() {
    assert!(!is_complex(&SchemaNode::OneOf { members: reference_members() }));
    assert!(!is_complex(&SchemaNode::AnyOf { members: reference_members() }));
    assert!(!is_complex(&SchemaNode::AllOf { members: reference_members() }));
}

#[test]
fn empty_combinator_is_simple() {
    assert!(!is_complex(&SchemaNode::OneOf { members: vec![] }));
}

#[test]
fn not_follows_its_inline_member() {
    let complex = SchemaNode::Not { member: Box::new(RefOr::Item(SchemaNode::Object)) };
    assert!(is_complex(&complex));
    let simple = SchemaNode::Not { member: Box::new(RefOr::Item(SchemaNode::Boolean)) };
    assert!(!is_complex(&simple));
    let through_ref = SchemaNode::Not {
        member: Box::new(RefOr::Reference {
            reference: "#/components/schemas/Widget".to_string(),
        }),
    };
    assert!(!is_complex(&through_ref));
}

#[test]
fn untyped_node_is_complex_with_items_or_enumeration() {
    assert!(!is_complex(&SchemaNode::Any { items: None, enumeration_len: 0 }));
    assert!(is_complex(&SchemaNode::Any {
        items: Some(Box::new(RefOr::Item(SchemaNode::Boolean))),
        enumeration_len: 0,
    }));
    assert!(is_complex(&SchemaNode::Any { items: None, enumeration_len: 1 }));
}

#[test]
fn repeated_calls_agree() {
    let node = SchemaNode::Array { items: Some(Box::new(RefOr::Item(SchemaNode::Object))) };
    let first = is_complex(&node);
    let second = is_complex(&node);
    assert_eq!(first, second);
    assert!(first);
}
