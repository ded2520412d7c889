//! The schema grammar and the structural complexity classifier.
//!
//! A schema node is "simple" (a bare scalar or boolean) or "complex" (an
//! object, an array of a complex inline element, a combinator with a complex
//! inline member, an enumerated scalar, or an untyped node with items or an
//! enumeration). Classification never follows references.

use vstd::prelude::*;

verus! {

/// A slot that holds either a pointer to a named component or a concrete
/// inline item. Nearly every slot of a document has this shape.
pub enum RefOr<T> {
    Reference { reference: String },
    Item(T),
}

/// The scalar families a typed schema node can declare.
#[derive(Clone, Copy)]
pub enum ScalarKind {
    Str,
    Number,
    Integer,
}

/// One node of the schema grammar. Scalar enumerations are carried as their
/// length: classification reads nothing of an enumeration but whether it is
/// empty.
pub enum SchemaNode {
    Scalar { kind: ScalarKind, enumeration_len: usize },
    Boolean,
    Object,
    Array { items: Option<Box<RefOr<SchemaNode>>> },
    OneOf { members: Vec<RefOr<SchemaNode>> },
    AnyOf { members: Vec<RefOr<SchemaNode>> },
    AllOf { members: Vec<RefOr<SchemaNode>> },
    Not { member: Box<RefOr<SchemaNode>> },
    Any { items: Option<Box<RefOr<SchemaNode>>>, enumeration_len: usize },
}

/// What `is_complex` computes, stated over the node's structure alone.
pub open spec fn spec_is_complex(s: SchemaNode) -> bool
    decreases s,
{
    match s {
        SchemaNode::Scalar { kind: _, enumeration_len } => enumeration_len > 0,
        SchemaNode::Boolean => false,
        SchemaNode::Object => true,
        SchemaNode::Array { items } => match items {
            Option::Some(b) => match *b {
                RefOr::Item(inner) => spec_is_complex(inner),
                RefOr::Reference { .. } => false,
            },
            Option::None => false,
        },
        SchemaNode::OneOf { members } => exists|i: int|
            0 <= i < members@.len() && members@[i] is Item && spec_is_complex(
                members@[i]->Item_0,
            ),
        SchemaNode::AnyOf { members } => exists|i: int|
            0 <= i < members@.len() && members@[i] is Item && spec_is_complex(
                members@[i]->Item_0,
            ),
        SchemaNode::AllOf { members } => exists|i: int|
            0 <= i < members@.len() && members@[i] is Item && spec_is_complex(
                members@[i]->Item_0,
            ),
        SchemaNode::Not { member } => match *member {
            RefOr::Item(inner) => spec_is_complex(inner),
            RefOr::Reference { .. } => false,
        },
        SchemaNode::Any { items, enumeration_len } => items is Some || enumeration_len > 0,
    }
}

/// True when some inline member of a combinator is complex. Reference members
/// never contribute.
pub open spec fn spec_any_inline_complex(members: Seq<RefOr<SchemaNode>>) -> bool {
    exists|i: int|
        0 <= i < members.len() && members[i] is Item && spec_is_complex(members[i]->Item_0)
}

fn any_inline_complex(members: &Vec<RefOr<SchemaNode>>) -> (r: bool)
    ensures
        r == spec_any_inline_complex(members@),
    decreases members,
{
    let n = members.len();
    let mut i: usize = 0;
    while i < n
        invariant
            i <= n,
            n == members@.len(),
            forall|j: int|
                0 <= j < i ==> !(members@[j] is Item && spec_is_complex(members@[j]->Item_0)),
        decreases n - i,
    {
        match &members[i] {
            RefOr::Item(inner) => {
                if is_complex(inner) {
                    return true;
                }
            },
            RefOr::Reference { .. } => {},
        }
        i = i + 1;
    }
    false
}

/// Decides whether a schema node is complex: an object, an array whose inline
/// element is complex, a combinator with a complex inline member, an
/// enumerated scalar, or an untyped node with items or an enumeration.
/// Total and pure: the result is a function of the node's structure alone,
/// and references are never followed.
pub fn is_complex(schema: &SchemaNode) -> (r: bool)
    ensures
        r == spec_is_complex(*schema),
    decreases *schema,
{
    match schema {
        SchemaNode::Scalar { kind: _, enumeration_len } => *enumeration_len > 0,
        SchemaNode::Boolean => false,
        SchemaNode::Object => true,
        SchemaNode::Array { items } => match items {
            Option::Some(b) => match &**b {
                RefOr::Item(inner) => is_complex(inner),
                RefOr::Reference { .. } => false,
            },
            Option::None => false,
        },
        SchemaNode::OneOf { members } => any_inline_complex(members),
        SchemaNode::AnyOf { members } => any_inline_complex(members),
        SchemaNode::AllOf { members } => any_inline_complex(members),
        SchemaNode::Not { member } => match &**member {
            RefOr::Item(inner) => is_complex(inner),
            RefOr::Reference { .. } => false,
        },
        SchemaNode::Any { items, enumeration_len } => items.is_some() || *enumeration_len > 0,
    }
}

/// A boolean node is always simple, and an object node is always complex,
/// whatever else either carries.
pub proof fn lemma_boolean_simple_object_complex()
    ensures
        !spec_is_complex(SchemaNode::Boolean),
        spec_is_complex(SchemaNode::Object),
{
}

/// A scalar node is complex exactly when its enumeration is non-empty,
/// whichever scalar family it declares.
pub proof fn lemma_scalar_complex_iff_enumerated(kind: ScalarKind, enumeration_len: usize)
    ensures
        spec_is_complex((SchemaNode::Scalar { kind, enumeration_len })) == (enumeration_len > 0),
{
}

/// An array node without an element schema is simple.
pub proof fn lemma_array_without_items_simple()
    ensures
        !spec_is_complex((SchemaNode::Array { items: Option::None })),
{
}

/// A one-of/any-of/all-of node is complex exactly when some inline member is
/// complex: the logical OR of `is_complex` over the inline members. Members
/// that are references never flip the result to true, so a combinator of
/// references alone is simple.
pub proof fn lemma_combinator_complex_iff_inline_member(members: Vec<RefOr<SchemaNode>>)
    ensures
        spec_is_complex((SchemaNode::OneOf { members })) == spec_any_inline_complex(members@),
        spec_is_complex((SchemaNode::AnyOf { members })) == spec_any_inline_complex(members@),
        spec_is_complex((SchemaNode::AllOf { members })) == spec_any_inline_complex(members@),
        (forall|i: int| 0 <= i < members@.len() ==> members@[i] is Reference)
            ==> !spec_is_complex((SchemaNode::OneOf { members })),
        (forall|i: int| 0 <= i < members@.len() ==> members@[i] is Reference)
            ==> !spec_is_complex((SchemaNode::AnyOf { members })),
        (forall|i: int| 0 <= i < members@.len() ==> members@[i] is Reference)
            ==> !spec_is_complex((SchemaNode::AllOf { members })),
{
}

} // verus!
