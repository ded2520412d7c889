//! The in-memory document tree the analyzer consumes: three component
//! namespaces plus the operation paths, every schema-bearing slot a
//! reference-or-inline union.

use vstd::prelude::*;
use crate::schema::RefOr;
use crate::schema::SchemaNode;

verus! {

/// One media-type body: an optional schema-or-reference.
pub struct MediaType {
    pub schema: Option<RefOr<SchemaNode>>,
}

/// A parameter carries either a single schema slot or a mapping of media
/// type to body.
pub enum ParameterFormat {
    Schema(RefOr<SchemaNode>),
    Content(Vec<(String, MediaType)>),
}

/// A reusable parameter definition.
pub struct Parameter {
    pub name: String,
    pub format: ParameterFormat,
}

/// A response header: like a parameter, a schema slot or a content mapping.
pub struct Header {
    pub format: ParameterFormat,
}

/// A response link. Inert for classification; inspected only to note
/// unexpected references.
pub struct Link {}

/// A reusable response definition: named headers, media-type bodies, and
/// links.
pub struct Response {
    pub headers: Vec<(String, RefOr<Header>)>,
    pub content: Vec<(String, MediaType)>,
    pub links: Vec<(String, RefOr<Link>)>,
}

/// The key of one entry of an operation's response map.
pub enum ResponseKey {
    Code(u16),
    Range(u16),
}

/// An operation's response map: the status-keyed entries plus the optional
/// default response, kept apart under its own marker rather than under a
/// borrowed status code.
pub struct Responses {
    pub default: Option<RefOr<Response>>,
    pub responses: Vec<(ResponseKey, RefOr<Response>)>,
}

/// One operation of a path item.
pub struct Operation {
    pub parameters: Vec<RefOr<Parameter>>,
    pub responses: Responses,
}

/// One path: the operations declared under it.
pub struct PathItem {
    pub operations: Vec<Operation>,
}

/// The document's shared reusable-definitions section.
pub struct Components {
    pub schemas: Vec<(String, RefOr<SchemaNode>)>,
    pub parameters: Vec<(String, RefOr<Parameter>)>,
    pub responses: Vec<(String, RefOr<Response>)>,
}

/// A whole parsed document: the component namespaces and the paths.
pub struct Document {
    pub components: Option<Components>,
    pub paths: Vec<(String, RefOr<PathItem>)>,
}

/// One of the three component namespaces.
#[derive(Clone, Copy)]
pub enum Namespace {
    Schemas,
    Parameters,
    Responses,
}

/// Where an unexpected reference stood when it was noted.
#[derive(Clone, Copy)]
pub enum AnomalySite {
    TopLevel,
    ParameterSchema,
    HeaderEntry,
    HeaderSchema,
    HeaderContent,
    ContentBody,
    LinkEntry,
}

/// A non-fatal observation: a reference found at a site where a concrete
/// definition was expected. Never classified, only reported.
pub struct Anomaly {
    pub namespace: Namespace,
    pub site: AnomalySite,
    pub key: String,
    pub reference: String,
}

/// The character sequences of a sequence of names.
pub open spec fn names_view(v: Seq<String>) -> Seq<Seq<char>> {
    v.map_values(|s: String| s@)
}

pub proof fn lemma_names_view_push(v: Seq<String>, x: String)
    ensures
        names_view(v.push(x)) == names_view(v).push(x@),
{
    assert(names_view(v.push(x)) =~= names_view(v).push(x@));
}

/// Appends a copy of `name`, stated over the name views.
pub fn push_name(v: &mut Vec<String>, name: &String)
    ensures
        names_view(final(v)@) == names_view(old(v)@).push(name@),
{
    let c = name.clone();
    v.push(c);
    proof {
        lemma_names_view_push(old(v)@, *name);
    }
}

} // verus!
