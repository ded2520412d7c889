//! The path reference walker: one walk over every operation of every path,
//! resolving each pointer expression found at a parameter or response site
//! and appending the resolved name to the tally of the namespace its kind
//! names.

use vstd::prelude::*;
use crate::schema::RefOr;
use crate::schema::SchemaNode;
use crate::document::MediaType;
use crate::document::Operation;
use crate::document::Parameter;
use crate::document::ParameterFormat;
use crate::document::PathItem;
use crate::document::Response;
use crate::document::ResponseKey;
use crate::document::Responses;
use crate::document::names_view;
use crate::pointer::parse_reference;
use crate::pointer::spec_ref_kind;
use crate::pointer::spec_ref_name;

verus! {

/// Per-namespace reference tallies: every resolved name, in encounter order,
/// duplicates kept.
pub struct Tallies {
    pub schemas: Vec<String>,
    pub parameters: Vec<String>,
    pub responses: Vec<String>,
}

/// What a stretch of the walk appends to the three tallies.
pub type TallyContribution = (Seq<Seq<char>>, Seq<Seq<char>>, Seq<Seq<char>>);

pub open spec fn empty_tallies() -> TallyContribution {
    (Seq::<Seq<char>>::empty(), Seq::<Seq<char>>::empty(), Seq::<Seq<char>>::empty())
}

pub open spec fn add_tallies(a: TallyContribution, b: TallyContribution) -> TallyContribution {
    (a.0 + b.0, a.1 + b.1, a.2 + b.2)
}

/// Resolving one pointer appends its name to the tally its kind names; a
/// kind that matches no namespace records nothing.
pub open spec fn spec_record(reference: Seq<char>) -> TallyContribution {
    let name = spec_ref_name(reference);
    let kind = spec_ref_kind(reference);
    if kind == "schemas"@ {
        (seq![name], Seq::<Seq<char>>::empty(), Seq::<Seq<char>>::empty())
    } else if kind == "parameters"@ {
        (Seq::<Seq<char>>::empty(), seq![name], Seq::<Seq<char>>::empty())
    } else if kind == "responses"@ {
        (Seq::<Seq<char>>::empty(), Seq::<Seq<char>>::empty(), seq![name])
    } else {
        empty_tallies()
    }
}

/// Character-for-character string equality, stated over the views.
pub fn str_eq(a: &str, b: &str) -> (r: bool)
    ensures
        r == (a@ == b@),
{
    let n = a.unicode_len();
    let m = b.unicode_len();
    if n != m {
        return false;
    }
    let mut i: usize = 0;
    while i < n
        invariant
            i <= n,
            n == a@.len(),
            n == b@.len(),
            forall|j: int| 0 <= j < i ==> a@[j] == b@[j],
        decreases n - i,
    {
        if a.get_char(i) != b.get_char(i) {
            return false;
        }
        i = i + 1;
    }
    proof {
        assert(a@ =~= b@);
    }
    true
}

/// Appends a copy of a resolved name to a tally.
fn push_resolved(v: &mut Vec<String>, name: &str)
    ensures
        names_view(final(v)@) == names_view(old(v)@).push(name@),
{
    let s = String::from_str(name);
    v.push(s);
    proof {
        assert(names_view(v@) =~= names_view(old(v)@).push(name@));
    }
}

/// Resolves one pointer expression and appends the name to the tally of the
/// namespace the kind names, exactly as `spec_record` says.
pub fn record_reference(reference: &String, t: &mut Tallies)
    ensures
        names_view(final(t).schemas@) == names_view(old(t).schemas@) + spec_record(reference@).0,
        names_view(final(t).parameters@) == names_view(old(t).parameters@) + spec_record(
            reference@,
        ).1,
        names_view(final(t).responses@) == names_view(old(t).responses@) + spec_record(
            reference@,
        ).2,
{
    let (name, kind) = parse_reference(reference.as_str());
    if str_eq(kind, "schemas") {
        push_resolved(&mut t.schemas, name);
    } else if str_eq(kind, "parameters") {
        push_resolved(&mut t.parameters, name);
    } else if str_eq(kind, "responses") {
        push_resolved(&mut t.responses, name);
    }
    proof {
        assert(names_view(t.schemas@) =~= names_view(old(t).schemas@) + spec_record(
            reference@,
        ).0);
        assert(names_view(t.parameters@) =~= names_view(old(t).parameters@) + spec_record(
            reference@,
        ).1);
        assert(names_view(t.responses@) =~= names_view(old(t).responses@) + spec_record(
            reference@,
        ).2);
    }
}

/// References contributed by one optional schema slot: only a reference is
/// recorded; an inline schema at a reference site is informational only.
pub open spec fn spec_slot_refs(schema: Option<RefOr<SchemaNode>>) -> TallyContribution {
    match schema {
        Option::None => empty_tallies(),
        Option::Some(RefOr::Reference { reference }) => spec_record(reference@),
        Option::Some(RefOr::Item(_)) => empty_tallies(),
    }
}

/// References contributed by a content mapping's bodies, in order.
pub open spec fn spec_content_refs(medias: Seq<(String, MediaType)>) -> TallyContribution
    decreases medias.len(),
{
    if medias.len() == 0 {
        empty_tallies()
    } else {
        add_tallies(
            spec_content_refs(medias.drop_last()),
            spec_slot_refs(medias.last().1.schema),
        )
    }
}

/// References contributed by one operation parameter.
pub open spec fn spec_param_refs(p: RefOr<Parameter>) -> TallyContribution {
    match p {
        RefOr::Reference { reference } => spec_record(reference@),
        RefOr::Item(param) => match param.format {
            ParameterFormat::Schema(slot) => spec_slot_refs(Option::Some(slot)),
            ParameterFormat::Content(medias) => spec_content_refs(medias@),
        },
    }
}

pub open spec fn spec_params_refs(params: Seq<RefOr<Parameter>>) -> TallyContribution
    decreases params.len(),
{
    if params.len() == 0 {
        empty_tallies()
    } else {
        add_tallies(spec_params_refs(params.drop_last()), spec_param_refs(params.last()))
    }
}

/// References contributed by one response of an operation: a referenced
/// response is recorded; an inline one is walked over its content bodies
/// only, never its headers or links.
pub open spec fn spec_response_refs(r: RefOr<Response>) -> TallyContribution {
    match r {
        RefOr::Reference { reference } => spec_record(reference@),
        RefOr::Item(resp) => spec_content_refs(resp.content@),
    }
}

pub open spec fn spec_response_entries_refs(
    list: Seq<(ResponseKey, RefOr<Response>)>,
) -> TallyContribution
    decreases list.len(),
{
    if list.len() == 0 {
        empty_tallies()
    } else {
        add_tallies(
            spec_response_entries_refs(list.drop_last()),
            spec_response_refs(list.last().1),
        )
    }
}

/// An operation's response map: the status-keyed entries, then the default
/// response under its own marker.
pub open spec fn spec_responses_refs(rs: Responses) -> TallyContribution {
    add_tallies(
        spec_response_entries_refs(rs.responses@),
        match rs.default {
            Option::None => empty_tallies(),
            Option::Some(r) => spec_response_refs(r),
        },
    )
}

pub open spec fn spec_operation_refs(op: Operation) -> TallyContribution {
    add_tallies(spec_params_refs(op.parameters@), spec_responses_refs(op.responses))
}

pub open spec fn spec_operations_refs(ops: Seq<Operation>) -> TallyContribution
    decreases ops.len(),
{
    if ops.len() == 0 {
        empty_tallies()
    } else {
        add_tallies(spec_operations_refs(ops.drop_last()), spec_operation_refs(ops.last()))
    }
}

/// A path entry contributes through its operations; a path that is itself a
/// reference is skipped.
pub open spec fn spec_path_entry_refs(item: RefOr<PathItem>) -> TallyContribution {
    match item {
        RefOr::Reference { .. } => empty_tallies(),
        RefOr::Item(pi) => spec_operations_refs(pi.operations@),
    }
}

pub open spec fn spec_walk_paths(paths: Seq<(String, RefOr<PathItem>)>) -> TallyContribution
    decreases paths.len(),
{
    if paths.len() == 0 {
        empty_tallies()
    } else {
        add_tallies(spec_walk_paths(paths.drop_last()), spec_path_entry_refs(paths.last().1))
    }
}

fn walk_content(medias: &Vec<(String, MediaType)>, t: &mut Tallies)
    ensures
        names_view(final(t).schemas@) == names_view(old(t).schemas@) + spec_content_refs(
            medias@,
        ).0,
        names_view(final(t).parameters@) == names_view(old(t).parameters@) + spec_content_refs(
            medias@,
        ).1,
        names_view(final(t).responses@) == names_view(old(t).responses@) + spec_content_refs(
            medias@,
        ).2,
{
    let n = medias.len();
    let mut i: usize = 0;
    while i < n
        invariant
            i <= n,
            n == medias@.len(),
            names_view(t.schemas@) == names_view(old(t).schemas@) + spec_content_refs(
                medias@.take(i as int),
            ).0,
            names_view(t.parameters@) == names_view(old(t).parameters@) + spec_content_refs(
                medias@.take(i as int),
            ).1,
            names_view(t.responses@) == names_view(old(t).responses@) + spec_content_refs(
                medias@.take(i as int),
            ).2,
        decreases n - i,
    {
        proof {
            assert(medias@.take(i + 1).drop_last() =~= medias@.take(i as int));
            assert(medias@.take(i + 1).last() == medias@[i as int]);
        }
        match &medias[i].1.schema {
            Option::Some(RefOr::Reference { reference }) => {
                record_reference(reference, t);
            },
            _ => {},
        }
        proof {
            assert(names_view(t.schemas@) =~= names_view(old(t).schemas@) + spec_content_refs(
                medias@.take(i + 1),
            ).0);
            assert(names_view(t.parameters@) =~= names_view(old(t).parameters@)
                + spec_content_refs(medias@.take(i + 1)).1);
            assert(names_view(t.responses@) =~= names_view(old(t).responses@) + spec_content_refs(
                medias@.take(i + 1),
            ).2);
        }
        i = i + 1;
    }
    proof {
        assert(medias@.take(n as int) =~= medias@);
    }
}

fn walk_parameter(p: &RefOr<Parameter>, t: &mut Tallies)
    ensures
        names_view(final(t).schemas@) == names_view(old(t).schemas@) + spec_param_refs(*p).0,
        names_view(final(t).parameters@) == names_view(old(t).parameters@) + spec_param_refs(
            *p,
        ).1,
        names_view(final(t).responses@) == names_view(old(t).responses@) + spec_param_refs(*p).2,
{
    match p {
        RefOr::Reference { reference } => {
            record_reference(reference, t);
        },
        RefOr::Item(param) => {
            match &param.format {
                ParameterFormat::Schema(slot) => {
                    match slot {
                        RefOr::Reference { reference } => {
                            record_reference(reference, t);
                        },
                        RefOr::Item(_) => {
                            proof {
                                lemma_unchanged(*old(t), *t);
                            }
                        },
                    }
                },
                ParameterFormat::Content(medias) => {
                    walk_content(medias, t);
                },
            }
        },
    }
}

/// Appending nothing leaves each tally as it stands.
proof fn lemma_unchanged(a: Tallies, b: Tallies)
    requires
        a == b,
    ensures
        names_view(b.schemas@) == names_view(a.schemas@) + empty_tallies().0,
        names_view(b.parameters@) == names_view(a.parameters@) + empty_tallies().1,
        names_view(b.responses@) == names_view(a.responses@) + empty_tallies().2,
{
    assert(names_view(b.schemas@) =~= names_view(a.schemas@) + empty_tallies().0);
    assert(names_view(b.parameters@) =~= names_view(a.parameters@) + empty_tallies().1);
    assert(names_view(b.responses@) =~= names_view(a.responses@) + empty_tallies().2);
}

fn walk_parameters(params: &Vec<RefOr<Parameter>>, t: &mut Tallies)
    ensures
        names_view(final(t).schemas@) == names_view(old(t).schemas@) + spec_params_refs(
            params@,
        ).0,
        names_view(final(t).parameters@) == names_view(old(t).parameters@) + spec_params_refs(
            params@,
        ).1,
        names_view(final(t).responses@) == names_view(old(t).responses@) + spec_params_refs(
            params@,
        ).2,
{
    let n = params.len();
    let mut i: usize = 0;
    while i < n
        invariant
            i <= n,
            n == params@.len(),
            names_view(t.schemas@) == names_view(old(t).schemas@) + spec_params_refs(
                params@.take(i as int),
            ).0,
            names_view(t.parameters@) == names_view(old(t).parameters@) + spec_params_refs(
                params@.take(i as int),
            ).1,
            names_view(t.responses@) == names_view(old(t).responses@) + spec_params_refs(
                params@.take(i as int),
            ).2,
        decreases n - i,
    {
        proof {
            assert(params@.take(i + 1).drop_last() =~= params@.take(i as int));
            assert(params@.take(i + 1).last() == params@[i as int]);
        }
        walk_parameter(&params[i], t);
        proof {
            assert(names_view(t.schemas@) =~= names_view(old(t).schemas@) + spec_params_refs(
                params@.take(i + 1),
            ).0);
            assert(names_view(t.parameters@) =~= names_view(old(t).parameters@)
                + spec_params_refs(params@.take(i + 1)).1);
            assert(names_view(t.responses@) =~= names_view(old(t).responses@) + spec_params_refs(
                params@.take(i + 1),
            ).2);
        }
        i = i + 1;
    }
    proof {
        assert(params@.take(n as int) =~= params@);
    }
}

fn walk_response(r: &RefOr<Response>, t: &mut Tallies)
    ensures
        names_view(final(t).schemas@) == names_view(old(t).schemas@) + spec_response_refs(*r).0,
        names_view(final(t).parameters@) == names_view(old(t).parameters@) + spec_response_refs(
            *r,
        ).1,
        names_view(final(t).responses@) == names_view(old(t).responses@) + spec_response_refs(
            *r,
        ).2,
{
    match r {
        RefOr::Reference { reference } => {
            record_reference(reference, t);
        },
        RefOr::Item(resp) => {
            walk_content(&resp.content, t);
        },
    }
}

fn walk_responses(rs: &Responses, t: &mut Tallies)
    ensures
        names_view(final(t).schemas@) == names_view(old(t).schemas@) + spec_responses_refs(
            *rs,
        ).0,
        names_view(final(t).parameters@) == names_view(old(t).parameters@) + spec_responses_refs(
            *rs,
        ).1,
        names_view(final(t).responses@) == names_view(old(t).responses@) + spec_responses_refs(
            *rs,
        ).2,
{
    let n = rs.responses.len();
    let mut i: usize = 0;
    while i < n
        invariant
            i <= n,
            n == rs.responses@.len(),
            names_view(t.schemas@) == names_view(old(t).schemas@) + spec_response_entries_refs(
                rs.responses@.take(i as int),
            ).0,
            names_view(t.parameters@) == names_view(old(t).parameters@)
                + spec_response_entries_refs(rs.responses@.take(i as int)).1,
            names_view(t.responses@) == names_view(old(t).responses@) + spec_response_entries_refs(
                rs.responses@.take(i as int),
            ).2,
        decreases n - i,
    {
        proof {
            assert(rs.responses@.take(i + 1).drop_last() =~= rs.responses@.take(i as int));
            assert(rs.responses@.take(i + 1).last() == rs.responses@[i as int]);
        }
        walk_response(&rs.responses[i].1, t);
        proof {
            assert(names_view(t.schemas@) =~= names_view(old(t).schemas@)
                + spec_response_entries_refs(rs.responses@.take(i + 1)).0);
            assert(names_view(t.parameters@) =~= names_view(old(t).parameters@)
                + spec_response_entries_refs(rs.responses@.take(i + 1)).1);
            assert(names_view(t.responses@) =~= names_view(old(t).responses@)
                + spec_response_entries_refs(rs.responses@.take(i + 1)).2);
        }
        i = i + 1;
    }
    proof {
        assert(rs.responses@.take(n as int) =~= rs.responses@);
    }
    match &rs.default {
        Option::None => {},
        Option::Some(r) => {
            walk_response(r, t);
        },
    }
    proof {
        assert(names_view(t.schemas@) =~= names_view(old(t).schemas@) + spec_responses_refs(
            *rs,
        ).0);
        assert(names_view(t.parameters@) =~= names_view(old(t).parameters@) + spec_responses_refs(
            *rs,
        ).1);
        assert(names_view(t.responses@) =~= names_view(old(t).responses@) + spec_responses_refs(
            *rs,
        ).2);
    }
}

fn walk_operations(ops: &Vec<Operation>, t: &mut Tallies)
    ensures
        names_view(final(t).schemas@) == names_view(old(t).schemas@) + spec_operations_refs(
            ops@,
        ).0,
        names_view(final(t).parameters@) == names_view(old(t).parameters@)
            + spec_operations_refs(ops@).1,
        names_view(final(t).responses@) == names_view(old(t).responses@) + spec_operations_refs(
            ops@,
        ).2,
{
    let n = ops.len();
    let mut i: usize = 0;
    while i < n
        invariant
            i <= n,
            n == ops@.len(),
            names_view(t.schemas@) == names_view(old(t).schemas@) + spec_operations_refs(
                ops@.take(i as int),
            ).0,
            names_view(t.parameters@) == names_view(old(t).parameters@) + spec_operations_refs(
                ops@.take(i as int),
            ).1,
            names_view(t.responses@) == names_view(old(t).responses@) + spec_operations_refs(
                ops@.take(i as int),
            ).2,
        decreases n - i,
    {
        proof {
            assert(ops@.take(i + 1).drop_last() =~= ops@.take(i as int));
            assert(ops@.take(i + 1).last() == ops@[i as int]);
        }
        let op = &ops[i];
        walk_parameters(&op.parameters, t);
        walk_responses(&op.responses, t);
        proof {
            assert(names_view(t.schemas@) =~= names_view(old(t).schemas@) + spec_operations_refs(
                ops@.take(i + 1),
            ).0);
            assert(names_view(t.parameters@) =~= names_view(old(t).parameters@)
                + spec_operations_refs(ops@.take(i + 1)).1);
            assert(names_view(t.responses@) =~= names_view(old(t).responses@)
                + spec_operations_refs(ops@.take(i + 1)).2);
        }
        i = i + 1;
    }
    proof {
        assert(ops@.take(n as int) =~= ops@);
    }
}

/// Walks every operation under every path and resolves every pointer
/// expression found at a parameter or response site into the tally of the
/// namespace its kind names. Inline schemas at those sites record nothing,
/// and an inline response's headers and links are not walked.
pub fn walk_paths(paths: &Vec<(String, RefOr<PathItem>)>) -> (r: Tallies)
    ensures
        names_view(r.schemas@) == spec_walk_paths(paths@).0,
        names_view(r.parameters@) == spec_walk_paths(paths@).1,
        names_view(r.responses@) == spec_walk_paths(paths@).2,
{
    let mut t = Tallies { schemas: Vec::new(), parameters: Vec::new(), responses: Vec::new() };
    let n = paths.len();
    let mut i: usize = 0;
    while i < n
        invariant
            i <= n,
            n == paths@.len(),
            names_view(t.schemas@) == spec_walk_paths(paths@.take(i as int)).0,
            names_view(t.parameters@) == spec_walk_paths(paths@.take(i as int)).1,
            names_view(t.responses@) == spec_walk_paths(paths@.take(i as int)).2,
        decreases n - i,
    {
        proof {
            assert(paths@.take(i + 1).drop_last() =~= paths@.take(i as int));
            assert(paths@.take(i + 1).last() == paths@[i as int]);
        }
        match &paths[i].1 {
            RefOr::Reference { .. } => {},
            RefOr::Item(pi) => {
                walk_operations(&pi.operations, &mut t);
            },
        }
        proof {
            assert(names_view(t.schemas@) =~= spec_walk_paths(paths@.take(i + 1)).0);
            assert(names_view(t.parameters@) =~= spec_walk_paths(paths@.take(i + 1)).1);
            assert(names_view(t.responses@) =~= spec_walk_paths(paths@.take(i + 1)).2);
        }
        i = i + 1;
    }
    proof {
        assert(paths@.take(n as int) =~= paths@);
    }
    t
}

} // verus!
