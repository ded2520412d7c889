//! The component collector: one walk over the three component namespaces,
//! classifying every concrete schema it finds into the namespace's simple or
//! complex bucket under a derived key, and noting every reference found where
//! a concrete definition was expected.

use vstd::prelude::*;
use crate::schema::RefOr;
use crate::schema::SchemaNode;
use crate::schema::spec_is_complex;
use crate::schema::is_complex;
use crate::document::Anomaly;
use crate::document::AnomalySite;
use crate::document::Components;
use crate::document::Header;
use crate::document::Link;
use crate::document::MediaType;
use crate::document::Namespace;
use crate::document::Parameter;
use crate::document::ParameterFormat;
use crate::document::Response;
use crate::document::names_view;
use crate::document::push_name;

verus! {

/// What one walk contributes: simple-bucket keys, complex-bucket keys, and
/// anomaly notes, each in encounter order.
pub type Contribution = (Seq<Seq<char>>, Seq<Seq<char>>, Seq<Anomaly>);

pub open spec fn empty_contribution() -> Contribution {
    (Seq::<Seq<char>>::empty(), Seq::<Seq<char>>::empty(), Seq::<Anomaly>::empty())
}

pub open spec fn add_contribution(a: Contribution, b: Contribution) -> Contribution {
    (a.0 + b.0, a.1 + b.1, a.2 + b.2)
}

/// A key classified under `complex`, alone.
pub open spec fn bucket_one(key: Seq<char>, complex: bool) -> Contribution {
    if complex {
        (Seq::<Seq<char>>::empty(), seq![key], Seq::<Anomaly>::empty())
    } else {
        (seq![key], Seq::<Seq<char>>::empty(), Seq::<Anomaly>::empty())
    }
}

/// An anomaly note, alone.
pub open spec fn anomaly_one(
    namespace: Namespace,
    site: AnomalySite,
    key: String,
    reference: String,
) -> Contribution {
    (
        Seq::<Seq<char>>::empty(),
        Seq::<Seq<char>>::empty(),
        seq![Anomaly { namespace, site, key, reference }],
    )
}

/// What one schema-or-reference slot contributes: a concrete schema is
/// classified under `bucket_key`; a reference becomes an anomaly note.
pub open spec fn spec_slot(
    slot: RefOr<SchemaNode>,
    bucket_key: Seq<char>,
    namespace: Namespace,
    site: AnomalySite,
    anomaly_key: String,
) -> Contribution {
    match slot {
        RefOr::Reference { reference } => anomaly_one(namespace, site, anomaly_key, reference),
        RefOr::Item(s) => bucket_one(bucket_key, spec_is_complex(s)),
    }
}

/// What one schema-namespace entry contributes: a concrete schema is
/// classified under the entry's own name; a reference entry is an anomaly.
pub open spec fn spec_schema_entry(name: String, item: RefOr<SchemaNode>) -> Contribution {
    spec_slot(item, name@, Namespace::Schemas, AnomalySite::TopLevel, name)
}

/// The whole schema namespace, folded in entry order.
pub open spec fn spec_collect_schemas(entries: Seq<(String, RefOr<SchemaNode>)>) -> Contribution
    decreases entries.len(),
{
    if entries.len() == 0 {
        empty_contribution()
    } else {
        add_contribution(
            spec_collect_schemas(entries.drop_last()),
            spec_schema_entry(entries.last().0, entries.last().1),
        )
    }
}

pub fn collect_schemas(
    entries: &Vec<(String, RefOr<SchemaNode>)>,
    simple: &mut Vec<String>,
    complex: &mut Vec<String>,
    anomalies: &mut Vec<Anomaly>,
)
    ensures
        names_view(final(simple)@) == names_view(old(simple)@) + spec_collect_schemas(entries@).0,
        names_view(final(complex)@) == names_view(old(complex)@) + spec_collect_schemas(
            entries@,
        ).1,
        final(anomalies)@ == old(anomalies)@ + spec_collect_schemas(entries@).2,
{
    let n = entries.len();
    let mut i: usize = 0;
    while i < n
        invariant
            i <= n,
            n == entries@.len(),
            names_view(simple@) == names_view(old(simple)@) + spec_collect_schemas(
                entries@.take(i as int),
            ).0,
            names_view(complex@) == names_view(old(complex)@) + spec_collect_schemas(
                entries@.take(i as int),
            ).1,
            anomalies@ == old(anomalies)@ + spec_collect_schemas(entries@.take(i as int)).2,
        decreases n - i,
    {
        proof {
            assert(entries@.take(i + 1).drop_last() =~= entries@.take(i as int));
            assert(entries@.take(i + 1).last() == entries@[i as int]);
        }
        let entry = &entries[i];
        let name = &entry.0;
        process_slot(
            &entry.1,
            name,
            Namespace::Schemas,
            AnomalySite::TopLevel,
            name,
            simple,
            complex,
            anomalies,
        );
        proof {
            assert(names_view(simple@) =~= names_view(old(simple)@) + spec_collect_schemas(
                entries@.take(i + 1),
            ).0);
            assert(names_view(complex@) =~= names_view(old(complex)@) + spec_collect_schemas(
                entries@.take(i + 1),
            ).1);
            assert(anomalies@ =~= old(anomalies)@ + spec_collect_schemas(
                entries@.take(i + 1),
            ).2);
        }
        i = i + 1;
    }
    proof {
        assert(entries@.take(n as int) =~= entries@);
    }
}

/// Classifies one concrete slot into the right bucket, or notes the
/// reference as an anomaly, exactly as `spec_slot` says.
fn process_slot(
    slot: &RefOr<SchemaNode>,
    bucket_key: &String,
    namespace: Namespace,
    site: AnomalySite,
    anomaly_key: &String,
    simple: &mut Vec<String>,
    complex: &mut Vec<String>,
    anomalies: &mut Vec<Anomaly>,
)
    ensures
        names_view(final(simple)@) == names_view(old(simple)@) + spec_slot(
            *slot,
            bucket_key@,
            namespace,
            site,
            *anomaly_key,
        ).0,
        names_view(final(complex)@) == names_view(old(complex)@) + spec_slot(
            *slot,
            bucket_key@,
            namespace,
            site,
            *anomaly_key,
        ).1,
        final(anomalies)@ == old(anomalies)@ + spec_slot(
            *slot,
            bucket_key@,
            namespace,
            site,
            *anomaly_key,
        ).2,
{
    let ghost c = spec_slot(*slot, bucket_key@, namespace, site, *anomaly_key);
    match slot {
        RefOr::Reference { reference } => {
            anomalies.push(
                Anomaly {
                    namespace,
                    site,
                    key: anomaly_key.clone(),
                    reference: reference.clone(),
                },
            );
            proof {
                assert(anomalies@ =~= old(anomalies)@ + c.2);
                assert(names_view(simple@) =~= names_view(old(simple)@) + c.0);
                assert(names_view(complex@) =~= names_view(old(complex)@) + c.1);
            }
        },
        RefOr::Item(s) => {
            if is_complex(s) {
                push_name(complex, bucket_key);
            } else {
                push_name(simple, bucket_key);
            }
            proof {
                assert(anomalies@ =~= old(anomalies)@ + c.2);
                assert(names_view(simple@) =~= names_view(old(simple)@) + c.0);
                assert(names_view(complex@) =~= names_view(old(complex)@) + c.1);
            }
        },
    }
}

/// What one media-type body of a parameter contributes, keyed by the
/// parameter's own name.
pub open spec fn spec_param_media(name: String, media: (String, MediaType)) -> Contribution {
    match media.1.schema {
        Option::None => empty_contribution(),
        Option::Some(slot) => spec_slot(
            slot,
            name@,
            Namespace::Parameters,
            AnomalySite::ParameterSchema,
            name,
        ),
    }
}

/// A parameter's whole content mapping: every media type present is
/// independently classified under the parameter's name.
pub open spec fn spec_param_content(name: String, medias: Seq<(String, MediaType)>) -> Contribution
    decreases medias.len(),
{
    if medias.len() == 0 {
        empty_contribution()
    } else {
        add_contribution(
            spec_param_content(name, medias.drop_last()),
            spec_param_media(name, medias.last()),
        )
    }
}

/// What one parameter-namespace entry contributes.
pub open spec fn spec_param_entry(name: String, item: RefOr<Parameter>) -> Contribution {
    match item {
        RefOr::Reference { reference } => anomaly_one(
            Namespace::Parameters,
            AnomalySite::TopLevel,
            name,
            reference,
        ),
        RefOr::Item(p) => match p.format {
            ParameterFormat::Schema(slot) => spec_slot(
                slot,
                name@,
                Namespace::Parameters,
                AnomalySite::ParameterSchema,
                name,
            ),
            ParameterFormat::Content(medias) => spec_param_content(name, medias@),
        },
    }
}

/// The whole parameter namespace, folded in entry order.
pub open spec fn spec_collect_parameters(entries: Seq<(String, RefOr<Parameter>)>) -> Contribution
    decreases entries.len(),
{
    if entries.len() == 0 {
        empty_contribution()
    } else {
        add_contribution(
            spec_collect_parameters(entries.drop_last()),
            spec_param_entry(entries.last().0, entries.last().1),
        )
    }
}

fn collect_param_content(
    name: &String,
    medias: &Vec<(String, MediaType)>,
    simple: &mut Vec<String>,
    complex: &mut Vec<String>,
    anomalies: &mut Vec<Anomaly>,
)
    ensures
        names_view(final(simple)@) == names_view(old(simple)@) + spec_param_content(
            *name,
            medias@,
        ).0,
        names_view(final(complex)@) == names_view(old(complex)@) + spec_param_content(
            *name,
            medias@,
        ).1,
        final(anomalies)@ == old(anomalies)@ + spec_param_content(*name, medias@).2,
{
    let n = medias.len();
    let mut i: usize = 0;
    while i < n
        invariant
            i <= n,
            n == medias@.len(),
            names_view(simple@) == names_view(old(simple)@) + spec_param_content(
                *name,
                medias@.take(i as int),
            ).0,
            names_view(complex@) == names_view(old(complex)@) + spec_param_content(
                *name,
                medias@.take(i as int),
            ).1,
            anomalies@ == old(anomalies)@ + spec_param_content(*name, medias@.take(i as int)).2,
        decreases n - i,
    {
        proof {
            assert(medias@.take(i + 1).drop_last() =~= medias@.take(i as int));
            assert(medias@.take(i + 1).last() == medias@[i as int]);
        }
        let media = &medias[i];
        match &media.1.schema {
            Option::None => {},
            Option::Some(slot) => {
                process_slot(
                    slot,
                    name,
                    Namespace::Parameters,
                    AnomalySite::ParameterSchema,
                    name,
                    simple,
                    complex,
                    anomalies,
                );
            },
        }
        proof {
            assert(names_view(simple@) =~= names_view(old(simple)@) + spec_param_content(
                *name,
                medias@.take(i + 1),
            ).0);
            assert(names_view(complex@) =~= names_view(old(complex)@) + spec_param_content(
                *name,
                medias@.take(i + 1),
            ).1);
            assert(anomalies@ =~= old(anomalies)@ + spec_param_content(
                *name,
                medias@.take(i + 1),
            ).2);
        }
        i = i + 1;
    }
    proof {
        assert(medias@.take(n as int) =~= medias@);
    }
}

pub fn collect_parameters(
    entries: &Vec<(String, RefOr<Parameter>)>,
    simple: &mut Vec<String>,
    complex: &mut Vec<String>,
    anomalies: &mut Vec<Anomaly>,
)
    ensures
        names_view(final(simple)@) == names_view(old(simple)@) + spec_collect_parameters(
            entries@,
        ).0,
        names_view(final(complex)@) == names_view(old(complex)@) + spec_collect_parameters(
            entries@,
        ).1,
        final(anomalies)@ == old(anomalies)@ + spec_collect_parameters(entries@).2,
{
    let n = entries.len();
    let mut i: usize = 0;
    while i < n
        invariant
            i <= n,
            n == entries@.len(),
            names_view(simple@) == names_view(old(simple)@) + spec_collect_parameters(
                entries@.take(i as int),
            ).0,
            names_view(complex@) == names_view(old(complex)@) + spec_collect_parameters(
                entries@.take(i as int),
            ).1,
            anomalies@ == old(anomalies)@ + spec_collect_parameters(entries@.take(i as int)).2,
        decreases n - i,
    {
        proof {
            assert(entries@.take(i + 1).drop_last() =~= entries@.take(i as int));
            assert(entries@.take(i + 1).last() == entries@[i as int]);
        }
        let entry = &entries[i];
        let name = &entry.0;
        let item = &entry.1;
        match item {
            RefOr::Reference { reference } => {
                anomalies.push(
                    Anomaly {
                        namespace: Namespace::Parameters,
                        site: AnomalySite::TopLevel,
                        key: name.clone(),
                        reference: reference.clone(),
                    },
                );
            },
            RefOr::Item(p) => {
                match &p.format {
                    ParameterFormat::Schema(slot) => {
                        process_slot(
                            slot,
                            name,
                            Namespace::Parameters,
                            AnomalySite::ParameterSchema,
                            name,
                            simple,
                            complex,
                            anomalies,
                        );
                    },
                    ParameterFormat::Content(medias) => {
                        collect_param_content(name, medias, simple, complex, anomalies);
                    },
                }
            },
        }
        proof {
            assert(names_view(simple@) =~= names_view(old(simple)@) + spec_collect_parameters(
                entries@.take(i + 1),
            ).0);
            assert(names_view(complex@) =~= names_view(old(complex)@) + spec_collect_parameters(
                entries@.take(i + 1),
            ).1);
            assert(anomalies@ =~= old(anomalies)@ + spec_collect_parameters(
                entries@.take(i + 1),
            ).2);
        }
        i = i + 1;
    }
    proof {
        assert(entries@.take(n as int) =~= entries@);
    }
}

/// The derived key of a response header site.
pub open spec fn header_key(resp: Seq<char>, hname: Seq<char>) -> Seq<char> {
    resp + "/header/"@ + hname
}

/// The derived key of a response content-body site.
pub open spec fn content_key(resp: Seq<char>, cname: Seq<char>) -> Seq<char> {
    resp + "/content/"@ + cname
}

/// What one media-type body under a response header contributes, keyed by the
/// header's derived key.
pub open spec fn spec_header_media(
    resp_name: String,
    key: Seq<char>,
    media: (String, MediaType),
) -> Contribution {
    match media.1.schema {
        Option::None => empty_contribution(),
        Option::Some(slot) => spec_slot(
            slot,
            key,
            Namespace::Responses,
            AnomalySite::HeaderContent,
            resp_name,
        ),
    }
}

pub open spec fn spec_header_content(
    resp_name: String,
    key: Seq<char>,
    medias: Seq<(String, MediaType)>,
) -> Contribution
    decreases medias.len(),
{
    if medias.len() == 0 {
        empty_contribution()
    } else {
        add_contribution(
            spec_header_content(resp_name, key, medias.drop_last()),
            spec_header_media(resp_name, key, medias.last()),
        )
    }
}

/// What one response header entry contributes under its derived key.
pub open spec fn spec_header_entry(
    resp_name: String,
    hname: String,
    item: RefOr<Header>,
) -> Contribution {
    match item {
        RefOr::Reference { reference } => anomaly_one(
            Namespace::Responses,
            AnomalySite::HeaderEntry,
            resp_name,
            reference,
        ),
        RefOr::Item(h) => match h.format {
            ParameterFormat::Schema(slot) => spec_slot(
                slot,
                header_key(resp_name@, hname@),
                Namespace::Responses,
                AnomalySite::HeaderSchema,
                resp_name,
            ),
            ParameterFormat::Content(medias) => spec_header_content(
                resp_name,
                header_key(resp_name@, hname@),
                medias@,
            ),
        },
    }
}

pub open spec fn spec_headers(
    resp_name: String,
    headers: Seq<(String, RefOr<Header>)>,
) -> Contribution
    decreases headers.len(),
{
    if headers.len() == 0 {
        empty_contribution()
    } else {
        add_contribution(
            spec_headers(resp_name, headers.drop_last()),
            spec_header_entry(resp_name, headers.last().0, headers.last().1),
        )
    }
}

/// What one media-type body of a response contributes under its derived key.
pub open spec fn spec_response_media(resp_name: String, media: (String, MediaType)) -> Contribution {
    match media.1.schema {
        Option::None => empty_contribution(),
        Option::Some(slot) => spec_slot(
            slot,
            content_key(resp_name@, media.0@),
            Namespace::Responses,
            AnomalySite::ContentBody,
            resp_name,
        ),
    }
}

pub open spec fn spec_response_content(
    resp_name: String,
    content: Seq<(String, MediaType)>,
) -> Contribution
    decreases content.len(),
{
    if content.len() == 0 {
        empty_contribution()
    } else {
        add_contribution(
            spec_response_content(resp_name, content.drop_last()),
            spec_response_media(resp_name, content.last()),
        )
    }
}

/// Links never carry a schema; only a reference entry is noted.
pub open spec fn spec_links(resp_name: String, links: Seq<(String, RefOr<Link>)>) -> Seq<Anomaly>
    decreases links.len(),
{
    if links.len() == 0 {
        Seq::<Anomaly>::empty()
    } else {
        spec_links(resp_name, links.drop_last()) + (match links.last().1 {
            RefOr::Reference { reference } => seq![
                Anomaly {
                    namespace: Namespace::Responses,
                    site: AnomalySite::LinkEntry,
                    key: resp_name,
                    reference,
                },
            ],
            RefOr::Item(_) => Seq::<Anomaly>::empty(),
        })
    }
}

/// What one response-namespace entry contributes: its headers, its content
/// bodies, and its links, in that order.
pub open spec fn spec_response_entry(name: String, item: RefOr<Response>) -> Contribution {
    match item {
        RefOr::Reference { reference } => anomaly_one(
            Namespace::Responses,
            AnomalySite::TopLevel,
            name,
            reference,
        ),
        RefOr::Item(r) => add_contribution(
            add_contribution(spec_headers(name, r.headers@), spec_response_content(name, r.content@)),
            (Seq::<Seq<char>>::empty(), Seq::<Seq<char>>::empty(), spec_links(name, r.links@)),
        ),
    }
}

/// The whole response namespace, folded in entry order.
pub open spec fn spec_collect_responses(entries: Seq<(String, RefOr<Response>)>) -> Contribution
    decreases entries.len(),
{
    if entries.len() == 0 {
        empty_contribution()
    } else {
        add_contribution(
            spec_collect_responses(entries.drop_last()),
            spec_response_entry(entries.last().0, entries.last().1),
        )
    }
}

/// Builds the derived key of a response header site.
fn make_header_key(resp_name: &String, hname: &String) -> (r: String)
    ensures
        r@ == header_key(resp_name@, hname@),
{
    resp_name.clone().concat("/header/").concat(hname.as_str())
}

/// Builds the derived key of a response content-body site.
fn make_content_key(resp_name: &String, cname: &String) -> (r: String)
    ensures
        r@ == content_key(resp_name@, cname@),
{
    resp_name.clone().concat("/content/").concat(cname.as_str())
}

fn collect_header_content(
    resp_name: &String,
    key: &String,
    medias: &Vec<(String, MediaType)>,
    simple: &mut Vec<String>,
    complex: &mut Vec<String>,
    anomalies: &mut Vec<Anomaly>,
)
    ensures
        names_view(final(simple)@) == names_view(old(simple)@) + spec_header_content(
            *resp_name,
            key@,
            medias@,
        ).0,
        names_view(final(complex)@) == names_view(old(complex)@) + spec_header_content(
            *resp_name,
            key@,
            medias@,
        ).1,
        final(anomalies)@ == old(anomalies)@ + spec_header_content(*resp_name, key@, medias@).2,
{
    let n = medias.len();
    let mut i: usize = 0;
    while i < n
        invariant
            i <= n,
            n == medias@.len(),
            names_view(simple@) == names_view(old(simple)@) + spec_header_content(
                *resp_name,
                key@,
                medias@.take(i as int),
            ).0,
            names_view(complex@) == names_view(old(complex)@) + spec_header_content(
                *resp_name,
                key@,
                medias@.take(i as int),
            ).1,
            anomalies@ == old(anomalies)@ + spec_header_content(
                *resp_name,
                key@,
                medias@.take(i as int),
            ).2,
        decreases n - i,
    {
        proof {
            assert(medias@.take(i + 1).drop_last() =~= medias@.take(i as int));
            assert(medias@.take(i + 1).last() == medias@[i as int]);
        }
        let media = &medias[i];
        match &media.1.schema {
            Option::None => {},
            Option::Some(slot) => {
                process_slot(
                    slot,
                    key,
                    Namespace::Responses,
                    AnomalySite::HeaderContent,
                    resp_name,
                    simple,
                    complex,
                    anomalies,
                );
            },
        }
        proof {
            assert(names_view(simple@) =~= names_view(old(simple)@) + spec_header_content(
                *resp_name,
                key@,
                medias@.take(i + 1),
            ).0);
            assert(names_view(complex@) =~= names_view(old(complex)@) + spec_header_content(
                *resp_name,
                key@,
                medias@.take(i + 1),
            ).1);
            assert(anomalies@ =~= old(anomalies)@ + spec_header_content(
                *resp_name,
                key@,
                medias@.take(i + 1),
            ).2);
        }
        i = i + 1;
    }
    proof {
        assert(medias@.take(n as int) =~= medias@);
    }
}

fn collect_headers(
    resp_name: &String,
    headers: &Vec<(String, RefOr<Header>)>,
    simple: &mut Vec<String>,
    complex: &mut Vec<String>,
    anomalies: &mut Vec<Anomaly>,
)
    ensures
        names_view(final(simple)@) == names_view(old(simple)@) + spec_headers(
            *resp_name,
            headers@,
        ).0,
        names_view(final(complex)@) == names_view(old(complex)@) + spec_headers(
            *resp_name,
            headers@,
        ).1,
        final(anomalies)@ == old(anomalies)@ + spec_headers(*resp_name, headers@).2,
{
    let n = headers.len();
    let mut i: usize = 0;
    while i < n
        invariant
            i <= n,
            n == headers@.len(),
            names_view(simple@) == names_view(old(simple)@) + spec_headers(
                *resp_name,
                headers@.take(i as int),
            ).0,
            names_view(complex@) == names_view(old(complex)@) + spec_headers(
                *resp_name,
                headers@.take(i as int),
            ).1,
            anomalies@ == old(anomalies)@ + spec_headers(*resp_name, headers@.take(i as int)).2,
        decreases n - i,
    {
        proof {
            assert(headers@.take(i + 1).drop_last() =~= headers@.take(i as int));
            assert(headers@.take(i + 1).last() == headers@[i as int]);
        }
        let entry = &headers[i];
        let hname = &entry.0;
        match &entry.1 {
            RefOr::Reference { reference } => {
                anomalies.push(
                    Anomaly {
                        namespace: Namespace::Responses,
                        site: AnomalySite::HeaderEntry,
                        key: resp_name.clone(),
                        reference: reference.clone(),
                    },
                );
            },
            RefOr::Item(h) => {
                let key = make_header_key(resp_name, hname);
                match &h.format {
                    ParameterFormat::Schema(slot) => {
                        process_slot(
                            slot,
                            &key,
                            Namespace::Responses,
                            AnomalySite::HeaderSchema,
                            resp_name,
                            simple,
                            complex,
                            anomalies,
                        );
                    },
                    ParameterFormat::Content(medias) => {
                        collect_header_content(
                            resp_name,
                            &key,
                            medias,
                            simple,
                            complex,
                            anomalies,
                        );
                    },
                }
            },
        }
        proof {
            assert(names_view(simple@) =~= names_view(old(simple)@) + spec_headers(
                *resp_name,
                headers@.take(i + 1),
            ).0);
            assert(names_view(complex@) =~= names_view(old(complex)@) + spec_headers(
                *resp_name,
                headers@.take(i + 1),
            ).1);
            assert(anomalies@ =~= old(anomalies)@ + spec_headers(
                *resp_name,
                headers@.take(i + 1),
            ).2);
        }
        i = i + 1;
    }
    proof {
        assert(headers@.take(n as int) =~= headers@);
    }
}

fn collect_response_content(
    resp_name: &String,
    content: &Vec<(String, MediaType)>,
    simple: &mut Vec<String>,
    complex: &mut Vec<String>,
    anomalies: &mut Vec<Anomaly>,
)
    ensures
        names_view(final(simple)@) == names_view(old(simple)@) + spec_response_content(
            *resp_name,
            content@,
        ).0,
        names_view(final(complex)@) == names_view(old(complex)@) + spec_response_content(
            *resp_name,
            content@,
        ).1,
        final(anomalies)@ == old(anomalies)@ + spec_response_content(*resp_name, content@).2,
{
    let n = content.len();
    let mut i: usize = 0;
    while i < n
        invariant
            i <= n,
            n == content@.len(),
            names_view(simple@) == names_view(old(simple)@) + spec_response_content(
                *resp_name,
                content@.take(i as int),
            ).0,
            names_view(complex@) == names_view(old(complex)@) + spec_response_content(
                *resp_name,
                content@.take(i as int),
            ).1,
            anomalies@ == old(anomalies)@ + spec_response_content(
                *resp_name,
                content@.take(i as int),
            ).2,
        decreases n - i,
    {
        proof {
            assert(content@.take(i + 1).drop_last() =~= content@.take(i as int));
            assert(content@.take(i + 1).last() == content@[i as int]);
        }
        let media = &content[i];
        match &media.1.schema {
            Option::None => {},
            Option::Some(slot) => {
                let key = make_content_key(resp_name, &media.0);
                process_slot(
                    slot,
                    &key,
                    Namespace::Responses,
                    AnomalySite::ContentBody,
                    resp_name,
                    simple,
                    complex,
                    anomalies,
                );
            },
        }
        proof {
            assert(names_view(simple@) =~= names_view(old(simple)@) + spec_response_content(
                *resp_name,
                content@.take(i + 1),
            ).0);
            assert(names_view(complex@) =~= names_view(old(complex)@) + spec_response_content(
                *resp_name,
                content@.take(i + 1),
            ).1);
            assert(anomalies@ =~= old(anomalies)@ + spec_response_content(
                *resp_name,
                content@.take(i + 1),
            ).2);
        }
        i = i + 1;
    }
    proof {
        assert(content@.take(n as int) =~= content@);
    }
}

fn collect_links(resp_name: &String, links: &Vec<(String, RefOr<Link>)>, anomalies: &mut Vec<Anomaly>)
    ensures
        final(anomalies)@ == old(anomalies)@ + spec_links(*resp_name, links@),
{
    let n = links.len();
    let mut i: usize = 0;
    while i < n
        invariant
            i <= n,
            n == links@.len(),
            anomalies@ == old(anomalies)@ + spec_links(*resp_name, links@.take(i as int)),
        decreases n - i,
    {
        proof {
            assert(links@.take(i + 1).drop_last() =~= links@.take(i as int));
            assert(links@.take(i + 1).last() == links@[i as int]);
        }
        match &links[i].1 {
            RefOr::Reference { reference } => {
                anomalies.push(
                    Anomaly {
                        namespace: Namespace::Responses,
                        site: AnomalySite::LinkEntry,
                        key: resp_name.clone(),
                        reference: reference.clone(),
                    },
                );
            },
            RefOr::Item(_) => {},
        }
        proof {
            assert(anomalies@ =~= old(anomalies)@ + spec_links(*resp_name, links@.take(i + 1)));
        }
        i = i + 1;
    }
    proof {
        assert(links@.take(n as int) =~= links@);
    }
}

pub fn collect_responses(
    entries: &Vec<(String, RefOr<Response>)>,
    simple: &mut Vec<String>,
    complex: &mut Vec<String>,
    anomalies: &mut Vec<Anomaly>,
)
    ensures
        names_view(final(simple)@) == names_view(old(simple)@) + spec_collect_responses(
            entries@,
        ).0,
        names_view(final(complex)@) == names_view(old(complex)@) + spec_collect_responses(
            entries@,
        ).1,
        final(anomalies)@ == old(anomalies)@ + spec_collect_responses(entries@).2,
{
    let n = entries.len();
    let mut i: usize = 0;
    while i < n
        invariant
            i <= n,
            n == entries@.len(),
            names_view(simple@) == names_view(old(simple)@) + spec_collect_responses(
                entries@.take(i as int),
            ).0,
            names_view(complex@) == names_view(old(complex)@) + spec_collect_responses(
                entries@.take(i as int),
            ).1,
            anomalies@ == old(anomalies)@ + spec_collect_responses(entries@.take(i as int)).2,
        decreases n - i,
    {
        proof {
            assert(entries@.take(i + 1).drop_last() =~= entries@.take(i as int));
            assert(entries@.take(i + 1).last() == entries@[i as int]);
        }
        let entry = &entries[i];
        let name = &entry.0;
        match &entry.1 {
            RefOr::Reference { reference } => {
                anomalies.push(
                    Anomaly {
                        namespace: Namespace::Responses,
                        site: AnomalySite::TopLevel,
                        key: name.clone(),
                        reference: reference.clone(),
                    },
                );
            },
            RefOr::Item(r) => {
                collect_headers(name, &r.headers, simple, complex, anomalies);
                collect_response_content(name, &r.content, simple, complex, anomalies);
                collect_links(name, &r.links, anomalies);
            },
        }
        proof {
            assert(names_view(simple@) =~= names_view(old(simple)@) + spec_collect_responses(
                entries@.take(i + 1),
            ).0);
            assert(names_view(complex@) =~= names_view(old(complex)@) + spec_collect_responses(
                entries@.take(i + 1),
            ).1);
            assert(anomalies@ =~= old(anomalies)@ + spec_collect_responses(
                entries@.take(i + 1),
            ).2);
        }
        i = i + 1;
    }
    proof {
        assert(entries@.take(n as int) =~= entries@);
    }
}

/// A namespace's two classification buckets, as derived keys in encounter
/// order.
pub struct Buckets {
    pub simple: Vec<String>,
    pub complex: Vec<String>,
}

/// Everything the collector produces: per-namespace buckets and the anomaly
/// notes, in walk order (schemas, then parameters, then responses).
pub struct Classification {
    pub schemas: Buckets,
    pub parameters: Buckets,
    pub responses: Buckets,
    pub anomalies: Vec<Anomaly>,
}

/// Walks the three component namespaces once and classifies every concrete
/// schema found there; reference entries and references at schema slots are
/// noted as anomalies, never classified.
pub fn collect_components(components: &Components) -> (r: Classification)
    ensures
        names_view(r.schemas.simple@) == spec_collect_schemas(components.schemas@).0,
        names_view(r.schemas.complex@) == spec_collect_schemas(components.schemas@).1,
        names_view(r.parameters.simple@) == spec_collect_parameters(components.parameters@).0,
        names_view(r.parameters.complex@) == spec_collect_parameters(components.parameters@).1,
        names_view(r.responses.simple@) == spec_collect_responses(components.responses@).0,
        names_view(r.responses.complex@) == spec_collect_responses(components.responses@).1,
        r.anomalies@ == spec_collect_schemas(components.schemas@).2 + spec_collect_parameters(
            components.parameters@,
        ).2 + spec_collect_responses(components.responses@).2,
{
    let mut schema_simple: Vec<String> = Vec::new();
    let mut schema_complex: Vec<String> = Vec::new();
    let mut param_simple: Vec<String> = Vec::new();
    let mut param_complex: Vec<String> = Vec::new();
    let mut resp_simple: Vec<String> = Vec::new();
    let mut resp_complex: Vec<String> = Vec::new();
    let mut anomalies: Vec<Anomaly> = Vec::new();
    collect_schemas(&components.schemas, &mut schema_simple, &mut schema_complex, &mut anomalies);
    collect_parameters(
        &components.parameters,
        &mut param_simple,
        &mut param_complex,
        &mut anomalies,
    );
    collect_responses(&components.responses, &mut resp_simple, &mut resp_complex, &mut anomalies);
    proof {
        assert(names_view(schema_simple@) =~= spec_collect_schemas(components.schemas@).0);
        assert(names_view(schema_complex@) =~= spec_collect_schemas(components.schemas@).1);
        assert(names_view(param_simple@) =~= spec_collect_parameters(components.parameters@).0);
        assert(names_view(param_complex@) =~= spec_collect_parameters(components.parameters@).1);
        assert(names_view(resp_simple@) =~= spec_collect_responses(components.responses@).0);
        assert(names_view(resp_complex@) =~= spec_collect_responses(components.responses@).1);
        assert(anomalies@ =~= spec_collect_schemas(components.schemas@).2
            + spec_collect_parameters(components.parameters@).2 + spec_collect_responses(
            components.responses@,
        ).2);
    }
    Classification {
        schemas: Buckets { simple: schema_simple, complex: schema_complex },
        parameters: Buckets { simple: param_simple, complex: param_complex },
        responses: Buckets { simple: resp_simple, complex: resp_complex },
        anomalies,
    }
}

} // verus!
