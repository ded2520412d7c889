//! The usage reporter: set-differences the collected bucket keys against the
//! reference tallies and reports every component key that no reference ever
//! named. Matching is exact, whole-key string equality.

use vstd::prelude::*;
use crate::collect::Classification;
use crate::collect::collect_components;
use crate::collect::spec_collect_parameters;
use crate::collect::spec_collect_responses;
use crate::collect::spec_collect_schemas;
use crate::document::Anomaly;
use crate::document::Document;
use crate::document::names_view;
use crate::document::push_name;
use crate::walk::Tallies;
use crate::walk::spec_walk_paths;
use crate::walk::str_eq;
use crate::walk::walk_paths;

verus! {

/// The keys of `keys` that appear nowhere in `tally`, in key order,
/// multiplicity kept.
pub open spec fn spec_unused(keys: Seq<Seq<char>>, tally: Seq<Seq<char>>) -> Seq<Seq<char>>
    decreases keys.len(),
{
    if keys.len() == 0 {
        Seq::<Seq<char>>::empty()
    } else {
        spec_unused(keys.drop_last(), tally) + (if !tally.contains(keys.last()) {
            seq![keys.last()]
        } else {
            Seq::<Seq<char>>::empty()
        })
    }
}

/// How many times `k` occurs in `keys`.
pub open spec fn count_key(keys: Seq<Seq<char>>, k: Seq<char>) -> nat
    decreases keys.len(),
{
    if keys.len() == 0 {
        0
    } else {
        count_key(keys.drop_last(), k) + (if keys.last() == k {
            1nat
        } else {
            0nat
        })
    }
}

proof fn lemma_count_push(a: Seq<Seq<char>>, e: Seq<char>, k: Seq<char>)
    ensures
        count_key(a.push(e), k) == count_key(a, k) + (if e == k {
            1nat
        } else {
            0nat
        }),
{
    assert(a.push(e).drop_last() =~= a);
    assert(a.push(e).last() == e);
}

/// Whatever stands in the tally is dropped from the report; whatever does
/// not keeps its full multiplicity.
pub proof fn lemma_unused_count(keys: Seq<Seq<char>>, tally: Seq<Seq<char>>, k: Seq<char>)
    ensures
        tally.contains(k) ==> count_key(spec_unused(keys, tally), k) == 0,
        !tally.contains(k) ==> count_key(spec_unused(keys, tally), k) == count_key(keys, k),
    decreases keys.len(),
{
    if keys.len() == 0 {
    } else {
        lemma_unused_count(keys.drop_last(), tally, k);
        if !tally.contains(keys.last()) {
            assert(spec_unused(keys, tally) =~= spec_unused(keys.drop_last(), tally).push(
                keys.last(),
            ));
            lemma_count_push(spec_unused(keys.drop_last(), tally), keys.last(), k);
        } else {
            assert(spec_unused(keys, tally) =~= spec_unused(keys.drop_last(), tally));
            if keys.last() == k {
                assert(tally.contains(k));
            }
        }
    }
}

/// A key stands in the report exactly when it stands in the buckets and in
/// no reference tally.
pub proof fn lemma_unused_iff(keys: Seq<Seq<char>>, tally: Seq<Seq<char>>, k: Seq<char>)
    ensures
        spec_unused(keys, tally).contains(k) == (keys.contains(k) && !tally.contains(k)),
    decreases keys.len(),
{
    if keys.len() == 0 {
        assert(!keys.contains(k));
    } else {
        let h = keys.drop_last();
        let e = keys.last();
        lemma_unused_iff(h, tally, k);
        assert(keys.contains(k) == (h.contains(k) || e == k)) by {
            if keys.contains(k) {
                let i = choose|i: int| 0 <= i < keys.len() && keys[i] == k;
                if i < keys.len() - 1 {
                    assert(h[i] == k);
                }
            }
            if h.contains(k) {
                let i = choose|i: int| 0 <= i < h.len() && h[i] == k;
                assert(keys[i] == k);
            }
            if e == k {
                assert(keys[keys.len() - 1] == k);
            }
        }
        if !tally.contains(e) {
            assert(spec_unused(keys, tally) =~= spec_unused(h, tally).push(e));
            assert(spec_unused(keys, tally).contains(k) == (spec_unused(h, tally).contains(k) || e
                == k)) by {
                let u = spec_unused(h, tally);
                if u.push(e).contains(k) {
                    let i = choose|i: int| 0 <= i < u.push(e).len() && u.push(e)[i] == k;
                    if i < u.len() {
                        assert(u[i] == k);
                    }
                }
                if u.contains(k) {
                    let i = choose|i: int| 0 <= i < u.len() && u[i] == k;
                    assert(u.push(e)[i] == k);
                }
                if e == k {
                    assert(u.push(e)[u.len() as int] == k);
                }
            }
        } else {
            assert(spec_unused(keys, tally) =~= spec_unused(h, tally));
        }
    }
}

/// A bucket key that appears once and that no reference ever named is
/// reported exactly once; a key referenced at least once is never reported,
/// whatever its reference count.
pub proof fn lemma_report_membership(keys: Seq<Seq<char>>, tally: Seq<Seq<char>>, k: Seq<char>)
    ensures
        (count_key(keys, k) == 1 && !tally.contains(k)) ==> count_key(
            spec_unused(keys, tally),
            k,
        ) == 1,
        tally.contains(k) ==> !spec_unused(keys, tally).contains(k),
    decreases keys.len(),
{
    lemma_unused_count(keys, tally, k);
    lemma_unused_iff(keys, tally, k);
}

/// True when some name of `tally` equals `key`, character for character.
pub fn contains_name(tally: &Vec<String>, key: &String) -> (r: bool)
    ensures
        r == names_view(tally@).contains(key@),
{
    let n = tally.len();
    let mut i: usize = 0;
    while i < n
        invariant
            i <= n,
            n == tally@.len(),
            forall|j: int| 0 <= j < i ==> names_view(tally@)[j] != key@,
        decreases n - i,
    {
        if str_eq(tally[i].as_str(), key.as_str()) {
            proof {
                assert(names_view(tally@)[i as int] == key@);
            }
            return true;
        }
        i = i + 1;
    }
    proof {
        if names_view(tally@).contains(key@) {
            let j = choose|j: int|
                0 <= j < names_view(tally@).len() && names_view(tally@)[j] == key@;
            assert(names_view(tally@)[j] != key@);
        }
    }
    false
}

/// The keys of one namespace's buckets, complex first then simple, that the
/// namespace's tally never names: each is reported once per occurrence.
pub fn unused_keys(complex: &Vec<String>, simple: &Vec<String>, tally: &Vec<String>) -> (r: Vec<
    String,
>)
    ensures
        names_view(r@) == spec_unused(
            names_view(complex@) + names_view(simple@),
            names_view(tally@),
        ),
{
    let mut out: Vec<String> = Vec::new();
    let n = complex.len();
    let mut i: usize = 0;
    while i < n
        invariant
            i <= n,
            n == complex@.len(),
            names_view(out@) == spec_unused(
                names_view(complex@.take(i as int)),
                names_view(tally@),
            ),
        decreases n - i,
    {
        proof {
            assert(names_view(complex@.take(i + 1)).drop_last() =~= names_view(
                complex@.take(i as int),
            ));
            assert(names_view(complex@.take(i + 1)).last() == complex@[i as int]@);
        }
        let key = &complex[i];
        if !contains_name(tally, key) {
            push_name(&mut out, key);
        }
        proof {
            assert(names_view(out@) =~= spec_unused(
                names_view(complex@.take(i + 1)),
                names_view(tally@),
            ));
        }
        i = i + 1;
    }
    proof {
        assert(complex@.take(n as int) =~= complex@);
    }
    let m = simple.len();
    let mut j: usize = 0;
    while j < m
        invariant
            m == simple@.len(),
            j <= m,
            names_view(out@) == spec_unused(
                names_view(complex@) + names_view(simple@.take(j as int)),
                names_view(tally@),
            ),
        decreases m - j,
    {
        proof {
            assert((names_view(complex@) + names_view(simple@.take(j + 1))).drop_last() =~= (
            names_view(complex@) + names_view(simple@.take(j as int))));
            assert((names_view(complex@) + names_view(simple@.take(j + 1))).last() == simple@[
                j as int
            ]@);
        }
        let key = &simple[j];
        if !contains_name(tally, key) {
            push_name(&mut out, key);
        }
        proof {
            assert(names_view(out@) =~= spec_unused(
                names_view(complex@) + names_view(simple@.take(j + 1)),
                names_view(tally@),
            ));
        }
        j = j + 1;
    }
    proof {
        assert(simple@.take(m as int) =~= simple@);
        assert(names_view(complex@) + names_view(simple@) =~= names_view(complex@) + names_view(
            simple@.take(m as int),
        ));
    }
    out
}

/// What collection contributes for a document's schema namespace, and below
/// for the other two: a document without a components section yields
/// vacuously empty namespaces.
pub open spec fn spec_doc_schemas(doc: Document) -> (Seq<Seq<char>>, Seq<Seq<char>>, Seq<Anomaly>) {
    match doc.components {
        Option::None => crate::collect::empty_contribution(),
        Option::Some(c) => spec_collect_schemas(c.schemas@),
    }
}

pub open spec fn spec_doc_parameters(doc: Document) -> (
    Seq<Seq<char>>,
    Seq<Seq<char>>,
    Seq<Anomaly>,
) {
    match doc.components {
        Option::None => crate::collect::empty_contribution(),
        Option::Some(c) => spec_collect_parameters(c.parameters@),
    }
}

pub open spec fn spec_doc_responses(doc: Document) -> (
    Seq<Seq<char>>,
    Seq<Seq<char>>,
    Seq<Anomaly>,
) {
    match doc.components {
        Option::None => crate::collect::empty_contribution(),
        Option::Some(c) => spec_collect_responses(c.responses@),
    }
}

/// What a whole analysis reports for one namespace: the bucket keys, complex
/// first then simple, never named by the namespace's reference tally.
pub open spec fn spec_report_namespace(
    buckets: (Seq<Seq<char>>, Seq<Seq<char>>, Seq<Anomaly>),
    tally: Seq<Seq<char>>,
) -> Seq<Seq<char>> {
    spec_unused(buckets.1 + buckets.0, tally)
}

/// Within one namespace of an analysis: a component key collected exactly
/// once and never named by the namespace's tally stands exactly once among
/// the reported keys; a key the tally names at least once is never reported,
/// whatever its reference count.
pub proof fn lemma_namespace_report_membership(
    buckets: (Seq<Seq<char>>, Seq<Seq<char>>, Seq<Anomaly>),
    tally: Seq<Seq<char>>,
    k: Seq<char>,
)
    ensures
        (count_key(buckets.1 + buckets.0, k) == 1 && !tally.contains(k)) ==> count_key(
            spec_report_namespace(buckets, tally),
            k,
        ) == 1,
        tally.contains(k) ==> !spec_report_namespace(buckets, tally).contains(k),
{
    lemma_report_membership(buckets.1 + buckets.0, tally, k);
}

/// The analysis result: per namespace the component keys never referenced
/// from the paths, plus the anomaly notes gathered during collection.
pub struct Report {
    pub unused_schemas: Vec<String>,
    pub unused_parameters: Vec<String>,
    pub unused_responses: Vec<String>,
    pub anomalies: Vec<Anomaly>,
}

/// Runs the whole analysis: collects and classifies the component
/// namespaces, walks the paths for references, and reports per namespace
/// every bucket key that no reference named. A document without components
/// or without paths degrades to an empty report, never an error.
pub fn analyze(doc: &Document) -> (r: Report)
    ensures
        names_view(r.unused_schemas@) == spec_report_namespace(
            spec_doc_schemas(*doc),
            spec_walk_paths(doc.paths@).0,
        ),
        names_view(r.unused_parameters@) == spec_report_namespace(
            spec_doc_parameters(*doc),
            spec_walk_paths(doc.paths@).1,
        ),
        names_view(r.unused_responses@) == spec_report_namespace(
            spec_doc_responses(*doc),
            spec_walk_paths(doc.paths@).2,
        ),
        r.anomalies@ == spec_doc_schemas(*doc).2 + spec_doc_parameters(*doc).2
            + spec_doc_responses(*doc).2,
{
    let classification: Classification = match &doc.components {
        Option::Some(c) => collect_components(c),
        Option::None => Classification {
            schemas: crate::collect::Buckets { simple: Vec::new(), complex: Vec::new() },
            parameters: crate::collect::Buckets { simple: Vec::new(), complex: Vec::new() },
            responses: crate::collect::Buckets { simple: Vec::new(), complex: Vec::new() },
            anomalies: Vec::new(),
        },
    };
    let tallies: Tallies = walk_paths(&doc.paths);
    let unused_schemas = unused_keys(
        &classification.schemas.complex,
        &classification.schemas.simple,
        &tallies.schemas,
    );
    let unused_parameters = unused_keys(
        &classification.parameters.complex,
        &classification.parameters.simple,
        &tallies.parameters,
    );
    let unused_responses = unused_keys(
        &classification.responses.complex,
        &classification.responses.simple,
        &tallies.responses,
    );
    proof {
        assert(names_view(Seq::<String>::empty()) =~= Seq::<Seq<char>>::empty());
        assert(names_view(unused_schemas@) =~= spec_report_namespace(
            spec_doc_schemas(*doc),
            spec_walk_paths(doc.paths@).0,
        ));
        assert(names_view(unused_parameters@) =~= spec_report_namespace(
            spec_doc_parameters(*doc),
            spec_walk_paths(doc.paths@).1,
        ));
        assert(names_view(unused_responses@) =~= spec_report_namespace(
            spec_doc_responses(*doc),
            spec_walk_paths(doc.paths@).2,
        ));
        assert(classification.anomalies@ =~= spec_doc_schemas(*doc).2 + spec_doc_parameters(
            *doc,
        ).2 + spec_doc_responses(*doc).2);
    }
    Report {
        unused_schemas,
        unused_parameters,
        unused_responses,
        anomalies: classification.anomalies,
    }
}

} // verus!
