//! Pointer-expression resolution: a pointer is a slash-separated string, and
//! the resolver extracts the component name (last token) and the component
//! kind (second-to-last token).

use vstd::prelude::*;

verus! {

/// Index of the last '/' in `s`, or -1 if `s` holds none.
pub open spec fn last_slash_index(s: Seq<char>) -> int
    decreases s.len(),
{
    if s.len() == 0 {
        -1
    } else if s[s.len() - 1] == '/' {
        s.len() - 1
    } else {
        last_slash_index(s.drop_last())
    }
}

/// `last_slash_index` names the largest index holding '/', or -1 if there is none.
pub proof fn lemma_last_slash_index(s: Seq<char>)
    ensures
        -1 <= last_slash_index(s) < s.len(),
        last_slash_index(s) >= 0 ==> s[last_slash_index(s)] == '/',
        forall|k: int| last_slash_index(s) < k < s.len() ==> s[k] != '/',
    decreases s.len(),
{
    if s.len() == 0 {
    } else if s[s.len() - 1] == '/' {
    } else {
        lemma_last_slash_index(s.drop_last());
        assert forall|k: int| last_slash_index(s) < k < s.len() implies s[k] != '/' by {
            if k < s.len() - 1 {
                assert(s.drop_last()[k] == s[k]);
            }
        }
    }
}

/// The component name a pointer resolves to: everything after the last '/',
/// or the whole string when it holds no '/'.
pub open spec fn spec_ref_name(s: Seq<char>) -> Seq<char> {
    s.subrange(last_slash_index(s) + 1, s.len() as int)
}

/// The component kind a pointer resolves to: the token between the
/// second-to-last and the last '/', or empty when there is no '/'.
pub open spec fn spec_ref_kind(s: Seq<char>) -> Seq<char> {
    let i = last_slash_index(s);
    if i < 0 {
        Seq::empty()
    } else {
        let head = s.subrange(0, i);
        head.subrange(last_slash_index(head) + 1, head.len() as int)
    }
}

/// Splits a pointer expression into (component-name, component-kind): the name
/// is the token after the last '/', the kind the token before it. A string
/// without '/' yields the whole string as the name and an empty kind; this is
/// permissive, never an error.
pub fn parse_reference(reference: &str) -> (r: (&str, &str))
    ensures
        r.0@ == spec_ref_name(reference@),
        r.1@ == spec_ref_kind(reference@),
{
    let ghost s = reference@;
    let n = reference.unicode_len();
    let mut last: Option<usize> = None;
    let mut prev: Option<usize> = None;
    let mut i: usize = 0;
    while i < n
        invariant
            n == s.len(),
            i <= n,
            s == reference@,
            match last {
                Option::None => forall|k: int| 0 <= k < i ==> s[k] != '/',
                Option::Some(l) => l < i && s[l as int] == '/' && (forall|k: int|
                    l < k < i ==> s[k] != '/') && (match prev {
                    Option::None => forall|k: int| 0 <= k < l ==> s[k] != '/',
                    Option::Some(p) => p < l && s[p as int] == '/' && (forall|k: int|
                        p < k < l ==> s[k] != '/'),
                }),
            },
        decreases n - i,
    {
        let c = reference.get_char(i);
        if c == '/' {
            prev = last;
            last = Some(i);
        }
        i = i + 1;
    }
    proof {
        lemma_last_slash_index(s);
    }
    match last {
        None => {
            proof {
                // No '/' anywhere, so the last-slash index is -1.
                if last_slash_index(s) >= 0 {
                    assert(s[last_slash_index(s)] == '/');
                }
                assert(s.subrange(0, s.len() as int) =~= s);
                reveal_strlit("");
                assert(""@ =~= Seq::<char>::empty());
            }
            (reference, "")
        },
        Some(l) => {
            proof {
                if last_slash_index(s) < l {
                    assert(s[l as int] == '/');
                }
                assert(last_slash_index(s) == l);
            }
            let name = reference.substring_char(l + 1, n);
            let ghost head = s.subrange(0, l as int);
            proof {
                lemma_last_slash_index(head);
            }
            let kind = match prev {
                None => {
                    proof {
                        if last_slash_index(head) >= 0 {
                            assert(head[last_slash_index(head)] == '/');
                            assert(s[last_slash_index(head)] == '/');
                        }
                        assert(last_slash_index(head) == -1);
                        assert(s.subrange(0, l as int) =~= head.subrange(
                            0,
                            head.len() as int,
                        ));
                    }
                    reference.substring_char(0, l)
                },
                Some(p) => {
                    proof {
                        if last_slash_index(head) < p {
                            assert(head[p as int] == '/');
                        }
                        if last_slash_index(head) > p {
                            assert(s[last_slash_index(head)] == '/');
                        }
                        assert(last_slash_index(head) == p);
                        assert(s.subrange(p + 1, l as int) =~= head.subrange(
                            p + 1,
                            head.len() as int,
                        ));
                    }
                    reference.substring_char(p + 1, l)
                },
            };
            (name, kind)
        },
    }
}

} // verus!
