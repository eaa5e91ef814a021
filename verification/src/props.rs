//! Ordered property lists: insertion-ordered key-value pairs with
//! last-write-wins upserts, and the namespace prefixing applied when a
//! property map is rendered into query parameters.
use vstd::prelude::*;

verus! {

use crate::query::pairs_view;
use vstd::string::StringExecFns;
use vstd::string::StrSliceExecFns;

// ---------------------------------------------------------------------------
// Upserting into an ordered property list
// ---------------------------------------------------------------------------
/// Sets `k` to `v` in the list: the first entry with key `k` is replaced in
/// place, and a fresh pair is appended when no entry has that key.
pub open spec fn upsert(
    s: Seq<(Seq<char>, Seq<char>)>,
    k: Seq<char>,
    v: Seq<char>,
) -> Seq<(Seq<char>, Seq<char>)>
    decreases s.len(),
{
    if s.len() == 0 {
        seq![(k, v)]
    } else if s[0].0 == k {
        seq![(k, v)] + s.drop_first()
    } else {
        seq![s[0]] + upsert(s.drop_first(), k, v)
    }
}

/// Upserts every pair of `ps` into `s`, in order.
pub open spec fn upsert_all(
    s: Seq<(Seq<char>, Seq<char>)>,
    ps: Seq<(Seq<char>, Seq<char>)>,
) -> Seq<(Seq<char>, Seq<char>)>
    decreases ps.len(),
{
    if ps.len() == 0 {
        s
    } else {
        upsert(upsert_all(s, ps.drop_last()), ps.last().0, ps.last().1)
    }
}

/// True when some entry of the list has key `k`.
pub open spec fn has_key(s: Seq<(Seq<char>, Seq<char>)>, k: Seq<char>) -> bool {
    exists|j: int| 0 <= j < s.len() && (#[trigger] s[j]).0 == k
}

/// True when no two entries of the list share a key.
pub open spec fn unique_keys(s: Seq<(Seq<char>, Seq<char>)>) -> bool {
    forall|i: int, j: int| 0 <= i < j < s.len() ==> (#[trigger] s[i]).0 != (#[trigger] s[j]).0
}

/// An upsert introduces no key but `k`, and keeps distinct keys distinct.
pub proof fn lemma_upsert_keys(s: Seq<(Seq<char>, Seq<char>)>, k: Seq<char>, v: Seq<char>)
    ensures
        forall|i: int|
            0 <= i < upsert(s, k, v).len() ==> ((#[trigger] upsert(s, k, v)[i]).0 == k || has_key(
                s,
                upsert(s, k, v)[i].0,
            )),
        unique_keys(s) ==> unique_keys(upsert(s, k, v)),
    decreases s.len(),
{
    let u = upsert(s, k, v);
    if s.len() == 0 {
        assert(u =~= seq![(k, v)]);
    } else if s[0].0 == k {
        assert(u =~= seq![(k, v)] + s.drop_first());
        assert forall|i: int| 0 <= i < u.len() implies ((#[trigger] u[i]).0 == k || has_key(
            s,
            u[i].0,
        )) by {
            if i > 0 {
                assert(u[i] == s[i]);
            }
        }
        if unique_keys(s) {
            assert forall|i: int, j: int| 0 <= i < j < u.len() implies (#[trigger] u[i]).0 != (
            #[trigger] u[j]).0 by {
                assert(u[j] == s[j]);
                if i > 0 {
                    assert(u[i] == s[i]);
                } else {
                    assert(u[0].0 == s[0].0);
                }
            }
        }
    } else {
        lemma_upsert_keys(s.drop_first(), k, v);
        let rest = upsert(s.drop_first(), k, v);
        assert(u =~= seq![s[0]] + rest);
        assert forall|i: int| 0 <= i < u.len() implies ((#[trigger] u[i]).0 == k || has_key(
            s,
            u[i].0,
        )) by {
            if i == 0 {
                assert(s[0].0 == u[0].0);
                assert(has_key(s, u[0].0));
            } else {
                assert(u[i] == rest[i - 1]);
                if rest[i - 1].0 != k {
                    let r0 = rest[i - 1].0;
                    let j = choose|j: int|
                        0 <= j < s.drop_first().len() && (#[trigger] s.drop_first()[j]).0 == r0;
                    assert(s[j + 1].0 == r0);
                }
            }
        }
        if unique_keys(s) {
            assert forall|i: int, j: int|
                0 <= i < j < s.drop_first().len() implies (#[trigger] s.drop_first()[i]).0 != (
            #[trigger] s.drop_first()[j]).0 by {
                assert(s.drop_first()[i] == s[i + 1]);
                assert(s.drop_first()[j] == s[j + 1]);
            }
            assert(unique_keys(s.drop_first()));
            assert forall|i: int, j: int| 0 <= i < j < u.len() implies (#[trigger] u[i]).0 != (
            #[trigger] u[j]).0 by {
                if i == 0 {
                    assert(u[j] == rest[j - 1]);
                    if rest[j - 1].0 == k {
                    } else {
                        let m = choose|m: int|
                            0 <= m < s.drop_first().len() && (#[trigger] s.drop_first()[m]).0
                                == rest[j - 1].0;
                        assert(s[m + 1].0 == rest[j - 1].0);
                    }
                } else {
                    assert(u[i] == rest[i - 1]);
                    assert(u[j] == rest[j - 1]);
                }
            }
        }
    }
}

/// Upserting a whole list keeps distinct keys distinct.
pub proof fn lemma_upsert_all_unique(
    s: Seq<(Seq<char>, Seq<char>)>,
    ps: Seq<(Seq<char>, Seq<char>)>,
)
    ensures
        unique_keys(s) ==> unique_keys(upsert_all(s, ps)),
    decreases ps.len(),
{
    if ps.len() > 0 {
        lemma_upsert_all_unique(s, ps.drop_last());
        lemma_upsert_keys(upsert_all(s, ps.drop_last()), ps.last().0, ps.last().1);
    }
}

/// An upsert never empties the list and never moves its first key.
pub proof fn lemma_upsert_first(s: Seq<(Seq<char>, Seq<char>)>, k: Seq<char>, v: Seq<char>)
    ensures
        upsert(s, k, v).len() > 0,
        s.len() > 0 ==> upsert(s, k, v)[0].0 == s[0].0,
{
}

/// Upserting a whole list never empties the list and never moves its first
/// key.
pub proof fn lemma_upsert_all_first(
    s: Seq<(Seq<char>, Seq<char>)>,
    ps: Seq<(Seq<char>, Seq<char>)>,
)
    ensures
        s.len() > 0 ==> upsert_all(s, ps).len() > 0 && upsert_all(s, ps)[0].0 == s[0].0,
    decreases ps.len(),
{
    if ps.len() > 0 {
        lemma_upsert_all_first(s, ps.drop_last());
        lemma_upsert_first(upsert_all(s, ps.drop_last()), ps.last().0, ps.last().1);
    }
}

proof fn lemma_upsert_found(s: Seq<(Seq<char>, Seq<char>)>, k: Seq<char>, v: Seq<char>, i: int)
    requires
        0 <= i < s.len(),
        s[i].0 == k,
        forall|j: int| 0 <= j < i ==> s[j].0 != k,
    ensures
        upsert(s, k, v) == s.update(i, (k, v)),
    decreases i,
{
    if i == 0 {
        assert(upsert(s, k, v) =~= s.update(0, (k, v)));
    } else {
        lemma_upsert_found(s.drop_first(), k, v, i - 1);
        assert(s.drop_first().update(i - 1, (k, v)) =~= s.update(i, (k, v)).drop_first());
        assert(upsert(s, k, v) =~= s.update(i, (k, v)));
    }
}

proof fn lemma_upsert_absent(s: Seq<(Seq<char>, Seq<char>)>, k: Seq<char>, v: Seq<char>)
    requires
        forall|j: int| 0 <= j < s.len() ==> s[j].0 != k,
    ensures
        upsert(s, k, v) == s.push((k, v)),
    decreases s.len(),
{
    if s.len() == 0 {
        assert(upsert(s, k, v) =~= s.push((k, v)));
    } else {
        lemma_upsert_absent(s.drop_first(), k, v);
        assert(s.drop_first().push((k, v)) =~= s.push((k, v)).drop_first());
        assert(upsert(s, k, v) =~= s.push((k, v)));
    }
}

/// Sets `key` to `value` in the property list, replacing the first entry with
/// that key in place or appending a fresh entry.
pub fn upsert_prop(props: &mut Vec<(String, String)>, key: String, value: String)
    ensures
        pairs_view(final(props)@) == upsert(pairs_view(old(props)@), key@, value@),
{
    let ghost k = key@;
    let ghost v = value@;
    let mut i: usize = 0;
    while i < props.len()
        invariant
            i <= props.len(),
            props@ == old(props)@,
            k == key@,
            v == value@,
            forall|j: int| 0 <= j < i ==> pairs_view(props@)[j].0 != k,
        decreases props.len() - i,
    {
        if props[i].0 == key {
            props[i] = (key, value);
            proof {
                lemma_upsert_found(pairs_view(old(props)@), k, v, i as int);
                assert(pairs_view(props@) =~= pairs_view(old(props)@).update(i as int, (k, v)));
            }
            return ;
        }
        i += 1;
    }
    props.push((key, value));
    proof {
        lemma_upsert_absent(pairs_view(old(props)@), k, v);
        assert(pairs_view(props@) =~= pairs_view(old(props)@).push((k, v)));
    }
}

/// Upserts every pair of `adds` into `props`, in order.
pub fn upsert_all_props(props: &mut Vec<(String, String)>, adds: &Vec<(String, String)>)
    ensures
        pairs_view(final(props)@) == upsert_all(pairs_view(old(props)@), pairs_view(adds@)),
{
    let mut i: usize = 0;
    while i < adds.len()
        invariant
            i <= adds.len(),
            pairs_view(props@) == upsert_all(
                pairs_view(old(props)@),
                pairs_view(adds@).subrange(0, i as int),
            ),
        decreases adds.len() - i,
    {
        upsert_prop(props, adds[i].0.clone(), adds[i].1.clone());
        proof {
            let all = pairs_view(adds@);
            let pre = all.subrange(0, i + 1);
            assert(pre.drop_last() =~= all.subrange(0, i as int));
            assert(pre.last() == (adds@[i as int].0@, adds@[i as int].1@));
        }
        i += 1;
    }
    proof {
        assert(pairs_view(adds@).subrange(0, adds@.len() as int) =~= pairs_view(adds@));
    }
}

// ---------------------------------------------------------------------------
// Namespace prefixing
// ---------------------------------------------------------------------------
/// A key under its namespace tag: the tag is prepended unless the key already
/// begins with that exact tag, so prefixing is idempotent.
pub open spec fn tag_key(tag: Seq<char>, k: Seq<char>) -> Seq<char> {
    if k.len() >= tag.len() && k.subrange(0, tag.len() as int) == tag {
        k
    } else {
        tag + k
    }
}

/// A whole property list under its namespace tag.
pub open spec fn tag_pairs(
    tag: Seq<char>,
    s: Seq<(Seq<char>, Seq<char>)>,
) -> Seq<(Seq<char>, Seq<char>)> {
    s.map_values(|p: (Seq<char>, Seq<char>)| (tag_key(tag, p.0), p.1))
}

/// True when `s` begins with the characters of `tag`.
fn has_prefix(s: &str, tag: &str) -> (r: bool)
    ensures
        r == (s@.len() >= tag@.len() && s@.subrange(0, tag@.len() as int) == tag@),
{
    let n = tag.unicode_len();
    let m = s.unicode_len();
    if m < n {
        return false;
    }
    let mut i: usize = 0;
    while i < n
        invariant
            i <= n,
            n == tag@.len(),
            n <= s@.len(),
            forall|j: int| 0 <= j < i ==> s@[j] == tag@[j],
        decreases n - i,
    {
        if s.get_char(i) != tag.get_char(i) {
            proof {
                assert(s@.subrange(0, n as int)[i as int] == s@[i as int]);
            }
            return false;
        }
        i += 1;
    }
    proof {
        assert(s@.subrange(0, n as int) =~= tag@);
    }
    true
}

/// Renders a property list into query parameters for one namespace: each key
/// carries the tag, added only where it is not already present, and is
/// upserted into the output, so every rendered key appears exactly once and
/// two raw keys that collide after tagging are last-write-wins.
fn append_tagged(out: &mut Vec<(String, String)>, tag: &str, props: &Vec<(String, String)>)
    ensures
        pairs_view(final(out)@) == upsert_all(
            pairs_view(old(out)@),
            tag_pairs(tag@, pairs_view(props@)),
        ),
{
    let mut i: usize = 0;
    while i < props.len()
        invariant
            i <= props.len(),
            pairs_view(out@) == upsert_all(
                pairs_view(old(out)@),
                tag_pairs(tag@, pairs_view(props@).subrange(0, i as int)),
            ),
        decreases props.len() - i,
    {
        let key = if has_prefix(props[i].0.as_str(), tag) {
            props[i].0.clone()
        } else {
            let mut prefixed = String::from_str(tag);
            prefixed.append(props[i].0.as_str());
            prefixed
        };
        proof {
            assert(key@ == tag_key(tag@, props@[i as int].0@));
        }
        upsert_prop(out, key, props[i].1.clone());
        proof {
            let all = pairs_view(props@);
            let pre = tag_pairs(tag@, all.subrange(0, i + 1));
            assert(pre.drop_last() =~= tag_pairs(tag@, all.subrange(0, i as int)));
            assert(pre.last() == (tag_key(tag@, props@[i as int].0@), props@[i as int].1@));
            assert(pairs_view(out@) == upsert_all(pairs_view(old(out)@), pre));
        }
        i += 1;
    }
    proof {
        assert(pairs_view(props@).subrange(0, props@.len() as int) =~= pairs_view(props@));
    }
}

/// Renders the visitor-namespace property list into the output, each key
/// under the `cv_` tag, each key at most once.
pub fn serialize_cv_prefixed(out: &mut Vec<(String, String)>, props: &Vec<(String, String)>)
    ensures
        pairs_view(final(out)@) == upsert_all(
            pairs_view(old(out)@),
            tag_pairs("cv_"@, pairs_view(props@)),
        ),
{
    append_tagged(out, "cv_", props);
}

/// Renders the event-namespace property list into the output, each key under
/// the `ce_` tag, each key at most once.
pub fn serialize_ce_prefixed(out: &mut Vec<(String, String)>, props: &Vec<(String, String)>)
    ensures
        pairs_view(final(out)@) == upsert_all(
            pairs_view(old(out)@),
            tag_pairs("ce_"@, pairs_view(props@)),
        ),
{
    append_tagged(out, "ce_", props);
}

/// Renders the session-namespace property list into the output, each key
/// under the `cs_` tag, each key at most once.
pub fn serialize_cs_prefixed(out: &mut Vec<(String, String)>, props: &Vec<(String, String)>)
    ensures
        pairs_view(final(out)@) == upsert_all(
            pairs_view(old(out)@),
            tag_pairs("cs_"@, pairs_view(props@)),
        ),
{
    append_tagged(out, "cs_", props);
}

// ---------------------------------------------------------------------------
// Page-property key sanitizing
// ---------------------------------------------------------------------------
/// A page-property key with every space turned into an underscore.
pub open spec fn sanitize_key(k: Seq<char>) -> Seq<char> {
    k.map_values(|c: char| if c == ' ' { '_' } else { c })
}

/// Replaces every space in the key with an underscore.
pub fn sanitize(s: &str) -> (r: String)
    ensures
        r@ == sanitize_key(s@),
{
    let n = s.unicode_len();
    let mut r = String::new();
    let mut i: usize = 0;
    while i < n
        invariant
            i <= n,
            n == s@.len(),
            r@ == sanitize_key(s@.subrange(0, i as int)),
        decreases n - i,
    {
        let c = s.get_char(i);
        if c == ' ' {
            r.push('_');
        } else {
            r.push(c);
        }
        proof {
            assert(r@ =~= sanitize_key(s@.subrange(0, i + 1)));
        }
        i += 1;
    }
    proof {
        assert(s@.subrange(0, s@.len() as int) =~= s@);
    }
    r
}

} // verus!
