//! Path-keyed association sequences.
//!
//! Both the backend's archive and the presentation-side view registry are,
//! mathematically, a sequence of `(path, value)` pairs with pairwise distinct
//! paths, looked up by first match. This module holds that shared theory —
//! the lookup function and the lemmas describing how it behaves under
//! `update`, `push` and `remove` — together with the executable helpers for
//! comparing and copying paths.

use vstd::prelude::*;

verus! {

/// The mathematical form of an entry path: its segments as character sequences.
pub type PathModel = Seq<Seq<char>>;

/// Segment-for-segment equality of two paths.
pub fn path_eq(a: &Vec<String>, b: &Vec<String>) -> (r: bool)
    ensures
        r == (a.deep_view() == b.deep_view()),
{
    if a.len() != b.len() {
        assert(a.deep_view().len() == a@.len());
        assert(b.deep_view().len() == b@.len());
        return false;
    }
    let mut i: usize = 0;
    while i < a.len()
        invariant
            i <= a.len(),
            a.len() == b.len(),
            forall|j: int| 0 <= j < i ==> a.deep_view()[j] == b.deep_view()[j],
        decreases a.len() - i,
    {
        if a[i] != b[i] {
            assert(a.deep_view()[i as int] != b.deep_view()[i as int]);
            return false;
        }
        i = i + 1;
    }
    assert(a.deep_view() =~= b.deep_view());
    true
}

/// A segment-for-segment copy of a path.
pub fn copy_path(p: &Vec<String>) -> (r: Vec<String>)
    ensures
        r.deep_view() == p.deep_view(),
{
    let mut r: Vec<String> = Vec::new();
    let mut i: usize = 0;
    while i < p.len()
        invariant
            i <= p.len(),
            r.len() == i,
            forall|j: int| 0 <= j < i ==> r.deep_view()[j] == p.deep_view()[j],
        decreases p.len() - i,
    {
        r.push(p[i].clone());
        i = i + 1;
    }
    assert(r.deep_view() =~= p.deep_view());
    r
}

/// All keys of the association sequence are pairwise distinct.
pub open spec fn keys_unique<V>(s: Seq<(PathModel, V)>) -> bool {
    forall|i: int, j: int| 0 <= i < j < s.len() ==> s[i].0 != s[j].0
}

/// First-match lookup of `p` in `s`.
pub open spec fn assoc_lookup<V>(s: Seq<(PathModel, V)>, p: PathModel) -> Option<V>
    decreases s.len(),
{
    if s.len() == 0 {
        None
    } else if s[0].0 == p {
        Some(s[0].1)
    } else {
        assoc_lookup(s.drop_first(), p)
    }
}

/// If `s[i]` carries key `p` and no earlier pair does, the lookup finds `s[i]`.
pub proof fn lemma_lookup_match<V>(s: Seq<(PathModel, V)>, p: PathModel, i: int)
    requires
        0 <= i < s.len(),
        s[i].0 == p,
        forall|j: int| 0 <= j < i ==> s[j].0 != p,
    ensures
        assoc_lookup(s, p) == Some(s[i].1),
    decreases s.len(),
{
    if i > 0 {
        assert(s[0].0 != p);
        let t = s.drop_first();
        assert(t[i - 1] == s[i]);
        assert forall|j: int| 0 <= j < i - 1 implies t[j].0 != p by {
            assert(t[j] == s[j + 1]);
        }
        lemma_lookup_match(t, p, i - 1);
    }
}

/// If no pair of `s` carries key `p`, the lookup fails.
pub proof fn lemma_lookup_none<V>(s: Seq<(PathModel, V)>, p: PathModel)
    requires
        forall|j: int| 0 <= j < s.len() ==> s[j].0 != p,
    ensures
        assoc_lookup(s, p) == None::<V>,
    decreases s.len(),
{
    if s.len() > 0 {
        let t = s.drop_first();
        assert forall|j: int| 0 <= j < t.len() implies t[j].0 != p by {
            assert(t[j] == s[j + 1]);
        }
        lemma_lookup_none(t, p);
    }
}

/// Replacing the value stored under `p` changes that lookup and no other.
pub proof fn lemma_lookup_update<V>(s: Seq<(PathModel, V)>, i: int, p: PathModel, v: V)
    requires
        keys_unique(s),
        0 <= i < s.len(),
        s[i].0 == p,
    ensures
        keys_unique(s.update(i, (p, v))),
        assoc_lookup(s.update(i, (p, v)), p) == Some(v),
        forall|q: PathModel| q != p ==> assoc_lookup(s.update(i, (p, v)), q) == assoc_lookup(s, q),
    decreases s.len(),
{
    let t = s.update(i, (p, v));
    assert(forall|k: int| 0 <= k < s.len() ==> t[k].0 == s[k].0);
    if i == 0 {
        assert(t.drop_first() =~= s.drop_first());
        assert forall|q: PathModel| q != p implies assoc_lookup(t, q) == assoc_lookup(s, q) by {
            assert(t[0].0 == p);
            assert(s[0].0 == p);
        }
    } else {
        let sd = s.drop_first();
        let td = t.drop_first();
        assert forall|a: int, b: int| 0 <= a < b < sd.len() implies sd[a].0 != sd[b].0 by {
            assert(sd[a] == s[a + 1]);
            assert(sd[b] == s[b + 1]);
        }
        assert(sd[i - 1] == s[i]);
        lemma_lookup_update(sd, i - 1, p, v);
        assert(td =~= sd.update(i - 1, (p, v)));
        assert(s[0].0 != p);
        assert(t[0] == s[0]);
        assert forall|q: PathModel| q != p implies assoc_lookup(t, q) == assoc_lookup(s, q) by {
            if t[0].0 != q {
                assert(assoc_lookup(td, q) == assoc_lookup(sd, q));
            }
        }
    }
}

/// Appending a pair under a fresh key adds that lookup and changes no other.
pub proof fn lemma_lookup_push<V>(s: Seq<(PathModel, V)>, p: PathModel, v: V)
    requires
        forall|j: int| 0 <= j < s.len() ==> s[j].0 != p,
    ensures
        assoc_lookup(s.push((p, v)), p) == Some(v),
        forall|q: PathModel| q != p ==> assoc_lookup(s.push((p, v)), q) == assoc_lookup(s, q),
        keys_unique(s) ==> keys_unique(s.push((p, v))),
    decreases s.len(),
{
    let t = s.push((p, v));
    if s.len() == 0 {
        assert(t[0] == (p, v));
        assert(t.drop_first() =~= Seq::<(PathModel, V)>::empty());
        assert forall|q: PathModel| q != p implies assoc_lookup(t, q) == assoc_lookup(s, q) by {
            assert(assoc_lookup(t.drop_first(), q) == None::<V>);
        }
    } else {
        let sd = s.drop_first();
        assert forall|j: int| 0 <= j < sd.len() implies sd[j].0 != p by {
            assert(sd[j] == s[j + 1]);
        }
        lemma_lookup_push(sd, p, v);
        assert(t[0] == s[0]);
        assert(t.drop_first() =~= sd.push((p, v)));
        assert forall|q: PathModel| q != p implies assoc_lookup(t, q) == assoc_lookup(s, q) by {
            if t[0].0 != q {
                assert(assoc_lookup(t.drop_first(), q) == assoc_lookup(sd, q));
            }
        }
    }
}

/// A successful lookup returns a pair that stands in the sequence.
pub proof fn lemma_lookup_is_entry<V>(s: Seq<(PathModel, V)>, p: PathModel, v: V)
    requires
        assoc_lookup(s, p) == Some(v),
    ensures
        exists|i: int| 0 <= i < s.len() && s[i] == (p, v),
    decreases s.len(),
{
    if s[0].0 == p {
        assert(s[0] == (p, v));
    } else {
        lemma_lookup_is_entry(s.drop_first(), p, v);
        let i = choose|i: int| 0 <= i < s.drop_first().len() && s.drop_first()[i] == (p, v);
        assert(s[i + 1] == (p, v));
    }
}

/// Removing the pair at `i` drops that lookup and changes no other.
pub proof fn lemma_lookup_remove<V>(s: Seq<(PathModel, V)>, i: int)
    requires
        keys_unique(s),
        0 <= i < s.len(),
    ensures
        keys_unique(s.remove(i)),
        assoc_lookup(s.remove(i), s[i].0) == None::<V>,
        forall|q: PathModel| q != s[i].0 ==> assoc_lookup(s.remove(i), q) == assoc_lookup(s, q),
    decreases s.len(),
{
    let t = s.remove(i);
    assert(forall|k: int| 0 <= k < i ==> t[k] == s[k]);
    assert(forall|k: int| i <= k < t.len() ==> t[k] == s[k + 1]);
    if i == 0 {
        assert(t =~= s.drop_first());
        assert forall|j: int| 0 <= j < t.len() implies t[j].0 != s[0].0 by {
            assert(t[j] == s[j + 1]);
        }
        lemma_lookup_none(t, s[0].0);
        assert forall|q: PathModel| q != s[0].0 implies assoc_lookup(t, q) == assoc_lookup(s, q) by {
            assert(assoc_lookup(s, q) == assoc_lookup(s.drop_first(), q));
        }
    } else {
        let sd = s.drop_first();
        assert forall|a: int, b: int| 0 <= a < b < sd.len() implies sd[a].0 != sd[b].0 by {
            assert(sd[a] == s[a + 1]);
            assert(sd[b] == s[b + 1]);
        }
        assert(sd[i - 1] == s[i]);
        lemma_lookup_remove(sd, i - 1);
        assert(t[0] == s[0]);
        assert(t.drop_first() =~= sd.remove(i - 1));
        assert(s[0].0 != s[i].0);
        assert forall|q: PathModel| q != s[i].0 implies assoc_lookup(t, q) == assoc_lookup(s, q) by {
            if t[0].0 != q {
                assert(assoc_lookup(t.drop_first(), q) == assoc_lookup(sd, q));
            }
        }
    }
}

} // verus!
