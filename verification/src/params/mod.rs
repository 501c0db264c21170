//! Request parameters: ordered lists of form fields, and maps with one value
//! per key.
pub mod credential;
pub mod gateway_login;
pub mod gateway_prelogin;
pub mod portal_getconfig;
pub mod portal_prelogin;

use vstd::prelude::*;

use crate::text::str_eq;

verus! {

broadcast use vstd::string::group_string_axioms;

/// The abstract form of a parameter list: its key/value pairs in order.
pub type Pairs = Seq<(Seq<char>, Seq<char>)>;

/// Ordered request parameters split into the form body and the query
/// string. Order is kept: some servers are sensitive to it.
#[derive(Debug)]
pub struct RequestParams {
    pub body: Vec<(String, String)>,
    pub query: Vec<(String, String)>,
}

/// Appends one key/value pair.
pub fn push_param(params: &mut Vec<(String, String)>, key: &str, value: &str)
    ensures
        final(params).deep_view() == old(params).deep_view().push((key@, value@)),
{
    let ghost before = params.deep_view();
    params.push((key.to_string(), value.to_string()));
    assert(params.deep_view() =~= before.push((key@, value@)));
}

/// Appends all pairs of `more`.
pub fn extend_params(params: &mut Vec<(String, String)>, more: Vec<(String, String)>)
    ensures
        final(params).deep_view() == old(params).deep_view() + more.deep_view(),
{
    let ghost before = params.deep_view();
    let mut i: usize = 0;
    let mut more = more;
    let ghost all = more.deep_view();
    let mut rest: Vec<(String, String)> = Vec::new();
    while i < more.len()
        invariant
            i <= more.len(),
            more.deep_view() == all,
            params.deep_view() == before + all.take(i as int),
        decreases more.len() - i,
    {
        let (k, v) = (more[i].0.clone(), more[i].1.clone());
        let ghost p = params.deep_view();
        params.push((k, v));
        assert(params.deep_view() =~= p.push(all[i as int]));
        assert(all.take(i + 1) =~= all.take(i as int).push(all[i as int]));
        i += 1;
    }
    assert(all.take(more.len() as int) =~= all);
}

/// The first position of `key` in `pairs`.
pub open spec fn first_key_index(pairs: Pairs, key: Seq<char>, i: int) -> bool {
    0 <= i < pairs.len() && pairs[i].0 == key && forall|j: int| 0 <= j < i ==> (#[trigger] pairs[j]).0 != key
}

/// The value of the first `key`, set to `value`; the pair appended when
/// `key` is absent.
pub open spec fn set_param(pairs: Pairs, key: Seq<char>, value: Seq<char>) -> Pairs {
    if exists|i: int| first_key_index(pairs, key, i) {
        let i = choose|i: int| first_key_index(pairs, key, i);
        pairs.update(i, (key, value))
    } else {
        pairs.push((key, value))
    }
}

/// The value of the first pair with `key`.
pub open spec fn param_value(pairs: Pairs, key: Seq<char>) -> Option<Seq<char>> {
    if exists|i: int| first_key_index(pairs, key, i) {
        Some(pairs[choose|i: int| first_key_index(pairs, key, i)].1)
    } else {
        None
    }
}

/// Sets the value of the first `key`, or appends the pair.
pub fn set_body_param(params: &mut Vec<(String, String)>, key: &str, value: &str)
    ensures
        final(params).deep_view() == set_param(old(params).deep_view(), key@, value@),
{
    let ghost before = params.deep_view();
    let mut i: usize = 0;
    while i < params.len()
        invariant
            i <= params.len(),
            params.deep_view() == before,
            before == old(params).deep_view(),
            forall|j: int| 0 <= j < i ==> (#[trigger] before[j]).0 != key@,
        decreases params.len() - i,
    {
        if str_eq(params[i].0.as_str(), key) {
            assert(first_key_index(before, key@, i as int));
            proof {
                let k = choose|k: int| first_key_index(before, key@, k);
                if k < i {
                    assert(before[k].0 != key@);
                } else if k > i {
                    assert(before[i as int].0 != key@);
                }
                assert(k == i);
            }
            assert(set_param(before, key@, value@) == before.update(i as int, (key@, value@)));
            params.set(i, (key.to_string(), value.to_string()));
            assert(params.deep_view() =~= before.update(i as int, (key@, value@)));
            return;
        }
        i += 1;
    }
    assert(!exists|k: int| first_key_index(before, key@, k)) by {
        if exists|k: int| first_key_index(before, key@, k) {
            let k = choose|k: int| first_key_index(before, key@, k);
            assert(before[k].0 != key@);
        }
    }
    push_param(params, key, value);
}

/// The value of the first pair with `key`.
pub fn find_param<'a>(params: &'a Vec<(String, String)>, key: &str) -> (r: Option<&'a str>)
    ensures
        match r {
            Some(v) => param_value(params.deep_view(), key@) == Some(v@),
            None => param_value(params.deep_view(), key@) is None,
        },
{
    let ghost pv = params.deep_view();
    let mut i: usize = 0;
    while i < params.len()
        invariant
            i <= params.len(),
            pv == params.deep_view(),
            forall|j: int| 0 <= j < i ==> (#[trigger] pv[j]).0 != key@,
        decreases params.len() - i,
    {
        if str_eq(params[i].0.as_str(), key) {
            assert(first_key_index(pv, key@, i as int));
            proof {
                let k = choose|k: int| first_key_index(pv, key@, k);
                if k < i {
                    assert(pv[k].0 != key@);
                } else if k > i {
                    assert(pv[i as int].0 != key@);
                }
            }
            return Some(params[i].1.as_str());
        }
        i += 1;
    }
    assert(!exists|k: int| first_key_index(pv, key@, k)) by {
        if exists|k: int| first_key_index(pv, key@, k) {
            let k = choose|k: int| first_key_index(pv, key@, k);
            assert(pv[k].0 != key@);
        }
    }
    None
}

/// Keys that occur once each.
pub open spec fn keys_unique(pairs: Pairs) -> bool {
    forall|i: int, j: int| 0 <= i < j < pairs.len() ==> (#[trigger] pairs[i]).0 != (#[trigger] pairs[j]).0
}

/// The map that pairs with unique keys describe.
pub open spec fn pairs_map(pairs: Pairs) -> Map<Seq<char>, Seq<char>> {
    Map::new(
        |k: Seq<char>| exists|i: int| 0 <= i < pairs.len() && (#[trigger] pairs[i]).0 == k,
        |k: Seq<char>| pairs[choose|i: int| 0 <= i < pairs.len() && (#[trigger] pairs[i]).0 == k].1,
    )
}

/// Parameters with one value per key, in the order the keys were first set.
#[derive(Debug)]
pub struct ParamMap {
    entries: Vec<(String, String)>,
}

impl ParamMap {
    #[verifier::type_invariant]
    closed spec fn wf(self) -> bool {
        keys_unique(self.entries.deep_view())
    }

    /// The pairs in order.
    pub closed spec fn pairs(self) -> Pairs {
        self.entries.deep_view()
    }
}

impl View for ParamMap {
    type V = Map<Seq<char>, Seq<char>>;

    closed spec fn view(&self) -> Map<Seq<char>, Seq<char>> {
        pairs_map(self.entries.deep_view())
    }
}

/// Setting one key in a list of pairs with unique keys sets it in the map
/// they describe, and keeps the keys unique.
proof fn lemma_set_param_map(pairs: Pairs, key: Seq<char>, value: Seq<char>)
    requires
        keys_unique(pairs),
    ensures
        keys_unique(set_param(pairs, key, value)),
        pairs_map(set_param(pairs, key, value)) == pairs_map(pairs).insert(key, value),
{
    let after = set_param(pairs, key, value);
    if exists|i: int| first_key_index(pairs, key, i) {
        let i = choose|i: int| first_key_index(pairs, key, i);
        assert(after == pairs.update(i, (key, value)));
        assert forall|a: int, b: int| 0 <= a < b < after.len() implies (#[trigger] after[a]).0 != (#[trigger] after[b]).0 by {
            assert(pairs[a].0 == after[a].0);
            assert(pairs[b].0 == after[b].0);
        }
        assert forall|k: Seq<char>| #[trigger] pairs_map(after).contains_key(k) == pairs_map(pairs).insert(key, value).contains_key(k) by {
            if pairs_map(pairs).insert(key, value).contains_key(k) {
                if k == key {
                    assert(after[i].0 == k);
                } else {
                    let j = choose|j: int| 0 <= j < pairs.len() && (#[trigger] pairs[j]).0 == k;
                    assert(after[j].0 == k);
                }
            }
            if pairs_map(after).contains_key(k) {
                let j = choose|j: int| 0 <= j < after.len() && (#[trigger] after[j]).0 == k;
                if k != key {
                    assert(pairs[j].0 == k);
                }
            }
        }
        assert forall|k: Seq<char>| #[trigger] pairs_map(after).contains_key(k) implies pairs_map(after)[k] == pairs_map(pairs).insert(key, value)[k] by {
            let j = choose|j: int| 0 <= j < after.len() && (#[trigger] after[j]).0 == k;
            if k == key {
                assert(j == i);
            } else {
                let j0 = choose|j0: int| 0 <= j0 < pairs.len() && (#[trigger] pairs[j0]).0 == k;
                assert(pairs[j].0 == k);
                assert(j == j0);
            }
        }
        assert(pairs_map(after) =~= pairs_map(pairs).insert(key, value));
    } else {
        assert(after == pairs.push((key, value)));
        assert forall|j: int| 0 <= j < pairs.len() implies (#[trigger] pairs[j]).0 != key by {
            if pairs[j].0 == key {
                lemma_first_key_exists(pairs, key, j);
            }
        }
        assert forall|a: int, b: int| 0 <= a < b < after.len() implies (#[trigger] after[a]).0 != (#[trigger] after[b]).0 by {
            if b == pairs.len() {
                assert(after[a] == pairs[a]);
            } else {
                assert(after[a] == pairs[a]);
                assert(after[b] == pairs[b]);
            }
        }
        assert forall|k: Seq<char>| #[trigger] pairs_map(after).contains_key(k) == pairs_map(pairs).insert(key, value).contains_key(k) by {
            if pairs_map(pairs).insert(key, value).contains_key(k) {
                if k == key {
                    assert(after[pairs.len() as int].0 == k);
                } else {
                    let j = choose|j: int| 0 <= j < pairs.len() && (#[trigger] pairs[j]).0 == k;
                    assert(after[j].0 == k);
                }
            }
            if pairs_map(after).contains_key(k) {
                let j = choose|j: int| 0 <= j < after.len() && (#[trigger] after[j]).0 == k;
                if k != key {
                    assert(j < pairs.len());
                    assert(pairs[j].0 == k);
                }
            }
        }
        assert forall|k: Seq<char>| #[trigger] pairs_map(after).contains_key(k) implies pairs_map(after)[k] == pairs_map(pairs).insert(key, value)[k] by {
            let j = choose|j: int| 0 <= j < after.len() && (#[trigger] after[j]).0 == k;
            if k == key {
                assert(j == pairs.len());
            } else {
                let j0 = choose|j0: int| 0 <= j0 < pairs.len() && (#[trigger] pairs[j0]).0 == k;
                assert(j < pairs.len());
                assert(after[j] == pairs[j]);
                assert(j == j0);
            }
        }
        assert(pairs_map(after) =~= pairs_map(pairs).insert(key, value));
    }
}

/// A key that occurs has a first occurrence.
proof fn lemma_first_key_exists(pairs: Pairs, key: Seq<char>, j: int)
    requires
        0 <= j < pairs.len(),
        pairs[j].0 == key,
    ensures
        exists|m: int| first_key_index(pairs, key, m),
    decreases j,
{
    if exists|n: int| 0 <= n < j && pairs[n].0 == key {
        let n = choose|n: int| 0 <= n < j && pairs[n].0 == key;
        lemma_first_key_exists(pairs, key, n);
    } else {
        assert(first_key_index(pairs, key, j));
    }
}

impl ParamMap {
    pub fn new() -> (r: Self)
        ensures
            r@ == Map::<Seq<char>, Seq<char>>::empty(),
            r.pairs() == Seq::<(Seq<char>, Seq<char>)>::empty(),
    {
        let r = ParamMap { entries: Vec::new() };
        assert(r.entries.deep_view() =~= Seq::<(Seq<char>, Seq<char>)>::empty());
        assert(r@ =~= Map::<Seq<char>, Seq<char>>::empty());
        r
    }

    /// Sets `key` to `value`: a key already set keeps its place.
    pub fn insert(&mut self, key: &str, value: &str)
        ensures
            final(self)@ == old(self)@.insert(key@, value@),
            final(self).pairs() == set_param(old(self).pairs(), key@, value@),
    {
        proof {
            use_type_invariant(&*self);
        }
        let mut entries = Vec::new();
        std::mem::swap(&mut entries, &mut self.entries);
        let ghost before = entries.deep_view();
        set_body_param(&mut entries, key, value);
        proof {
            lemma_set_param_map(before, key@, value@);
        }
        self.entries = entries;
    }

    /// The value of `key`.
    pub fn get(&self, key: &str) -> (r: Option<&String>)
        ensures
            match r {
                Some(v) => self@.contains_key(key@) && self@[key@] == v@,
                None => !self@.contains_key(key@),
            },
    {
        proof {
            use_type_invariant(self);
        }
        let ghost pv = self.entries.deep_view();
        let mut i: usize = 0;
        while i < self.entries.len()
            invariant
                i <= self.entries.len(),
                pv == self.entries.deep_view(),
                keys_unique(pv),
                forall|j: int| 0 <= j < i ==> (#[trigger] pv[j]).0 != key@,
            decreases self.entries.len() - i,
        {
            if str_eq(self.entries[i].0.as_str(), key) {
                proof {
                    assert(pv[i as int].0 == key@);
                    let j = choose|j: int| 0 <= j < pv.len() && (#[trigger] pv[j]).0 == key@;
                    if j != i as int {
                        assert(pv[j].0 == pv[i as int].0);
                    }
                }
                return Some(&self.entries[i].1);
            }
            i += 1;
        }
        None
    }

    pub fn contains_key(&self, key: &str) -> (r: bool)
        ensures
            r == self@.contains_key(key@),
    {
        match self.get(key) {
            Some(_) => true,
            None => false,
        }
    }

    /// The pairs in the order their keys were first set.
    pub fn entries(&self) -> (r: &Vec<(String, String)>)
        ensures
            r.deep_view() == self.pairs(),
    {
        &self.entries
    }
}

} // verus!
