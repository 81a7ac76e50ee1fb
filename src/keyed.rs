use vstd::prelude::*;
use crate::query::{param_of, Query};

verus! {

/// The view of a list of `(key, value)` pairs.
pub open spec fn pairs_view(v: Seq<(String, String)>) -> Seq<(Seq<char>, Seq<char>)> {
    v.map_values(|p: (String, String)| (p.0@, p.1@))
}

/// The first position of `key` in `entries`, if any.
pub open spec fn key_position(entries: Seq<(Seq<char>, Seq<char>)>, key: Seq<char>) -> Option<int>
    decreases entries.len(),
{
    if entries.len() == 0 {
        Option::None
    } else {
        match key_position(entries.drop_last(), key) {
            Option::Some(i) => Option::Some(i),
            Option::None => if entries.last().0 == key {
                Option::Some(entries.len() - 1)
            } else {
                Option::None
            },
        }
    }
}

/// `entries` after setting `key` to `value`: the entry already under `key`
/// takes the new value in place, else the pair goes at the end.
pub open spec fn upserted(entries: Seq<(Seq<char>, Seq<char>)>, key: Seq<char>, value: Seq<char>) -> Seq<(Seq<char>, Seq<char>)> {
    match key_position(entries, key) {
        Option::Some(i) => entries.update(i, (key, value)),
        Option::None => entries.push((key, value)),
    }
}

/// The query of `key=value` for each pair, in order.
pub open spec fn pairs_query(entries: Seq<(Seq<char>, Seq<char>)>) -> Seq<Seq<char>> {
    entries.map_values(|p: (Seq<char>, Seq<char>)| param_of(p.0, p.1))
}

proof fn lemma_key_position_bounds(entries: Seq<(Seq<char>, Seq<char>)>, key: Seq<char>)
    ensures
        match key_position(entries, key) {
            Option::Some(i) => 0 <= i < entries.len() && entries[i].0 == key
                && forall|j: int| 0 <= j < i ==> entries[j].0 != key,
            Option::None => forall|j: int| 0 <= j < entries.len() ==> entries[j].0 != key,
        },
    decreases entries.len(),
{
    if entries.len() > 0 {
        let d = entries.drop_last();
        lemma_key_position_bounds(d, key);
        assert(forall|j: int| 0 <= j < d.len() ==> d[j] == entries[j]);
    }
}

proof fn lemma_key_position_of_first(entries: Seq<(Seq<char>, Seq<char>)>, key: Seq<char>, i: int)
    requires
        0 <= i < entries.len(),
        entries[i].0 == key,
        forall|j: int| 0 <= j < i ==> entries[j].0 != key,
    ensures
        key_position(entries, key) == Option::Some(i),
    decreases entries.len(),
{
    let d = entries.drop_last();
    assert(forall|j: int| 0 <= j < d.len() ==> d[j] == entries[j]);
    if i < entries.len() - 1 {
        lemma_key_position_of_first(d, key, i);
    } else {
        lemma_key_position_bounds(d, key);
    }
}

/// Sets `key` to `value` in `entries` as `upserted` describes.
pub fn upsert(entries: &mut Vec<(String, String)>, key: String, value: String)
    ensures
        pairs_view(final(entries)@) == upserted(pairs_view(old(entries)@), key@, value@),
{
    let ghost before = pairs_view(entries@);
    proof {
        lemma_key_position_bounds(before, key@);
    }
    let mut i: usize = 0;
    while i < entries.len()
        invariant
            i <= entries@.len(),
            entries@ == old(entries)@,
            before == pairs_view(entries@),
            forall|j: int| 0 <= j < i ==> before[j].0 != key@,
        decreases entries@.len() - i,
    {
        if entries[i].0.eq(&key) {
            proof {
                lemma_key_position_of_first(before, key@, i as int);
            }
            entries.set(i, (key, value));
            assert(pairs_view(entries@) =~= before.update(i as int, (key@, value@)));
            return;
        }
        i = i + 1;
    }
    entries.push((key, value));
    assert(pairs_view(entries@) =~= before.push((key@, value@)));
}

/// The query of `key=value` for each pair, in order.
pub fn pairs_to_query(entries: &Vec<(String, String)>) -> (r: Query)
    ensures
        r@ == pairs_query(pairs_view(entries@)),
{
    let mut q = Query::new();
    let mut i: usize = 0;
    while i < entries.len()
        invariant
            i <= entries@.len(),
            q@ == pairs_query(pairs_view(entries@)).take(i as int),
        decreases entries@.len() - i,
    {
        q = q.add(entries[i].0.as_str(), entries[i].1.as_str());
        assert(q@ =~= pairs_query(pairs_view(entries@)).take(i + 1));
        i = i + 1;
    }
    assert(q@ =~= pairs_query(pairs_view(entries@)));
    q
}

/// A copy of a list of pairs.
pub fn copy_pairs(v: &Vec<(String, String)>) -> (r: Vec<(String, String)>)
    ensures
        pairs_view(r@) == pairs_view(v@),
{
    let mut out: Vec<(String, String)> = Vec::new();
    let mut i: usize = 0;
    while i < v.len()
        invariant
            i <= v@.len(),
            pairs_view(out@) == pairs_view(v@).take(i as int),
        decreases v@.len() - i,
    {
        let pair = (v[i].0.clone(), v[i].1.clone());
        let ghost prev = out@;
        out.push(pair);
        proof {
            assert(pairs_view(v@).take(i + 1) =~= pairs_view(v@).take(i as int).push(pairs_view(v@)[i as int]));
            assert(pairs_view(out@) =~= pairs_view(prev).push((pair.0@, pair.1@)));
        }
        i = i + 1;
    }
    assert(pairs_view(v@).take(i as int) =~= pairs_view(v@));
    out
}

/// A copy of a list of strings.
pub fn copy_strings(v: &Vec<String>) -> (r: Vec<String>)
    ensures
        r@.map_values(|s: String| s@) == v@.map_values(|s: String| s@),
{
    let mut out: Vec<String> = Vec::new();
    let mut i: usize = 0;
    while i < v.len()
        invariant
            i <= v@.len(),
            out@.map_values(|s: String| s@) == v@.map_values(|s: String| s@).take(i as int),
        decreases v@.len() - i,
    {
        let item = v[i].clone();
        let ghost prev = out@;
        out.push(item);
        proof {
            let all = v@.map_values(|s: String| s@);
            assert(all.take(i + 1) =~= all.take(i as int).push(all[i as int]));
            assert(out@.map_values(|s: String| s@) =~= prev.map_values(|s: String| s@).push(item@));
        }
        i = i + 1;
    }
    assert(v@.map_values(|s: String| s@).take(i as int) =~= v@.map_values(|s: String| s@));
    out
}

} // verus!
