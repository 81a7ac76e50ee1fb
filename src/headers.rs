use vstd::prelude::*;
use crate::keyed::pairs_view;
use crate::text::{eq_ignore_case, same_name};

verus! {

/// The first value under `name`, names compared up to ASCII case.
pub open spec fn header_lookup(entries: Seq<(Seq<char>, Seq<char>)>, name: Seq<char>) -> Option<Seq<char>>
    decreases entries.len(),
{
    if entries.len() == 0 {
        Option::None
    } else if eq_ignore_case(entries[0].0, name) {
        Option::Some(entries[0].1)
    } else {
        header_lookup(entries.skip(1), name)
    }
}

/// Whether an entry is under another name than `name`.
pub open spec fn not_named(name: Seq<char>) -> spec_fn((Seq<char>, Seq<char>)) -> bool {
    |e: (Seq<char>, Seq<char>)| !eq_ignore_case(e.0, name)
}

/// `entries` without any entry under `name`, then `(name, value)` at the end.
pub open spec fn header_set(entries: Seq<(Seq<char>, Seq<char>)>, name: Seq<char>, value: Seq<char>) -> Seq<(Seq<char>, Seq<char>)> {
    entries.filter(not_named(name)).push((name, value))
}

/// The headers of a request or a response, as name and value pairs.
#[derive(Clone, Debug, Default)]
pub struct HeaderList {
    pub entries: Vec<(String, String)>,
}

impl View for HeaderList {
    type V = Seq<(Seq<char>, Seq<char>)>;

    open spec fn view(&self) -> Seq<(Seq<char>, Seq<char>)> {
        pairs_view(self.entries@)
    }
}

impl HeaderList {
    pub fn new() -> (r: HeaderList)
        ensures
            r@ == Seq::<(Seq<char>, Seq<char>)>::empty(),
    {
        let r = HeaderList { entries: Vec::new() };
        assert(r@ =~= Seq::<(Seq<char>, Seq<char>)>::empty());
        r
    }

    /// The first value under `name`, compared up to ASCII case.
    pub fn get(&self, name: &str) -> (r: Option<String>)
        ensures
            match header_lookup(self@, name@) {
                Option::Some(v) => r is Some && r->Some_0@ == v,
                Option::None => r is None,
            },
    {
        let mut i: usize = 0;
        assert(self@.skip(0) =~= self@);
        while i < self.entries.len()
            invariant
                i <= self.entries@.len(),
                header_lookup(self@, name@) == header_lookup(self@.skip(i as int), name@),
            decreases self.entries@.len() - i,
        {
            proof {
                let rest = self@.skip(i as int);
                assert(rest[0] == self@[i as int]);
                assert(rest.skip(1) =~= self@.skip(i + 1));
            }
            if same_name(self.entries[i].0.as_str(), name) {
                return Some(self.entries[i].1.clone());
            }
            i = i + 1;
        }
        None
    }

    /// Sets `name` to `value`, removing any value it had.
    pub fn insert(&mut self, name: &str, value: &str)
        ensures
            final(self)@ == header_set(old(self)@, name@, value@),
    {
        let ghost keep = not_named(name@);
        let mut kept: Vec<(String, String)> = Vec::new();
        let mut i: usize = 0;
        while i < self.entries.len()
            invariant
                i <= self.entries@.len(),
                self.entries@ == old(self).entries@,
                keep == not_named(name@),
                pairs_view(kept@) == old(self)@.take(i as int).filter(keep),
            decreases self.entries@.len() - i,
        {
            let ghost before = old(self)@.take(i as int);
            let ghost e = old(self)@[i as int];
            proof {
                assert(old(self)@.take(i + 1) =~= before.push(e));
                before.lemma_filter_push(e, keep);
                assert(e.0 == self.entries@[i as int].0@);
            }
            let same = same_name(self.entries[i].0.as_str(), name);
            assert(keep(e) == !same);
            if !same {
                let pair = (self.entries[i].0.clone(), self.entries[i].1.clone());
                kept.push(pair);
                assert(pairs_view(kept@) =~= before.filter(keep).push(e));
            }
            i = i + 1;
        }
        assert(old(self)@.take(i as int) =~= old(self)@);
        kept.push((String::from_str(name), String::from_str(value)));
        assert(pairs_view(kept@) =~= header_set(old(self)@, name@, value@));
        self.entries = kept;
    }
}

} // verus!
