use vstd::prelude::*;
use crate::keyed::copy_strings;
use crate::query::{joined, param_of, Query};
use crate::text::{join_with, replace_all, replaced};

verus! {

/// The direction of a sort.
#[derive(Clone, Copy, Debug, Default, PartialEq, Eq, Structural)]
pub enum SortOrder {
    #[default]
    Asc,
    Desc,
}

/// The word a direction takes in a sort pattern.
pub open spec fn order_word(order: SortOrder) -> Seq<char> {
    match order {
        SortOrder::Asc => "asc"@,
        SortOrder::Desc => "desc"@,
    }
}

impl SortOrder {
    /// `asc` or `desc`.
    pub fn to_string(&self) -> (r: String)
        ensures
            r@ == order_word(*self),
    {
        match self {
            SortOrder::Asc => String::from_str("asc"),
            SortOrder::Desc => String::from_str("desc"),
        }
    }
}

/// A sort entry without one leading `-` or `+`: `name`, `-name` and `+name`
/// sort on the same property.
pub open spec fn sort_base(s: Seq<char>) -> Seq<char> {
    if s.len() > 0 && (s[0] == '-' || s[0] == '+') {
        s.skip(1)
    } else {
        s
    }
}

/// The first entry that sorts on the same property as `entry`, if any.
pub open spec fn sort_position(entries: Seq<Seq<char>>, entry: Seq<char>) -> Option<int>
    decreases entries.len(),
{
    if entries.len() == 0 {
        Option::None
    } else {
        match sort_position(entries.drop_last(), entry) {
            Option::Some(i) => Option::Some(i),
            Option::None => if sort_base(entries.last()) == sort_base(entry) {
                Option::Some(entries.len() - 1)
            } else {
                Option::None
            },
        }
    }
}

/// `entries` after adding `entry`: it replaces the entry on the same property
/// where it stands, else goes at the end.
pub open spec fn sort_upserted(entries: Seq<Seq<char>>, entry: Seq<char>) -> Seq<Seq<char>> {
    match sort_position(entries, entry) {
        Option::Some(i) => entries.update(i, entry),
        Option::None => entries.push(entry),
    }
}

/// The entry of a sort: `property` in the pattern replaced by the property.
pub open spec fn sort_entry(pattern: Seq<char>, property: Seq<char>) -> Seq<char> {
    replaced(pattern, "property"@, property)
}

/// The entry of a sort with a direction: `property`, then `order`, replaced.
pub open spec fn sort_with_entry(pattern: Seq<char>, property: Seq<char>, order: SortOrder) -> Seq<char> {
    replaced(replaced(pattern, "property"@, property), "order"@, order_word(order))
}

/// No parameter without entries, else the one parameter `sort=` with the
/// entries joined by `,`.
pub open spec fn sort_query(entries: Seq<Seq<char>>) -> Seq<Seq<char>> {
    if entries.len() == 0 {
        Seq::empty()
    } else {
        seq![param_of("sort"@, joined(entries, ','))]
    }
}

/// Sorts on properties, each entry made from a pattern.
#[derive(Clone, Debug, Default)]
pub struct SortRule {
    pub pattern: String,
    pub sorts: Vec<String>,
}

/// A list of sort entries; a sort on a property that already has an entry
/// replaces that entry where it stands.
pub trait Sort: Sized {
    spec fn pattern_spec(&self) -> Seq<char>;

    spec fn entries_spec(&self) -> Seq<Seq<char>>;

    /// Sets the pattern, in which `property` and `order` are replaced.
    fn pattern(self, pattern: &str) -> (r: Self)
        ensures
            r.pattern_spec() == pattern@,
            r.entries_spec() == self.entries_spec();

    /// Sorts on `property`.
    fn sort(self, property: &str) -> (r: Self)
        ensures
            r.pattern_spec() == self.pattern_spec(),
            r.entries_spec() == sort_upserted(
                self.entries_spec(),
                sort_entry(self.pattern_spec(), property@),
            );

    /// Sorts on `property` in the direction `order`.
    fn sort_with(self, property: &str, order: SortOrder) -> (r: Self)
        ensures
            r.pattern_spec() == self.pattern_spec(),
            r.entries_spec() == sort_upserted(
                self.entries_spec(),
                sort_with_entry(self.pattern_spec(), property@, order),
            );

    /// The `sort=` parameter, if there is any entry.
    fn to_query(&self) -> (r: Query)
        ensures
            r@ == sort_query(self.entries_spec());
}

/// The entry without one leading sign.
fn strip_sign(s: &str) -> (r: String)
    ensures
        r@ == sort_base(s@),
{
    let n = s.unicode_len();
    if n > 0 {
        let c = s.get_char(0);
        if c == '-' || c == '+' {
            return String::from_str(s.substring_char(1, n));
        }
    }
    String::from_str(s)
}

proof fn lemma_sort_position(entries: Seq<Seq<char>>, entry: Seq<char>)
    ensures
        match sort_position(entries, entry) {
            Option::Some(i) => 0 <= i < entries.len() && sort_base(entries[i]) == sort_base(entry)
                && forall|j: int| 0 <= j < i ==> sort_base(entries[j]) != sort_base(entry),
            Option::None => forall|j: int| 0 <= j < entries.len() ==> sort_base(entries[j]) != sort_base(entry),
        },
    decreases entries.len(),
{
    if entries.len() > 0 {
        let d = entries.drop_last();
        lemma_sort_position(d, entry);
        assert(forall|j: int| 0 <= j < d.len() ==> d[j] == entries[j]);
    }
}

proof fn lemma_sort_position_of_first(entries: Seq<Seq<char>>, entry: Seq<char>, i: int)
    requires
        0 <= i < entries.len(),
        sort_base(entries[i]) == sort_base(entry),
        forall|j: int| 0 <= j < i ==> sort_base(entries[j]) != sort_base(entry),
    ensures
        sort_position(entries, entry) == Option::Some(i),
    decreases entries.len(),
{
    let d = entries.drop_last();
    assert(forall|j: int| 0 <= j < d.len() ==> d[j] == entries[j]);
    if i < entries.len() - 1 {
        lemma_sort_position_of_first(d, entry, i);
    } else {
        lemma_sort_position(d, entry);
    }
}

/// Adds `entry` to `sorts` as `sort_upserted` describes.
fn upsert_sort(sorts: &mut Vec<String>, entry: String)
    ensures
        final(sorts)@.map_values(|s: String| s@) == sort_upserted(
            old(sorts)@.map_values(|s: String| s@),
            entry@,
        ),
{
    let ghost before = sorts@.map_values(|s: String| s@);
    proof {
        lemma_sort_position(before, entry@);
    }
    let base = strip_sign(entry.as_str());
    let mut i: usize = 0;
    while i < sorts.len()
        invariant
            i <= sorts@.len(),
            sorts@ == old(sorts)@,
            before == sorts@.map_values(|s: String| s@),
            base@ == sort_base(entry@),
            forall|j: int| 0 <= j < i ==> sort_base(before[j]) != sort_base(entry@),
        decreases sorts@.len() - i,
    {
        let other = strip_sign(sorts[i].as_str());
        if other.eq(&base) {
            proof {
                lemma_sort_position_of_first(before, entry@, i as int);
            }
            sorts.set(i, entry);
            assert(sorts@.map_values(|s: String| s@) =~= before.update(i as int, entry@));
            return;
        }
        i = i + 1;
    }
    sorts.push(entry);
    assert(sorts@.map_values(|s: String| s@) =~= before.push(entry@));
}

impl Sort for SortRule {
    open spec fn pattern_spec(&self) -> Seq<char> {
        self.pattern@
    }

    open spec fn entries_spec(&self) -> Seq<Seq<char>> {
        self.sorts@.map_values(|s: String| s@)
    }

    fn pattern(self, pattern: &str) -> (r: Self) {
        SortRule { pattern: String::from_str(pattern), sorts: self.sorts }
    }

    fn sort(self, property: &str) -> (r: Self) {
        proof {
            reveal_strlit("property");
        }
        let entry = replace_all(self.pattern.as_str(), "property", property);
        let mut sorts = self.sorts;
        upsert_sort(&mut sorts, entry);
        SortRule { pattern: self.pattern, sorts }
    }

    fn sort_with(self, property: &str, order: SortOrder) -> (r: Self) {
        proof {
            reveal_strlit("property");
            reveal_strlit("order");
        }
        let entry = replace_all(self.pattern.as_str(), "property", property);
        let word = order.to_string();
        let entry = replace_all(entry.as_str(), "order", word.as_str());
        let mut sorts = self.sorts;
        upsert_sort(&mut sorts, entry);
        SortRule { pattern: self.pattern, sorts }
    }

    fn to_query(&self) -> (r: Query) {
        if self.sorts.len() == 0 {
            let q = Query::new();
            assert(q@ =~= sort_query(self.entries_spec()));
            q
        } else {
            let text = join_with(&self.sorts, ',');
            let q = Query::from("sort", text.as_str());
            q
        }
    }
}

impl SortRule {
    /// A copy of the rule.
    pub fn duplicate(&self) -> (r: SortRule)
        ensures
            r.pattern@ == self.pattern@,
            r.entries_spec() == self.entries_spec(),
    {
        SortRule { pattern: self.pattern.clone(), sorts: copy_strings(&self.sorts) }
    }
}

} // verus!
