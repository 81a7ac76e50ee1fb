use vstd::prelude::*;
use crate::keyed::{copy_pairs, pairs_query, pairs_to_query, pairs_view, upsert, upserted};
use crate::query::Query;
use crate::text::{push_char, replace_all, replaced};

verus! {

/// The key of a range: `property` in the pattern replaced by the property.
pub open spec fn range_key(pattern: Seq<char>, property: Seq<char>) -> Seq<char> {
    replaced(pattern, "property"@, property)
}

/// The value of a range: `min,max`.
pub open spec fn range_value(min: Seq<char>, max: Seq<char>) -> Seq<char> {
    min + seq![','] + max
}

/// Ranges on properties, each a key made from a pattern and `min,max`.
#[derive(Clone, Debug, Default)]
pub struct RangeRule {
    pub pattern: String,
    pub ranges: Vec<(String, String)>,
}

/// A set of range constraints; setting one again on the same key replaces
/// its value where it stands.
pub trait Range: Sized {
    spec fn pattern_spec(&self) -> Seq<char>;

    spec fn entries_spec(&self) -> Seq<(Seq<char>, Seq<char>)>;

    /// Sets the pattern, in which `property` is replaced.
    fn pattern(self, pattern: &str) -> (r: Self)
        ensures
            r.pattern_spec() == pattern@,
            r.entries_spec() == self.entries_spec();

    /// Restricts `property` to the range from `min` to `max`.
    fn range(self, property: &str, min: &str, max: &str) -> (r: Self)
        ensures
            r.pattern_spec() == self.pattern_spec(),
            r.entries_spec() == upserted(
                self.entries_spec(),
                range_key(self.pattern_spec(), property@),
                range_value(min@, max@),
            );

    /// One `key=min,max` parameter for each range, in order.
    fn to_query(&self) -> (r: Query)
        ensures
            r@ == pairs_query(self.entries_spec());
}

impl Range for RangeRule {
    open spec fn pattern_spec(&self) -> Seq<char> {
        self.pattern@
    }

    open spec fn entries_spec(&self) -> Seq<(Seq<char>, Seq<char>)> {
        pairs_view(self.ranges@)
    }

    fn pattern(self, pattern: &str) -> (r: Self) {
        RangeRule { pattern: String::from_str(pattern), ranges: self.ranges }
    }

    fn range(self, property: &str, min: &str, max: &str) -> (r: Self) {
        proof {
            reveal_strlit("property");
        }
        let key = replace_all(self.pattern.as_str(), "property", property);
        let mut value = String::from_str(min);
        value = push_char(value, ',');
        value.append(max);
        assert(value@ =~= range_value(min@, max@));
        let mut ranges = self.ranges;
        upsert(&mut ranges, key, value);
        RangeRule { pattern: self.pattern, ranges }
    }

    fn to_query(&self) -> (r: Query) {
        pairs_to_query(&self.ranges)
    }
}

impl RangeRule {
    /// A copy of the rule.
    pub fn duplicate(&self) -> (r: RangeRule)
        ensures
            r.pattern@ == self.pattern@,
            r.entries_spec() == self.entries_spec(),
    {
        RangeRule { pattern: self.pattern.clone(), ranges: copy_pairs(&self.ranges) }
    }
}

} // verus!
