use vstd::prelude::*;
use crate::keyed::{copy_pairs, pairs_query, pairs_to_query, pairs_view, upsert, upserted};
use crate::query::{joined, Query};
use crate::text::{join_with, replace_all, replaced};

verus! {

/// The key of a filter: `property` in the pattern replaced by the property.
pub open spec fn filter_key(pattern: Seq<char>, property: Seq<char>) -> Seq<char> {
    replaced(pattern, "property"@, property)
}

/// The key of a filter with an operator: `property`, then `filter`, replaced.
pub open spec fn filter_with_key(pattern: Seq<char>, property: Seq<char>, filter: Seq<char>) -> Seq<char> {
    replaced(replaced(pattern, "property"@, property), "filter"@, filter)
}

/// The value of a filter: the values joined by `,`.
pub open spec fn filter_value(values: Seq<String>) -> Seq<char> {
    joined(values.map_values(|v: String| v@), ',')
}

/// Filters on properties, each a key made from a pattern and a value.
#[derive(Clone, Debug, Default)]
pub struct FilterRule {
    pub pattern: String,
    pub filters: Vec<(String, String)>,
}

/// A set of filter constraints; setting one again on the same key replaces
/// its value where it stands.
pub trait Filter: Sized {
    spec fn pattern_spec(&self) -> Seq<char>;

    spec fn entries_spec(&self) -> Seq<(Seq<char>, Seq<char>)>;

    /// Sets the pattern, in which `property` and `filter` are replaced.
    fn pattern(self, pattern: &str) -> (r: Self)
        ensures
            r.pattern_spec() == pattern@,
            r.entries_spec() == self.entries_spec();

    /// Filters `property` through the operator `filter` on `value`.
    fn filter_with(self, property: &str, filter: &str, value: &Vec<String>) -> (r: Self)
        ensures
            r.pattern_spec() == self.pattern_spec(),
            r.entries_spec() == upserted(
                self.entries_spec(),
                filter_with_key(self.pattern_spec(), property@, filter@),
                filter_value(value@),
            );

    /// Filters `property` on `value`.
    fn filter(self, property: &str, value: &Vec<String>) -> (r: Self)
        ensures
            r.pattern_spec() == self.pattern_spec(),
            r.entries_spec() == upserted(
                self.entries_spec(),
                filter_key(self.pattern_spec(), property@),
                filter_value(value@),
            );

    /// One `key=value` parameter for each filter, in order.
    fn to_query(&self) -> (r: Query)
        ensures
            r@ == pairs_query(self.entries_spec());
}

impl Filter for FilterRule {
    open spec fn pattern_spec(&self) -> Seq<char> {
        self.pattern@
    }

    open spec fn entries_spec(&self) -> Seq<(Seq<char>, Seq<char>)> {
        pairs_view(self.filters@)
    }

    fn pattern(self, pattern: &str) -> (r: Self) {
        FilterRule { pattern: String::from_str(pattern), filters: self.filters }
    }

    fn filter_with(self, property: &str, filter: &str, value: &Vec<String>) -> (r: Self) {
        proof {
            reveal_strlit("property");
            reveal_strlit("filter");
        }
        let key = replace_all(self.pattern.as_str(), "property", property);
        let key = replace_all(key.as_str(), "filter", filter);
        let values = join_with(value, ',');
        let mut filters = self.filters;
        upsert(&mut filters, key, values);
        FilterRule { pattern: self.pattern, filters }
    }

    fn filter(self, property: &str, value: &Vec<String>) -> (r: Self) {
        proof {
            reveal_strlit("property");
        }
        let key = replace_all(self.pattern.as_str(), "property", property);
        let values = join_with(value, ',');
        let mut filters = self.filters;
        upsert(&mut filters, key, values);
        FilterRule { pattern: self.pattern, filters }
    }

    fn to_query(&self) -> (r: Query) {
        pairs_to_query(&self.filters)
    }
}

impl FilterRule {
    /// A copy of the rule.
    pub fn duplicate(&self) -> (r: FilterRule)
        ensures
            r.pattern@ == self.pattern@,
            r.entries_spec() == self.entries_spec(),
    {
        FilterRule { pattern: self.pattern.clone(), filters: copy_pairs(&self.filters) }
    }
}

} // verus!
