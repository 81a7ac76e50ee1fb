use reqt::filter::{Filter, FilterRule};
use reqt::range::{Range, RangeRule};
use reqt::sort::{Sort, SortOrder, SortRule};

fn strings(v: &[&str]) -> Vec<String> {
    v.iter().map(|s| s.to_string()).collect()
}

#[test]
fn filter_pattern_and_values() {
    let f = FilterRule::default().pattern("filter[property]").filter("name", &strings(&["jean"]));
    assert_eq!(f.filters, vec![("filter[name]".to_string(), "jean".to_string())]);
    assert_eq!(f.to_query().to_query_string(), "?filter[name]=jean");
}

#[test]
fn filter_override_replaces_in_place() {
    let f = FilterRule::default()
        .pattern("filter[property]")
        .filter("primary_campus_id", &strings(&["31"]))
        .filter("name", &strings(&["jean"]))
        .filter("name", &strings(&["jean", "michel"]));
    assert_eq!(
        f.to_query().to_query_string(),
        "?filter[primary_campus_id]=31&filter[name]=jean,michel"
    );
}

#[test]
fn filter_with_operator() {
    let f = FilterRule::default().pattern("property[filter]").filter_with("age", "lte", &strings(&["30"]));
    assert_eq!(f.filters, vec![("age[lte]".to_string(), "30".to_string())]);
}

#[test]
fn range_override_replaces_in_place() {
    let r = RangeRule::default().pattern("range[property]").range("id", "45", "63").range("id", "546", "736");
    assert_eq!(r.ranges, vec![("range[id]".to_string(), "546,736".to_string())]);
    assert_eq!(r.to_query().to_query_string(), "?range[id]=546,736");
}

#[test]
fn sort_signs_share_a_property() {
    let s = SortRule::default().pattern("property").sort("name").sort("-name");
    assert_eq!(s.sorts, vec!["-name".to_string()]);
    let s = s.sort("+name").sort("login");
    assert_eq!(s.sorts, vec!["+name".to_string(), "login".to_string()]);
    assert_eq!(s.to_query().to_query_string(), "?sort=+name,login");
}

#[test]
fn sort_with_order_word() {
    let s = SortRule::default().pattern("property.order").sort_with("name", SortOrder::Desc);
    assert_eq!(s.sorts, vec!["name.desc".to_string()]);
    assert_eq!(SortOrder::Asc.to_string(), "asc");
}

#[test]
fn empty_sort_gives_no_parameter() {
    let s = SortRule::default();
    assert_eq!(s.to_query().len(), 0);
}

#[test]
fn duplicate_keeps_entries() {
    let f = FilterRule::default().pattern("property").filter("a", &strings(&["1", "2"]));
    let d = f.duplicate();
    assert_eq!(d.filters, f.filters);
    assert_eq!(d.pattern, f.pattern);
}
