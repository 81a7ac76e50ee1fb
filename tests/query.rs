use reqt::query::Query;

#[test]
fn query_new_is_empty() {
    let q = Query::new();
    assert_eq!(q.len(), 0);
    assert_eq!(q.to_query_string(), "");
}

#[test]
fn query_from_and_add() {
    let q = Query::from("filter[primary_campus_id]", "31").add("sort", "name");
    assert_eq!(q.0, vec!["filter[primary_campus_id]=31".to_string(), "sort=name".to_string()]);
    assert_eq!(q.to_query_string(), "?filter[primary_campus_id]=31&sort=name");
}

#[test]
fn query_join_keeps_order() {
    let a = Query::from("a", "1");
    let b = Query::from("b", "2").add("c", "3");
    let q = a.join(b);
    assert_eq!(q.to_query_string(), "?a=1&b=2&c=3");
    assert_eq!(q.params_text(), "a=1&b=2&c=3");
}

#[test]
fn query_from_str_splits_on_ampersand() {
    let q = Query::from_str("a=1&b=2");
    assert_eq!(q.0, vec!["a=1".to_string(), "b=2".to_string()]);
    let empty = Query::from_str("");
    assert_eq!(empty.len(), 0);
    let trailing = Query::from_str("a=1&");
    assert_eq!(trailing.0, vec!["a=1".to_string(), String::new()]);
}

#[test]
fn query_clone_query_is_equal() {
    let q = Query::from("x", "y");
    let c = q.clone_query();
    assert_eq!(c.0, q.0);
}

#[test]
fn query_from_pairs_in_order() {
    let pairs = vec![("a".to_string(), "1".to_string()), ("b".to_string(), "2".to_string())];
    assert_eq!(Query::from_pairs(&pairs).to_query_string(), "?a=1&b=2");
}
