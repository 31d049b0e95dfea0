use luciuz::forward::rewrite_path;
use luciuz::route::{matches_path, wildcard_pattern, Route, RouteTable};

fn route(prefix: &str, upstream: &str) -> Route {
    Route { prefix: prefix.to_string(), upstream: upstream.to_string() }
}

fn upstream_for(table: &RouteTable, path: &str) -> Option<String> {
    table.lookup(path).map(|i| table.routes[i].upstream.clone())
}

#[test]
fn longest_prefix_wins() {
    let table = RouteTable::new(vec![route("/", "http://u1"), route("/api", "http://u2")]);
    assert_eq!(upstream_for(&table, "/api/v1/x").as_deref(), Some("http://u2"));
    assert_eq!(rewrite_path("/api", "/api/v1/x"), "/v1/x");
    assert_eq!(upstream_for(&table, "/other").as_deref(), Some("http://u1"));
    assert_eq!(rewrite_path("/", "/other"), "/other");
    assert_eq!(upstream_for(&table, "/api").as_deref(), Some("http://u2"));
}

#[test]
fn table_orders_longest_prefix_first() {
    let table = RouteTable::new(vec![
        route("/", "http://root"),
        route("/api/v2", "http://v2"),
        route("/ab", "http://ab"),
        route("/api", "http://api"),
        route("/cd", "http://cd"),
    ]);
    let prefixes: Vec<&str> = table.routes.iter().map(|r| r.prefix.as_str()).collect();
    assert_eq!(prefixes, vec!["/api/v2", "/api", "/ab", "/cd", "/"]);
}

#[test]
fn sibling_prefix_does_not_match() {
    let table = RouteTable::new(vec![route("/api", "http://u2")]);
    assert_eq!(table.lookup("/apix"), None);
    assert_eq!(table.lookup("/ap"), None);
    assert_eq!(table.lookup("/api/"), Some(0));
}

#[test]
fn empty_table_matches_nothing() {
    let table = RouteTable::new(vec![]);
    assert_eq!(table.lookup("/"), None);
}

#[test]
fn first_of_equal_length_wins() {
    let table = RouteTable::new(vec![route("/a/", "http://one"), route("/a/", "http://two")]);
    assert_eq!(upstream_for(&table, "/a/x").as_deref(), Some("http://one"));
}

#[test]
fn trailing_slash_prefix_matches_below() {
    assert!(matches_path("/api/", "/api/x"));
    assert!(matches_path("/api/", "/api/"));
    assert!(matches_path("/", "/anything"));
    assert!(!matches_path("/api", "/"));
}

#[test]
fn wildcard_patterns() {
    assert_eq!(wildcard_pattern("/"), "/{*path}");
    assert_eq!(wildcard_pattern("/api"), "/api/{*path}");
    assert_eq!(wildcard_pattern("/api//"), "/api/{*path}");
}
