//! Tests of the route parser, the routing table and the shared holder.

use tenant_proxy::holder::TableHolder;
use tenant_proxy::models::ProxyDeployment;
use tenant_proxy::parse::parse_route;
use tenant_proxy::table::RoutingTable;

fn deployment(subdomain: &str, destination: &str, cors: bool) -> ProxyDeployment {
    ProxyDeployment {
        id: format!("id-{}", subdomain),
        name: format!("name-{}", subdomain),
        subdomain: subdomain.to_string(),
        use_cors_headers: cors,
        destination_address: destination.to_string(),
        created_on: 1_500_000_000,
    }
}

#[test]
fn parse_key_and_rest() {
    let r = parse_route("/blog/posts/5").unwrap();
    assert_eq!(r.0, "blog");
    assert_eq!(r.1, "posts/5");
}

#[test]
fn parse_single_segment_fails() {
    assert!(parse_route("/onlyonesegment").is_none());
}

#[test]
fn parse_empty_and_slashes() {
    assert!(parse_route("").is_none());
    assert!(parse_route("/").is_none());
    assert!(parse_route("//").is_none());
    assert!(parse_route("///").is_none());
}

#[test]
fn parse_skips_empty_segment() {
    let r = parse_route("//a/b").unwrap();
    assert_eq!(r.0, "a");
    assert_eq!(r.1, "b");
}

#[test]
fn parse_empty_rest() {
    let r = parse_route("/a/").unwrap();
    assert_eq!(r.0, "a");
    assert_eq!(r.1, "");
}

#[test]
fn parse_rest_keeps_query_and_slashes() {
    let r = parse_route("/a/b/c?d=/e").unwrap();
    assert_eq!(r.0, "a");
    assert_eq!(r.1, "b/c?d=/e");
}

#[test]
fn parse_without_leading_slash() {
    let r = parse_route("x/a/b").unwrap();
    assert_eq!(r.0, "a");
    assert_eq!(r.1, "b");
}

#[test]
fn table_lookup_present_and_absent() {
    let rows = vec![
        deployment("blog", "http://10.0.0.5:9000", false),
        deployment("shop", "http://10.0.0.6:9000", true),
    ];
    let table = RoutingTable::build(rows);
    assert_eq!(table.len(), 2);
    let d = table.lookup("blog").unwrap();
    assert_eq!(d.destination_address, "http://10.0.0.5:9000");
    let d = table.lookup("shop").unwrap();
    assert!(d.use_cors_headers);
    assert!(table.lookup("missing").is_none());
}

#[test]
fn table_duplicate_key_last_wins() {
    let rows = vec![
        deployment("blog", "http://old.invalid", false),
        deployment("blog", "http://new.invalid", true),
    ];
    let table = RoutingTable::build(rows);
    assert_eq!(table.len(), 2);
    let d = table.lookup("blog").unwrap();
    assert_eq!(d.destination_address, "http://new.invalid");
    assert!(d.use_cors_headers);
}

#[test]
fn table_lookup_is_case_sensitive() {
    let table = RoutingTable::build(vec![deployment("Blog", "http://10.0.0.5:9000", false)]);
    assert!(table.lookup("blog").is_none());
    assert!(table.lookup("Blog").is_some());
}

#[test]
fn empty_table_resolves_nothing() {
    let table = RoutingTable::new();
    assert_eq!(table.len(), 0);
    assert!(table.lookup("foo").is_none());
}

#[test]
fn holder_starts_empty() {
    let holder = TableHolder::new();
    assert!(holder.lookup("blog").is_none());
}

#[test]
fn holder_replace_is_visible_to_later_lookups() {
    let holder = TableHolder::new();
    let n = holder.replace(vec![deployment("blog", "http://10.0.0.5:9000", false)]);
    assert_eq!(n, 1);
    let d = holder.lookup("blog").unwrap();
    assert_eq!(d.destination_address, "http://10.0.0.5:9000");

    let n = holder.replace(vec![deployment("shop", "http://10.0.0.6:9000", false)]);
    assert_eq!(n, 1);
    assert!(holder.lookup("blog").is_none());
    assert!(holder.lookup("shop").is_some());
}

#[test]
fn failed_load_keeps_previous_table() {
    let holder = TableHolder::new();
    holder.replace(vec![deployment("blog", "http://10.0.0.5:9000", false)]);
    let n = holder.apply_load_result(Err("store unreachable".to_string()));
    assert!(n.is_none());
    assert!(holder.lookup("blog").is_some());
}

#[test]
fn successful_load_replaces_table() {
    let holder = TableHolder::new();
    holder.replace(vec![deployment("blog", "http://10.0.0.5:9000", false)]);
    let n = holder.apply_load_result(Ok(vec![
        deployment("wiki", "http://10.0.0.7:9000", false),
        deployment("docs", "http://10.0.0.8:9000", false),
    ]));
    assert_eq!(n, Some(2));
    assert!(holder.lookup("blog").is_none());
    assert!(holder.lookup("wiki").is_some());
    assert!(holder.lookup("docs").is_some());
}
