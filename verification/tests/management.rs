//! Tests of the management-service model: deployment URLs, listing, and the
//! folding of an upload form.

use tenant_proxy::server::{
    descriptors_from_deployments, field_is_payload, get_deployment_url, Config,
    DeploymentDescriptor, IncompleteNewDeployment, StaticDeployment,
};

fn config(https: bool, root: &str) -> Config {
    Config {
        bind: "127.0.0.1".to_string(),
        port: 8448,
        https,
        deployment_url_root: root.to_string(),
        worker_threads: 8,
        hosting_dir: "./hosting".to_string(),
    }
}

#[test]
fn deployment_url_http() {
    let c = config(false, "localhost");
    assert_eq!(get_deployment_url(&c, "blog"), "http://blog.localhost/");
}

#[test]
fn deployment_url_https() {
    let c = config(true, "example.com");
    assert_eq!(get_deployment_url(&c, "myapp"), "https://myapp.example.com/");
}

#[test]
fn descriptor_from_row() {
    let c = config(false, "localhost");
    let row = StaticDeployment { id: 7, name: "My App".to_string(), subdomain: "myapp".to_string() };
    let d = DeploymentDescriptor::from_deployment(&c, row);
    assert_eq!(d.name, "My App");
    assert_eq!(d.url, "http://myapp.localhost/");
}

#[test]
fn descriptors_keep_order() {
    let c = config(true, "example.com");
    let rows = vec![
        StaticDeployment { id: 1, name: "A".to_string(), subdomain: "a".to_string() },
        StaticDeployment { id: 2, name: "B".to_string(), subdomain: "b".to_string() },
    ];
    let ds = descriptors_from_deployments(&c, rows);
    assert_eq!(ds.len(), 2);
    assert_eq!(ds[0].name, "A");
    assert_eq!(ds[0].url, "https://a.example.com/");
    assert_eq!(ds[1].name, "B");
    assert_eq!(ds[1].url, "https://b.example.com/");
}

#[test]
fn payload_field_is_the_file_field() {
    assert!(field_is_payload("file"));
    assert!(!field_is_payload("name"));
    assert!(!field_is_payload("File"));
}

#[test]
fn fold_complete_form() {
    let mut form = IncompleteNewDeployment::empty();
    form.apply_tag("name", "My App".to_string());
    form.apply_tag("subdomain", "myapp".to_string());
    form.note_file();
    let row = form.finish().unwrap();
    assert_eq!(row.name, "My App");
    assert_eq!(row.subdomain, "myapp");
}

#[test]
fn fold_later_tag_wins() {
    let mut form = IncompleteNewDeployment::empty();
    form.apply_tag("name", "First".to_string());
    form.apply_tag("name", "Second".to_string());
    form.apply_tag("subdomain", "s".to_string());
    form.note_file();
    assert_eq!(form.finish().unwrap().name, "Second");
}

#[test]
fn fold_ignores_unknown_tags() {
    let mut form = IncompleteNewDeployment::empty();
    form.apply_tag("name", "My App".to_string());
    form.apply_tag("comment", "dropped".to_string());
    form.apply_tag("subdomain", "myapp".to_string());
    form.note_file();
    assert!(form.finish().is_ok());
}

#[test]
fn fold_missing_subdomain_rejected() {
    let mut form = IncompleteNewDeployment::empty();
    form.apply_tag("name", "My App".to_string());
    form.note_file();
    let e = form.finish().unwrap_err();
    assert_eq!(e, "Invalid request; missing key in multipart payload");
}

#[test]
fn fold_missing_file_rejected() {
    let mut form = IncompleteNewDeployment::empty();
    form.apply_tag("name", "My App".to_string());
    form.apply_tag("subdomain", "myapp".to_string());
    let e = form.finish().unwrap_err();
    assert_eq!(e, "Invalid request; missing key in multipart payload");
}
