use registry_mcp::migrate::{is_registry_component, parse_source};

#[test]
fn parse_source_bare_name() {
    let img = parse_source("nginx").unwrap();
    assert_eq!(img.base_url, "https://registry-1.docker.io");
    assert_eq!(img.repository, "library/nginx");
    assert_eq!(img.reference, "latest");
}

#[test]
fn parse_source_name_and_tag() {
    let img = parse_source("nginx:alpine").unwrap();
    assert_eq!(img.base_url, "https://registry-1.docker.io");
    assert_eq!(img.repository, "library/nginx");
    assert_eq!(img.reference, "alpine");
}

#[test]
fn parse_source_org_image() {
    let img = parse_source("myorg/myimage:v1").unwrap();
    assert_eq!(img.base_url, "https://registry-1.docker.io");
    assert_eq!(img.repository, "myorg/myimage");
    assert_eq!(img.reference, "v1");
}

#[test]
fn parse_source_docker_io_explicit() {
    let img = parse_source("docker.io/library/nginx:latest").unwrap();
    assert_eq!(img.base_url, "https://registry-1.docker.io");
    assert_eq!(img.repository, "library/nginx");
    assert_eq!(img.reference, "latest");
}

#[test]
fn parse_source_custom_registry() {
    let img = parse_source("registry.example.com/myorg/myimage:v2").unwrap();
    assert_eq!(img.base_url, "https://registry.example.com");
    assert_eq!(img.repository, "myorg/myimage");
    assert_eq!(img.reference, "v2");
}

#[test]
fn parse_source_custom_registry_with_port() {
    let img = parse_source("registry.example.com:5000/myimage:v2").unwrap();
    assert_eq!(img.base_url, "https://registry.example.com:5000");
    assert_eq!(img.repository, "myimage");
    assert_eq!(img.reference, "v2");
}

#[test]
fn parse_source_digest() {
    let img = parse_source("nginx@sha256:abc123").unwrap();
    assert_eq!(img.repository, "library/nginx");
    assert_eq!(img.reference, "sha256:abc123");
}

#[test]
fn parse_source_port_without_tag() {
    let img = parse_source("localhost:5000/team/app").unwrap();
    assert_eq!(img.base_url, "https://localhost:5000");
    assert_eq!(img.repository, "team/app");
    assert_eq!(img.reference, "latest");
}

#[test]
fn parse_source_localhost_registry() {
    let img = parse_source("localhost/app:dev").unwrap();
    assert_eq!(img.base_url, "https://localhost");
    assert_eq!(img.repository, "app");
    assert_eq!(img.reference, "dev");
}

#[test]
fn parse_source_digest_wins_over_tag() {
    let img = parse_source("registry.example.com/app:1.0@sha256:ff").unwrap();
    assert_eq!(img.base_url, "https://registry.example.com");
    assert_eq!(img.repository, "app");
    assert_eq!(img.reference, "sha256:ff");
}

#[test]
fn registry_component_rules() {
    assert!(is_registry_component("registry.example.com"));
    assert!(is_registry_component("host:5000"));
    assert!(is_registry_component("localhost"));
    assert!(!is_registry_component("myorg"));
}
