use attestation_portal::compose::{
    compose_image_rows, image_row, image_rows, member_image_rows, parse_release_version,
    service_key,
};

fn containers(compose: &str) -> Vec<(String, String)> {
    compose_image_rows(compose, &None)
        .into_iter()
        .map(|r| (r.container, r.digest))
        .collect()
}

fn pairs(items: &[(&str, &str)]) -> Vec<(String, String)> {
    items
        .iter()
        .map(|(c, d)| (c.to_string(), d.to_string()))
        .collect()
}

#[test]
fn every_service_gets_its_images() {
    let compose = "\
version: '3'
services:
  # the worker
  worker:
    image: docker.io/outlayer/near-outlayer-worker@sha256:11
    restart: always

  db:
    image: postgres@sha256:22
volumes:
  data:
    image: x@sha256:33
";
    assert_eq!(containers(compose), pairs(&[("worker", "sha256:11"), ("db", "sha256:22")]));
}

#[test]
fn nested_keys_are_no_services() {
    let compose = "\
services:
  worker:
    environment:
      A: b
    depends_on:
      - db
    image: w@sha256:11
  db:
    healthcheck:
        test:
    image: d@sha256:22
";
    assert_eq!(containers(compose), pairs(&[("worker", "sha256:11"), ("db", "sha256:22")]));
}

#[test]
fn image_without_a_service_names_itself() {
    let compose = "services:\n    image:  a/b:1 @sha256: ff \n";
    assert_eq!(containers(compose), pairs(&[("a/b:1", "sha256:ff")]));
}

#[test]
fn only_the_services_block_counts() {
    assert!(containers("worker:\n  image: a@sha256:1\n").is_empty());
    assert!(containers("").is_empty());
    assert!(containers("services:\nimage: a@sha256:1\n").is_empty());
    // A second block is read too.
    let twice = "services:\n a:\n  image: a@sha256:1\nx:\n y:\nservices:\n b:\n  image: b@sha256:2\n";
    assert_eq!(containers(twice), pairs(&[("a", "sha256:1"), ("b", "sha256:2")]));
    // Windows line ends and tabs.
    let crlf = "services:\r\n\ta:\r\n\t\timage: a@sha256:1\r\n";
    assert_eq!(containers(crlf), pairs(&[("a", "sha256:1")]));
}

#[test]
fn service_keys_are_bare() {
    assert_eq!(service_key("keystore:").as_deref(), Some("keystore"));
    assert_eq!(service_key("image: x"), None);
    assert_eq!(service_key(":"), None);
    assert_eq!(service_key("a b:"), None);
    assert_eq!(service_key("a:b:"), None);
    assert_eq!(service_key("- a:"), None);
    assert_eq!(service_key("-a:"), None);
    assert_eq!(service_key("a"), None);
    assert_eq!(service_key(""), None);
}

#[test]
fn only_pinned_images_are_tabled() {
    let row = |v: &str| image_row(v, &None, &Some("1.2".to_string()));
    assert!(row("a:latest").is_none());
    assert!(row("@sha256:11").is_none());
    assert!(row("a@sha256: ").is_none());
    let r = row("x@sha256:11").expect("row");
    assert_eq!(r.container, "x");
    assert_eq!(r.sigstore_url, "https://search.sigstore.dev/?hash=sha256:11");
    assert_eq!(r.origin, "dstack system image");
    assert_eq!(r.release_url, None);
}

#[test]
fn outlayer_images_are_those_of_its_namespace() {
    let origin = |image: &str| {
        let value = format!("{image}@sha256:11");
        let r = image_row(&value, &Some("s".to_string()), &Some("0.1.35".to_string()));
        let r = r.expect("row");
        assert_eq!(r.container, "s");
        assert_eq!(r.release_url.is_some(), r.origin == "OutLayer-built");
        r.origin
    };
    assert_eq!(origin("docker.io/outlayer/near-outlayer-keystore"), "OutLayer-built");
    assert_eq!(origin("outlayer/near-outlayer-worker"), "OutLayer-built");
    assert_eq!(origin("dstacktee/dstack-kms"), "dstack system image");
    assert_eq!(origin("evil.example/outlayer/near-outlayer-worker"), "dstack system image");
    assert_eq!(origin("evil.example/docker.io/outlayer/x"), "dstack system image");
    assert_eq!(origin("index.docker.io/outlayer/near-outlayer-worker"), "OutLayer-built");
    // A YAML string in quotation marks, or behind an anchor.
    assert_eq!(origin("\"docker.io/outlayer/near-outlayer-worker"), "OutLayer-built");
    assert_eq!(origin("'outlayer/near-outlayer-worker"), "OutLayer-built");
    assert_eq!(origin("&img docker.io/outlayer/near-outlayer-worker"), "OutLayer-built");
    assert_eq!(origin("!!str &img 'index.docker.io/outlayer/near-outlayer-x"), "OutLayer-built");
    assert_eq!(origin("\"dstacktee/dstack-kms"), "dstack system image");
    assert_eq!(origin("&outlayer/x"), "dstack system image");
    // What stands behind the reference does not count.
    assert_eq!(origin("evil.example/a #outlayer/x outlayer/x"), "dstack system image");
    assert_eq!(origin("evil.example/a # outlayer/x"), "dstack system image");
    assert_eq!(origin("evil.example/a \"outlayer/x"), "dstack system image");
    assert_eq!(origin("outlayer/near-outlayer-worker # pinned"), "OutLayer-built");
    let no_version = image_row("outlayer/x@sha256:1", &None, &None).expect("row");
    assert_eq!(no_version.origin, "OutLayer-built");
    assert_eq!(no_version.release_url, None);
}

#[test]
fn release_versions_are_dotted_numbers() {
    assert_eq!(parse_release_version("1.2").as_deref(), Some("1.2"));
    assert_eq!(parse_release_version("a-1.2-3"), None);
    assert_eq!(parse_release_version("a-."), Some(".".to_string()));
    assert_eq!(parse_release_version("a-1.2b"), None);
    assert_eq!(parse_release_version("a-"), None);
    assert_eq!(parse_release_version(""), None);
}

#[test]
fn app_compose_that_cannot_be_read_has_no_rows() {
    assert!(image_rows(None).is_empty());
    assert!(image_rows(Some("not json")).is_empty());
    assert!(image_rows(Some("{}")).is_empty());
    assert!(image_rows(Some("{\"docker_compose_file\":7}")).is_empty());
    let file = Some("services:\n a:\n  image: outlayer/x@sha256:1\n".to_string());
    let rows = member_image_rows(&file, &Some("w-0.2".to_string()));
    assert_eq!(
        rows[0].release_url.as_deref(),
        Some("https://github.com/fastnear/near-outlayer/releases/tag/v0.2")
    );
    assert!(member_image_rows(&None, &Some("w-0.2".to_string())).is_empty());
}

#[test]
fn quoted_images_are_tabled_as_they_stand() {
    let compose = "services:\n  worker:\n    image: \"docker.io/outlayer/near-outlayer-worker@sha256:11\"\n";
    let rows = compose_image_rows(compose, &Some("0.1.35".to_string()));
    assert_eq!(rows.len(), 1);
    assert_eq!(rows[0].container, "worker");
    assert_eq!(rows[0].image, "\"docker.io/outlayer/near-outlayer-worker");
    assert_eq!(rows[0].digest, "sha256:11\"");
    assert_eq!(rows[0].origin, "OutLayer-built");
    assert_eq!(
        rows[0].release_url.as_deref(),
        Some("https://github.com/fastnear/near-outlayer/releases/tag/v0.1.35")
    );
}
