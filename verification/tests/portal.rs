use attestation_portal::page::StoredNode;
use attestation_portal::report::{CvmAttestation, NodeReport, Role};
use attestation_portal::store::{
    app_detail, bearer_ok, borrow_nodes, check_push, ct_eq, index, Ingest, ReportStore,
    StoredReport,
};
use attestation_portal::template::{render_index, render_unknown_app};
use attestation_portal::verify::CvmVerdict;

fn report(node_id: &str, collected_at: u64) -> NodeReport {
    NodeReport { node_id: node_id.to_string(), collected_at, cvms: Vec::new() }
}

fn token() -> Option<String> {
    Some("s3cret".to_string())
}

const GOOD: Option<&str> = Some("Bearer s3cret");

fn verdicts(n: u64) -> Vec<CvmVerdict> {
    vec![CvmVerdict::new("vm".to_string(), n)]
}

fn push(store: &mut ReportStore, node_id: &str, collected_at: u64, now: u64) {
    let r = store.ingest(&token(), GOOD, Some(report(node_id, collected_at)), now);
    assert_eq!(r, Ingest::Stored);
}

fn listing(store: &ReportStore) -> Vec<(String, u64, u64, usize)> {
    store
        .sorted()
        .iter()
        .map(|s| {
            (
                s.report.node_id.clone(),
                s.report.collected_at,
                s.received_at,
                s.verdicts.len(),
            )
        })
        .collect()
}

fn cvm(app_id: &str) -> CvmAttestation {
    CvmAttestation {
        vm_id: "vm".to_string(),
        name: "mainnet-worker-1".to_string(),
        role: Role::Worker,
        network: None,
        status: "running".to_string(),
        uptime: None,
        app_id: app_id.to_string(),
        instance_id: None,
        compose_hash: None,
        device_id: None,
        mr_aggregated: None,
        os_image_hash: None,
        os_version: None,
        measurements: None,
        image_digests: Vec::new(),
        app_compose: None,
        key_provider: None,
        app_cert_pem: None,
        event_log: Vec::new(),
        error: None,
    }
}

#[test]
fn bytes_are_compared_whole() {
    assert!(ct_eq(b"", b""));
    assert!(ct_eq(b"abc", b"abc"));
    assert!(!ct_eq(b"abc", b"abd"));
    assert!(!ct_eq(b"Xbc", b"abc"));
    assert!(!ct_eq(b"abc", b"abcd"));
    // Two differences do not cancel out.
    assert!(!ct_eq(&[1, 1], &[0, 0]));
}

#[test]
fn bearer_token_has_to_be_exact() {
    assert!(bearer_ok(Some("Bearer t"), "t"));
    assert!(bearer_ok(Some("Bearer tökén"), "tökén"));
    assert!(!bearer_ok(Some("bearer t"), "t"));
    assert!(!bearer_ok(Some("Bearer  t"), "t"));
    assert!(!bearer_ok(Some("Bearer t "), "t"));
    assert!(!bearer_ok(Some("t"), "t"));
    assert!(!bearer_ok(None, "t"));
    assert!(!bearer_ok(None, ""));
}

#[test]
fn pushes_fail_closed() {
    let mut store = ReportStore::new();
    let body = || Some(report("a", 1));
    assert_eq!(store.ingest(&None, GOOD, body(), 5), Ingest::Disabled);
    assert_eq!(store.ingest(&None, None, None, 5), Ingest::Disabled);
    assert_eq!(store.ingest(&token(), None, body(), 5), Ingest::Unauthorized);
    assert_eq!(store.ingest(&token(), Some("Bearer x"), body(), 5), Ingest::Unauthorized);
    assert_eq!(store.ingest(&token(), GOOD, None, 5), Ingest::BadBody);
    assert!(store.kept().is_empty());
    assert_eq!(store.ingest(&token(), GOOD, body(), 5), Ingest::Stored);
    assert_eq!(store.kept().len(), 1);
    assert_eq!(check_push(&token(), GOOD), Ingest::Stored);
    assert_eq!(check_push(&token(), None), Ingest::Unauthorized);
    assert_eq!(check_push(&None, GOOD), Ingest::Disabled);
}

#[test]
fn answers_have_status_codes() {
    assert_eq!(Ingest::Disabled.code(), 503);
    assert_eq!(Ingest::Unauthorized.code(), 401);
    assert_eq!(Ingest::BadBody.code(), 400);
    assert_eq!(Ingest::Stored.code(), 200);
}

#[test]
fn latest_report_of_each_node_is_kept() {
    let mut store = ReportStore::new();
    push(&mut store, "b", 1, 10);
    push(&mut store, "a", 2, 11);
    push(&mut store, "b", 3, 12);
    assert_eq!(
        listing(&store),
        [("a".to_string(), 2, 11, 0), ("b".to_string(), 3, 12, 0)]
    );
}

#[test]
fn nodes_are_sorted_by_name() {
    let mut store = ReportStore::new();
    for name in ["node-2", "node-10", "", "Z", "ä", "a", "node-1", "node"] {
        push(&mut store, name, 0, 0);
    }
    let names: Vec<String> = listing(&store).into_iter().map(|e| e.0).collect();
    let mut wanted = names.clone();
    wanted.sort();
    assert_eq!(names, wanted);
    assert_eq!(names[0], "");
    assert_eq!(names.len(), 8);
}

#[test]
fn verdicts_on_a_replaced_report_are_dropped() {
    let mut store = ReportStore::new();
    push(&mut store, "a", 1, 10);
    push(&mut store, "b", 1, 10);
    assert!(store.merge_verdicts("a", 10, verdicts(1)));
    assert_eq!(
        listing(&store),
        [("a".to_string(), 1, 10, 1), ("b".to_string(), 1, 10, 0)]
    );
    push(&mut store, "a", 2, 20);
    assert_eq!(listing(&store)[0], ("a".to_string(), 2, 20, 0));
    assert!(!store.merge_verdicts("a", 10, verdicts(2)));
    assert!(!store.merge_verdicts("c", 20, verdicts(2)));
    assert_eq!(listing(&store)[0], ("a".to_string(), 2, 20, 0));
    assert!(store.merge_verdicts("a", 20, verdicts(3)));
    assert_eq!(store.sorted()[0].verdicts[0].verified_at, 3);
}

#[test]
fn restored_reports_are_kept_under_their_node() {
    let mut store = ReportStore::new();
    let stored = StoredReport { received_at: 7, report: report("a", 1), verdicts: verdicts(1) };
    store.keep("a".to_string(), stored);
    assert_eq!(listing(&store), [("a".to_string(), 1, 7, 1)]);
    push(&mut store, "a", 2, 9);
    assert_eq!(listing(&store), [("a".to_string(), 2, 9, 0)]);
    assert_eq!(store.kept()[0].node_id, "a");
}

#[test]
fn stored_reports_are_borrowed_in_order() {
    let mut store = ReportStore::new();
    push(&mut store, "b", 1, 10);
    push(&mut store, "a", 2, 11);
    let sorted = store.sorted();
    let nodes = borrow_nodes(&sorted);
    assert_eq!(nodes.len(), 2);
    assert_eq!(nodes[0].report.node_id, "a");
    assert_eq!(nodes[0].received_at, 11);
    assert!(nodes[1].verdicts.is_empty());
    assert_eq!(index(12, &nodes), render_index(12, &nodes).expect("render"));
}

#[test]
fn detail_pages_answer_200_or_404() {
    let mut r = report("n", 0);
    r.cvms = vec![cvm("app-1")];
    let nodes = [StoredNode { received_at: 0, report: &r, verdicts: &[] }];
    let (code, body) = app_detail("app-1", 0, &nodes);
    assert_eq!(code, 200);
    assert!(body.contains("mainnet-worker-1"));
    let (code, body) = app_detail("<b>", 0, &nodes);
    assert_eq!(code, 404);
    assert_eq!(body, render_unknown_app("<b>").expect("render"));
    assert!(body.contains("&lt;b&gt;") && !body.contains("<b>"));
    assert_eq!(app_detail("", 0, &nodes).0, 404);
}
