use attestation_portal::compose::{image_rows, parse_release_version};
use attestation_portal::page::{
    aggregate_status, app_display_name, freshness, gateway_domain, humanize_age, summary_of,
    Freshness, StoredNode, Summary,
};
use attestation_portal::report::{CvmAttestation, Measurements, NodeReport, Role};
use attestation_portal::template::{render_app, render_index, render_unknown_app};
use attestation_portal::verify::{CvmVerdict, DecodedReport};
fn sample_measurements() -> Measurements {
    Measurements {
        mrtd: "aa11".repeat(24),
        rtmr0: "bb22".repeat(24),
        rtmr1: "cc33".repeat(24),
        rtmr2: "dd44".repeat(24),
        rtmr3: "ee55".repeat(24),
    }
}

fn sample_cvm(name: &str) -> CvmAttestation {
    CvmAttestation {
        vm_id: "vm-1".to_string(),
        name: name.to_string(),
        role: Role::Worker,
        network: Some("mainnet".to_string()),
        status: "running".to_string(),
        uptime: Some("3d 4h".to_string()),
        app_id: "abc123app".to_string(),
        instance_id: None,
        compose_hash: Some("c0ffee".to_string()),
        device_id: None,
        mr_aggregated: Some("aggr-hash".to_string()),
        os_image_hash: Some("os-hash".to_string()),
        os_version: Some("dstack-0.5.11".to_string()),
        measurements: Some(sample_measurements()),
        image_digests: vec!["repo@sha256:deadbeef".to_string()],
        app_compose: None,
        key_provider: Some("kms".to_string()),
        app_cert_pem: None,
        event_log: Vec::new(),
        error: None,
    }
}

fn sample_decoded() -> DecodedReport {
    DecodedReport {
        mrtd: "11".repeat(48),
        rtmr0: "22".repeat(48),
        rtmr1: "33".repeat(48),
        rtmr2: "44".repeat(48),
        rtmr3: "55".repeat(48),
        report_data: "66".repeat(64),
        mr_seam: "77".repeat(48),
        mr_signer_seam: "88".repeat(48),
        tee_tcb_svn: "99".repeat(16),
        td_attributes: "0000001000000000".to_string(),
        xfam: "e702060000000000".to_string(),
        fmspc: Some("B0C06F000000".to_string()),
        quote_hex: "0400020081deadbeef".to_string(),
    }
}

fn approved_verdict() -> CvmVerdict {
    CvmVerdict {
        vm_id: "vm-1".to_string(),
        sig_valid: true,
        tcb_status: Some("UpToDate".to_string()),
        advisory_ids: Vec::new(),
        fmspc: Some("B0C06F000000".to_string()),
        decoded: Some(sample_decoded()),
        quote_measurements_match: Some(true),
        on_chain_approved: Some(true),
        on_chain_contract: Some("worker.outlayer.mainnet".to_string()),
        error: None,
        verified_at: 0,
    }
}

/// Build a one-node `StoredNode` set for the render-fn tests, given a report + verdicts. The
/// borrowed pair must outlive the call, so callers hold `report`/`verdicts` in locals.
fn stored<'a>(report: &'a NodeReport, verdicts: &'a [CvmVerdict]) -> Vec<StoredNode<'a>> {
    vec![StoredNode { received_at: 5, report, verdicts }]
}

/// A worker instance with a distinct `vm_id`/`name`, sharing `app_id == "abc123app"`. Used to
/// build the multi-instance-per-app_id index/grouping tests.
fn instance(vm_id: &str, name: &str) -> CvmAttestation {
    let mut c = sample_cvm(name);
    c.vm_id = vm_id.to_string();
    c
}

/// `approved_verdict` retargeted to `vm_id` so it matches a specific instance.
fn verdict_for(vm_id: &str) -> CvmVerdict {
    CvmVerdict { vm_id: vm_id.to_string(), ..approved_verdict() }
}

// ----------------------------- INDEX (list) -----------------------------

/// The index renders one compact row per CVM, links it to `/app/<app_id>`, and shows the green
/// "✓ Verified" summary chip for an approved CVM (under its node header).
#[test]
fn index_lists_rows_with_link_and_verified_summary() {
    let report = NodeReport {
        node_id: "node-tdx-dal-2".to_string(),
        collected_at: 100,
        cvms: vec![sample_cvm("mainnet-worker-1")],
    };
    let verdicts = [approved_verdict()];
    let html = render_index(200, &stored(&report, &verdicts)).expect("render");

    // Node header + role + network present.
    assert!(html.contains("node-tdx-dal-2"), "node id missing");
    assert!(html.contains("Worker"), "role label missing");
    assert!(html.contains("mainnet"), "network badge missing");
    // The row links to the per-app detail page, keyed by app_id.
    assert!(
        html.contains("href=\"/app/abc123app\""),
        "row link to /app/<app_id> missing"
    );
    // Compact GREEN verdict summary for an approved CVM.
    assert!(html.contains("✓ Verified"), "compact Verified summary missing");
    // Freshness pill on the node header.
    assert!(html.contains("ago"), "freshness string missing");
    // Display name has the trailing instance-number suffix trimmed.
    assert!(html.contains("mainnet-worker"), "trimmed display name missing");
    // A single-instance app shows NO multi-instance count marker.
    assert!(
        !html.contains("instances"),
        "single-instance app must not show an 'N instances' marker"
    );
    // The list is light — no decoded quote / section headings leak into it.
    assert!(
        !html.contains("<h3>TDX Hardware"),
        "detail section heading leaked into the index list"
    );
    assert!(
        !html.contains("0400020081deadbeef"),
        "raw quote hex leaked into the index list"
    );
}

/// Two CVMs that SHARE one app_id collapse into ONE index row carrying a "2 instances" marker
/// and a single link to `/app/<that app_id>` — not two rows, not two links.
#[test]
fn index_groups_instances_sharing_app_id_into_one_row() {
    let report = NodeReport {
        node_id: "node-tdx-dal-2".to_string(),
        collected_at: 0,
        cvms: vec![
            instance("vm-a", "mainnet-worker-1"),
            instance("vm-b", "mainnet-worker-2"),
        ],
    };
    let verdicts = [verdict_for("vm-a"), verdict_for("vm-b")];
    let html = render_index(10, &stored(&report, &verdicts)).expect("render");

    // Exactly ONE row link for the shared app_id (count the row-link anchors to /app/abc123app).
    assert_eq!(
        html.matches("href=\"/app/abc123app\"").count(),
        1,
        "two instances sharing one app_id must render exactly one index row/link"
    );
    // The multi-instance count marker is present and reads "2 instances".
    assert!(html.contains("2 instances"), "'2 instances' marker missing");
    // Both instances passed → aggregate is the green Verified chip.
    assert!(html.contains("✓ Verified"), "aggregate Verified chip missing");
    // The two distinct instance names do NOT both leak as separate rows — the row shows the
    // trimmed display name of the first instance.
    assert!(html.contains("mainnet-worker"), "display name missing");
}

/// The aggregate index chip is FAILING when ANY single instance fails (the other passes).
#[test]
fn index_aggregate_fails_if_one_instance_fails() {
    let report = NodeReport {
        node_id: "node-tdx-dal-2".to_string(),
        collected_at: 0,
        cvms: vec![
            instance("vm-a", "mainnet-worker-1"),
            instance("vm-b", "mainnet-worker-2"),
        ],
    };
    // vm-a passes; vm-b is NOT approved on-chain → fails.
    let mut bad = verdict_for("vm-b");
    bad.on_chain_approved = Some(false);
    let verdicts = [verdict_for("vm-a"), bad];
    let html = render_index(10, &stored(&report, &verdicts)).expect("render");

    assert!(
        html.contains("✗ Check failed"),
        "aggregate must fail when one instance fails"
    );
    assert!(
        !html.contains("✓ Verified"),
        "aggregate must not show Verified when one instance fails"
    );
    // Still a single grouped row with the count marker.
    assert_eq!(html.matches("href=\"/app/abc123app\"").count(), 1, "still one row");
    assert!(html.contains("2 instances"), "'2 instances' marker missing");
}

/// A failing verdict (e.g. NOT-approved on-chain) shows the red "✗ Check failed" row summary.
#[test]
fn index_shows_failed_summary() {
    let mut v = approved_verdict();
    v.on_chain_approved = Some(false);
    let report = NodeReport {
        node_id: "node-bad".to_string(),
        collected_at: 0,
        cvms: vec![sample_cvm("mainnet-worker-1")],
    };
    let verdicts = [v];
    let html = render_index(10, &stored(&report, &verdicts)).expect("render");
    assert!(html.contains("✗ Check failed"), "red Check-failed summary missing");
}

/// No verdict yet → the row shows the grey "verifying…" summary.
#[test]
fn index_shows_pending_summary() {
    let report = NodeReport {
        node_id: "node-pending".to_string(),
        collected_at: 0,
        cvms: vec![sample_cvm("testnet-keystore-1")],
    };
    let html = render_index(10, &stored(&report, &[])).expect("render");
    assert!(html.contains("verifying"), "pending summary not rendered");
}

/// A `<script>` injected into a CVM name MUST come out escaped on the INDEX list (auto-escaping,
/// no XSS). The node id's injected tag is escaped too.
#[test]
fn index_escapes_injected_script_in_name() {
    let mut cvm = sample_cvm("<script>alert(1)</script>");
    cvm.network = None;
    let report = NodeReport {
        node_id: "n<script>".to_string(),
        collected_at: 0,
        cvms: vec![cvm],
    };
    let verdicts = [approved_verdict()];
    let html = render_index(10, &stored(&report, &verdicts)).expect("render");

    assert!(
        !html.contains("<script>alert(1)</script>"),
        "raw <script> from name leaked into the index — XSS!"
    );
    assert!(html.contains("&lt;script&gt;alert(1)&lt;/script&gt;"), "name not escaped");
    assert!(html.contains("n&lt;script&gt;"), "node id not escaped");
}

/// Empty report set → the friendly empty-state message.
#[test]
fn renders_empty_state() {
    let html = render_index(10, &[]).expect("render");
    assert!(
        html.to_lowercase().contains("no nodes"),
        "empty state message missing"
    );
}

// ----------------------------- DETAIL (/app/:app_id) -----------------------------

/// The detail page for a known app_id carries the full section layout, the decoded quote, the
/// on-chain "approved" marker, the honest disclaimer, the back-link, and the proof link.
#[test]
fn detail_renders_full_sections_for_known_app() {
    let report = NodeReport {
        node_id: "node-tdx-dal-2".to_string(),
        collected_at: 100,
        cvms: vec![sample_cvm("mainnet-worker-1")], // app_id == "abc123app"
    };
    let verdicts = [approved_verdict()];
    let html = render_app("abc123app", 200, &stored(&report, &verdicts))
        .expect("render")
        .expect("known app id should render Some");

    // Back-link to the list.
    assert!(html.contains("href=\"/\""), "back-link to / missing");
    assert!(html.contains("all workers"), "back-link label missing");
    // On-chain approval surfaced with the contract id.
    assert!(html.contains("approved"), "approval marker missing");
    assert!(html.contains("worker.outlayer.mainnet"), "contract id missing");
    // Honest verifier label — DCAP, never an affirmative ITA/Trust-Authority claim.
    assert!(html.contains("Intel DCAP"), "DCAP verifier label missing");
    assert!(!html.contains("ITA Certified"), "must not claim ITA Certified");
    assert!(
        !html.contains("Trust Authority Certified"),
        "must not claim Trust Authority certification"
    );
    assert!(
        html.contains("not Intel Trust Authority"),
        "honest 'not ITA' disclaimer missing"
    );
    // Decoded-from-quote fields (an rtmr + the fmspc) and the raw quote hex.
    assert!(html.contains(&"22".repeat(48)), "decoded rtmr0 hex missing");
    assert!(html.contains("B0C06F000000"), "fmspc missing");
    assert!(html.contains("0400020081deadbeef"), "raw quote hex missing");
    // Section headers of the layout.
    assert!(html.contains("TDX Hardware"), "TDX hardware section missing");
    assert!(html.contains("Source Code"), "compose section missing");
    assert!(html.contains("Zero Trust Gateway"), "gateway section missing");
    assert!(html.contains("App OS"), "app-os section missing");
    // KMS / Root-of-Trust section (heading is "KMS — deploy-time key provisioning").
    assert!(html.contains("KMS — deploy-time key provisioning"), "kms section missing");
    // Computed gateway domain for a worker.
    assert!(
        html.contains("abc123app-8081.dstack.outlayer.ai"),
        "computed gateway domain missing"
    );
    // Independent-verify link present.
    assert!(html.contains("https://proof.t16z.com"), "proof link missing");
}

/// Multiple running instances can share one app_id — the detail page renders ALL of them (each
/// its own card), even across different nodes.
#[test]
fn detail_renders_all_instances_sharing_app_id() {
    let mut a = sample_cvm("mainnet-worker-1");
    a.vm_id = "vm-a".to_string();
    let mut b = sample_cvm("mainnet-worker-2");
    b.vm_id = "vm-b".to_string();
    // Same app_id ("abc123app"), two nodes.
    let report_a = NodeReport { node_id: "node-1".to_string(), collected_at: 0, cvms: vec![a] };
    let report_b = NodeReport { node_id: "node-2".to_string(), collected_at: 0, cvms: vec![b] };
    let verdicts: [CvmVerdict; 0] = [];
    let nodes = vec![
        StoredNode { received_at: 5, report: &report_a, verdicts: &verdicts },
        StoredNode { received_at: 5, report: &report_b, verdicts: &verdicts },
    ];
    let html = render_app("abc123app", 10, &nodes)
        .expect("render")
        .expect("known app id should render Some");

    // Both instances' names appear, and there are two cards (count the article open tags, not
    // CSS selectors).
    assert!(html.contains("mainnet-worker-1"), "first instance missing");
    assert!(html.contains("mainnet-worker-2"), "second instance missing");
    assert_eq!(
        html.matches("<article class=\"card").count(),
        2,
        "expected two instance cards"
    );
    // Each card carries the per-instance "instance N of M" disambiguator and its vm_id.
    assert!(html.contains("instance 1 of 2"), "instance 1 of 2 marker missing");
    assert!(html.contains("instance 2 of 2"), "instance 2 of 2 marker missing");
    assert!(html.contains("vm-a"), "first vm_id missing");
    assert!(html.contains("vm-b"), "second vm_id missing");
}

/// A SINGLE-instance app detail page shows NO "instance N of M" marker (only multi-instance apps
/// get the disambiguator).
#[test]
fn detail_single_instance_has_no_instance_marker() {
    let report = NodeReport {
        node_id: "node-1".to_string(),
        collected_at: 0,
        cvms: vec![sample_cvm("mainnet-worker-1")],
    };
    let verdicts = [approved_verdict()];
    let html = render_app("abc123app", 10, &stored(&report, &verdicts))
        .expect("render")
        .expect("Some");
    assert!(
        !html.contains("instance 1 of"),
        "single-instance app must not show an 'instance N of M' marker"
    );
}

/// A `<script>` injected into a CVM name OR app_compose MUST come out escaped on the DETAIL page
/// — proves auto-escaping (no XSS) across both the header and the compose block.
#[test]
fn detail_escapes_injected_script_in_name_and_compose() {
    let mut cvm = sample_cvm("<script>alert(1)</script>");
    cvm.network = None;
    cvm.app_compose = Some("{\"x\":\"<script>steal()</script>\"}".to_string());
    let report = NodeReport {
        node_id: "n<script>".to_string(),
        collected_at: 0,
        cvms: vec![cvm],
    };
    let verdicts = [approved_verdict()];
    let html = render_app("abc123app", 10, &stored(&report, &verdicts))
        .expect("render")
        .expect("Some");

    assert!(
        !html.contains("<script>alert(1)</script>"),
        "raw <script> from name leaked into HTML — XSS!"
    );
    assert!(
        !html.contains("<script>steal()</script>"),
        "raw <script> from app_compose leaked into HTML — XSS!"
    );
    assert!(html.contains("&lt;script&gt;alert(1)&lt;/script&gt;"), "name not escaped");
    assert!(html.contains("&lt;script&gt;steal()&lt;/script&gt;"), "compose not escaped");
}

/// An unknown app_id → `render_app` returns `None`, and the friendly-404 body has the
/// "no worker found" message + a link back to `/` (and does NOT panic).
#[test]
fn unknown_app_id_returns_none_then_friendly_404_body() {
    let report = NodeReport {
        node_id: "node-1".to_string(),
        collected_at: 0,
        cvms: vec![sample_cvm("mainnet-worker-1")], // app_id == "abc123app"
    };
    let verdicts = [approved_verdict()];
    let out = render_app("does-not-exist", 10, &stored(&report, &verdicts)).expect("render");
    assert!(out.is_none(), "unknown app id must yield None (handler maps to 404)");

    // An empty app_id never matches either.
    assert!(
        render_app("", 10, &stored(&report, &verdicts)).expect("render").is_none(),
        "empty app id must yield None"
    );

    // The friendly-404 body renders, names the missing id (escaped), and links back to /.
    let body = render_unknown_app("does-not-exist").expect("render 404 body");
    assert!(
        body.to_lowercase().contains("no worker found"),
        "friendly-404 message missing"
    );
    assert!(body.contains("does-not-exist"), "missing app id not echoed");
    assert!(body.contains("href=\"/\""), "404 back-link to / missing");
}

/// `summary_of` collapses the per-facet verdict into the right tri-state.
#[test]
fn summary_tri_state() {
    let v = approved_verdict();
    assert_eq!(summary_of(Some(&v)), Summary::Verified);
    assert_eq!(summary_of(None), Summary::Pending);

    let mut bad_sig = approved_verdict();
    bad_sig.sig_valid = false;
    assert_eq!(summary_of(Some(&bad_sig)), Summary::Failed);

    let mut not_approved = approved_verdict();
    not_approved.on_chain_approved = Some(false);
    assert_eq!(summary_of(Some(&not_approved)), Summary::Failed);

    let mut stale_tcb = approved_verdict();
    stale_tcb.tcb_status = Some("OutOfDate".to_string());
    assert_eq!(summary_of(Some(&stale_tcb)), Summary::Failed);

    // n/a on-chain (kms/gateway) is NOT a failure on its own.
    let mut na = approved_verdict();
    na.on_chain_approved = None;
    na.on_chain_contract = None;
    assert_eq!(summary_of(Some(&na)), Summary::Verified);
}

/// `Summary::aggregate` folds a group with Failed dominating, then Pending, then Verified.
#[test]
fn summary_aggregate_folds_with_failed_dominating() {
    // Any Failed → Failed, regardless of the rest.
    assert_eq!(Summary::aggregate(&[Summary::Verified, Summary::Failed, Summary::Pending]), Summary::Failed);
    assert_eq!(Summary::aggregate(&[Summary::Failed, Summary::Verified]), Summary::Failed);
    // No Failed but some Pending → Pending.
    assert_eq!(Summary::aggregate(&[Summary::Verified, Summary::Pending]), Summary::Pending);
    // All Verified → Verified.
    assert_eq!(Summary::aggregate(&[Summary::Verified, Summary::Verified]), Summary::Verified);
    assert_eq!(Summary::aggregate(&[Summary::Verified]), Summary::Verified);
    // Empty (never a real app row) → Pending.
    assert_eq!(Summary::aggregate(&[]), Summary::Pending);
}

/// `app_display_name` trims only an obvious trailing `-<digits>` instance suffix.
#[test]
fn app_display_name_trims_instance_suffix() {
    assert_eq!(app_display_name("mainnet-worker-1"), "mainnet-worker");
    assert_eq!(app_display_name("testnet-keystore-02"), "testnet-keystore");
    // No numeric suffix → unchanged.
    assert_eq!(app_display_name("dstack-gateway"), "dstack-gateway");
    assert_eq!(app_display_name("kms"), "kms");
    // A name that is only digits, or only a suffix, is kept intact (nothing meaningful remains).
    assert_eq!(app_display_name("42"), "42");
    assert_eq!(app_display_name("-1"), "-1");
}

/// `aggregate_status` shows the shared status when all agree, else a compact mixed indicator.
#[test]
fn aggregate_status_collapses_or_marks_mixed() {
    assert_eq!(aggregate_status(&["running", "running"]), "running");
    assert_eq!(aggregate_status(&["running"]), "running");
    assert_eq!(aggregate_status(&["running", "exited"]), "1 running / 2");
    assert_eq!(aggregate_status(&["exited", "stopped"]), "mixed");
}

/// An older agent that doesn't carry `app_compose` must degrade gracefully on the detail page.
#[test]
fn detail_compose_not_reported_degrades() {
    let report = NodeReport {
        node_id: "node-old-agent".to_string(),
        collected_at: 0,
        cvms: vec![sample_cvm("mainnet-worker-1")], // app_compose: None
    };
    let verdicts = [approved_verdict()];
    let html = render_app("abc123app", 10, &stored(&report, &verdicts))
        .expect("render")
        .expect("Some");
    assert!(
        html.contains("compose not reported yet"),
        "graceful compose-missing message absent"
    );
}

/// A reported app_compose is shown (its content appears) in the detail Source Code section.
#[test]
fn detail_renders_app_compose() {
    let mut cvm = sample_cvm("mainnet-worker-1");
    cvm.app_compose = Some("{\"docker_compose_file\":\"services: {}\"}".to_string());
    let report = NodeReport {
        node_id: "node-compose".to_string(),
        collected_at: 0,
        cvms: vec![cvm],
    };
    let verdicts = [approved_verdict()];
    let html = render_app("abc123app", 10, &stored(&report, &verdicts))
        .expect("render")
        .expect("Some");
    assert!(html.contains("docker_compose_file"), "compose content missing");
}

/// A NOT-approved on-chain result flips the detail verdict card to failing + the loud marker.
#[test]
fn detail_not_approved_is_failing() {
    let mut v = approved_verdict();
    v.on_chain_approved = Some(false);
    let report = NodeReport {
        node_id: "node-bad".to_string(),
        collected_at: 0,
        cvms: vec![sample_cvm("mainnet-worker-1")],
    };
    let verdicts = [v];
    let html = render_app("abc123app", 10, &stored(&report, &verdicts))
        .expect("render")
        .expect("Some");
    assert!(html.contains("NOT approved"), "loud not-approved marker missing");
}

/// An app-compose with a name and a compose file.
fn app_compose(name: &str, file: &str) -> String {
    let mut members = serde_json::Map::new();
    members.insert("name".to_string(), serde_json::Value::String(name.to_string()));
    members.insert(
        "docker_compose_file".to_string(),
        serde_json::Value::String(file.to_string()),
    );
    serde_json::Value::Object(members).to_string()
}

/// A realistic app-compose (OutLayer worker) → the Sigstore image table parses one OutLayer row
/// with the right image, digest, Sigstore verify link, and a release link from the compose name.
fn worker_app_compose() -> String {
    app_compose(
        "outlayer-worker-testnet-0.1.35",
        "# header comment\nservices:\n  worker:\n    image: docker.io/outlayer/near-outlayer-worker@sha256:f12c9a981e886fab5cb53709ed35247318531dc4c3abdfa93effbb5e4ffe94bf\n    restart: on-failure:5\n",
    )
}

#[test]
fn image_table_parses_outlayer_image() {
    let rows = image_rows(Some(&worker_app_compose()));
    assert_eq!(rows.len(), 1, "expected exactly one image row");
    let r = &rows[0];
    assert_eq!(r.container, "worker");
    assert_eq!(r.image, "docker.io/outlayer/near-outlayer-worker");
    assert_eq!(
        r.digest,
        "sha256:f12c9a981e886fab5cb53709ed35247318531dc4c3abdfa93effbb5e4ffe94bf"
    );
    assert_eq!(
        r.sigstore_url,
        "https://search.sigstore.dev/?hash=sha256:f12c9a981e886fab5cb53709ed35247318531dc4c3abdfa93effbb5e4ffe94bf"
    );
    assert_eq!(
        r.release_url.as_deref(),
        Some("https://github.com/fastnear/near-outlayer/releases/tag/v0.1.35")
    );
    assert_eq!(r.origin, "OutLayer-built");
}

#[test]
fn image_table_marks_non_outlayer_as_system_image() {
    let compose = app_compose(
        "kms",
        "services:\n  kms:\n    image: dstacktee/dstack-kms@sha256:84b793feed825a5b5e70d04386e931e0e110461492793f17ab2128e39808d989\n",
    );
    let rows = image_rows(Some(&compose));
    assert_eq!(rows.len(), 1);
    assert_eq!(rows[0].origin, "dstack system image");
    assert!(rows[0].release_url.is_none(), "system image must not get a release link");
    assert!(rows[0].digest.starts_with("sha256:"));
}

#[test]
fn parse_release_version_only_dotted_numeric() {
    assert_eq!(
        parse_release_version("outlayer-worker-testnet-0.1.35").as_deref(),
        Some("0.1.35")
    );
    assert_eq!(parse_release_version("kms"), None);
    assert_eq!(parse_release_version("dstack-gateway"), None);
}

/// The rendered DETAIL page must avoid Phala / PCCS / dcap-qvl naming and MUST carry the Sigstore verify link + a measured digest in the source-code table.
#[test]
fn page_is_intel_direct_and_has_sigstore_table() {
    let mut cvm = sample_cvm("testnet-worker-1");
    cvm.app_compose = Some(worker_app_compose());
    cvm.os_version = Some("dstack-0.5.11".to_string());
    let report = NodeReport {
        node_id: "node-tdx-dal-2".to_string(),
        collected_at: 0,
        cvms: vec![cvm],
    };
    let verdicts = [approved_verdict()];
    let html = render_app("abc123app", 10, &stored(&report, &verdicts))
        .expect("render")
        .expect("Some");

    // No Phala / PCCS / dcap-qvl in the RENDERED output.
    assert!(!html.contains("Phala"), "rendered page must not name Phala");
    assert!(!html.contains("PCCS"), "rendered page must not name PCCS");
    assert!(!html.contains("dcap-qvl"), "rendered page must not name dcap-qvl");
    // Intel-direct framing present.
    assert!(html.contains("Intel's PCS"), "Intel PCS framing missing");
    assert!(
        html.contains("not Intel Trust Authority"),
        "honest 'not ITA' disclaimer missing"
    );
    // Sigstore verify link + a measured digest.
    assert!(
        html.contains("https://search.sigstore.dev/?hash=sha256:"),
        "sigstore verify link missing"
    );
    assert!(
        html.contains("sha256:f12c9a981e886fab5cb53709ed35247318531dc4c3abdfa93effbb5e4ffe94bf"),
        "measured digest missing from table"
    );
    // The release link for an OutLayer image.
    assert!(
        html.contains("https://github.com/fastnear/near-outlayer/releases/tag/v0.1.35"),
        "release link missing"
    );
    // Dynamic OS version rendered (no hardcoded label).
    assert!(html.contains("dstack-0.5.11"), "dynamic os_version missing");
    assert!(html.contains("os_version"), "os_version row label missing");
}

#[test]
fn gateway_domain_by_role() {
    assert_eq!(
        gateway_domain(Role::Keystore, "appid"),
        Some("appid-8081.dstack.outlayer.ai".to_string())
    );
    assert_eq!(
        gateway_domain(Role::Worker, "appid"),
        Some("appid-8081.dstack.outlayer.ai".to_string())
    );
    assert_eq!(gateway_domain(Role::Kms, "appid"), None);
    assert_eq!(gateway_domain(Role::Gateway, "appid"), None);
    assert_eq!(gateway_domain(Role::Worker, ""), None);
}

#[test]
fn freshness_buckets() {
    assert_eq!(freshness(1000, 999), Freshness::Live);
    assert_eq!(freshness(1000, 400), Freshness::Stale);
    assert_eq!(freshness(10_000, 0), Freshness::Dead);
}

#[test]
fn humanize_age_units() {
    assert_eq!(humanize_age(100, 99), "just now");
    assert_eq!(humanize_age(100, 70), "30s ago");
    assert_eq!(humanize_age(1000, 400), "10m ago");
    assert_eq!(humanize_age(10_000, 0), "2h ago");
    assert_eq!(humanize_age(200_000, 0), "2d ago");
}
