use attestation_portal::page::{
    aggregate_status, app_display_name, build_app_row, build_cards, build_cvm, build_node_list,
    build_verdict, decoded_report_view, freshness, gateway_domain, group_by_app, humanize_age,
    measurement_rows, role_label, summary_of, Freshness, OnChain, StoredNode, Summary, VerdictView,
};
use attestation_portal::report::{CvmAttestation, Measurements, NodeReport, Role};
use attestation_portal::template::{
    render_app, render_index, render_unknown_app, AppDetailPage, IndexPage, UnknownAppPage,
};
use attestation_portal::verify::{CvmVerdict, DecodedReport};

fn cvm(vm_id: &str, app_id: &str) -> CvmAttestation {
    CvmAttestation {
        vm_id: vm_id.to_string(),
        name: format!("mainnet-worker-{vm_id}"),
        role: Role::Worker,
        network: Some("mainnet".to_string()),
        status: "running".to_string(),
        uptime: None,
        app_id: app_id.to_string(),
        instance_id: None,
        compose_hash: None,
        device_id: None,
        mr_aggregated: None,
        os_image_hash: None,
        os_version: None,
        measurements: None,
        image_digests: Vec::new(),
        app_compose: None,
        key_provider: None,
        app_cert_pem: None,
        event_log: Vec::new(),
        error: None,
    }
}

fn good(vm_id: &str) -> CvmVerdict {
    let mut v = CvmVerdict::new(vm_id.to_string(), 0);
    v.sig_valid = true;
    v.tcb_status = Some("UpToDate".to_string());
    v
}

fn node(node_id: &str, cvms: Vec<CvmAttestation>) -> NodeReport {
    NodeReport { node_id: node_id.to_string(), collected_at: 0, cvms }
}

#[test]
fn ages_are_bucketed_at_their_bounds() {
    assert_eq!(freshness(599, 0), Freshness::Live);
    assert_eq!(freshness(600, 0), Freshness::Stale);
    assert_eq!(freshness(3600, 0), Freshness::Stale);
    assert_eq!(freshness(3601, 0), Freshness::Dead);
    assert_eq!(freshness(0, u64::MAX), Freshness::Live);
    assert_eq!(humanize_age(0, u64::MAX), "just now");
    assert_eq!(humanize_age(4, 0), "just now");
    assert_eq!(humanize_age(5, 0), "5s ago");
    assert_eq!(humanize_age(59, 0), "59s ago");
    assert_eq!(humanize_age(60, 0), "1m ago");
    assert_eq!(humanize_age(3599, 0), "59m ago");
    assert_eq!(humanize_age(3600, 0), "1h ago");
    assert_eq!(humanize_age(86_399, 0), "23h ago");
    assert_eq!(humanize_age(86_400, 0), "1d ago");
}

#[test]
fn labels_and_classes() {
    assert_eq!(Freshness::Live.class(), "live");
    assert_eq!(Freshness::Stale.class(), "stale");
    assert_eq!(Freshness::Dead.class(), "dead");
    assert_eq!(OnChain::Approved.class(), "approved");
    assert_eq!(OnChain::NotApproved.class(), "bad");
    assert_eq!(OnChain::NotApplicable.class(), "na");
    assert!(OnChain::Approved.approved() && !OnChain::NotApplicable.approved());
    assert!(OnChain::NotApproved.not_approved() && !OnChain::NotApplicable.not_approved());
    assert_eq!(Summary::Verified.class(), "verified");
    assert_eq!(Summary::Failed.class(), "failed");
    assert_eq!(Summary::Pending.class(), "pending");
    assert_eq!(Summary::Verified.label(), "✓ Verified");
    assert_eq!(Summary::Failed.label(), "✗ Check failed");
    assert_eq!(Summary::Pending.label(), "verifying…");
    assert_eq!(role_label(Role::Kms), "KMS");
    assert_eq!(role_label(Role::Gateway), "Gateway");
    assert_eq!(role_label(Role::Keystore), "Keystore");
    assert_eq!(role_label(Role::Worker), "Worker");
    assert_eq!(role_label(Role::Unknown), "Unknown");
    assert_eq!(VerdictView::tcb_class_of(Some("UpToDate")), "good");
    assert_eq!(VerdictView::tcb_class_of(Some("OutOfDate")), "warn");
    assert_eq!(VerdictView::tcb_class_of(None), "bad");
    assert_eq!(gateway_domain(Role::Unknown, "appid"), None);
}

#[test]
fn chip_and_card_agree() {
    let mut cases = vec![good("v")];
    for k in 0..6 {
        let mut v = good("v");
        match k {
            0 => v.sig_valid = false,
            1 => v.tcb_status = Some("OutOfDate".to_string()),
            2 => v.tcb_status = None,
            3 => v.quote_measurements_match = Some(false),
            4 => v.on_chain_approved = Some(false),
            _ => v.error = Some("x".to_string()),
        }
        assert_eq!(summary_of(Some(&v)), Summary::Failed);
        cases.push(v);
    }
    for v in &cases {
        let card = build_verdict(Some(v));
        assert_eq!(card.failing, summary_of(Some(v)) == Summary::Failed);
        assert!(!card.pending);
    }
    assert!(build_verdict(None).pending && !build_verdict(None).failing);
    assert_eq!(build_verdict(None).tcb_class, "bad");
    assert_eq!(summary_of(None), Summary::Pending);
}

#[test]
fn verdict_is_shown_as_it_is() {
    let mut v = good("v");
    v.on_chain_approved = Some(true);
    v.on_chain_contract = Some("c".to_string());
    v.advisory_ids = vec!["INTEL-SA-1".to_string()];
    v.quote_measurements_match = Some(true);
    let card = build_verdict(Some(&v));
    assert_eq!(card.on_chain, OnChain::Approved);
    assert_eq!(card.on_chain_contract.as_deref(), Some("c"));
    assert_eq!(card.advisory_ids, ["INTEL-SA-1"]);
    assert_eq!(card.measurements_match, Some(true));
    assert_eq!(card.tcb_class, "good");
    assert!(card.sig_valid && !card.failing);
    v.on_chain_approved = Some(false);
    assert_eq!(build_verdict(Some(&v)).on_chain, OnChain::NotApproved);
    v.on_chain_approved = None;
    assert_eq!(build_verdict(Some(&v)).on_chain, OnChain::NotApplicable);
}

#[test]
fn order_of_instances_does_not_matter() {
    let all = [Summary::Verified, Summary::Failed, Summary::Pending];
    for a in all {
        for b in all {
            for c in all {
                assert_eq!(Summary::aggregate(&[a, b, c]), Summary::aggregate(&[c, a, b]));
            }
        }
    }
}

#[test]
fn cvms_are_grouped_without_loss() {
    let cvms = vec![
        cvm("1", "b"),
        cvm("2", "a"),
        cvm("3", "b"),
        cvm("4", ""),
        cvm("5", "a"),
        cvm("6", "b"),
    ];
    let groups: Vec<Vec<&str>> = group_by_app(&cvms)
        .iter()
        .map(|g| g.iter().map(|c| c.vm_id.as_str()).collect())
        .collect();
    assert_eq!(groups, vec![vec!["1", "3", "6"], vec!["2", "5"], vec!["4"]]);
    assert!(group_by_app(&[]).is_empty());
}

#[test]
fn app_row_sums_up_its_instances() {
    let mut second = cvm("2", "a");
    second.status = "Exited".to_string();
    let first = cvm("1", "a");
    let row = build_app_row(&[&first, &second], &[good("1")]);
    assert_eq!(row.name, "mainnet-worker");
    assert_eq!(row.status, "1 running / 2");
    assert_eq!(row.instance_count, 2);
    assert!(row.multi_instance);
    assert_eq!(row.summary_class, "pending");
    let row = build_app_row(&[&first], &[good("1")]);
    assert_eq!((row.summary_class, row.summary_label), ("verified", "✓ Verified"));
    assert!(!row.multi_instance);
    assert_eq!(row.network_label.as_deref(), Some("mainnet"));
    let blank = build_app_row(&[], &[]);
    assert_eq!((blank.instance_count, blank.role_label), (0, "Unknown"));
    assert_eq!(blank.summary_class, "pending");
    assert_eq!(aggregate_status(&[]), "");
    assert_eq!(aggregate_status(&["Running", "running"]), "2 running / 2");
    assert_eq!(app_display_name("a--1"), "a-");
    assert_eq!(app_display_name("a-1-"), "a-1-");
}

#[test]
fn node_shows_one_row_per_app() {
    let report = node("n", vec![cvm("1", "a"), cvm("2", "b"), cvm("3", "a")]);
    let list = build_node_list(4000, 100, &report, &[]);
    assert_eq!((list.node_id.as_str(), list.last_seen_class), ("n", "dead"));
    assert_eq!(list.last_seen_human, "1h ago");
    let counts: Vec<usize> = list.rows.iter().map(|r| r.instance_count).collect();
    assert_eq!(counts, [2, 1]);
}

#[test]
fn first_verdict_on_a_cvm_counts() {
    let mut bad = good("1");
    bad.error = Some("x".to_string());
    let view = build_cvm(&cvm("1", "a"), &[good("0"), bad, good("1")], 1, 1);
    assert!(view.verdict.failing);
    assert_eq!(view.gateway_domain.as_deref(), Some("a-8081.dstack.outlayer.ai"));
}

#[test]
fn registers_are_listed_in_order() {
    let m = Measurements {
        mrtd: "0".to_string(),
        rtmr0: "1".to_string(),
        rtmr1: "2".to_string(),
        rtmr2: "3".to_string(),
        rtmr3: "4".to_string(),
    };
    let rows = measurement_rows(Some(&m));
    let shown: Vec<(&str, &str)> = rows.iter().map(|r| (r.label, r.value.as_str())).collect();
    assert_eq!(
        shown,
        [("mrtd", "0"), ("rtmr0", "1"), ("rtmr1", "2"), ("rtmr2", "3"), ("rtmr3", "4")]
    );
    assert!(measurement_rows(None).is_empty());
    let s = |n: &str| n.to_string();
    let d = DecodedReport {
        mrtd: s("0"),
        rtmr0: s("1"),
        rtmr1: s("2"),
        rtmr2: s("3"),
        rtmr3: s("4"),
        report_data: s("5"),
        mr_seam: s("6"),
        mr_signer_seam: s("7"),
        tee_tcb_svn: s("8"),
        td_attributes: s("9"),
        xfam: s("a"),
        fmspc: Some(s("F")),
        quote_hex: s("q"),
    };
    let view = decoded_report_view(&d);
    let labels: Vec<&str> = view.rows.iter().map(|r| r.label).collect();
    assert_eq!(
        labels,
        [
            "mrtd",
            "rtmr0",
            "rtmr1",
            "rtmr2",
            "rtmr3",
            "report_data",
            "mr_seam",
            "mr_signer_seam",
            "tee_tcb_svn",
            "td_attributes",
            "xfam"
        ]
    );
    let values: String = view.rows.iter().map(|r| r.value.clone()).collect();
    assert_eq!(values, "0123456789a");
    assert_eq!(view.fmspc.as_deref(), Some("F"));
    assert_eq!(view.quote_hex, "q");
}

#[test]
fn cards_number_the_instances_over_all_nodes() {
    let one = node("1", vec![cvm("1", "a"), cvm("2", "b"), cvm("3", "a")]);
    let two = node("2", vec![cvm("4", "a")]);
    let nodes = [
        StoredNode { received_at: 0, report: &one, verdicts: &[good("3"), good("4")] },
        StoredNode { received_at: 0, report: &two, verdicts: &[] },
    ];
    let cards = build_cards("a", &nodes);
    let places: Vec<(&str, usize, usize, bool)> = cards
        .iter()
        .map(|c| (c.vm_id.as_str(), c.instance_index, c.instance_total, c.verdict.pending))
        .collect();
    // A verdict counts only on the node that it was given for.
    assert_eq!(places, [("1", 1, 3, true), ("3", 2, 3, false), ("4", 3, 3, true)]);
    assert!(build_cards("c", &nodes).is_empty());
}

#[test]
fn kms_keys_are_recognised_in_any_case() {
    let mut c = cvm("1", "a");
    assert!(!build_cvm(&c, &[], 1, 1).kms_in_tee);
    c.key_provider = Some("KMS".to_string());
    assert!(build_cvm(&c, &[], 1, 1).kms_in_tee);
    c.key_provider = Some("local-sgx".to_string());
    assert!(!build_cvm(&c, &[], 1, 1).kms_in_tee);
}

#[test]
fn row_without_an_identity_is_not_linked() {
    let report = node("n", vec![cvm("1", "")]);
    let nodes = [StoredNode { received_at: 0, report: &report, verdicts: &[] }];
    let html = render_index(0, &nodes).expect("render");
    assert!(!html.contains("href=\"/app/"));
    assert!(html.contains("<span class=\"name\">mainnet-worker</span>"));
    assert!(html.contains("pill-live") && html.contains("last seen live just now"));
    assert_eq!(
        IndexPage::new(vec![build_node_list(0, 0, &report, &[])]).render_page().expect("render"),
        html
    );
}

#[test]
fn unknown_app_is_named_as_text() {
    let page = UnknownAppPage { app_id: "\"><i>".to_string() }.render_page().expect("render");
    assert!(page.ends_with(
        "<h1>No worker found</h1>\n<p>No worker found for app id &quot;&gt;&lt;i&gt;.</p>\n</body>\n</html>\n"
    ));
    assert_eq!(page, render_unknown_app("\"><i>").expect("render"));
}

#[test]
fn failing_card_is_loud_and_says_why() {
    let mut v = good("1");
    v.sig_valid = false;
    v.tcb_status = None;
    v.error = Some("bad <quote>".to_string());
    v.quote_measurements_match = Some(false);
    v.advisory_ids = vec!["INTEL-SA-2".to_string()];
    let page = AppDetailPage::new("a".to_string(), vec![build_cvm(&cvm("1", "a"), &[v], 1, 1)]);
    assert_eq!(page.proof_explorer_url, "https://proof.t16z.com");
    assert_eq!(page.dstack_releases_url, "https://github.com/Dstack-TEE/meta-dstack/releases");
    let html = page.render_page().expect("render");
    assert!(html.contains("<article class=\"card failing\">"));
    assert!(html.contains("bad &lt;quote&gt;") && html.contains("<li>INTEL-SA-2</li>"));
    assert!(html.contains("signature NOT verified") && html.contains("do NOT match"));
    assert!(html.contains("Claimed by the report, not verified:"));
    assert!(html.contains("https://github.com/Dstack-TEE/meta-dstack/releases"));
    assert!(html.contains("not Intel Trust Authority"));
}

#[test]
fn every_detail_page_keeps_the_disclaimer() {
    for count in 1..4 {
        let cvms: Vec<CvmAttestation> = (0..count).map(|i| cvm(&i.to_string(), "a")).collect();
        let report = node("n", cvms);
        let nodes = [StoredNode { received_at: 0, report: &report, verdicts: &[] }];
        let html = render_app("a", 0, &nodes).expect("render").expect("known");
        assert_eq!(html.matches("not Intel Trust Authority").count(), 1);
        assert_eq!(html.matches("<article class=\"card").count(), count);
    }
}
