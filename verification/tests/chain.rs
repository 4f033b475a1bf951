use attestation_portal::dcap::{TdReport, VerifiedQuote};
use attestation_portal::onchain::{
    answer_bytes, approval_args, approval_contract, approval_query, approval_request,
    check_on_chain, http_success, near_tla, rpc_url, value_approval, ChainError, RpcAnswer,
    RpcReply,
};
use attestation_portal::report::{CvmAttestation, Measurements, Role};
use attestation_portal::verify::{
    chain_replied, measurements_eq, quote_measurements, quote_verified, CvmVerdict, VerifyStep,
};

fn measurements() -> Measurements {
    Measurements {
        mrtd: "a0".to_string(),
        rtmr0: "b1".to_string(),
        rtmr1: "c2".to_string(),
        rtmr2: "d3".to_string(),
        rtmr3: "e4".to_string(),
    }
}

fn cvm(role: Role, network: Option<&str>, measurements: Option<Measurements>) -> CvmAttestation {
    CvmAttestation {
        vm_id: "vm".to_string(),
        name: "n".to_string(),
        role,
        network: network.map(|n| n.to_string()),
        status: "running".to_string(),
        uptime: None,
        app_id: "app".to_string(),
        instance_id: None,
        compose_hash: None,
        device_id: None,
        mr_aggregated: None,
        os_image_hash: None,
        os_version: None,
        measurements,
        image_digests: Vec::new(),
        app_compose: None,
        key_provider: None,
        app_cert_pem: None,
        event_log: Vec::new(),
        error: None,
    }
}

fn td() -> TdReport {
    TdReport {
        mr_td: [0xab; 48],
        rt_mr0: [0; 48],
        rt_mr1: [1; 48],
        rt_mr2: [2; 48],
        rt_mr3: [3; 48],
        report_data: [4; 64],
        mr_seam: [5; 48],
        mr_signer_seam: [6; 48],
        tee_tcb_svn: [7; 16],
        td_attributes: [8; 8],
        xfam: [9; 8],
    }
}

fn verified(td: Option<TdReport>) -> VerifiedQuote {
    VerifiedQuote {
        status: "OutOfDate".to_string(),
        advisory_ids: vec!["INTEL-SA-1".to_string()],
        td,
    }
}

fn fresh() -> CvmVerdict {
    CvmVerdict::new("vm".to_string(), 3)
}

fn answered(body: &str) -> RpcReply {
    RpcReply::Answered {
        code: 200,
        status: "200 OK".to_string(),
        body: Ok(body.as_bytes().to_vec()),
    }
}

fn failure(reply: RpcReply) -> String {
    check_on_chain(reply).expect_err("an error").text()
}

#[test]
fn networks_have_fixed_endpoints_and_suffixes() {
    assert_eq!(rpc_url("mainnet"), Some("https://rpc.mainnet.fastnear.com"));
    assert_eq!(rpc_url("testnet"), Some("https://rpc.testnet.fastnear.com"));
    assert_eq!(rpc_url("Mainnet"), None);
    assert_eq!(near_tla("mainnet"), Some("near"));
    assert_eq!(near_tla("testnet"), Some("testnet"));
    assert_eq!(near_tla(""), None);
    assert_eq!(approval_contract(Role::Worker, "devnet"), None);
}

#[test]
fn view_args_are_json_in_order() {
    assert_eq!(
        approval_args(&measurements()),
        "{\"measurements\":{\"mrtd\":\"a0\",\"rtmr0\":\"b1\",\"rtmr1\":\"c2\",\"rtmr2\":\"d3\",\"rtmr3\":\"e4\"}}"
    );
}

#[test]
fn view_args_escape_what_json_escapes() {
    let m = Measurements {
        mrtd: "q\"\\".to_string(),
        rtmr0: "\u{8}\u{9}\u{a}\u{c}\u{d}".to_string(),
        rtmr1: "\u{1}\u{1f} ".to_string(),
        rtmr2: "é€😀".to_string(),
        rtmr3: "</x>".to_string(),
    };
    let args = approval_args(&m);
    assert_eq!(
        args,
        "{\"measurements\":{\"mrtd\":\"q\\\"\\\\\",\"rtmr0\":\"\\b\\t\\n\\f\\r\",\"rtmr1\":\"\\u0001\\u001f \",\"rtmr2\":\"é€😀\",\"rtmr3\":\"</x>\"}}"
    );
    let back: serde_json::Value = serde_json::from_str(&args).expect("json");
    assert_eq!(back["measurements"]["rtmr0"], "\u{8}\u{9}\u{a}\u{c}\u{d}");
}

#[test]
fn request_carries_the_args_in_base64() {
    let body = approval_request("worker.outlayer.near", &measurements());
    assert_eq!(
        body,
        "{\"jsonrpc\":\"2.0\",\"id\":\"1\",\"method\":\"query\",\"params\":{\"request_type\":\"call_function\",\"finality\":\"final\",\"account_id\":\"worker.outlayer.near\",\"method_name\":\"is_measurements_approved\",\"args_base64\":\"eyJtZWFzdXJlbWVudHMiOnsibXJ0ZCI6ImEwIiwicnRtcjAiOiJiMSIsInJ0bXIxIjoiYzIiLCJydG1yMiI6ImQzIiwicnRtcjMiOiJlNCJ9fQ==\"}}"
    );
    let query = approval_query("c.near", "mainnet", &measurements()).expect("query");
    assert_eq!(query.url, "https://rpc.mainnet.fastnear.com");
    assert_eq!(query.body, approval_request("c.near", &measurements()));
    assert_eq!(
        approval_query("c", "devnet", &measurements()).expect_err("no url").text(),
        "no RPC URL for network devnet"
    );
}

#[test]
fn explicit_answers_are_taken() {
    let yes = "{\"jsonrpc\":\"2.0\",\"result\":{\"block\":1,\"result\":[116,114,117,101]}}";
    let no = "{\"result\":{\"result\":[102,97,108,115,101]}}";
    assert!(check_on_chain(answered(yes)).expect("yes"));
    assert!(!check_on_chain(answered(no)).expect("no"));
}

#[test]
fn whatever_else_comes_back_is_an_error() {
    assert_eq!(
        failure(RpcReply::ClientFailed("no TLS".to_string())),
        "build RPC client: no TLS"
    );
    assert_eq!(
        failure(RpcReply::RequestFailed("timed out".to_string())),
        "RPC request: timed out"
    );
    assert_eq!(
        failure(RpcReply::Answered {
            code: 500,
            status: "500 Internal Server Error".to_string(),
            body: Ok(b"{\"result\":{\"result\":[116,114,117,101]}}".to_vec()),
        }),
        "RPC HTTP 500 Internal Server Error"
    );
    assert_eq!(
        failure(RpcReply::Answered {
            code: 200,
            status: "200 OK".to_string(),
            body: Err("connection reset".to_string()),
        }),
        "decode RPC JSON: connection reset"
    );
    assert_eq!(
        failure(answered("{")),
        "decode RPC JSON: error decoding response body: EOF while parsing an object at line 1 column 1"
    );
    assert_eq!(
        failure(answered(
            "{\"error\":{\"code\":-32000},\"result\":{\"result\":[116,114,117,101]}}"
        )),
        "RPC error: {\"code\":-32000}"
    );
    assert_eq!(failure(answered("{\"result\":{}}")), "RPC response missing result.result");
    assert_eq!(failure(answered("[]")), "RPC response missing result.result");
    assert!(failure(answered("{\"result\":{\"result\":\"true\"}}"))
        .starts_with("result.result is not a byte array: "));
    assert!(failure(answered("{\"result\":{\"result\":[256]}}"))
        .starts_with("result.result is not a byte array: "));
    assert!(failure(answered("{\"result\":{\"result\":[116,114]}}"))
        .starts_with("view return value is not JSON: "));
    assert_eq!(
        failure(answered("{\"result\":{\"result\":[49]}}")),
        "is_measurements_approved did not return a bool"
    );
}

#[test]
fn an_error_comes_before_any_result() {
    let answer = |error: Option<&str>, result| RpcAnswer {
        error: error.map(|e| e.to_string()),
        result,
    };
    assert!(matches!(
        answer_bytes(answer(Some("x"), Some(Ok(vec![1])))),
        Err(ChainError::Rpc(_))
    ));
    assert!(matches!(answer_bytes(answer(None, None)), Err(ChainError::NoResult)));
    assert!(matches!(
        answer_bytes(answer(None, Some(Err("no".to_string())))),
        Err(ChainError::NotBytes(_))
    ));
    assert_eq!(answer_bytes(answer(None, Some(Ok(vec![1, 2])))).expect("bytes"), vec![1, 2]);
    assert!(matches!(value_approval(Err("x".to_string())), Err(ChainError::NotJson(_))));
    assert!(matches!(value_approval(Ok(None)), Err(ChainError::NotBool)));
    assert!(value_approval(Ok(Some(true))).expect("yes"));
}

#[test]
fn success_codes_are_the_two_hundreds() {
    assert!(!http_success(199));
    assert!(http_success(200));
    assert!(http_success(299));
    assert!(!http_success(300));
}

#[test]
fn verified_quote_fills_the_verdict() {
    let mut claimed = quote_measurements(&td());
    claimed.mrtd = claimed.mrtd.to_uppercase();
    assert!(measurements_eq(&claimed, &quote_measurements(&td())));
    let cvm = cvm(Role::Keystore, Some("mainnet"), Some(claimed));
    let step = quote_verified(
        &cvm,
        fresh(),
        &vec![0xde, 0xad],
        Ok(verified(Some(td()))),
        Some("00A1".to_string()),
    );
    let verdict = match step {
        VerifyStep::AskChain { verdict, query } => {
            assert_eq!(query.url, "https://rpc.mainnet.fastnear.com");
            verdict
        }
        other => panic!("unexpected step {other:?}"),
    };
    assert!(verdict.sig_valid);
    assert_eq!(verdict.tcb_status.as_deref(), Some("OutOfDate"));
    assert_eq!(verdict.advisory_ids, ["INTEL-SA-1"]);
    assert_eq!(verdict.quote_measurements_match, Some(true));
    assert_eq!(verdict.on_chain_contract.as_deref(), Some("dao.outlayer.near"));
    let d = verdict.decoded.as_ref().expect("decoded");
    assert_eq!(d.mrtd, "ab".repeat(48));
    assert_eq!(d.report_data, "04".repeat(64));
    assert_eq!(d.mr_signer_seam, "06".repeat(48));
    assert_eq!(d.quote_hex, "dead");
    assert_eq!(d.fmspc.as_deref(), Some("00A1"));
    let v = chain_replied(verdict, answered("{\"result\":{\"result\":[102,97,108,115,101]}}"));
    assert_eq!(v.on_chain_approved, Some(false));
    assert_eq!(v.error, None);
}

#[test]
fn quote_of_another_kind_does_not_match() {
    let cvm = cvm(Role::Worker, Some("testnet"), Some(measurements()));
    let step = quote_verified(&cvm, fresh(), &vec![1], Ok(verified(None)), None);
    let verdict = match step {
        VerifyStep::AskChain { verdict, .. } => verdict,
        other => panic!("unexpected step {other:?}"),
    };
    assert_eq!(verdict.quote_measurements_match, Some(false));
    assert!(verdict.decoded.is_none());
    // The first failure is the one that is kept.
    let v = chain_replied(verdict, RpcReply::RequestFailed("down".to_string()));
    assert_eq!(v.error.as_deref(), Some("verified quote is not a TDX TD10/TD15 report"));
    assert_eq!(v.on_chain_approved, None);
}

#[test]
fn missing_measurements_are_not_checked_on_chain() {
    let cvm = cvm(Role::Worker, Some("testnet"), None);
    match quote_verified(&cvm, fresh(), &vec![1], Ok(verified(Some(td()))), None) {
        VerifyStep::Done(v) => {
            assert!(v.sig_valid);
            assert_eq!(v.quote_measurements_match, None);
            assert_eq!(v.on_chain_contract.as_deref(), Some("worker.outlayer.testnet"));
            assert_eq!(v.on_chain_approved, None);
            assert_eq!(
                v.error.as_deref(),
                Some("no measurements in report; cannot run on-chain check")
            );
        }
        other => panic!("unexpected step {other:?}"),
    }
}

#[test]
fn agnostic_cvms_are_not_checked_on_chain() {
    let cases = [
        (Role::Kms, Some("mainnet")),
        (Role::Gateway, Some("testnet")),
        (Role::Unknown, Some("mainnet")),
        (Role::Worker, None),
        (Role::Worker, Some("devnet")),
    ];
    for (role, network) in cases {
        let cvm = cvm(role, network, Some(quote_measurements(&td())));
        match quote_verified(&cvm, fresh(), &vec![1], Ok(verified(Some(td()))), None) {
            VerifyStep::Done(v) => {
                assert_eq!(v.on_chain_contract, None);
                assert_eq!(v.on_chain_approved, None);
                assert_eq!(v.error, None);
            }
            other => panic!("unexpected step {other:?}"),
        }
    }
}

#[test]
fn fresh_verdict_is_all_negative() {
    let v = fresh();
    assert_eq!((v.vm_id.as_str(), v.verified_at), ("vm", 3));
    assert!(!v.sig_valid && v.advisory_ids.is_empty() && v.decoded.is_none());
    assert_eq!((v.tcb_status, v.fmspc, v.on_chain_contract, v.error), (None, None, None, None));
    assert_eq!((v.quote_measurements_match, v.on_chain_approved), (None, None));
}

#[test]
fn unknown_platform_changes_nothing_else() {
    let cvm = cvm(Role::Kms, None, Some(quote_measurements(&td())));
    let run = |fmspc: Option<String>| {
        match quote_verified(&cvm, fresh(), &vec![1], Ok(verified(Some(td()))), fmspc) {
            VerifyStep::Done(v) => v,
            other => panic!("unexpected step {other:?}"),
        }
    };
    let (known, unknown) = (run(Some("00A1".to_string())), run(None));
    assert_eq!(unknown.fmspc, None);
    assert!(known.sig_valid && unknown.sig_valid);
    assert_eq!(known.error, unknown.error);
    assert_eq!(known.quote_measurements_match, unknown.quote_measurements_match);
    assert_eq!(
        known.decoded.expect("decoded").mrtd,
        unknown.decoded.expect("decoded").mrtd
    );
}
