use attestation_portal::collect::{
    begin_collection, extract_digests, find_agent_port, info_fetched, info_url, is_process_name, is_qemu_of,
    non_empty, parse_key_provider, parse_os_version, parse_port, port_searched, status_url,
    AppInfo, CollectStep, InfoReply, Process, TcbInfo, VmStatus,
};
use attestation_portal::report::{network_from_name, CvmAttestation, EventLogEntry, Role};

fn vm(status: &str) -> VmStatus {
    VmStatus {
        id: "uuid-1".to_string(),
        name: "TestNet-Worker-3".to_string(),
        status: status.to_string(),
        uptime: Some("3d".to_string()),
        app_id: "app".to_string(),
        instance_id: Some(String::new()),
    }
}

fn info() -> AppInfo {
    AppInfo {
        app_cert: Some("PEM".to_string()),
        device_id: Some("dev".to_string()),
        mr_aggregated: Some("aggr".to_string()),
        os_image_hash: Some("os".to_string()),
        key_provider_info: Some("{\"name\":\"kms\",\"id\":\"1\"}".to_string()),
        compose_hash: Some("hash".to_string()),
        vm_config: Some("{\"image\":\"dstack-0.5.11\"}".to_string()),
    }
}

fn tcb(compose: Option<&str>) -> TcbInfo {
    TcbInfo {
        mrtd: "m".to_string(),
        rtmr0: "r0".to_string(),
        rtmr1: "r1".to_string(),
        rtmr2: "r2".to_string(),
        rtmr3: "r3".to_string(),
        event_log: vec![EventLogEntry {
            imr: 3,
            event_type: 9,
            digest: "d".to_string(),
            event: Some("app-id".to_string()),
            event_payload: None,
        }],
        app_compose: compose.map(|c| c.to_string()),
    }
}

fn running() -> CvmAttestation {
    match begin_collection(vm("running")) {
        CollectStep::FindPort(cvm) => cvm,
        other => panic!("unexpected step {other:?}"),
    }
}

fn process(name: &str, cmdline: &[u8]) -> Process {
    Process { name: name.to_string(), cmdline: cmdline.to_vec() }
}

fn digest(c: &str) -> String {
    c.repeat(64)
}

#[test]
fn labels_give_role_and_network() {
    assert_eq!(Role::from_name("KMS-keystore"), Role::Kms);
    assert_eq!(Role::from_name("dstack-Gateway"), Role::Gateway);
    assert_eq!(Role::from_name("mainnet-keystore-worker"), Role::Keystore);
    assert_eq!(Role::from_name("WORKER"), Role::Worker);
    assert_eq!(Role::from_name("db"), Role::Unknown);
    assert_eq!(network_from_name("MainNet-worker").as_deref(), Some("mainnet"));
    assert_eq!(network_from_name("mainnet-testnet").as_deref(), Some("testnet"));
    assert_eq!(network_from_name("kms"), None);
}

#[test]
fn running_vm_is_listed_and_searched() {
    let cvm = running();
    assert_eq!(cvm.vm_id, "uuid-1");
    assert_eq!(cvm.role, Role::Worker);
    assert_eq!(cvm.network.as_deref(), Some("testnet"));
    assert_eq!(cvm.uptime.as_deref(), Some("3d"));
    assert_eq!(cvm.instance_id, None);
    assert_eq!(cvm.error, None);
    assert!(cvm.measurements.is_none());
}

#[test]
fn stopped_vm_is_reported_with_its_status() {
    match begin_collection(vm("exited")) {
        CollectStep::Done(cvm) => {
            assert_eq!(cvm.error.as_deref(), Some("vm status is 'exited'"));
            assert_eq!(cvm.status, "exited");
        }
        other => panic!("unexpected step {other:?}"),
    }
    assert!(matches!(begin_collection(vm("Running")), CollectStep::Done(_)));
}

#[test]
fn missing_port_is_an_error() {
    match port_searched(running(), None) {
        CollectStep::Done(cvm) => assert_eq!(
            cvm.error.as_deref(),
            Some("guest-agent port not found (no live qemu hostfwd :8090)")
        ),
        other => panic!("unexpected step {other:?}"),
    }
    match port_searched(running(), Some(9212)) {
        CollectStep::FetchInfo { cvm, port } => {
            assert_eq!(port, 9212);
            assert_eq!(cvm.error, None);
        }
        other => panic!("unexpected step {other:?}"),
    }
}

#[test]
fn info_fills_the_cvm() {
    let image = format!("docker.io/outlayer/near-outlayer-worker@sha256:{}", digest("a"));
    let compose = format!("image: {image}\nimage: {image}\n");
    let reply = InfoReply::Fetched { info: info(), tcb: Ok(tcb(Some(&compose))) };
    let cvm = info_fetched(running(), 9212, reply);
    assert_eq!(cvm.compose_hash.as_deref(), Some("hash"));
    assert_eq!(cvm.device_id.as_deref(), Some("dev"));
    assert_eq!(cvm.mr_aggregated.as_deref(), Some("aggr"));
    assert_eq!(cvm.os_image_hash.as_deref(), Some("os"));
    assert_eq!(cvm.os_version.as_deref(), Some("dstack-0.5.11"));
    assert_eq!(cvm.key_provider.as_deref(), Some("kms"));
    assert_eq!(cvm.app_cert_pem.as_deref(), Some("PEM"));
    let m = cvm.measurements.expect("measurements");
    assert_eq!((m.mrtd.as_str(), m.rtmr3.as_str()), ("m", "r3"));
    assert_eq!(cvm.event_log.len(), 1);
    assert_eq!(cvm.event_log[0].event.as_deref(), Some("app-id"));
    assert_eq!(cvm.image_digests, [image]);
    assert_eq!(cvm.app_compose.as_deref(), Some(compose.as_str()));
    assert_eq!(cvm.error, None);
}

#[test]
fn info_failures_are_reported() {
    let cvm = info_fetched(running(), 9212, InfoReply::Failed("refused".to_string()));
    assert_eq!(cvm.error.as_deref(), Some("Info fetch failed on :9212: refused"));
    let reply = InfoReply::Fetched { info: info(), tcb: Err("EOF".to_string()) };
    let cvm = info_fetched(running(), 9212, reply);
    assert_eq!(cvm.error.as_deref(), Some("parse tcb_info: EOF"));
    assert_eq!(cvm.compose_hash.as_deref(), Some("hash"));
    assert!(cvm.measurements.is_none() && cvm.app_compose.is_none());
    let reply = InfoReply::Fetched { info: info(), tcb: Ok(tcb(None)) };
    let cvm = info_fetched(running(), 9212, reply);
    assert!(cvm.image_digests.is_empty() && cvm.app_compose.is_none());
    assert_eq!(cvm.error, None);
}

#[test]
fn port_is_found_in_the_right_process() {
    let other = process("7", b"qemu-system-x86_64\0-id\0uuid-2\0hostfwd=tcp:127.0.0.1:1111-:8090");
    let shell = process("8", b"bash\0uuid-1\0127.0.0.1:2222-:8090");
    let none = process("9", b"qemu-system-x86_64\0uuid-1\0hostfwd=tcp:127.0.0.1:3333-:22");
    let big = process("10", b"qemu-system-x86_64\0uuid-1\0127.0.0.1:70000-:8090");
    let mut raw = b"\xff\xfeqemu-system-x86_64\0uuid-1\0".to_vec();
    raw.extend_from_slice(b"hostfwd=tcp:127.0.0.1:09212-:8090,hostfwd=tcp:127.0.0.1:5-:8090");
    let right = process("11", &raw);
    let late = process("12", b"qemu-system-x86_64\0uuid-1\0127.0.0.1:6666-:8090");
    let named = process("self", b"qemu-system-x86_64\0uuid-1\0127.0.0.1:4444-:8090");
    let all = vec![other, shell, none, big, named, right, late];
    assert_eq!(find_agent_port("uuid-1", &all), Some(9212));
    assert_eq!(find_agent_port("uuid-2", &all), Some(1111));
    assert_eq!(find_agent_port("uuid-3", &all), None);
    assert_eq!(find_agent_port("uuid-1", &Vec::new()), None);
}

#[test]
fn null_characters_part_the_arguments() {
    // The forward is found across what was a null character only where the pattern allows a space.
    let split = process("5", b"qemu-system\0uuid-1\0127.0.0.1:77\0-:8090");
    assert_eq!(find_agent_port("uuid-1", &vec![split]), None);
    // An identity with a space stands across two arguments.
    let joined = process("5", b"qemu-system\0a\0b\0127.0.0.1:77-:8090");
    assert_eq!(find_agent_port("a b", &vec![joined]), Some(77));
}

#[test]
fn ports_are_numbers_below_65536() {
    assert_eq!(parse_port("0"), Some(0));
    assert_eq!(parse_port("8090"), Some(8090));
    assert_eq!(parse_port("65535"), Some(65535));
    assert_eq!(parse_port("65536"), None);
    assert_eq!(parse_port("99999999999999999999"), None);
    assert_eq!(parse_port("00000000000000000080"), Some(80));
    assert_eq!(parse_port(""), None);
    assert_eq!(parse_port("8o"), None);
}

#[test]
fn processes_have_numbers_for_names() {
    assert!(is_process_name("123"));
    assert!(!is_process_name(""));
    assert!(!is_process_name("12a"));
    assert!(is_qemu_of("/usr/bin/qemu-system-x86_64 -x uuid-1", "uuid-1"));
    assert!(!is_qemu_of("/usr/bin/qemu-img uuid-1", "uuid-1"));
}

#[test]
fn digests_are_listed_once_in_order() {
    let a = format!("repo/a@sha256:{}", digest("1"));
    let b = format!("b.io/x_y-z@sha256:{}", digest("f"));
    let text = format!("image: {b}\n image: \"{a}\" # {b}\nshort@sha256:abc\nUP@sha256:{}", digest("A"));
    assert_eq!(extract_digests(&text), [b, a]);
    assert!(extract_digests("").is_empty());
}

#[test]
fn key_provider_and_os_version_come_from_json() {
    let some = |s: &str| Some(s.to_string());
    assert_eq!(parse_key_provider(&some("{\"name\":\"local-sgx\"}")).as_deref(), Some("local-sgx"));
    assert_eq!(parse_key_provider(&some("{\"name\":1}")), None);
    assert_eq!(parse_key_provider(&some("kms")), None);
    assert_eq!(parse_key_provider(&None), None);
    assert_eq!(parse_os_version(&some("{\"image\":\"dstack-1\"}")).as_deref(), Some("dstack-1"));
    assert_eq!(parse_os_version(&some("{\"image\":\"\"}")), None);
    assert_eq!(parse_os_version(&None), None);
    assert_eq!(non_empty(some("x")).as_deref(), Some("x"));
    assert_eq!(non_empty(some("")), None);
    assert_eq!(non_empty(None), None);
}

#[test]
fn addresses_are_fixed() {
    assert_eq!(status_url("http://127.0.0.1:11000"), "http://127.0.0.1:11000/prpc/Status?json");
    assert_eq!(info_url(9212), "http://127.0.0.1:9212/prpc/Info?json");
}
