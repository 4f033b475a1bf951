//! What a node agent makes of the VMs on its host: which of them it asks, where, and how the answers
//! become part of the node's report.
//!
//! The work on one VM is done in steps. A step says what to look up next, the guest agent's port or
//! its `Info`, and is resumed with what was found.
use vstd::prelude::*;

use crate::report::{CvmAttestation, EventLogEntry, Measurements, Role};
use crate::{json, report, text};

verus! {

/// A qemu user-net forward to a guest agent: `127.0.0.1:<port>-:8090`.
pub const PORT_PATTERN: &'static str = "127\\.0\\.0\\.1:(\\d+)-:8090";

/// A docker image pinned by its digest: `repo@sha256:<64 hex>`.
pub const IMAGE_PATTERN: &'static str = "([a-zA-Z0-9][a-zA-Z0-9._/-]*@sha256:[a-f0-9]{64})";

/// One VM, as the vmm lists it.
#[derive(Debug, Clone)]
pub struct VmStatus {
    pub id: String,
    pub name: String,
    pub status: String,
    pub uptime: Option<String>,
    pub app_id: String,
    pub instance_id: Option<String>,
}

/// What a guest agent's `Info` says of its CVM.
#[derive(Debug, Clone)]
pub struct AppInfo {
    pub app_cert: Option<String>,
    pub device_id: Option<String>,
    pub mr_aggregated: Option<String>,
    pub os_image_hash: Option<String>,
    /// A JSON object whose `name` is the key provider.
    pub key_provider_info: Option<String>,
    pub compose_hash: Option<String>,
    /// A JSON object whose `image` is the guest OS image tag.
    pub vm_config: Option<String>,
}

/// The TCB information inside an `Info`.
#[derive(Debug, Clone)]
pub struct TcbInfo {
    pub mrtd: String,
    pub rtmr0: String,
    pub rtmr1: String,
    pub rtmr2: String,
    pub rtmr3: String,
    pub event_log: Vec<EventLogEntry>,
    pub app_compose: Option<String>,
}

/// One process of the host: its directory under `/proc`, and its raw command line.
#[derive(Debug, Clone)]
pub struct Process {
    pub name: String,
    pub cmdline: Vec<u8>,
}

/// What is to be done next for a VM.
#[derive(Debug)]
pub enum CollectStep {
    /// Nothing: this is the CVM's part of the report.
    Done(CvmAttestation),
    /// Look for the guest agent's port among the host's processes.
    FindPort(CvmAttestation),
    /// Ask the guest agent on this port for its `Info`.
    FetchInfo { cvm: CvmAttestation, port: u16 },
}

/// What a `CollectStep` says.
#[verifier::ext_equal]
pub enum CollectModel {
    Done(report::CvmModel),
    FindPort(report::CvmModel),
    FetchInfo { cvm: report::CvmModel, port: u16 },
}

impl View for CollectStep {
    type V = CollectModel;

    open spec fn view(&self) -> CollectModel {
        match *self {
            CollectStep::Done(cvm) => CollectModel::Done(cvm@),
            CollectStep::FindPort(cvm) => CollectModel::FindPort(cvm@),
            CollectStep::FetchInfo { cvm, port } => CollectModel::FetchInfo { cvm: cvm@, port },
        }
    }
}

/// What came of asking a guest agent.
#[derive(Debug)]
pub enum InfoReply {
    /// No `Info` came back.
    Failed(String),
    /// The `Info`, and its TCB information or why that could not be read.
    Fetched { info: AppInfo, tcb: Result<TcbInfo, String> },
}

/// Bytes as text, the way `String::from_utf8_lossy` reads them.
pub uninterp spec fn utf8_lossy(bytes: Seq<u8>) -> Seq<char>;

/// What the first group captures in the first match of a regular expression that
/// `regex::Regex::captures` finds in a text.
pub uninterp spec fn regex_group(pattern: Seq<char>, s: Seq<char>) -> Option<Seq<char>>;

/// The matches of a regular expression in a text, in the order of `regex::Regex::find_iter`.
pub uninterp spec fn regex_matches(pattern: Seq<char>, s: Seq<char>) -> Seq<Seq<char>>;

/// `String::from_utf8_lossy`: the bytes as text, with the replacement character for what is not
/// UTF-8. The result depends on the bytes alone and is named `utf8_lossy`; of bytes that are UTF-8 it
/// is the text that they encode.
#[verifier::external_body]
fn lossy_text(bytes: &[u8]) -> (r: String)
    ensures
        r@ == utf8_lossy(bytes@),
        vstd::utf8::valid_utf8(bytes@) ==> r@ == vstd::utf8::decode_utf8(bytes@),
{
    String::from_utf8_lossy(bytes).into_owned()
}

/// `regex::Regex::captures`: the text of the first group in the first match. The result depends on
/// the pattern and the text alone and is named `regex_group`; there is none where the pattern is not
/// valid, does not match, or has no such group.
#[verifier::external_body]
fn first_group(pattern: &str, s: &str) -> (r: Option<String>)
    ensures
        text::opt_view(r) == regex_group(pattern@, s@),
{
    let found = regex::Regex::new(pattern).ok()?.captures(s)?;
    found.get(1).map(|m| m.as_str().to_owned())
}

/// `regex::Regex::find_iter`: the text of each match, in order. The result depends on the pattern and
/// the text alone and is named `regex_matches`; there are no matches where the pattern is not valid.
#[verifier::external_body]
fn all_matches(pattern: &str, s: &str) -> (r: Vec<String>)
    ensures
        text::each_view(r@) == regex_matches(pattern@, s@),
{
    match regex::Regex::new(pattern) {
        Ok(re) => re.find_iter(s).map(|m| m.as_str().to_owned()).collect(),
        Err(_) => Vec::new(),
    }
}

/// A text of decimal digits as a number.
pub open spec fn number_of(digits: Seq<char>) -> nat
    decreases digits.len(),
{
    if digits.len() == 0 {
        0
    } else {
        10 * number_of(digits.drop_last()) + (digits.last() as nat - 48) as nat
    }
}

/// A port in decimal.
pub open spec fn port_of(digits: Seq<char>) -> Option<u16> {
    if digits.len() > 0 && text::all_digits(digits) && number_of(digits) <= u16::MAX {
        Some(number_of(digits) as u16)
    } else {
        None
    }
}

/// A raw command line as text, with a space in place of each null character.
pub open spec fn command_text(raw: Seq<u8>) -> Seq<char> {
    let s = utf8_lossy(raw);
    Seq::new(
        s.len(),
        |i: int|
            if s[i] == '\0' {
                ' '
            } else {
                s[i]
            },
    )
}

/// A command line of the qemu process of a VM.
pub open spec fn runs_vm(command: Seq<char>, vm_id: Seq<char>) -> bool {
    text::contains_text(command, "qemu-system"@) && text::contains_text(command, vm_id)
}

/// A directory under `/proc` that belongs to a process.
pub open spec fn names_process(name: Seq<char>) -> bool {
    name.len() > 0 && text::all_digits(name)
}

/// The guest agent's port that a process forwards for a VM.
pub open spec fn process_port(process: Process, vm_id: Seq<char>) -> Option<u16> {
    let command = command_text(process.cmdline@);
    if names_process(process.name@) && runs_vm(command, vm_id) {
        match regex_group(PORT_PATTERN@, command) {
            Some(digits) => port_of(digits),
            None => None,
        }
    } else {
        None
    }
}

/// The first port that one of the processes from `i` on forwards for a VM.
pub open spec fn port_from(processes: Seq<Process>, vm_id: Seq<char>, i: int) -> Option<u16>
    decreases processes.len() - i,
{
    if i >= processes.len() {
        None
    } else {
        match process_port(processes[i], vm_id) {
            Some(port) => Some(port),
            None => port_from(processes, vm_id, i + 1),
        }
    }
}

/// A text that is not empty.
pub open spec fn if_not_empty(s: Option<Seq<char>>) -> Option<Seq<char>> {
    match s {
        Some(t) if t.len() > 0 => Some(t),
        _ => None,
    }
}

/// The key provider that an `Info` names.
pub open spec fn key_provider_of(s: Option<Seq<char>>) -> Option<Seq<char>> {
    match s {
        Some(t) => json::document_member_text(t, "name"@),
        None => None,
    }
}

/// The guest OS image tag that a VM configuration names.
pub open spec fn os_version_of(s: Option<Seq<char>>) -> Option<Seq<char>> {
    match s {
        Some(t) => if_not_empty(json::document_member_text(t, "image"@)),
        None => None,
    }
}

/// The image references in an app-compose, each once.
pub open spec fn digests_of(compose: Seq<char>) -> Seq<Seq<char>> {
    text::distinct(regex_matches(IMAGE_PATTERN@, compose))
}

/// A CVM of which only the vmm's listing is known.
pub open spec fn listed_cvm(vm: VmStatus) -> report::CvmModel {
    report::CvmModel {
        vm_id: vm.id@,
        name: vm.name@,
        role: report::role_of(vm.name@),
        network: report::network_of(vm.name@),
        status: vm.status@,
        uptime: text::opt_view(vm.uptime),
        app_id: vm.app_id@,
        instance_id: if_not_empty(text::opt_view(vm.instance_id)),
        compose_hash: None,
        device_id: None,
        mr_aggregated: None,
        os_image_hash: None,
        os_version: None,
        measurements: None,
        image_digests: Seq::empty(),
        app_compose: None,
        key_provider: None,
        app_cert_pem: None,
        event_log: Seq::empty(),
        error: None,
    }
}

/// A CVM with an error.
pub open spec fn with_error(cvm: report::CvmModel, e: Seq<char>) -> report::CvmModel {
    report::CvmModel { error: Some(e), ..cvm }
}

/// What is to be done first for a VM: one that is not running is not asked.
pub open spec fn first_step(vm: VmStatus) -> CollectModel {
    if vm.status@ == "running"@ {
        CollectModel::FindPort(listed_cvm(vm))
    } else {
        CollectModel::Done(with_error(listed_cvm(vm), "vm status is '"@ + vm.status@ + "'"@))
    }
}

/// What is to be done once the port was looked for.
pub open spec fn port_step(cvm: report::CvmModel, port: Option<u16>) -> CollectModel {
    match port {
        Some(port) => CollectModel::FetchInfo { cvm, port },
        None => CollectModel::Done(
            with_error(cvm, "guest-agent port not found (no live qemu hostfwd :8090)"@),
        ),
    }
}

/// A CVM with what the guest agent says of it.
pub open spec fn informed(
    cvm: report::CvmModel,
    info: AppInfo,
    tcb: Result<TcbInfo, String>,
) -> report::CvmModel {
    let known = report::CvmModel {
        compose_hash: text::opt_view(info.compose_hash),
        device_id: text::opt_view(info.device_id),
        mr_aggregated: text::opt_view(info.mr_aggregated),
        os_image_hash: text::opt_view(info.os_image_hash),
        os_version: os_version_of(text::opt_view(info.vm_config)),
        app_cert_pem: text::opt_view(info.app_cert),
        key_provider: key_provider_of(text::opt_view(info.key_provider_info)),
        ..cvm
    };
    match tcb {
        Err(e) => with_error(known, "parse tcb_info: "@ + e@),
        Ok(tcb) => report::CvmModel {
            measurements: Some(
                report::MeasurementsModel {
                    mrtd: tcb.mrtd@,
                    rtmr0: tcb.rtmr0@,
                    rtmr1: tcb.rtmr1@,
                    rtmr2: tcb.rtmr2@,
                    rtmr3: tcb.rtmr3@,
                },
            ),
            event_log: text::each_view(tcb.event_log@),
            image_digests: match text::opt_view(tcb.app_compose) {
                Some(compose) => digests_of(compose),
                None => known.image_digests,
            },
            app_compose: text::opt_view(tcb.app_compose),
            ..known
        },
    }
}

/// A CVM once its guest agent was asked on a port.
pub open spec fn info_result(cvm: report::CvmModel, port: u16, reply: InfoReply) -> report::CvmModel {
    match reply {
        InfoReply::Failed(e) => with_error(
            cvm,
            "Info fetch failed on :"@ + text::decimal(port as nat) + ": "@ + e@,
        ),
        InfoReply::Fetched { info, tcb } => informed(cvm, info, tcb),
    }
}

proof fn lemma_number_grows(digits: Seq<char>, k: int)
    requires
        0 <= k <= digits.len(),
    ensures
        number_of(digits.take(k)) <= number_of(digits),
    decreases digits.len() - k,
{
    if k < digits.len() {
        assert(digits.take(k + 1).drop_last() =~= digits.take(k));
        lemma_number_grows(digits, k + 1);
    } else {
        assert(digits.take(k) =~= digits);
    }
}

/// A port in decimal; nothing where the text is no number or the number is no port.
pub fn parse_port(digits: &str) -> (r: Option<u16>)
    ensures
        r == port_of(digits@),
{
    let chars = text::chars_of(digits);
    if chars.len() == 0 {
        return None;
    }
    let mut value: u32 = 0;
    let mut i: usize = 0;
    while i < chars.len()
        invariant
            i <= chars@.len(),
            chars@ == digits@,
            forall|j: int| 0 <= j < i ==> text::is_digit(#[trigger] digits@[j]),
            value == number_of(digits@.take(i as int)),
            value <= 65535,
        decreases chars@.len() - i,
    {
        let c = chars[i];
        if !('0' <= c && c <= '9') {
            assert(!text::is_digit(digits@[i as int]));
            return None;
        }
        assert(digits@.take(i + 1).drop_last() =~= digits@.take(i as int));
        value = 10 * value + (c as u32 - 48);
        i = i + 1;
        proof {
            lemma_number_grows(digits@, i as int);
        }
        if value > 65535 {
            return None;
        }
    }
    assert(digits@.take(i as int) =~= digits@);
    Some(value as u16)
}

/// Whether a directory under `/proc` belongs to a process.
pub fn is_process_name(name: &str) -> (r: bool)
    ensures
        r == names_process(name@),
{
    !text::is_empty(name) && text::only_digits(name)
}

fn command_line(raw: &Vec<u8>) -> (r: String)
    ensures
        r@ == command_text(raw@),
{
    let s = lossy_text(raw.as_slice());
    let chars = text::chars_of(s.as_str());
    let mut out = String::new();
    let mut i: usize = 0;
    assert(out@ =~= command_text(raw@).take(0));
    while i < chars.len()
        invariant
            i <= chars@.len(),
            chars@ == utf8_lossy(raw@),
            out@ == command_text(raw@).take(i as int),
        decreases chars@.len() - i,
    {
        let c = if chars[i] == '\0' {
            ' '
        } else {
            chars[i]
        };
        out.push(c);
        i = i + 1;
        assert(out@ =~= command_text(raw@).take(i as int));
    }
    assert(command_text(raw@).take(i as int) =~= command_text(raw@));
    out
}

/// Whether a command line is that of the qemu process of a VM.
pub fn is_qemu_of(command: &str, vm_id: &str) -> (r: bool)
    ensures
        r == runs_vm(command@, vm_id@),
{
    text::has_text(command, "qemu-system") && text::has_text(command, vm_id)
}

/// The guest agent's port of a VM: the first that a qemu process of this VM forwards.
pub fn find_agent_port(vm_id: &str, processes: &Vec<Process>) -> (r: Option<u16>)
    ensures
        r == port_from(processes@, vm_id@, 0),
{
    let mut i: usize = 0;
    while i < processes.len()
        invariant
            i <= processes@.len(),
            port_from(processes@, vm_id@, 0) == port_from(processes@, vm_id@, i as int),
        decreases processes@.len() - i,
    {
        let process = &processes[i];
        if is_process_name(process.name.as_str()) {
            let command = command_line(&process.cmdline);
            if is_qemu_of(command.as_str(), vm_id) {
                if let Some(digits) = first_group(PORT_PATTERN, command.as_str()) {
                    if let Some(port) = parse_port(digits.as_str()) {
                        return Some(port);
                    }
                }
            }
        }
        i = i + 1;
    }
    None
}

/// The image references (`repo@sha256:...`) in a measured app-compose, each once.
pub fn extract_digests(compose: &str) -> (r: Vec<String>)
    ensures
        text::each_view(r@) == digests_of(compose@),
{
    text::unique_texts(all_matches(IMAGE_PATTERN, compose))
}

/// The `name` in a key provider's JSON.
pub fn parse_key_provider(s: &Option<String>) -> (r: Option<String>)
    ensures
        text::opt_view(r) == key_provider_of(text::opt_view(*s)),
{
    match s {
        Some(t) => json::text_member(t.as_str(), "name"),
        None => None,
    }
}

/// The `image` in a VM configuration's JSON, where it is not empty.
pub fn parse_os_version(s: &Option<String>) -> (r: Option<String>)
    ensures
        text::opt_view(r) == os_version_of(text::opt_view(*s)),
{
    match s {
        Some(t) => non_empty(json::text_member(t.as_str(), "image")),
        None => None,
    }
}

/// A text, where it is not empty.
pub fn non_empty(s: Option<String>) -> (r: Option<String>)
    ensures
        text::opt_view(r) == if_not_empty(text::opt_view(s)),
{
    match s {
        Some(t) => if text::is_empty(t.as_str()) {
            None
        } else {
            Some(t)
        },
        None => None,
    }
}

/// Begins with a VM. One that is not running is not asked.
pub fn begin_collection(vm: VmStatus) -> (r: CollectStep)
    ensures
        r@ == first_step(vm),
{
    let role = Role::from_name(vm.name.as_str());
    let network = report::network_from_name(vm.name.as_str());
    let running = text::same_text(vm.status.as_str(), "running");
    let error = if running {
        None
    } else {
        let start = text::joined("vm status is '", vm.status.as_str());
        Some(text::joined(start.as_str(), "'"))
    };
    let cvm = CvmAttestation {
        vm_id: vm.id,
        name: vm.name,
        role,
        network,
        status: vm.status,
        uptime: vm.uptime,
        app_id: vm.app_id,
        instance_id: non_empty(vm.instance_id),
        compose_hash: None,
        device_id: None,
        mr_aggregated: None,
        os_image_hash: None,
        os_version: None,
        measurements: None,
        image_digests: Vec::new(),
        app_compose: None,
        key_provider: None,
        app_cert_pem: None,
        event_log: Vec::new(),
        error,
    };
    assert(text::each_view(cvm.image_digests@) =~= Seq::<Seq<char>>::empty());
    assert(text::each_view(cvm.event_log@) =~= Seq::<report::EventModel>::empty());
    if running {
        CollectStep::FindPort(cvm)
    } else {
        CollectStep::Done(cvm)
    }
}

/// Goes on with the guest agent's port, if one was found.
pub fn port_searched(cvm: CvmAttestation, port: Option<u16>) -> (r: CollectStep)
    ensures
        r@ == port_step(cvm@, port),
{
    match port {
        Some(port) => CollectStep::FetchInfo { cvm, port },
        None => {
            let mut cvm = cvm;
            cvm.error = Some("guest-agent port not found (no live qemu hostfwd :8090)".to_owned());
            CollectStep::Done(cvm)
        },
    }
}

/// Adds to a CVM what its guest agent says of it.
pub fn apply_info(cvm: &mut CvmAttestation, info: AppInfo, tcb: Result<TcbInfo, String>)
    ensures
        final(cvm)@ == informed(old(cvm)@, info, tcb),
{
    cvm.compose_hash = info.compose_hash;
    cvm.device_id = info.device_id;
    cvm.mr_aggregated = info.mr_aggregated;
    cvm.os_image_hash = info.os_image_hash;
    cvm.app_cert_pem = info.app_cert;
    cvm.key_provider = parse_key_provider(&info.key_provider_info);
    cvm.os_version = parse_os_version(&info.vm_config);
    match tcb {
        Ok(tcb) => {
            cvm.measurements = Some(
                Measurements {
                    mrtd: tcb.mrtd,
                    rtmr0: tcb.rtmr0,
                    rtmr1: tcb.rtmr1,
                    rtmr2: tcb.rtmr2,
                    rtmr3: tcb.rtmr3,
                },
            );
            cvm.event_log = tcb.event_log;
            if let Some(compose) = &tcb.app_compose {
                cvm.image_digests = extract_digests(compose.as_str());
            }
            cvm.app_compose = tcb.app_compose;
        },
        Err(e) => {
            cvm.error = Some(text::joined("parse tcb_info: ", e.as_str()));
        },
    }
}

/// Ends with what came of asking the guest agent on a port.
pub fn info_fetched(cvm: CvmAttestation, port: u16, reply: InfoReply) -> (r: CvmAttestation)
    ensures
        r@ == info_result(cvm@, port, reply),
{
    let mut cvm = cvm;
    match reply {
        InfoReply::Failed(e) => {
            let start = text::joined(
                "Info fetch failed on :",
                text::decimal_text(port as u64).as_str(),
            );
            let start = text::joined(start.as_str(), ": ");
            cvm.error = Some(text::joined(start.as_str(), e.as_str()));
        },
        InfoReply::Fetched { info, tcb } => {
            apply_info(&mut cvm, info, tcb);
        },
    }
    cvm
}

/// Where the vmm lists its VMs.
pub open spec fn vmm_status_url(vmm_rpc: Seq<char>) -> Seq<char> {
    vmm_rpc + "/prpc/Status?json"@
}

/// Where the guest agent on a port gives its `Info`: always on this host.
pub open spec fn agent_info_url(port: u16) -> Seq<char> {
    "http://127.0.0.1:"@ + text::decimal(port as nat) + "/prpc/Info?json"@
}

/// Where the vmm lists its VMs.
pub fn status_url(vmm_rpc: &str) -> (r: String)
    ensures
        r@ == vmm_status_url(vmm_rpc@),
{
    text::joined(vmm_rpc, "/prpc/Status?json")
}

/// Where the guest agent on a port gives its `Info`.
pub fn info_url(port: u16) -> (r: String)
    ensures
        r@ == agent_info_url(port),
{
    let start = text::joined("http://127.0.0.1:", text::decimal_text(port as u64).as_str());
    text::joined(start.as_str(), "/prpc/Info?json")
}

/// The report on a VM, given the port that was found and what its guest agent answered. An answer that
/// no step waits for changes nothing.
pub open spec fn collected(vm: VmStatus, port: Option<u16>, reply: InfoReply) -> report::CvmModel {
    match first_step(vm) {
        CollectModel::Done(cvm) => cvm,
        CollectModel::FetchInfo { cvm, .. } => cvm,
        CollectModel::FindPort(cvm) => match port_step(cvm, port) {
            CollectModel::FetchInfo { cvm, port } => info_result(cvm, port, reply),
            CollectModel::FindPort(cvm) => cvm,
            CollectModel::Done(cvm) => cvm,
        },
    }
}

/// A VM is reported whatever goes wrong with it: its identity and status are the vmm's, its role and
/// network those of its label, and where its registers are missing the report says why.
pub proof fn law_every_vm_is_reported(vm: VmStatus, port: Option<u16>, reply: InfoReply)
    ensures
        ({
            let cvm = collected(vm, port, reply);
            &&& cvm.vm_id == vm.id@
            &&& cvm.name == vm.name@
            &&& cvm.status == vm.status@
            &&& cvm.app_id == vm.app_id@
            &&& cvm.role == report::role_of(vm.name@)
            &&& cvm.network == report::network_of(vm.name@)
            &&& cvm.measurements is None <==> cvm.error is Some
        }),
{
}

/// The image references of an app-compose are listed without repetition, and each of them is one that
/// the pattern finds there.
pub proof fn law_digests_are_unique(compose: Seq<char>)
    ensures
        digests_of(compose).no_duplicates(),
        forall|d: Seq<char>| #[trigger]
            digests_of(compose).contains(d) <==> regex_matches(IMAGE_PATTERN@, compose).contains(d),
{
    text::law_distinct(regex_matches(IMAGE_PATTERN@, compose));
}

} // verus!
