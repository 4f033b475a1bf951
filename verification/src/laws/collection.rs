//! Laws of the agent: what a VM's label says, which port is asked, and what a report holds.
use vstd::prelude::*;

use crate::collect::{AppInfo, CollectModel, InfoReply, Process, TcbInfo, VmStatus};
use crate::report::Role;
use crate::{collect, json, laws, report, text};

verus! {

/// A label names the first of `kms`, `gateway`, `keystore` and `worker` that it holds, in any case, and
/// no role where it holds none; it names `testnet` before `mainnet`, and no network where it holds
/// neither.
pub proof fn law_labels(name: Seq<char>)
    ensures
        ({
            let kms = text::contains_text(text::lowered(name), "kms"@);
            let gateway = text::contains_text(text::lowered(name), "gateway"@);
            let keystore = text::contains_text(text::lowered(name), "keystore"@);
            let worker = text::contains_text(text::lowered(name), "worker"@);
            &&& report::role_of(name) == Role::Kms <==> kms
            &&& report::role_of(name) == Role::Gateway <==> gateway && !kms
            &&& report::role_of(name) == Role::Keystore <==> keystore && !gateway && !kms
            &&& report::role_of(name) == Role::Worker <==> worker && !keystore && !gateway && !kms
            &&& report::role_of(name) == Role::Unknown <==> !worker && !keystore && !gateway && !kms
        }),
        ({
            let testnet = text::contains_text(text::lowered(name), "testnet"@);
            let mainnet = text::contains_text(text::lowered(name), "mainnet"@);
            &&& testnet ==> report::network_of(name) == Some("testnet"@)
            &&& mainnet && !testnet ==> report::network_of(name) == Some("mainnet"@)
            &&& !mainnet && !testnet ==> report::network_of(name) is None
        }),
{
}

/// A port is read from its decimal form, with or without zeros in front, and from nothing but digits;
/// a number that is no port is not read.
pub proof fn law_ports(zeros: Seq<char>, n: nat, s: Seq<char>)
    requires
        forall|i: int| 0 <= i < zeros.len() ==> #[trigger] zeros[i] == '0',
    ensures
        n <= 65535 ==> collect::port_of(zeros + text::decimal(n)) == Some(n as u16),
        n > 65535 ==> collect::port_of(zeros + text::decimal(n)) is None,
        collect::port_of(s) matches Some(port) ==> s.len() > 0 && text::all_digits(s)
            && collect::number_of(s) == port,
        collect::port_of(Seq::empty()) is None,
{
    laws::text::law_decimal(n);
    lemma_zeros_in_front(zeros, text::decimal(n));
    let d = text::decimal(n);
    assert forall|i: int| 0 <= i < (zeros + d).len() implies text::is_digit(
        #[trigger] (zeros + d)[i],
    ) by {
        if i < zeros.len() {
            assert(zeros[i] == '0');
        } else {
            assert(text::is_digit(d[i - zeros.len()]));
        }
    }
}

proof fn lemma_zeros_in_front(zeros: Seq<char>, d: Seq<char>)
    requires
        forall|i: int| 0 <= i < zeros.len() ==> #[trigger] zeros[i] == '0',
    ensures
        collect::number_of(zeros + d) == collect::number_of(d),
    decreases zeros.len() + d.len(),
{
    if d.len() > 0 {
        assert((zeros + d).drop_last() =~= zeros + d.drop_last());
        lemma_zeros_in_front(zeros, d.drop_last());
    } else if zeros.len() > 0 {
        assert(zeros + d =~= zeros);
        assert(zeros.drop_last() + d =~= zeros.drop_last());
        assert(zeros[zeros.len() - 1] == '0');
        lemma_zeros_in_front(zeros.drop_last(), d);
    } else {
        assert(zeros + d =~= d);
    }
}

/// A command line is what its bytes say, with a space for each null character.
pub proof fn law_command_lines(raw: Seq<u8>, i: int)
    requires
        0 <= i < collect::utf8_lossy(raw).len(),
    ensures
        collect::command_text(raw).len() == collect::utf8_lossy(raw).len(),
        collect::utf8_lossy(raw)[i] == '\0' ==> collect::command_text(raw)[i] == ' ',
        collect::utf8_lossy(raw)[i] != '\0' ==> collect::command_text(raw)[i]
            == collect::utf8_lossy(raw)[i],
{
}

/// The first process with a number for its name that runs qemu for the VM and forwards a valid port to
/// the guest agent gives the port; where there is none, no port is found.
pub proof fn law_port_is_the_first_forwarded(processes: Seq<Process>, vm_id: Seq<char>, k: int)
    requires
        0 <= k <= processes.len(),
        forall|j: int| 0 <= j < k ==> forwarded(#[trigger] processes[j], vm_id) is None,
    ensures
        k < processes.len() && forwarded(processes[k], vm_id) is Some ==> collect::port_from(
            processes,
            vm_id,
            0,
        ) == forwarded(processes[k], vm_id),
        k == processes.len() ==> collect::port_from(processes, vm_id, 0) is None,
{
    lemma_port_from(processes, vm_id, 0, k);
}

/// The port that a process forwards to a VM's guest agent.
pub open spec fn forwarded(process: Process, vm_id: Seq<char>) -> Option<u16> {
    let command = collect::command_text(process.cmdline@);
    if process.name@.len() == 0 || !text::all_digits(process.name@) {
        None
    } else if !text::contains_text(command, "qemu-system"@) || !text::contains_text(command, vm_id) {
        None
    } else {
        match collect::regex_group("127\\.0\\.0\\.1:(\\d+)-:8090"@, command) {
            Some(digits) => collect::port_of(digits),
            None => None,
        }
    }
}

proof fn lemma_port_from(processes: Seq<Process>, vm_id: Seq<char>, i: int, k: int)
    requires
        0 <= i <= k <= processes.len(),
        forall|j: int| i <= j < k ==> forwarded(#[trigger] processes[j], vm_id) is None,
    ensures
        k < processes.len() && forwarded(processes[k], vm_id) is Some ==> collect::port_from(
            processes,
            vm_id,
            i,
        ) == forwarded(processes[k], vm_id),
        k == processes.len() ==> collect::port_from(processes, vm_id, i) is None,
    decreases k - i,
{
    if i < k {
        assert(forwarded(processes[i], vm_id) is None);
        lemma_port_from(processes, vm_id, i + 1, k);
    }
}

/// What the vmm lists of a VM is in the report as it is, whatever the guest agent says; only an empty
/// instance identity counts as none.
pub proof fn law_listing_is_reported(vm: VmStatus, port: Option<u16>, reply: InfoReply)
    ensures
        ({
            let cvm = collect::collected(vm, port, reply);
            &&& cvm.vm_id == vm.id@
            &&& cvm.name == vm.name@
            &&& cvm.status == vm.status@
            &&& cvm.uptime == text::opt_view(vm.uptime)
            &&& cvm.app_id == vm.app_id@
            &&& cvm.role == report::role_of(vm.name@)
            &&& cvm.network == report::network_of(vm.name@)
            &&& match vm.instance_id {
                Some(id) => cvm.instance_id == (if id@.len() > 0 {
                    Some(id@)
                } else {
                    None
                }),
                None => cvm.instance_id is None,
            }
        }),
{
}

/// A running VM whose guest agent answers is reported with exactly what the agent said: each register
/// under its own name, the event log, the app-compose and the image references in it, the certificate
/// and the hashes; the key provider and the OS version are those that their documents name.
pub proof fn law_info_is_reported(vm: VmStatus, port: u16, reply: InfoReply)
    requires
        vm.status@ == "running"@,
        reply is Fetched,
    ensures
        ({
            let cvm = collect::collected(vm, Some(port), reply);
            &&& reply matches InfoReply::Fetched { info, tcb }
            &&& cvm.compose_hash == text::opt_view(info.compose_hash)
            &&& cvm.device_id == text::opt_view(info.device_id)
            &&& cvm.mr_aggregated == text::opt_view(info.mr_aggregated)
            &&& cvm.os_image_hash == text::opt_view(info.os_image_hash)
            &&& cvm.app_cert_pem == text::opt_view(info.app_cert)
            &&& match info.key_provider_info {
                Some(s) => cvm.key_provider == json::document_member_text(s@, "name"@),
                None => cvm.key_provider is None,
            }
            &&& match info.vm_config {
                Some(s) => match json::document_member_text(s@, "image"@) {
                    Some(image) if image.len() > 0 => cvm.os_version == Some(image),
                    _ => cvm.os_version is None,
                },
                None => cvm.os_version is None,
            }
            &&& match tcb {
                Ok(t) => {
                    &&& cvm.measurements matches Some(m)
                    &&& m.mrtd == t.mrtd@
                    &&& m.rtmr0 == t.rtmr0@
                    &&& m.rtmr1 == t.rtmr1@
                    &&& m.rtmr2 == t.rtmr2@
                    &&& m.rtmr3 == t.rtmr3@
                    &&& cvm.event_log == text::each_view(t.event_log@)
                    &&& cvm.app_compose == text::opt_view(t.app_compose)
                    &&& match t.app_compose {
                        Some(compose) => cvm.image_digests == collect::digests_of(compose@),
                        None => cvm.image_digests.len() == 0,
                    }
                    &&& cvm.error is None
                },
                Err(e) => {
                    &&& cvm.measurements is None
                    &&& cvm.event_log.len() == 0
                    &&& cvm.app_compose is None
                    &&& cvm.image_digests.len() == 0
                    &&& cvm.error == Some("parse tcb_info: "@ + e@)
                },
            }
        }),
{
}

/// A VM that cannot be asked is reported with the reason, and with nothing that only its guest agent
/// could have said.
pub proof fn law_unreachable_vm_says_why(vm: VmStatus, port: Option<u16>, reply: InfoReply)
    requires
        vm.status@ != "running"@ || port is None || reply is Failed,
    ensures
        ({
            let cvm = collect::collected(vm, port, reply);
            &&& cvm.error == Some(
                if vm.status@ != "running"@ {
                    "vm status is '"@ + vm.status@ + "'"@
                } else {
                    match port {
                        None => "guest-agent port not found (no live qemu hostfwd :8090)"@,
                        Some(n) => "Info fetch failed on :"@ + text::decimal(n as nat) + ": "@
                            + reply->Failed_0@,
                    }
                },
            )
            &&& cvm.compose_hash is None && cvm.device_id is None && cvm.mr_aggregated is None
            &&& cvm.os_image_hash is None && cvm.os_version is None && cvm.measurements is None
            &&& cvm.image_digests.len() == 0 && cvm.app_compose is None && cvm.key_provider is None
            &&& cvm.app_cert_pem is None && cvm.event_log.len() == 0
        }),
{
}

/// The image references of an app-compose are the matches of one pattern, each once: a repository, and
/// sixty-four digits of a digest.
pub proof fn law_image_references(compose: Seq<char>)
    ensures
        ({
            let found = collect::regex_matches(
                "([a-zA-Z0-9][a-zA-Z0-9._/-]*@sha256:[a-f0-9]{64})"@,
                compose,
            );
            &&& collect::digests_of(compose).no_duplicates()
            &&& forall|d: Seq<char>| #[trigger]
                collect::digests_of(compose).contains(d) <==> found.contains(d)
        }),
{
    collect::law_digests_are_unique(compose);
}

/// The vmm is asked where it was configured to listen, and a guest agent only on this host.
pub proof fn law_addresses(vmm_rpc: Seq<char>, port: u16)
    ensures
        collect::vmm_status_url(vmm_rpc) == vmm_rpc + "/prpc/Status?json"@,
        collect::agent_info_url(port) == "http://127.0.0.1:"@ + text::decimal(port as nat)
            + "/prpc/Info?json"@,
{
}

/// Whatever was known of a CVM before, its guest agent's answer is entered as it is: what only the agent
/// knows is as it says, what the vmm listed stays, and references stay where no app-compose came.
pub proof fn law_info_is_entered(
    cvm: report::CvmModel,
    info: AppInfo,
    tcb: Result<TcbInfo, String>,
)
    ensures
        ({
            let w = collect::informed(cvm, info, tcb);
            &&& w.vm_id == cvm.vm_id && w.name == cvm.name && w.role == cvm.role
            &&& w.network == cvm.network && w.status == cvm.status && w.uptime == cvm.uptime
            &&& w.app_id == cvm.app_id && w.instance_id == cvm.instance_id
            &&& w.compose_hash == text::opt_view(info.compose_hash)
            &&& w.device_id == text::opt_view(info.device_id)
            &&& w.mr_aggregated == text::opt_view(info.mr_aggregated)
            &&& w.os_image_hash == text::opt_view(info.os_image_hash)
            &&& w.app_cert_pem == text::opt_view(info.app_cert)
            &&& match tcb {
                Ok(t) => {
                    &&& w.measurements matches Some(m)
                    &&& m.mrtd == t.mrtd@ && m.rtmr0 == t.rtmr0@ && m.rtmr1 == t.rtmr1@
                    &&& m.rtmr2 == t.rtmr2@ && m.rtmr3 == t.rtmr3@
                    &&& w.event_log == text::each_view(t.event_log@)
                    &&& w.app_compose == text::opt_view(t.app_compose)
                    &&& w.image_digests == (match t.app_compose {
                        Some(compose) => collect::digests_of(compose@),
                        None => cvm.image_digests,
                    })
                    &&& w.error == cvm.error
                },
                Err(e) => {
                    &&& w.measurements == cvm.measurements && w.event_log == cvm.event_log
                    &&& w.app_compose == cvm.app_compose && w.image_digests == cvm.image_digests
                    &&& w.error == Some("parse tcb_info: "@ + e@)
                },
            }
        }),
{
}

/// An error is all that a failed question adds to a CVM; with a port the guest agent is asked on it.
pub proof fn law_failed_questions(cvm: report::CvmModel, port: u16, e: String)
    ensures
        collect::port_step(cvm, Some(port)) == (CollectModel::FetchInfo { cvm, port }),
        collect::port_step(cvm, None) == CollectModel::Done(
            report::CvmModel {
                error: Some("guest-agent port not found (no live qemu hostfwd :8090)"@),
                ..cvm
            },
        ),
        collect::info_result(cvm, port, InfoReply::Failed(e)) == (report::CvmModel {
            error: Some("Info fetch failed on :"@ + text::decimal(port as nat) + ": "@ + e@),
            ..cvm
        }),
{
}

} // verus!
