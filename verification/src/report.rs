//! What a node agent reports of the confidential virtual machines (CVMs) on its host.
use vstd::prelude::*;

use crate::text;

verus! {

/// One TDX host's attestation snapshot.
#[derive(Debug, Clone)]
pub struct NodeReport {
    /// Operator label for this server (e.g. `node-tdx-dal-2`).
    pub node_id: String,
    /// Unix seconds when the agent assembled this report.
    pub collected_at: u64,
    pub cvms: Vec<CvmAttestation>,
}

/// One CVM (kms / gateway / keystore / worker) on a host.
#[derive(Debug, Clone)]
pub struct CvmAttestation {
    /// dstack vmm uuid.
    pub vm_id: String,
    /// vmm VM label (`kms`, `dstack-gateway`, `testnet-keystore-...`, `...-worker-...`).
    pub name: String,
    pub role: Role,
    /// `testnet` or `mainnet`; `None` for net-agnostic CVMs (kms, gateway).
    pub network: Option<String>,
    /// vmm status string (`running`, `exited`, ...).
    pub status: String,
    pub uptime: Option<String>,
    /// The app identity, shared by every instance of the app.
    pub app_id: String,
    pub instance_id: Option<String>,
    pub compose_hash: Option<String>,
    pub device_id: Option<String>,
    pub mr_aggregated: Option<String>,
    pub os_image_hash: Option<String>,
    /// dstack guest OS image tag (e.g. `dstack-0.5.11`).
    pub os_version: Option<String>,
    /// The five TDX registers; absent where the guest agent could not be reached.
    pub measurements: Option<Measurements>,
    /// Docker image refs (`repo@sha256:...`) found in the measured app-compose.
    pub image_digests: Vec<String>,
    /// The raw app-compose JSON.
    pub app_compose: Option<String>,
    /// `kms` or `local-sgx`.
    pub key_provider: Option<String>,
    /// RA-TLS certificate chain; the TDX quote is an extension of its leaf.
    pub app_cert_pem: Option<String>,
    pub event_log: Vec<EventLogEntry>,
    /// What went wrong in collecting this CVM, if anything did.
    pub error: Option<String>,
}

/// The five TDX measurement registers, in hexadecimal.
#[derive(Debug, Clone)]
pub struct Measurements {
    /// Virtual firmware.
    pub mrtd: String,
    /// Virtual hardware configuration.
    pub rtmr0: String,
    /// Linux kernel.
    pub rtmr1: String,
    /// Kernel command line and initrd.
    pub rtmr2: String,
    /// dstack app identity.
    pub rtmr3: String,
}

/// One boot event that replays into RTMR3.
#[derive(Debug, Clone)]
pub struct EventLogEntry {
    pub imr: u32,
    pub event_type: u64,
    pub digest: String,
    pub event: Option<String>,
    pub event_payload: Option<String>,
}

/// What a CVM is there for.
#[derive(Debug, Clone, Copy, PartialEq, Eq, Structural)]
pub enum Role {
    Kms,
    Gateway,
    Keystore,
    Worker,
    Unknown,
}

/// The texts of the five registers.
#[verifier::ext_equal]
pub struct MeasurementsModel {
    pub mrtd: Seq<char>,
    pub rtmr0: Seq<char>,
    pub rtmr1: Seq<char>,
    pub rtmr2: Seq<char>,
    pub rtmr3: Seq<char>,
}

impl View for Measurements {
    type V = MeasurementsModel;

    open spec fn view(&self) -> MeasurementsModel {
        MeasurementsModel {
            mrtd: self.mrtd@,
            rtmr0: self.rtmr0@,
            rtmr1: self.rtmr1@,
            rtmr2: self.rtmr2@,
            rtmr3: self.rtmr3@,
        }
    }
}

/// What an `EventLogEntry` holds.
#[verifier::ext_equal]
pub struct EventModel {
    pub imr: u32,
    pub event_type: u64,
    pub digest: Seq<char>,
    pub event: Option<Seq<char>>,
    pub event_payload: Option<Seq<char>>,
}

impl View for EventLogEntry {
    type V = EventModel;

    open spec fn view(&self) -> EventModel {
        EventModel {
            imr: self.imr,
            event_type: self.event_type,
            digest: self.digest@,
            event: text::opt_view(self.event),
            event_payload: text::opt_view(self.event_payload),
        }
    }
}

/// What a `CvmAttestation` holds.
#[verifier::ext_equal]
pub struct CvmModel {
    pub vm_id: Seq<char>,
    pub name: Seq<char>,
    pub role: Role,
    pub network: Option<Seq<char>>,
    pub status: Seq<char>,
    pub uptime: Option<Seq<char>>,
    pub app_id: Seq<char>,
    pub instance_id: Option<Seq<char>>,
    pub compose_hash: Option<Seq<char>>,
    pub device_id: Option<Seq<char>>,
    pub mr_aggregated: Option<Seq<char>>,
    pub os_image_hash: Option<Seq<char>>,
    pub os_version: Option<Seq<char>>,
    pub measurements: Option<MeasurementsModel>,
    pub image_digests: Seq<Seq<char>>,
    pub app_compose: Option<Seq<char>>,
    pub key_provider: Option<Seq<char>>,
    pub app_cert_pem: Option<Seq<char>>,
    pub event_log: Seq<EventModel>,
    pub error: Option<Seq<char>>,
}

impl View for CvmAttestation {
    type V = CvmModel;

    open spec fn view(&self) -> CvmModel {
        CvmModel {
            vm_id: self.vm_id@,
            name: self.name@,
            role: self.role,
            network: text::opt_view(self.network),
            status: self.status@,
            uptime: text::opt_view(self.uptime),
            app_id: self.app_id@,
            instance_id: text::opt_view(self.instance_id),
            compose_hash: text::opt_view(self.compose_hash),
            device_id: text::opt_view(self.device_id),
            mr_aggregated: text::opt_view(self.mr_aggregated),
            os_image_hash: text::opt_view(self.os_image_hash),
            os_version: text::opt_view(self.os_version),
            measurements: text::opt_view(self.measurements),
            image_digests: text::each_view(self.image_digests@),
            app_compose: text::opt_view(self.app_compose),
            key_provider: text::opt_view(self.key_provider),
            app_cert_pem: text::opt_view(self.app_cert_pem),
            event_log: text::each_view(self.event_log@),
            error: text::opt_view(self.error),
        }
    }
}

/// The network that a VM label names, whatever the case of its letters; `testnet` comes first.
pub open spec fn network_of(name: Seq<char>) -> Option<Seq<char>> {
    if text::contains_text(text::lowered(name), "testnet"@) {
        Some("testnet"@)
    } else if text::contains_text(text::lowered(name), "mainnet"@) {
        Some("mainnet"@)
    } else {
        None
    }
}

/// The role that a VM label names, whatever the case of its letters; the first of `kms`,
/// `gateway`, `keystore` and `worker` that stands in it decides.
pub open spec fn role_of(name: Seq<char>) -> Role {
    if text::contains_text(text::lowered(name), "kms"@) {
        Role::Kms
    } else if text::contains_text(text::lowered(name), "gateway"@) {
        Role::Gateway
    } else if text::contains_text(text::lowered(name), "keystore"@) {
        Role::Keystore
    } else if text::contains_text(text::lowered(name), "worker"@) {
        Role::Worker
    } else {
        Role::Unknown
    }
}

/// Derive `testnet` / `mainnet` from a VM label, or `None` for net-agnostic CVMs.
pub fn network_from_name(name: &str) -> (r: Option<String>)
    ensures
        text::opt_view(r) == network_of(name@),
{
    let n = text::lower_text(name);
    if text::has_text(n.as_str(), "testnet") {
        Some("testnet".to_owned())
    } else if text::has_text(n.as_str(), "mainnet") {
        Some("mainnet".to_owned())
    } else {
        None
    }
}

impl Role {
    /// Classify a CVM by its vmm VM label.
    pub fn from_name(name: &str) -> (r: Role)
        ensures
            r == role_of(name@),
    {
        let n = text::lower_text(name);
        if text::has_text(n.as_str(), "kms") {
            Role::Kms
        } else if text::has_text(n.as_str(), "gateway") {
            Role::Gateway
        } else if text::has_text(n.as_str(), "keystore") {
            Role::Keystore
        } else if text::has_text(n.as_str(), "worker") {
            Role::Worker
        } else {
            Role::Unknown
        }
    }
}

/// The case of a VM label's ASCII letters changes neither the role nor the network read from it.
pub proof fn law_labels_ignore_case(a: Seq<char>, b: Seq<char>)
    requires
        text::lowered(a) == text::lowered(b),
    ensures
        role_of(a) == role_of(b),
        network_of(a) == network_of(b),
{
}

} // verus!
