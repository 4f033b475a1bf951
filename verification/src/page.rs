//! What the portal's pages show: the stored reports joined with their verdicts, as plain texts and
//! flags that the templates only have to lay out.
use vstd::prelude::*;

use crate::compose::ImageRow;
use crate::report::{CvmAttestation, Measurements, NodeReport, Role};
use crate::verify::{CvmVerdict, DecodedReport};
use crate::{compose, report, text, verify};

verus! {

/// Freshness of a node's last push.
#[derive(Debug, Clone, Copy, PartialEq, Eq, Structural)]
pub enum Freshness {
    /// Pushed less than ten minutes ago: the agent is alive.
    Live,
    /// Ten minutes to an hour: late, but not yet presumed dead.
    Stale,
    /// More than an hour: the agent has stopped reporting.
    Dead,
}

/// On-chain approval, as the page shows it.
#[derive(Debug, Clone, Copy, PartialEq, Eq, Structural)]
pub enum OnChain {
    Approved,
    NotApproved,
    /// The check does not apply or could not be made: neither a pass nor a fail.
    NotApplicable,
}

/// The verdict at one glance.
#[derive(Debug, Clone, Copy, PartialEq, Eq, Structural)]
pub enum Summary {
    /// Every check passed.
    Verified,
    /// Some check failed.
    Failed,
    /// There is no verdict yet.
    Pending,
}

/// The CSS class suffix of a freshness.
pub open spec fn freshness_class(f: Freshness) -> Seq<char> {
    match f {
        Freshness::Live => "live"@,
        Freshness::Stale => "stale"@,
        Freshness::Dead => "dead"@,
    }
}

/// The CSS class suffix of an on-chain approval.
pub open spec fn on_chain_class(c: OnChain) -> Seq<char> {
    match c {
        OnChain::Approved => "approved"@,
        OnChain::NotApproved => "bad"@,
        OnChain::NotApplicable => "na"@,
    }
}

/// The CSS class suffix of a summary.
pub open spec fn summary_class(s: Summary) -> Seq<char> {
    match s {
        Summary::Verified => "verified"@,
        Summary::Failed => "failed"@,
        Summary::Pending => "pending"@,
    }
}

/// The chip of a summary.
pub open spec fn summary_label(s: Summary) -> Seq<char> {
    match s {
        Summary::Verified => "✓ Verified"@,
        Summary::Failed => "✗ Check failed"@,
        Summary::Pending => "verifying…"@,
    }
}

/// The summary of several instances: one failure fails them all, and all of them have to pass.
pub open spec fn aggregate_of(summaries: Seq<Summary>) -> Summary {
    if summaries.contains(Summary::Failed) {
        Summary::Failed
    } else if summaries.contains(Summary::Pending) || summaries.len() == 0 {
        Summary::Pending
    } else {
        Summary::Verified
    }
}

/// The time since `received_at`; a time yet to come counts as now.
pub open spec fn age_of(now: u64, received_at: u64) -> nat {
    if now >= received_at {
        (now - received_at) as nat
    } else {
        0
    }
}

/// The freshness of a push of this age, in seconds.
pub open spec fn freshness_of(age: nat) -> Freshness {
    if age < 600 {
        Freshness::Live
    } else if age <= 3600 {
        Freshness::Stale
    } else {
        Freshness::Dead
    }
}

/// An age in words.
pub open spec fn age_text(age: nat) -> Seq<char> {
    if age < 5 {
        "just now"@
    } else if age < 60 {
        text::decimal(age) + "s ago"@
    } else if age < 3600 {
        text::decimal(age / 60) + "m ago"@
    } else if age < 86400 {
        text::decimal(age / 3600) + "h ago"@
    } else {
        text::decimal(age / 86400) + "d ago"@
    }
}

/// The badge of a role.
pub open spec fn role_text(role: Role) -> Seq<char> {
    match role {
        Role::Kms => "KMS"@,
        Role::Gateway => "Gateway"@,
        Role::Keystore => "Keystore"@,
        Role::Worker => "Worker"@,
        Role::Unknown => "Unknown"@,
    }
}

/// The domain at which the gateway serves an app.
pub open spec fn domain_of(role: Role, app_id: Seq<char>) -> Option<Seq<char>> {
    if app_id.len() > 0 && (role == Role::Keystore || role == Role::Worker) {
        Some(app_id + "-8081.dstack.outlayer.ai"@)
    } else {
        None
    }
}

/// The name of an app: the name of an instance without the number at its end.
pub open spec fn display_name(name: Seq<char>) -> Seq<char> {
    match text::split_last(name, '-') {
        Some((head, tail)) if head.len() > 0 && tail.len() > 0 && text::all_digits(tail) => head,
        _ => name,
    }
}

/// How many of the texts say `running`, whatever the case of their letters.
pub open spec fn running_count(statuses: Seq<Seq<char>>) -> nat {
    statuses.filter(|s: Seq<char>| text::lowered(s) == text::lowered("running"@)).len()
}

/// The status of several instances: theirs where they agree, otherwise how many are running.
pub open spec fn common_status(statuses: Seq<Seq<char>>) -> Seq<char> {
    if statuses.len() == 0 {
        Seq::empty()
    } else if forall|i: int| 0 <= i < statuses.len() ==> #[trigger] statuses[i] == statuses[0] {
        statuses[0]
    } else if running_count(statuses) > 0 {
        text::decimal(running_count(statuses)) + " running / "@ + text::decimal(statuses.len())
    } else {
        "mixed"@
    }
}

/// The class of a TCB status.
pub open spec fn tcb_class(status: Option<Seq<char>>) -> Seq<char> {
    match status {
        Some(s) => if s == "UpToDate"@ {
            "good"@
        } else {
            "warn"@
        },
        None => "bad"@,
    }
}

/// How a verdict is summed up. It counts as verified only where the signature is valid, the TCB is up
/// to date, nothing says that the measurements are not approved or do not match, and nothing went
/// wrong.
pub open spec fn summary_of_verdict(verdict: Option<verify::CvmVerdictModel>) -> Summary {
    match verdict {
        None => Summary::Pending,
        Some(v) => if v.sig_valid && v.tcb_status == Some("UpToDate"@) && v.on_chain_approved
            != Some(false) && v.quote_measurements_match != Some(false) && v.error is None {
            Summary::Verified
        } else {
            Summary::Failed
        },
    }
}

impl Freshness {
    /// The CSS class suffix.
    pub fn class(self) -> (r: &'static str)
        ensures
            r@ == freshness_class(self),
    {
        match self {
            Freshness::Live => "live",
            Freshness::Stale => "stale",
            Freshness::Dead => "dead",
        }
    }
}

impl OnChain {
    /// The CSS class suffix.
    pub fn class(self) -> (r: &'static str)
        ensures
            r@ == on_chain_class(self),
    {
        match self {
            OnChain::Approved => "approved",
            OnChain::NotApproved => "bad",
            OnChain::NotApplicable => "na",
        }
    }

    pub fn approved(self) -> (r: bool)
        ensures
            r == (self == OnChain::Approved),
    {
        matches!(self, OnChain::Approved)
    }

    pub fn not_approved(self) -> (r: bool)
        ensures
            r == (self == OnChain::NotApproved),
    {
        matches!(self, OnChain::NotApproved)
    }
}

impl Summary {
    /// The CSS class suffix.
    pub fn class(self) -> (r: &'static str)
        ensures
            r@ == summary_class(self),
    {
        match self {
            Summary::Verified => "verified",
            Summary::Failed => "failed",
            Summary::Pending => "pending",
        }
    }

    /// The chip.
    pub fn label(self) -> (r: &'static str)
        ensures
            r@ == summary_label(self),
    {
        match self {
            Summary::Verified => "✓ Verified",
            Summary::Failed => "✗ Check failed",
            Summary::Pending => "verifying…",
        }
    }

    /// The summary of several instances: failed if any failed, else pending if any is pending or
    /// there are none, else verified.
    pub fn aggregate(summaries: &[Summary]) -> (r: Summary)
        ensures
            r == aggregate_of(summaries@),
    {
        let mut failed = false;
        let mut pending = false;
        let mut i: usize = 0;
        while i < summaries.len()
            invariant
                i <= summaries@.len(),
                failed == summaries@.take(i as int).contains(Summary::Failed),
                pending == summaries@.take(i as int).contains(Summary::Pending),
            decreases summaries@.len() - i,
        {
            assert(summaries@.take(i + 1) =~= summaries@.take(i as int).push(summaries@[i as int]));
            assert forall|s: Summary|
                summaries@.take(i + 1).contains(s) <==> summaries@.take(i as int).contains(s) || s
                    == summaries@[i as int] by {
                if summaries@.take(i as int).contains(s) {
                    let k = choose|k: int|
                        0 <= k < i && #[trigger] summaries@.take(i as int)[k] == s;
                    assert(summaries@.take(i + 1)[k] == s);
                }
                assert(summaries@.take(i + 1)[i as int] == summaries@[i as int]);
            }
            match summaries[i] {
                Summary::Failed => failed = true,
                Summary::Pending => pending = true,
                Summary::Verified => {},
            }
            i = i + 1;
        }
        assert(summaries@.take(i as int) =~= summaries@);
        if failed {
            Summary::Failed
        } else if pending || summaries.len() == 0 {
            Summary::Pending
        } else {
            Summary::Verified
        }
    }
}

/// The badge of a role.
pub fn role_label(role: Role) -> (r: &'static str)
    ensures
        r@ == role_text(role),
{
    match role {
        Role::Kms => "KMS",
        Role::Gateway => "Gateway",
        Role::Keystore => "Keystore",
        Role::Worker => "Worker",
        Role::Unknown => "Unknown",
    }
}

/// The domain at which the gateway serves a keystore or worker; nothing for other roles.
pub fn gateway_domain(role: Role, app_id: &str) -> (r: Option<String>)
    ensures
        text::opt_view(r) == domain_of(role, app_id@),
{
    if text::is_empty(app_id) {
        return None;
    }
    match role {
        Role::Keystore | Role::Worker => Some(text::joined(app_id, "-8081.dstack.outlayer.ai")),
        Role::Kms | Role::Gateway | Role::Unknown => None,
    }
}

/// The freshness at `now` of what was received at `received_at`, in Unix seconds.
pub fn freshness(now: u64, received_at: u64) -> (r: Freshness)
    ensures
        r == freshness_of(age_of(now, received_at)),
{
    let age: u64 = now.saturating_sub(received_at);
    if age < 600 {
        Freshness::Live
    } else if age <= 3600 {
        Freshness::Stale
    } else {
        Freshness::Dead
    }
}

/// How long ago something was received, coarsely: `12s ago`, `4m ago`, `2h ago`, `3d ago`. A time yet
/// to come reads as `just now`.
pub fn humanize_age(now: u64, received_at: u64) -> (r: String)
    ensures
        r@ == age_text(age_of(now, received_at)),
{
    let age: u64 = now.saturating_sub(received_at);
    if age < 5 {
        "just now".to_owned()
    } else if age < 60 {
        text::joined(text::decimal_text(age).as_str(), "s ago")
    } else if age < 3600 {
        text::joined(text::decimal_text(age / 60).as_str(), "m ago")
    } else if age < 86400 {
        text::joined(text::decimal_text(age / 3600).as_str(), "h ago")
    } else {
        text::joined(text::decimal_text(age / 86400).as_str(), "d ago")
    }
}

/// The summary of a verdict; pending where there is none yet.
pub fn summary_of(verdict: Option<&CvmVerdict>) -> (r: Summary)
    ensures
        r == summary_of_verdict(text::opt_view(verdict)),
{
    let v = match verdict {
        None => return Summary::Pending,
        Some(v) => v,
    };
    let tcb_ok = match &v.tcb_status {
        Some(status) => text::same_text(status.as_str(), "UpToDate"),
        None => false,
    };
    let on_chain_ok = match v.on_chain_approved {
        Some(approved) => approved,
        None => true,
    };
    let measurements_ok = match v.quote_measurements_match {
        Some(same) => same,
        None => true,
    };
    if v.sig_valid && tcb_ok && on_chain_ok && measurements_ok && v.error.is_none() {
        Summary::Verified
    } else {
        Summary::Failed
    }
}

/// The name of an app: `mainnet-worker-1` becomes `mainnet-worker`. Only a last part of digits is cut
/// off, and only where something is left.
pub fn app_display_name(name: &str) -> (r: String)
    ensures
        r@ == display_name(name@),
{
    match text::split_at_last(name, '-') {
        Some((head, tail)) if !text::is_empty(head.as_str()) && !text::is_empty(tail.as_str())
            && text::only_digits(tail.as_str()) => head,
        _ => name.to_owned(),
    }
}

/// The status of several instances: theirs where they agree, otherwise `<R> running / <N>` where some
/// are running, and `mixed` where none is.
pub fn aggregate_status(statuses: &[&str]) -> (r: String)
    ensures
        r@ == common_status(text::each_view(statuses@)),
{
    let ghost all = text::each_view(statuses@);
    if statuses.len() == 0 {
        return String::new();
    }
    let mut same = true;
    let mut running: u64 = 0;
    let mut i: usize = 0;
    while i < statuses.len()
        invariant
            i <= statuses@.len(),
            all == text::each_view(statuses@),
            statuses@.len() > 0,
            same == forall|j: int| 0 <= j < i ==> #[trigger] all[j] == all[0],
            running == running_count(all.take(i as int)),
            running <= i,
        decreases statuses@.len() - i,
    {
        assert(all[i as int] == statuses@[i as int]@);
        assert(all.take(i + 1).drop_last() =~= all.take(i as int));
        reveal(Seq::filter);
        if !text::same_text(statuses[i], statuses[0]) {
            assert(all[i as int] != all[0]);
            same = false;
        }
        if text::same_ignoring_case(statuses[i], "running") {
            running = running + 1;
        }
        i = i + 1;
    }
    assert(all.take(i as int) =~= all);
    if same {
        statuses[0].to_owned()
    } else if running > 0 {
        let start = text::joined(text::decimal_text(running).as_str(), " running / ");
        text::joined(start.as_str(), text::decimal_text(statuses.len() as u64).as_str())
    } else {
        "mixed".to_owned()
    }
}

/// One node as the index shows it: its header and a row for each of its apps.
pub struct NodeListView {
    pub node_id: String,
    pub last_seen_human: String,
    pub last_seen_class: &'static str,
    pub rows: Vec<AppRowView>,
}

/// What a `NodeListView` shows.
#[verifier::ext_equal]
pub struct NodeListModel {
    pub node_id: Seq<char>,
    pub last_seen_human: Seq<char>,
    pub last_seen_class: Seq<char>,
    pub rows: Seq<AppRowModel>,
}

impl View for NodeListView {
    type V = NodeListModel;

    open spec fn view(&self) -> NodeListModel {
        NodeListModel {
            node_id: self.node_id@,
            last_seen_human: self.last_seen_human@,
            last_seen_class: self.last_seen_class@,
            rows: text::each_view(self.rows@),
        }
    }
}

/// One row of the index: all instances of an app on a node.
pub struct AppRowView {
    /// The first instance's name without its number.
    pub name: String,
    pub role_label: &'static str,
    /// The network, where the app belongs to one.
    pub network_label: Option<String>,
    pub status: String,
    pub instance_count: usize,
    /// Whether there is more than one instance.
    pub multi_instance: bool,
    /// The app that the row links to; may be empty.
    pub app_id: String,
    pub summary_class: &'static str,
    pub summary_label: &'static str,
}

/// What an `AppRowView` shows.
#[verifier::ext_equal]
pub struct AppRowModel {
    pub name: Seq<char>,
    pub role_label: Seq<char>,
    pub network_label: Option<Seq<char>>,
    pub status: Seq<char>,
    pub instance_count: nat,
    pub multi_instance: bool,
    pub app_id: Seq<char>,
    pub summary_class: Seq<char>,
    pub summary_label: Seq<char>,
}

impl View for AppRowView {
    type V = AppRowModel;

    open spec fn view(&self) -> AppRowModel {
        AppRowModel {
            name: self.name@,
            role_label: self.role_label@,
            network_label: text::opt_view(self.network_label),
            status: self.status@,
            instance_count: self.instance_count as nat,
            multi_instance: self.multi_instance,
            app_id: self.app_id@,
            summary_class: self.summary_class@,
            summary_label: self.summary_label@,
        }
    }
}

/// One labelled value.
pub struct MeasurementRow {
    pub label: &'static str,
    pub value: String,
}

impl View for MeasurementRow {
    type V = (Seq<char>, Seq<char>);

    open spec fn view(&self) -> (Seq<char>, Seq<char>) {
        (self.label@, self.value@)
    }
}

/// What was decoded from a verified quote.
pub struct DecodedReportView {
    pub rows: Vec<MeasurementRow>,
    pub fmspc: Option<String>,
    pub quote_hex: String,
}

/// What a `DecodedReportView` shows.
#[verifier::ext_equal]
pub struct DecodedViewModel {
    pub rows: Seq<(Seq<char>, Seq<char>)>,
    pub fmspc: Option<Seq<char>>,
    pub quote_hex: Seq<char>,
}

impl View for DecodedReportView {
    type V = DecodedViewModel;

    open spec fn view(&self) -> DecodedViewModel {
        DecodedViewModel {
            rows: text::each_view(self.rows@),
            fmspc: text::opt_view(self.fmspc),
            quote_hex: self.quote_hex@,
        }
    }
}

/// A verdict, flattened to flags and texts.
pub struct VerdictView {
    /// There is no verdict yet.
    pub pending: bool,
    pub sig_valid: bool,
    pub tcb_status: Option<String>,
    /// `good` (up to date), `warn` (any other status) or `bad` (none).
    pub tcb_class: &'static str,
    pub measurements_match: Option<bool>,
    pub on_chain: OnChain,
    pub on_chain_contract: Option<String>,
    pub advisory_ids: Vec<String>,
    pub verify_error: Option<String>,
    /// Some check failed; the whole card turns red.
    pub failing: bool,
}

/// What a `VerdictView` shows.
#[verifier::ext_equal]
pub struct VerdictViewModel {
    pub pending: bool,
    pub sig_valid: bool,
    pub tcb_status: Option<Seq<char>>,
    pub tcb_class: Seq<char>,
    pub measurements_match: Option<bool>,
    pub on_chain: OnChain,
    pub on_chain_contract: Option<Seq<char>>,
    pub advisory_ids: Seq<Seq<char>>,
    pub verify_error: Option<Seq<char>>,
    pub failing: bool,
}

impl View for VerdictView {
    type V = VerdictViewModel;

    open spec fn view(&self) -> VerdictViewModel {
        VerdictViewModel {
            pending: self.pending,
            sig_valid: self.sig_valid,
            tcb_status: text::opt_view(self.tcb_status),
            tcb_class: self.tcb_class@,
            measurements_match: self.measurements_match,
            on_chain: self.on_chain,
            on_chain_contract: text::opt_view(self.on_chain_contract),
            advisory_ids: text::each_view(self.advisory_ids@),
            verify_error: text::opt_view(self.verify_error),
            failing: self.failing,
        }
    }
}

/// One CVM as the detail page shows it.
pub struct CvmView {
    pub name: String,
    pub role_label: &'static str,
    pub network_label: Option<String>,
    pub status: String,
    pub uptime: Option<String>,
    pub app_id: String,
    pub vm_id: String,
    /// The CVM's place among the instances of the app, from one on, and how many there are.
    pub instance_index: usize,
    pub instance_total: usize,
    /// Whether the keys come from the dstack KMS.
    pub kms_in_tee: bool,
    pub gateway_domain: Option<String>,
    pub verdict: VerdictView,
    /// What was decoded from the verified quote.
    pub decoded: Option<DecodedReportView>,
    /// The registers that the report claims.
    pub measurements: Vec<MeasurementRow>,
    pub app_compose: Option<String>,
    pub image_digests: Vec<String>,
    pub images: Vec<ImageRow>,
    pub os_version: Option<String>,
    pub os_image_hash: Option<String>,
    pub mr_aggregated: Option<String>,
    pub compose_hash: Option<String>,
    pub key_provider: Option<String>,
    /// What went wrong in collecting this CVM.
    pub collect_error: Option<String>,
}

/// What a `CvmView` shows.
#[verifier::ext_equal]
pub struct CvmViewModel {
    pub name: Seq<char>,
    pub role_label: Seq<char>,
    pub network_label: Option<Seq<char>>,
    pub status: Seq<char>,
    pub uptime: Option<Seq<char>>,
    pub app_id: Seq<char>,
    pub vm_id: Seq<char>,
    pub instance_index: nat,
    pub instance_total: nat,
    pub kms_in_tee: bool,
    pub gateway_domain: Option<Seq<char>>,
    pub verdict: VerdictViewModel,
    pub decoded: Option<DecodedViewModel>,
    pub measurements: Seq<(Seq<char>, Seq<char>)>,
    pub app_compose: Option<Seq<char>>,
    pub image_digests: Seq<Seq<char>>,
    pub images: Seq<compose::ImageRowModel>,
    pub os_version: Option<Seq<char>>,
    pub os_image_hash: Option<Seq<char>>,
    pub mr_aggregated: Option<Seq<char>>,
    pub compose_hash: Option<Seq<char>>,
    pub key_provider: Option<Seq<char>>,
    pub collect_error: Option<Seq<char>>,
}

impl View for CvmView {
    type V = CvmViewModel;

    open spec fn view(&self) -> CvmViewModel {
        CvmViewModel {
            name: self.name@,
            role_label: self.role_label@,
            network_label: text::opt_view(self.network_label),
            status: self.status@,
            uptime: text::opt_view(self.uptime),
            app_id: self.app_id@,
            vm_id: self.vm_id@,
            instance_index: self.instance_index as nat,
            instance_total: self.instance_total as nat,
            kms_in_tee: self.kms_in_tee,
            gateway_domain: text::opt_view(self.gateway_domain),
            verdict: self.verdict@,
            decoded: text::opt_view(self.decoded),
            measurements: text::each_view(self.measurements@),
            app_compose: text::opt_view(self.app_compose),
            image_digests: text::each_view(self.image_digests@),
            images: text::each_view(self.images@),
            os_version: text::opt_view(self.os_version),
            os_image_hash: text::opt_view(self.os_image_hash),
            mr_aggregated: text::opt_view(self.mr_aggregated),
            compose_hash: text::opt_view(self.compose_hash),
            key_provider: text::opt_view(self.key_provider),
            collect_error: text::opt_view(self.collect_error),
        }
    }
}

/// One stored node's parts that the pages show.
pub struct StoredNode<'a> {
    pub received_at: u64,
    pub report: &'a NodeReport,
    pub verdicts: &'a [CvmVerdict],
}

/// The first verdict on a CVM.
pub open spec fn verdict_on(verdicts: Seq<CvmVerdict>, vm_id: Seq<char>) -> Option<
    verify::CvmVerdictModel,
>
    decreases verdicts.len(),
{
    if verdicts.len() == 0 {
        None
    } else if verdicts[0].vm_id@ == vm_id {
        Some(verdicts[0]@)
    } else {
        verdict_on(verdicts.drop_first(), vm_id)
    }
}

/// The claimed registers as rows.
pub open spec fn register_rows(m: Option<report::MeasurementsModel>) -> Seq<
    (Seq<char>, Seq<char>),
> {
    match m {
        None => Seq::empty(),
        Some(m) => seq![
            ("mrtd"@, m.mrtd),
            ("rtmr0"@, m.rtmr0),
            ("rtmr1"@, m.rtmr1),
            ("rtmr2"@, m.rtmr2),
            ("rtmr3"@, m.rtmr3),
        ],
    }
}

/// What was decoded from a quote, as rows.
pub open spec fn decoded_view(d: verify::DecodedModel) -> DecodedViewModel {
    DecodedViewModel {
        rows: seq![
            ("mrtd"@, d.mrtd),
            ("rtmr0"@, d.rtmr0),
            ("rtmr1"@, d.rtmr1),
            ("rtmr2"@, d.rtmr2),
            ("rtmr3"@, d.rtmr3),
            ("report_data"@, d.report_data),
            ("mr_seam"@, d.mr_seam),
            ("mr_signer_seam"@, d.mr_signer_seam),
            ("tee_tcb_svn"@, d.tee_tcb_svn),
            ("td_attributes"@, d.td_attributes),
            ("xfam"@, d.xfam),
        ],
        fmspc: d.fmspc,
        quote_hex: d.quote_hex,
    }
}

/// On-chain approval, as the page shows it.
pub open spec fn on_chain_of(approved: Option<bool>) -> OnChain {
    match approved {
        Some(true) => OnChain::Approved,
        Some(false) => OnChain::NotApproved,
        None => OnChain::NotApplicable,
    }
}

/// A verdict as the page shows it. The card is failing exactly where the summary is.
pub open spec fn verdict_view(verdict: Option<verify::CvmVerdictModel>) -> VerdictViewModel {
    match verdict {
        None => VerdictViewModel {
            pending: true,
            sig_valid: false,
            tcb_status: None,
            tcb_class: "bad"@,
            measurements_match: None,
            on_chain: OnChain::NotApplicable,
            on_chain_contract: None,
            advisory_ids: Seq::empty(),
            verify_error: None,
            failing: false,
        },
        Some(v) => VerdictViewModel {
            pending: false,
            sig_valid: v.sig_valid,
            tcb_status: v.tcb_status,
            tcb_class: tcb_class(v.tcb_status),
            measurements_match: v.quote_measurements_match,
            on_chain: on_chain_of(v.on_chain_approved),
            on_chain_contract: v.on_chain_contract,
            advisory_ids: v.advisory_ids,
            verify_error: v.error,
            failing: summary_of_verdict(verdict) == Summary::Failed,
        },
    }
}

/// A CVM as the detail page shows it.
pub open spec fn cvm_view(
    cvm: CvmAttestation,
    verdicts: Seq<CvmVerdict>,
    index: nat,
    total: nat,
) -> CvmViewModel {
    let verdict = verdict_on(verdicts, cvm.vm_id@);
    CvmViewModel {
        name: cvm.name@,
        role_label: role_text(cvm.role),
        network_label: text::opt_view(cvm.network),
        status: cvm.status@,
        uptime: text::opt_view(cvm.uptime),
        app_id: cvm.app_id@,
        vm_id: cvm.vm_id@,
        instance_index: index,
        instance_total: total,
        kms_in_tee: match text::opt_view(cvm.key_provider) {
            Some(k) => text::lowered(k) == text::lowered("kms"@),
            None => false,
        },
        gateway_domain: domain_of(cvm.role, cvm.app_id@),
        verdict: verdict_view(verdict),
        decoded: match verdict {
            Some(v) => match v.decoded {
                Some(d) => Some(decoded_view(d)),
                None => None,
            },
            None => None,
        },
        measurements: register_rows(text::opt_view(cvm.measurements)),
        app_compose: text::opt_view(cvm.app_compose),
        image_digests: text::each_view(cvm.image_digests@),
        images: compose::app_compose_rows(text::opt_view(cvm.app_compose)),
        os_version: text::opt_view(cvm.os_version),
        os_image_hash: text::opt_view(cvm.os_image_hash),
        mr_aggregated: text::opt_view(cvm.mr_aggregated),
        compose_hash: text::opt_view(cvm.compose_hash),
        key_provider: text::opt_view(cvm.key_provider),
        collect_error: text::opt_view(cvm.error),
    }
}

/// The app of each CVM.
pub open spec fn each_app_id(cvms: Seq<CvmAttestation>) -> Seq<Seq<char>> {
    Seq::new(cvms.len(), |i: int| cvms[i].app_id@)
}

/// The apps of some CVMs, each once, in the order in which they first occur.
pub open spec fn app_ids(cvms: Seq<CvmAttestation>) -> Seq<Seq<char>> {
    text::distinct(each_app_id(cvms))
}

/// Whether a CVM is an instance of an app.
pub open spec fn belongs_to(app_id: Seq<char>) -> spec_fn(CvmAttestation) -> bool {
    |c: CvmAttestation| c.app_id@ == app_id
}

/// The CVMs that are instances of an app, in order.
pub open spec fn instances_of(cvms: Seq<CvmAttestation>, app_id: Seq<char>) -> Seq<
    CvmAttestation,
> {
    cvms.filter(belongs_to(app_id))
}

/// The CVMs grouped by app.
pub open spec fn app_groups(cvms: Seq<CvmAttestation>) -> Seq<Seq<CvmAttestation>> {
    Seq::new(app_ids(cvms).len(), |g: int| instances_of(cvms, app_ids(cvms)[g]))
}

/// The summaries of some CVMs.
pub open spec fn instance_summaries(
    instances: Seq<CvmAttestation>,
    verdicts: Seq<CvmVerdict>,
) -> Seq<Summary> {
    Seq::new(
        instances.len(),
        |i: int| summary_of_verdict(verdict_on(verdicts, instances[i].vm_id@)),
    )
}

/// The row of an app with these instances; a blank one where there is none.
pub open spec fn app_row(instances: Seq<CvmAttestation>, verdicts: Seq<CvmVerdict>) -> AppRowModel {
    let summary = aggregate_of(instance_summaries(instances, verdicts));
    if instances.len() == 0 {
        AppRowModel {
            name: Seq::empty(),
            role_label: role_text(Role::Unknown),
            network_label: None,
            status: Seq::empty(),
            instance_count: 0,
            multi_instance: false,
            app_id: Seq::empty(),
            summary_class: summary_class(Summary::Pending),
            summary_label: summary_label(Summary::Pending),
        }
    } else {
        AppRowModel {
            name: display_name(instances[0].name@),
            role_label: role_text(instances[0].role),
            network_label: text::opt_view(instances[0].network),
            status: common_status(Seq::new(instances.len(), |i: int| instances[i].status@)),
            instance_count: instances.len(),
            multi_instance: instances.len() > 1,
            app_id: instances[0].app_id@,
            summary_class: summary_class(summary),
            summary_label: summary_label(summary),
        }
    }
}

/// A node as the index shows it.
pub open spec fn node_list(
    now: u64,
    received_at: u64,
    node: NodeReport,
    verdicts: Seq<CvmVerdict>,
) -> NodeListModel {
    let groups = app_groups(node.cvms@);
    NodeListModel {
        node_id: node.node_id@,
        last_seen_human: age_text(age_of(now, received_at)),
        last_seen_class: freshness_class(freshness_of(age_of(now, received_at))),
        rows: Seq::new(groups.len(), |g: int| app_row(groups[g], verdicts)),
    }
}

/// The instances of an app on some nodes, in order, each with the verdicts of its node.
pub open spec fn matching(nodes: Seq<StoredNode>, app_id: Seq<char>) -> Seq<
    (CvmAttestation, Seq<CvmVerdict>),
>
    decreases nodes.len(),
{
    if nodes.len() == 0 {
        Seq::empty()
    } else {
        let node = nodes.last();
        let found = instances_of(node.report.cvms@, app_id);
        matching(nodes.drop_last(), app_id) + Seq::new(
            found.len(),
            |i: int| (found[i], node.verdicts@),
        )
    }
}

/// The cards of an app's detail page.
pub open spec fn app_cards(nodes: Seq<StoredNode>, app_id: Seq<char>) -> Seq<CvmViewModel> {
    let found = matching(nodes, app_id);
    Seq::new(
        found.len(),
        |i: int| cvm_view(found[i].0, found[i].1, (i + 1) as nat, found.len()),
    )
}

/// The items behind some references.
pub open spec fn items_behind<T>(refs: Seq<&T>) -> Seq<T> {
    Seq::new(refs.len(), |i: int| *refs[i])
}

fn find_verdict<'a>(verdicts: &'a [CvmVerdict], vm_id: &str) -> (r: Option<&'a CvmVerdict>)
    ensures
        text::opt_view(r) == verdict_on(verdicts@, vm_id@),
{
    let mut i: usize = 0;
    assert(verdicts@.skip(0) =~= verdicts@);
    while i < verdicts.len()
        invariant
            i <= verdicts@.len(),
            verdict_on(verdicts@, vm_id@) == verdict_on(verdicts@.skip(i as int), vm_id@),
        decreases verdicts@.len() - i,
    {
        if text::same_text(verdicts[i].vm_id.as_str(), vm_id) {
            return Some(&verdicts[i]);
        }
        assert(verdicts@.skip(i as int).drop_first() =~= verdicts@.skip(i + 1));
        i = i + 1;
    }
    None
}

fn row(label: &'static str, value: &String) -> (r: MeasurementRow)
    ensures
        r@ == (label@, value@),
{
    MeasurementRow { label, value: value.clone() }
}

/// The claimed registers as rows; none where the guest agent could not be reached.
pub fn measurement_rows(m: Option<&Measurements>) -> (r: Vec<MeasurementRow>)
    ensures
        text::each_view(r@) == register_rows(text::opt_view(m)),
{
    let mut rows: Vec<MeasurementRow> = Vec::new();
    if let Some(m) = m {
        rows.push(row("mrtd", &m.mrtd));
        rows.push(row("rtmr0", &m.rtmr0));
        rows.push(row("rtmr1", &m.rtmr1));
        rows.push(row("rtmr2", &m.rtmr2));
        rows.push(row("rtmr3", &m.rtmr3));
    }
    assert(text::each_view(rows@) =~= register_rows(text::opt_view(m)));
    rows
}

/// What was decoded from a quote, as rows.
pub fn decoded_report_view(d: &DecodedReport) -> (r: DecodedReportView)
    ensures
        r@ == decoded_view(d@),
{
    let mut rows: Vec<MeasurementRow> = Vec::new();
    rows.push(row("mrtd", &d.mrtd));
    rows.push(row("rtmr0", &d.rtmr0));
    rows.push(row("rtmr1", &d.rtmr1));
    rows.push(row("rtmr2", &d.rtmr2));
    rows.push(row("rtmr3", &d.rtmr3));
    rows.push(row("report_data", &d.report_data));
    rows.push(row("mr_seam", &d.mr_seam));
    rows.push(row("mr_signer_seam", &d.mr_signer_seam));
    rows.push(row("tee_tcb_svn", &d.tee_tcb_svn));
    rows.push(row("td_attributes", &d.td_attributes));
    rows.push(row("xfam", &d.xfam));
    assert(text::each_view(rows@) =~= decoded_view(d@).rows);
    DecodedReportView { rows, fmspc: text::copied(&d.fmspc), quote_hex: d.quote_hex.clone() }
}

impl VerdictView {
    /// The class of a TCB status.
    pub fn tcb_class_of(status: Option<&str>) -> (r: &'static str)
        ensures
            r@ == tcb_class(text::opt_view(status)),
    {
        match status {
            Some(s) => if text::same_text(s, "UpToDate") {
                "good"
            } else {
                "warn"
            },
            None => "bad",
        }
    }
}

/// A verdict as the page shows it; pending where there is none yet. A missing on-chain result is no
/// failure.
pub fn build_verdict(verdict: Option<&CvmVerdict>) -> (r: VerdictView)
    ensures
        r@ == verdict_view(text::opt_view(verdict)),
{
    let v = match verdict {
        None => {
            let r = VerdictView {
                pending: true,
                sig_valid: false,
                tcb_status: None,
                tcb_class: "bad",
                measurements_match: None,
                on_chain: OnChain::NotApplicable,
                on_chain_contract: None,
                advisory_ids: Vec::new(),
                verify_error: None,
                failing: false,
            };
            assert(r@ =~= verdict_view(None));
            return r;
        },
        Some(v) => v,
    };
    let on_chain = match v.on_chain_approved {
        Some(true) => OnChain::Approved,
        Some(false) => OnChain::NotApproved,
        None => OnChain::NotApplicable,
    };
    let failing = matches!(summary_of(verdict), Summary::Failed);
    let tcb_class = match &v.tcb_status {
        Some(status) => VerdictView::tcb_class_of(Some(status.as_str())),
        None => VerdictView::tcb_class_of(None),
    };
    VerdictView {
        pending: false,
        sig_valid: v.sig_valid,
        tcb_status: text::copied(&v.tcb_status),
        tcb_class,
        measurements_match: v.quote_measurements_match,
        on_chain,
        on_chain_contract: text::copied(&v.on_chain_contract),
        advisory_ids: text::copied_list(&v.advisory_ids),
        verify_error: text::copied(&v.error),
        failing,
    }
}

/// A CVM as the detail page shows it, joined with its verdict. It is number `instance_index` of
/// `instance_total` instances.
pub fn build_cvm(
    cvm: &CvmAttestation,
    verdicts: &[CvmVerdict],
    instance_index: usize,
    instance_total: usize,
) -> (r: CvmView)
    ensures
        r@ == cvm_view(*cvm, verdicts@, instance_index as nat, instance_total as nat),
{
    let verdict = find_verdict(verdicts, cvm.vm_id.as_str());
    let decoded = match verdict {
        Some(v) => match &v.decoded {
            Some(d) => Some(decoded_report_view(d)),
            None => None,
        },
        None => None,
    };
    let kms_in_tee = match &cvm.key_provider {
        Some(k) => text::same_ignoring_case(k.as_str(), "kms"),
        None => false,
    };
    let images = match &cvm.app_compose {
        Some(raw) => compose::image_rows(Some(raw.as_str())),
        None => compose::image_rows(None),
    };
    let measurements = match &cvm.measurements {
        Some(m) => measurement_rows(Some(m)),
        None => measurement_rows(None),
    };
    CvmView {
        name: cvm.name.clone(),
        role_label: role_label(cvm.role),
        network_label: text::copied(&cvm.network),
        status: cvm.status.clone(),
        uptime: text::copied(&cvm.uptime),
        app_id: cvm.app_id.clone(),
        vm_id: cvm.vm_id.clone(),
        instance_index,
        instance_total,
        kms_in_tee,
        gateway_domain: gateway_domain(cvm.role, cvm.app_id.as_str()),
        verdict: build_verdict(verdict),
        decoded,
        measurements,
        app_compose: text::copied(&cvm.app_compose),
        image_digests: text::copied_list(&cvm.image_digests),
        images,
        os_version: text::copied(&cvm.os_version),
        os_image_hash: text::copied(&cvm.os_image_hash),
        mr_aggregated: text::copied(&cvm.mr_aggregated),
        compose_hash: text::copied(&cvm.compose_hash),
        key_provider: text::copied(&cvm.key_provider),
        collect_error: text::copied(&cvm.error),
    }
}

fn list_app_ids<'a>(cvms: &'a [CvmAttestation]) -> (r: Vec<&'a str>)
    ensures
        text::each_view(r@) == app_ids(cvms@),
{
    let ghost all = each_app_id(cvms@);
    let mut order: Vec<&'a str> = Vec::new();
    let mut i: usize = 0;
    assert(text::each_view(order@) =~= text::distinct(all.take(0)));
    while i < cvms.len()
        invariant
            i <= cvms@.len(),
            all == each_app_id(cvms@),
            text::each_view(order@) == text::distinct(all.take(i as int)),
        decreases cvms@.len() - i,
    {
        let id = cvms[i].app_id.as_str();
        let ghost before = text::each_view(order@);
        assert(all.take(i + 1).drop_last() =~= all.take(i as int));
        assert(all.take(i + 1).last() == id@);
        let mut known = false;
        let mut k: usize = 0;
        while k < order.len() && !known
            invariant
                k <= order@.len(),
                before == text::each_view(order@),
                known ==> before.contains(id@),
                !known ==> forall|j: int| 0 <= j < k ==> #[trigger] before[j] != id@,
            decreases order@.len() - k + if known { 0int } else { 1int },
        {
            assert(before[k as int] == order@[k as int]@);
            if text::same_text(order[k], id) {
                known = true;
            } else {
                k = k + 1;
            }
        }
        if !known {
            order.push(id);
            assert(text::each_view(order@) =~= before.push(id@));
        }
        i = i + 1;
    }
    assert(all.take(i as int) =~= all);
    order
}

fn list_instances<'a>(cvms: &'a [CvmAttestation], app_id: &str) -> (r: Vec<&'a CvmAttestation>)
    ensures
        items_behind(r@) == instances_of(cvms@, app_id@),
{
    let mut out: Vec<&'a CvmAttestation> = Vec::new();
    let mut i: usize = 0;
    reveal(Seq::filter);
    assert(items_behind(out@) =~= instances_of(cvms@.take(0), app_id@));
    while i < cvms.len()
        invariant
            i <= cvms@.len(),
            items_behind(out@) == instances_of(cvms@.take(i as int), app_id@),
        decreases cvms@.len() - i,
    {
        reveal(Seq::filter);
        assert(cvms@.take(i + 1).drop_last() =~= cvms@.take(i as int));
        let ghost before = out@;
        if text::same_text(cvms[i].app_id.as_str(), app_id) {
            out.push(&cvms[i]);
            assert(items_behind(out@) =~= items_behind(before).push(cvms@[i as int]));
        }
        i = i + 1;
    }
    assert(cvms@.take(i as int) =~= cvms@);
    out
}

/// A node's CVMs grouped by app. The apps stand in the order in which they first occur, and so do
/// the instances of each.
pub fn group_by_app<'a>(cvms: &'a [CvmAttestation]) -> (r: Vec<Vec<&'a CvmAttestation>>)
    ensures
        r@.len() == app_groups(cvms@).len(),
        forall|g: int| 0 <= g < r@.len() ==> items_behind(#[trigger] r@[g]@) == app_groups(cvms@)[g],
{
    let ids = list_app_ids(cvms);
    let mut groups: Vec<Vec<&'a CvmAttestation>> = Vec::new();
    let mut g: usize = 0;
    while g < ids.len()
        invariant
            g == groups@.len(),
            g <= ids@.len(),
            text::each_view(ids@) == app_ids(cvms@),
            forall|h: int|
                0 <= h < g ==> items_behind(#[trigger] groups@[h]@) == app_groups(cvms@)[h],
        decreases ids@.len() - g,
    {
        assert(app_ids(cvms@)[g as int] == ids@[g as int]@);
        let group = list_instances(cvms, ids[g]);
        groups.push(group);
        g = g + 1;
    }
    groups
}

/// The row of an app with these instances: the chip sums up their verdicts.
pub fn build_app_row(instances: &[&CvmAttestation], verdicts: &[CvmVerdict]) -> (r: AppRowView)
    ensures
        r@ == app_row(items_behind(instances@), verdicts@),
{
    let ghost all = items_behind(instances@);
    if instances.len() == 0 {
        let r = AppRowView {
            name: String::new(),
            role_label: role_label(Role::Unknown),
            network_label: None,
            status: String::new(),
            instance_count: 0,
            multi_instance: false,
            app_id: String::new(),
            summary_class: Summary::Pending.class(),
            summary_label: Summary::Pending.label(),
        };
        assert(r@ =~= app_row(all, verdicts@));
        return r;
    }
    let mut summaries: Vec<Summary> = Vec::new();
    let mut statuses: Vec<&str> = Vec::new();
    let mut i: usize = 0;
    while i < instances.len()
        invariant
            i <= instances@.len(),
            all == items_behind(instances@),
            summaries@ == instance_summaries(all, verdicts@).take(i as int),
            text::each_view(statuses@) == Seq::new(i as nat, |j: int| all[j].status@),
        decreases instances@.len() - i,
    {
        let c = instances[i];
        let ghost before = statuses@;
        summaries.push(summary_of(find_verdict(verdicts, c.vm_id.as_str())));
        statuses.push(c.status.as_str());
        assert(text::each_view(statuses@) =~= text::each_view(before).push(c.status@));
        i = i + 1;
        assert(summaries@ =~= instance_summaries(all, verdicts@).take(i as int));
        assert(text::each_view(statuses@) =~= Seq::new(i as nat, |j: int| all[j].status@));
    }
    assert(instance_summaries(all, verdicts@).take(i as int) =~= instance_summaries(all, verdicts@));
    let summary = Summary::aggregate(summaries.as_slice());
    let first = instances[0];
    let count: usize = instances.len();
    AppRowView {
        name: app_display_name(first.name.as_str()),
        role_label: role_label(first.role),
        network_label: text::copied(&first.network),
        status: aggregate_status(statuses.as_slice()),
        instance_count: count,
        multi_instance: count > 1,
        app_id: first.app_id.clone(),
        summary_class: summary.class(),
        summary_label: summary.label(),
    }
}

/// A node as the index shows it: its header, and one row for each of its apps.
pub fn build_node_list(
    now: u64,
    received_at: u64,
    report: &NodeReport,
    verdicts: &[CvmVerdict],
) -> (r: NodeListView)
    ensures
        r@ == node_list(now, received_at, *report, verdicts@),
{
    let groups = group_by_app(report.cvms.as_slice());
    let ghost wanted = node_list(now, received_at, *report, verdicts@).rows;
    let mut rows: Vec<AppRowView> = Vec::new();
    let mut g: usize = 0;
    assert(text::each_view(rows@) =~= wanted.take(0));
    while g < groups.len()
        invariant
            g <= groups@.len(),
            groups@.len() == app_groups(report.cvms@).len(),
            forall|h: int|
                0 <= h < groups@.len() ==> items_behind(#[trigger] groups@[h]@) == app_groups(
                    report.cvms@,
                )[h],
            wanted == node_list(now, received_at, *report, verdicts@).rows,
            text::each_view(rows@) == wanted.take(g as int),
        decreases groups@.len() - g,
    {
        let ghost before = rows@;
        let next = build_app_row(groups[g].as_slice(), verdicts);
        rows.push(next);
        assert(text::each_view(rows@) =~= text::each_view(before).push(next@));
        g = g + 1;
        assert(text::each_view(rows@) =~= wanted.take(g as int));
    }
    assert(wanted.take(g as int) =~= wanted);
    NodeListView {
        node_id: report.node_id.clone(),
        last_seen_human: humanize_age(now, received_at),
        last_seen_class: freshness(now, received_at).class(),
        rows,
    }
}

/// The instances of an app on some nodes, each with the verdicts of its node, as values.
pub open spec fn matches_behind(found: Seq<(&CvmAttestation, &[CvmVerdict])>) -> Seq<
    (CvmAttestation, Seq<CvmVerdict>),
> {
    Seq::new(found.len(), |i: int| (*found[i].0, found[i].1@))
}

fn list_matches<'a>(app_id: &str, nodes: &'a [StoredNode<'a>]) -> (r: Vec<
    (&'a CvmAttestation, &'a [CvmVerdict]),
>)
    ensures
        matches_behind(r@) == matching(nodes@, app_id@),
{
    let mut out: Vec<(&'a CvmAttestation, &'a [CvmVerdict])> = Vec::new();
    let mut i: usize = 0;
    assert(matches_behind(out@) =~= matching(nodes@.take(0), app_id@));
    while i < nodes.len()
        invariant
            i <= nodes@.len(),
            matches_behind(out@) == matching(nodes@.take(i as int), app_id@),
        decreases nodes@.len() - i,
    {
        let node = &nodes[i];
        let ghost before = matches_behind(out@);
        let found = list_instances(node.report.cvms.as_slice(), app_id);
        let ghost added = Seq::new(
            found@.len(),
            |j: int| (items_behind(found@)[j], node.verdicts@),
        );
        let mut k: usize = 0;
        assert(matches_behind(out@) =~= before + added.take(0));
        while k < found.len()
            invariant
                k <= found@.len(),
                added == Seq::new(
                    found@.len(),
                    |j: int| (items_behind(found@)[j], node.verdicts@),
                ),
                matches_behind(out@) == before + added.take(k as int),
            decreases found@.len() - k,
        {
            let ghost older = out@;
            out.push((found[k], node.verdicts));
            assert(matches_behind(out@) =~= matches_behind(older).push(added[k as int]));
            k = k + 1;
            assert(matches_behind(out@) =~= before + added.take(k as int));
        }
        assert(added.take(k as int) =~= added);
        assert(nodes@.take(i + 1).drop_last() =~= nodes@.take(i as int));
        i = i + 1;
    }
    assert(nodes@.take(i as int) =~= nodes@);
    out
}

/// The cards of an app's detail page: every instance of it, in the order of the nodes.
pub fn build_cards(app_id: &str, nodes: &[StoredNode<'_>]) -> (r: Vec<CvmView>)
    ensures
        text::each_view(r@) == app_cards(nodes@, app_id@),
{
    let found = list_matches(app_id, nodes);
    let total: usize = found.len();
    let ghost wanted = app_cards(nodes@, app_id@);
    let mut cards: Vec<CvmView> = Vec::new();
    let mut i: usize = 0;
    assert(text::each_view(cards@) =~= wanted.take(0));
    while i < total
        invariant
            i <= total == found@.len(),
            matches_behind(found@) == matching(nodes@, app_id@),
            wanted == app_cards(nodes@, app_id@),
            text::each_view(cards@) == wanted.take(i as int),
        decreases total - i,
    {
        let ghost before = cards@;
        let (cvm, verdicts) = found[i];
        assert(matching(nodes@, app_id@)[i as int] == (*cvm, verdicts@));
        let card = build_cvm(cvm, verdicts, i + 1, total);
        cards.push(card);
        assert(text::each_view(cards@) =~= text::each_view(before).push(card@));
        i = i + 1;
        assert(text::each_view(cards@) =~= wanted.take(i as int));
    }
    assert(wanted.take(i as int) =~= wanted);
    cards
}

/// Summing up several instances does not depend on their order: one failure fails them all, and they
/// count as verified only where there is one and all of them are.
pub proof fn law_aggregate(a: Seq<Summary>, b: Seq<Summary>)
    requires
        a.to_multiset() == b.to_multiset(),
    ensures
        aggregate_of(a) == aggregate_of(b),
        aggregate_of(a) == Summary::Failed <==> a.contains(Summary::Failed),
        aggregate_of(a) == Summary::Verified <==> a.len() > 0 && forall|i: int|
            0 <= i < a.len() ==> #[trigger] a[i] == Summary::Verified,
{
    a.to_multiset_ensures();
    b.to_multiset_ensures();
    assert(a.len() == b.len());
    assert forall|s: Summary| a.contains(s) == b.contains(s) by {
        assert(a.contains(s) <==> a.to_multiset().count(s) > 0);
        assert(b.contains(s) <==> b.to_multiset().count(s) > 0);
    }
    if !a.contains(Summary::Failed) && !a.contains(Summary::Pending) {
        assert forall|i: int| 0 <= i < a.len() implies #[trigger] a[i] == Summary::Verified by {
            assert(a.contains(a[i]));
        }
    }
    if forall|i: int| 0 <= i < a.len() ==> #[trigger] a[i] == Summary::Verified {
        assert(!a.contains(Summary::Failed));
        assert(!a.contains(Summary::Pending));
    }
}

/// The chip of the index and the card of the detail page never disagree on a verdict.
pub proof fn law_chip_and_card_agree(verdict: Option<verify::CvmVerdictModel>)
    ensures
        verdict_view(verdict).failing <==> summary_of_verdict(verdict) == Summary::Failed,
        verdict_view(verdict).pending <==> summary_of_verdict(verdict) == Summary::Pending,
{
}

/// A verdict with an invalid signature, an outdated TCB, measurements that do not match or are not
/// approved, or an error is never shown as verified; a missing on-chain result alone does not fail it.
pub proof fn law_nothing_bad_reads_as_verified(v: verify::CvmVerdictModel)
    ensures
        summary_of_verdict(Some(v)) == Summary::Verified ==> {
            &&& v.sig_valid
            &&& v.tcb_status == Some("UpToDate"@)
            &&& v.quote_measurements_match != Some(false)
            &&& v.on_chain_approved != Some(false)
            &&& v.error is None
        },
        summary_of_verdict(Some(v)) == Summary::Verified ==> summary_of_verdict(
            Some(verify::CvmVerdictModel { on_chain_approved: None, ..v }),
        ) == Summary::Verified,
{
}

/// A node gets no fresher with time, and one whose clock is ahead of the portal's counts as live.
pub proof fn law_freshness_fades(received_at: u64, now: u64, later: u64)
    requires
        now <= later,
    ensures
        freshness_of(age_of(later, received_at)) == Freshness::Live ==> freshness_of(
            age_of(now, received_at),
        ) == Freshness::Live,
        freshness_of(age_of(now, received_at)) == Freshness::Dead ==> freshness_of(
            age_of(later, received_at),
        ) == Freshness::Dead,
        now <= received_at ==> freshness_of(age_of(now, received_at)) == Freshness::Live
            && age_text(age_of(now, received_at)) == "just now"@,
{
}

/// How many CVMs some groups hold together.
pub open spec fn total_size(groups: Seq<Seq<CvmAttestation>>) -> nat
    decreases groups.len(),
{
    if groups.len() == 0 {
        0
    } else {
        total_size(groups.drop_last()) + groups.last().len()
    }
}

/// The CVMs of each of some apps.
spec fn groups_for(cvms: Seq<CvmAttestation>, ids: Seq<Seq<char>>) -> Seq<Seq<CvmAttestation>> {
    Seq::new(ids.len(), |g: int| instances_of(cvms, ids[g]))
}

proof fn lemma_instances_of_last(cvms: Seq<CvmAttestation>, id: Seq<char>)
    requires
        cvms.len() > 0,
    ensures
        instances_of(cvms, id).len() == instances_of(cvms.drop_last(), id).len() + if cvms.last().app_id@
            == id {
            1int
        } else {
            0int
        },
{
    reveal(Seq::filter);
}

proof fn lemma_groups_grow(cvms: Seq<CvmAttestation>, ids: Seq<Seq<char>>)
    requires
        cvms.len() > 0,
        ids.no_duplicates(),
    ensures
        total_size(groups_for(cvms, ids)) == total_size(groups_for(cvms.drop_last(), ids))
            + if ids.contains(cvms.last().app_id@) {
            1int
        } else {
            0int
        },
    decreases ids.len(),
{
    if ids.len() > 0 {
        let shorter = ids.drop_last();
        lemma_groups_grow(cvms, shorter);
        lemma_instances_of_last(cvms, ids.last());
        assert(groups_for(cvms, ids).drop_last() =~= groups_for(cvms, shorter));
        assert(groups_for(cvms.drop_last(), ids).drop_last() =~= groups_for(
            cvms.drop_last(),
            shorter,
        ));
        let id = cvms.last().app_id@;
        if ids.contains(id) {
            let k = choose|k: int| 0 <= k < ids.len() && ids[k] == id;
            if k < shorter.len() {
                assert(shorter[k] == id);
            }
        }
        if shorter.contains(id) {
            let k = choose|k: int| 0 <= k < shorter.len() && shorter[k] == id;
            assert(ids[k] == id);
        }
    }
}

proof fn lemma_groups_hold_all(cvms: Seq<CvmAttestation>, ids: Seq<Seq<char>>)
    requires
        ids.no_duplicates(),
        forall|i: int| 0 <= i < cvms.len() ==> ids.contains((#[trigger] cvms[i]).app_id@),
    ensures
        total_size(groups_for(cvms, ids)) == cvms.len(),
    decreases cvms.len(),
{
    if cvms.len() > 0 {
        let shorter = cvms.drop_last();
        assert forall|i: int| 0 <= i < shorter.len() implies ids.contains(
            (#[trigger] shorter[i]).app_id@,
        ) by {
            assert(shorter[i] == cvms[i]);
        }
        lemma_groups_hold_all(shorter, ids);
        lemma_groups_grow(cvms, ids);
        assert(ids.contains(cvms[cvms.len() - 1].app_id@));
    } else {
        lemma_groups_of_none(cvms, ids);
    }
}

proof fn lemma_groups_of_none(cvms: Seq<CvmAttestation>, ids: Seq<Seq<char>>)
    requires
        cvms.len() == 0,
    ensures
        total_size(groups_for(cvms, ids)) == 0,
    decreases ids.len(),
{
    reveal(Seq::filter);
    if ids.len() > 0 {
        assert(groups_for(cvms, ids).drop_last() =~= groups_for(cvms, ids.drop_last()));
        lemma_groups_of_none(cvms, ids.drop_last());
    }
}

/// Grouping a node's CVMs by app loses none and repeats none: the apps are distinct, no group is
/// empty, a group holds only instances of its app, every CVM is in the group of its app, and the
/// groups together hold as many CVMs as there are.
pub proof fn law_groups_partition(cvms: Seq<CvmAttestation>)
    ensures
        app_ids(cvms).no_duplicates(),
        forall|g: int| 0 <= g < app_groups(cvms).len() ==> (#[trigger] app_groups(cvms)[g]).len() > 0,
        forall|g: int, i: int|
            0 <= g < app_groups(cvms).len() && 0 <= i < app_groups(cvms)[g].len() ==> (
            #[trigger] app_groups(cvms)[g][i]).app_id@ == app_ids(cvms)[g],
        forall|i: int|
            0 <= i < cvms.len() ==> exists|g: int|
                0 <= g < app_groups(cvms).len() && (#[trigger] app_groups(cvms)[g]).contains(
                    #[trigger] cvms[i],
                ),
        total_size(app_groups(cvms)) == cvms.len(),
{
    broadcast use vstd::seq_lib::group_filter_ensures;

    let ids = app_ids(cvms);
    text::law_distinct(each_app_id(cvms));
    assert forall|g: int| 0 <= g < ids.len() implies (#[trigger] app_groups(cvms)[g]).len() > 0 by {
        assert(ids.contains(ids[g]));
        assert(each_app_id(cvms).contains(ids[g]));
        let i = choose|i: int| 0 <= i < cvms.len() && each_app_id(cvms)[i] == ids[g];
        assert(instances_of(cvms, ids[g]).contains(cvms[i]));
    }
    assert forall|i: int| 0 <= i < cvms.len() implies ids.contains((#[trigger] cvms[i]).app_id@) by {
        assert(each_app_id(cvms)[i] == cvms[i].app_id@);
        assert(each_app_id(cvms).contains(cvms[i].app_id@));
    }
    assert forall|i: int| 0 <= i < cvms.len() implies exists|g: int|
        0 <= g < app_groups(cvms).len() && (#[trigger] app_groups(cvms)[g]).contains(
            #[trigger] cvms[i],
        ) by {
        assert(ids.contains(cvms[i].app_id@));
        let g = choose|g: int| 0 <= g < ids.len() && ids[g] == cvms[i].app_id@;
        assert(instances_of(cvms, ids[g]).contains(cvms[i]));
        assert(app_groups(cvms)[g].contains(cvms[i]));
    }
    lemma_groups_hold_all(cvms, ids);
    assert(groups_for(cvms, ids) =~= app_groups(cvms));
}

/// An app is found exactly where some node reports an instance of it.
pub proof fn law_matching_finds_instances(nodes: Seq<StoredNode>, app_id: Seq<char>)
    ensures
        matching(nodes, app_id).len() > 0 <==> exists|n: int, c: int|
            0 <= n < nodes.len() && 0 <= c < nodes[n].report.cvms@.len() && (
            #[trigger] nodes[n].report.cvms@[c]).app_id@ == app_id,
    decreases nodes.len(),
{
    broadcast use vstd::seq_lib::group_filter_ensures;

    if nodes.len() > 0 {
        let shorter = nodes.drop_last();
        law_matching_finds_instances(shorter, app_id);
        let node = nodes.last();
        let found = instances_of(node.report.cvms@, app_id);
        if matching(nodes, app_id).len() > 0 {
            if found.len() > 0 {
                assert(found.contains(found[0]));
                node.report.cvms@.lemma_filter_contains_rev(belongs_to(app_id), found[0]);
                let c = choose|c: int|
                    0 <= c < node.report.cvms@.len() && node.report.cvms@[c] == found[0];
                assert(nodes[nodes.len() - 1].report.cvms@[c].app_id@ == app_id);
            } else {
                let (n, c) = choose|n: int, c: int|
                    0 <= n < shorter.len() && 0 <= c < shorter[n].report.cvms@.len() && (
                    #[trigger] shorter[n].report.cvms@[c]).app_id@ == app_id;
                assert(nodes[n].report.cvms@[c].app_id@ == app_id);
            }
        }
        if exists|n: int, c: int|
            0 <= n < nodes.len() && 0 <= c < nodes[n].report.cvms@.len() && (
            #[trigger] nodes[n].report.cvms@[c]).app_id@ == app_id {
            let (n, c) = choose|n: int, c: int|
                0 <= n < nodes.len() && 0 <= c < nodes[n].report.cvms@.len() && (
                #[trigger] nodes[n].report.cvms@[c]).app_id@ == app_id;
            if n < shorter.len() {
                assert(shorter[n].report.cvms@[c].app_id@ == app_id);
            } else {
                assert(found.contains(node.report.cvms@[c]));
            }
        }
    }
}

/// How many instances some rows of the index stand for.
pub open spec fn total_count(rows: Seq<AppRowModel>) -> nat
    decreases rows.len(),
{
    if rows.len() == 0 {
        0
    } else {
        total_count(rows.drop_last()) + rows.last().instance_count
    }
}

proof fn lemma_rows_count_groups(groups: Seq<Seq<CvmAttestation>>, verdicts: Seq<CvmVerdict>)
    ensures
        total_count(Seq::new(groups.len(), |g: int| app_row(groups[g], verdicts))) == total_size(
            groups,
        ),
    decreases groups.len(),
{
    if groups.len() > 0 {
        let shorter = groups.drop_last();
        lemma_rows_count_groups(shorter, verdicts);
        assert(Seq::new(groups.len(), |g: int| app_row(groups[g], verdicts)).drop_last()
            =~= Seq::new(shorter.len(), |g: int| app_row(shorter[g], verdicts)));
    }
}

/// The index has a row for each app of a node, and its rows count every CVM of the node once.
pub proof fn law_index_counts_every_cvm(
    now: u64,
    received_at: u64,
    node: NodeReport,
    verdicts: Seq<CvmVerdict>,
)
    ensures
        node_list(now, received_at, node, verdicts).rows.len() == app_ids(node.cvms@).len(),
        forall|g: int|
            0 <= g < app_ids(node.cvms@).len() ==> (#[trigger] node_list(
                now,
                received_at,
                node,
                verdicts,
            ).rows[g]).app_id == app_ids(node.cvms@)[g],
        total_count(node_list(now, received_at, node, verdicts).rows) == node.cvms@.len(),
{
    let groups = app_groups(node.cvms@);
    law_groups_partition(node.cvms@);
    lemma_rows_count_groups(groups, verdicts);
    assert forall|g: int| 0 <= g < app_ids(node.cvms@).len() implies (#[trigger] node_list(
        now,
        received_at,
        node,
        verdicts,
    ).rows[g]).app_id == app_ids(node.cvms@)[g] by {
        assert(groups[g].len() > 0);
        assert(groups[g][0].app_id@ == app_ids(node.cvms@)[g]);
    }
}

/// The row of an app is green only where every instance has a verdict and all checks of it passed, and
/// red exactly where a check of some instance failed.
pub proof fn law_row_is_green_only_if_all_pass(
    instances: Seq<CvmAttestation>,
    verdicts: Seq<CvmVerdict>,
)
    requires
        instances.len() > 0,
    ensures
        app_row(instances, verdicts).summary_class == "verified"@ <==> forall|i: int|
            0 <= i < instances.len() ==> summary_of_verdict(
                verdict_on(verdicts, (#[trigger] instances[i]).vm_id@),
            ) == Summary::Verified,
        app_row(instances, verdicts).summary_class == "failed"@ <==> exists|i: int|
            0 <= i < instances.len() && summary_of_verdict(
                verdict_on(verdicts, (#[trigger] instances[i]).vm_id@),
            ) == Summary::Failed,
{
    reveal_strlit("verified");
    reveal_strlit("failed");
    reveal_strlit("pending");
    assert("verified"@.len() != "failed"@.len());
    assert("verified"@.len() != "pending"@.len());
    assert("failed"@.len() != "pending"@.len());
    let all = instance_summaries(instances, verdicts);
    law_aggregate(all, all);
    if exists|i: int|
        0 <= i < instances.len() && summary_of_verdict(
            verdict_on(verdicts, (#[trigger] instances[i]).vm_id@),
        ) == Summary::Failed {
        let i = choose|i: int|
            0 <= i < instances.len() && summary_of_verdict(
                verdict_on(verdicts, (#[trigger] instances[i]).vm_id@),
            ) == Summary::Failed;
        assert(all[i] == Summary::Failed);
    }
    if all.contains(Summary::Failed) {
        let i = choose|i: int| 0 <= i < all.len() && all[i] == Summary::Failed;
        assert(summary_of_verdict(verdict_on(verdicts, instances[i].vm_id@)) == Summary::Failed);
    }
    if forall|i: int| 0 <= i < all.len() ==> #[trigger] all[i] == Summary::Verified {
        assert forall|i: int| 0 <= i < instances.len() implies summary_of_verdict(
            verdict_on(verdicts, (#[trigger] instances[i]).vm_id@),
        ) == Summary::Verified by {
            assert(all[i] == Summary::Verified);
        }
    }
}

} // verus!
