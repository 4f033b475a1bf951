//! Laws of the models: what a value's view says is what the value holds, field by field.
use vstd::prelude::*;

use crate::{cert, collect, compose, dcap, onchain, page, report, store, text, verify};

verus! {

/// The view of an optional value and of a list: item by item, and nothing else.
pub proof fn law_views_of_options_and_lists(s: Option<String>, items: Seq<String>, i: int)
    requires
        0 <= i < items.len(),
    ensures
        s matches Some(t) ==> text::opt_view(s) == Some(t@),
        s is None ==> text::opt_view(s) is None,
        text::each_view(items).len() == items.len(),
        text::each_view(items)[i] == items[i]@,
{
}

/// What a `Measurements` holds.
pub proof fn law_view_of_measurements(x: report::Measurements)
    ensures
        x@.mrtd == x.mrtd@,
        x@.rtmr0 == x.rtmr0@,
        x@.rtmr1 == x.rtmr1@,
        x@.rtmr2 == x.rtmr2@,
        x@.rtmr3 == x.rtmr3@,
{
}

/// What a `EventLogEntry` holds.
pub proof fn law_view_of_event_log_entry(x: report::EventLogEntry)
    ensures
        x@.imr == x.imr,
        x@.event_type == x.event_type,
        x@.digest == x.digest@,
        x@.event == text::opt_view(x.event),
        x@.event_payload == text::opt_view(x.event_payload),
{
}

/// What a `CvmAttestation` holds.
pub proof fn law_view_of_cvm_attestation(x: report::CvmAttestation)
    ensures
        x@.vm_id == x.vm_id@,
        x@.name == x.name@,
        x@.role == x.role,
        x@.network == text::opt_view(x.network),
        x@.status == x.status@,
        x@.uptime == text::opt_view(x.uptime),
        x@.app_id == x.app_id@,
        x@.instance_id == text::opt_view(x.instance_id),
        x@.compose_hash == text::opt_view(x.compose_hash),
        x@.device_id == text::opt_view(x.device_id),
        x@.mr_aggregated == text::opt_view(x.mr_aggregated),
        x@.os_image_hash == text::opt_view(x.os_image_hash),
        x@.os_version == text::opt_view(x.os_version),
        x@.measurements == text::opt_view(x.measurements),
        x@.image_digests == text::each_view(x.image_digests@),
        x@.app_compose == text::opt_view(x.app_compose),
        x@.key_provider == text::opt_view(x.key_provider),
        x@.app_cert_pem == text::opt_view(x.app_cert_pem),
        x@.event_log == text::each_view(x.event_log@),
        x@.error == text::opt_view(x.error),
{
}

/// What a `Collateral` holds.
pub proof fn law_view_of_collateral(x: dcap::Collateral)
    ensures
        x@.pck_crl_issuer_chain == x.pck_crl_issuer_chain@,
        x@.root_ca_crl == x.root_ca_crl@,
        x@.pck_crl == x.pck_crl@,
        x@.tcb_info_issuer_chain == x.tcb_info_issuer_chain@,
        x@.tcb_info == x.tcb_info@,
        x@.tcb_info_signature == x.tcb_info_signature@,
        x@.qe_identity_issuer_chain == x.qe_identity_issuer_chain@,
        x@.qe_identity == x.qe_identity@,
        x@.qe_identity_signature == x.qe_identity_signature@,
        x@.pck_certificate_chain == text::opt_view(x.pck_certificate_chain),
{
}

/// What a `TdReport` holds.
pub proof fn law_view_of_td_report(x: dcap::TdReport)
    ensures
        x@.mr_td == x.mr_td@,
        x@.rt_mr0 == x.rt_mr0@,
        x@.rt_mr1 == x.rt_mr1@,
        x@.rt_mr2 == x.rt_mr2@,
        x@.rt_mr3 == x.rt_mr3@,
        x@.report_data == x.report_data@,
        x@.mr_seam == x.mr_seam@,
        x@.mr_signer_seam == x.mr_signer_seam@,
        x@.tee_tcb_svn == x.tee_tcb_svn@,
        x@.td_attributes == x.td_attributes@,
        x@.xfam == x.xfam@,
{
}

/// What a `VerifiedQuote` holds.
pub proof fn law_view_of_verified_quote(x: dcap::VerifiedQuote)
    ensures
        x@.status == x.status@,
        x@.advisory_ids == text::each_view(x.advisory_ids@),
        x@.td == text::opt_view(x.td),
{
}

/// What a `DecodedReport` holds.
pub proof fn law_view_of_decoded_report(x: verify::DecodedReport)
    ensures
        x@.mrtd == x.mrtd@,
        x@.rtmr0 == x.rtmr0@,
        x@.rtmr1 == x.rtmr1@,
        x@.rtmr2 == x.rtmr2@,
        x@.rtmr3 == x.rtmr3@,
        x@.report_data == x.report_data@,
        x@.mr_seam == x.mr_seam@,
        x@.mr_signer_seam == x.mr_signer_seam@,
        x@.tee_tcb_svn == x.tee_tcb_svn@,
        x@.td_attributes == x.td_attributes@,
        x@.xfam == x.xfam@,
        x@.fmspc == text::opt_view(x.fmspc),
        x@.quote_hex == x.quote_hex@,
{
}

/// What a `ImageRow` holds.
pub proof fn law_view_of_image_row(x: compose::ImageRow)
    ensures
        x@.container == x.container@,
        x@.image == x.image@,
        x@.digest == x.digest@,
        x@.sigstore_url == x.sigstore_url@,
        x@.release_url == text::opt_view(x.release_url),
        x@.origin == x.origin@,
{
}

/// What a `NodeListView` holds.
pub proof fn law_view_of_node_list_view(x: page::NodeListView)
    ensures
        x@.node_id == x.node_id@,
        x@.last_seen_human == x.last_seen_human@,
        x@.last_seen_class == x.last_seen_class@,
        x@.rows == text::each_view(x.rows@),
{
}

/// What a `AppRowView` holds.
pub proof fn law_view_of_app_row_view(x: page::AppRowView)
    ensures
        x@.name == x.name@,
        x@.role_label == x.role_label@,
        x@.network_label == text::opt_view(x.network_label),
        x@.status == x.status@,
        x@.instance_count == x.instance_count as nat,
        x@.multi_instance == x.multi_instance,
        x@.app_id == x.app_id@,
        x@.summary_class == x.summary_class@,
        x@.summary_label == x.summary_label@,
{
}

/// What a `DecodedReportView` holds.
pub proof fn law_view_of_decoded_report_view(x: page::DecodedReportView)
    ensures
        x@.rows == text::each_view(x.rows@),
        x@.fmspc == text::opt_view(x.fmspc),
        x@.quote_hex == x.quote_hex@,
{
}

/// What a `CvmView` holds.
pub proof fn law_view_of_cvm_view(x: page::CvmView)
    ensures
        x@.name == x.name@,
        x@.role_label == x.role_label@,
        x@.network_label == text::opt_view(x.network_label),
        x@.status == x.status@,
        x@.uptime == text::opt_view(x.uptime),
        x@.app_id == x.app_id@,
        x@.vm_id == x.vm_id@,
        x@.instance_index == x.instance_index as nat,
        x@.instance_total == x.instance_total as nat,
        x@.kms_in_tee == x.kms_in_tee,
        x@.gateway_domain == text::opt_view(x.gateway_domain),
        x@.verdict == x.verdict@,
        x@.decoded == text::opt_view(x.decoded),
        x@.measurements == text::each_view(x.measurements@),
        x@.app_compose == text::opt_view(x.app_compose),
        x@.image_digests == text::each_view(x.image_digests@),
        x@.images == text::each_view(x.images@),
        x@.os_version == text::opt_view(x.os_version),
        x@.os_image_hash == text::opt_view(x.os_image_hash),
        x@.mr_aggregated == text::opt_view(x.mr_aggregated),
        x@.compose_hash == text::opt_view(x.compose_hash),
        x@.key_provider == text::opt_view(x.key_provider),
        x@.collect_error == text::opt_view(x.collect_error),
{
}

/// What a `StoredReport` holds.
pub proof fn law_view_of_stored_report(x: store::StoredReport)
    ensures
        x@.received_at == x.received_at,
        x@.report == x.report,
        x@.verdicts == x.verdicts@,
{
}

/// What a `CvmVerdict` holds.
pub proof fn law_view_of_cvm_verdict(x: verify::CvmVerdict)
    ensures
        x@.vm_id == x.vm_id@,
        x@.sig_valid == x.sig_valid,
        x@.tcb_status == text::opt_view(x.tcb_status),
        x@.advisory_ids == text::each_view(x.advisory_ids@),
        x@.fmspc == text::opt_view(x.fmspc),
        x@.decoded == text::opt_view(x.decoded),
        x@.quote_measurements_match == x.quote_measurements_match,
        x@.on_chain_approved == x.on_chain_approved,
        x@.on_chain_contract == text::opt_view(x.on_chain_contract),
        x@.error == text::opt_view(x.error),
        x@.verified_at == x.verified_at,
{
}

/// What a `VerdictView` holds.
pub proof fn law_view_of_verdict_view(x: page::VerdictView)
    ensures
        x@.pending == x.pending,
        x@.sig_valid == x.sig_valid,
        x@.tcb_status == text::opt_view(x.tcb_status),
        x@.tcb_class == x.tcb_class@,
        x@.measurements_match == x.measurements_match,
        x@.on_chain == x.on_chain,
        x@.on_chain_contract == text::opt_view(x.on_chain_contract),
        x@.advisory_ids == text::each_view(x.advisory_ids@),
        x@.verify_error == text::opt_view(x.verify_error),
        x@.failing == x.failing,
{
}

/// What the errors hold.
pub proof fn law_views_of_errors(q: cert::QuoteError, c: onchain::ChainError)
    ensures
        match q {
            cert::QuoteError::Pem(e) => q@ == cert::QuoteErrorModel::Pem(e@),
            cert::QuoteError::Certificate(e) => q@ == cert::QuoteErrorModel::Certificate(e@),
            cert::QuoteError::NoExtension => q@ == cert::QuoteErrorModel::NoExtension,
            cert::QuoteError::NoMagic => q@ == cert::QuoteErrorModel::NoMagic,
            cert::QuoteError::TooShort(n) => q@ == cert::QuoteErrorModel::TooShort(n as int),
        },
        match c {
            onchain::ChainError::NoRpcUrl(s) => c@ == onchain::ChainErrorModel::NoRpcUrl(s@),
            onchain::ChainError::Client(s) => c@ == onchain::ChainErrorModel::Client(s@),
            onchain::ChainError::Request(s) => c@ == onchain::ChainErrorModel::Request(s@),
            onchain::ChainError::Http(s) => c@ == onchain::ChainErrorModel::Http(s@),
            onchain::ChainError::Body(s) => c@ == onchain::ChainErrorModel::Body(s@),
            onchain::ChainError::Rpc(s) => c@ == onchain::ChainErrorModel::Rpc(s@),
            onchain::ChainError::NoResult => c@ == onchain::ChainErrorModel::NoResult,
            onchain::ChainError::NotBytes(s) => c@ == onchain::ChainErrorModel::NotBytes(s@),
            onchain::ChainError::NotJson(s) => c@ == onchain::ChainErrorModel::NotJson(s@),
            onchain::ChainError::NotBool => c@ == onchain::ChainErrorModel::NotBool,
        },
{
}

/// What the smaller values hold.
pub proof fn law_views_of_pairs(
    e: cert::Extension,
    q: onchain::ChainQuery,
    r: page::MeasurementRow,
    k: store::KeptReport,
)
    ensures
        e@ == (e.oid@, e.value@),
        q@ == (q.url@, q.body@),
        r@ == (r.label@, r.value@),
        k@ == (k.node_id@, k.stored@),
{
}

/// What a JSON-RPC answer carries.
pub proof fn law_view_of_rpc_answer(a: onchain::RpcAnswer)
    ensures
        a@.error == text::opt_view(a.error),
        match a.result {
            None => a@.result is None,
            Some(Ok(bytes)) => a@.result == Some(Ok::<Seq<u8>, Seq<char>>(bytes@)),
            Some(Err(e)) => a@.result == Some(Err::<Seq<u8>, Seq<char>>(e@)),
        },
{
}

/// What the steps of a verification and of a collection hold.
pub proof fn law_views_of_steps(v: verify::VerifyStep, c: collect::CollectStep)
    ensures
        match v {
            verify::VerifyStep::Done(verdict) => v@ == verify::StepModel::Done(verdict@),
            verify::VerifyStep::FetchCollateral { verdict, quote } => v@
                == (verify::StepModel::FetchCollateral { verdict: verdict@, quote: quote@ }),
            verify::VerifyStep::AskChain { verdict, query } => v@ == (
            verify::StepModel::AskChain { verdict: verdict@, query: query@ }),
        },
        match c {
            collect::CollectStep::Done(cvm) => c@ == collect::CollectModel::Done(cvm@),
            collect::CollectStep::FindPort(cvm) => c@ == collect::CollectModel::FindPort(cvm@),
            collect::CollectStep::FetchInfo { cvm, port } => c@ == (
            collect::CollectModel::FetchInfo { cvm: cvm@, port }),
        },
{
}

} // verus!
