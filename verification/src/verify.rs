//! Decides what a node's report of a CVM is worth. Is it a genuine TDX machine, and does it run code
//! that is approved on chain?
//!
//! The work is done in steps. Two of them wait for the network: the collateral for a quote from
//! Intel's PCS, and the answer of a contract. A step says what to fetch next and is resumed with
//! what came of it. Whatever goes wrong leaves the verdict negative and says why.
use vstd::prelude::*;

use crate::cert;
use crate::dcap::{Collateral, TdReport, VerifiedQuote};
use crate::onchain::{ChainQuery, RpcReply};
use crate::report::{CvmAttestation, Measurements, Role};
use crate::{dcap, hex, onchain, report, text};

verus! {

/// The fields decoded from a verified TDX quote, and the quote itself, in hexadecimal.
#[derive(Debug, Clone)]
pub struct DecodedReport {
    /// Virtual firmware measurement.
    pub mrtd: String,
    pub rtmr0: String,
    pub rtmr1: String,
    pub rtmr2: String,
    pub rtmr3: String,
    /// What the machine bound to its quote.
    pub report_data: String,
    /// The TDX module's measurement.
    pub mr_seam: String,
    /// The TDX module's signer.
    pub mr_signer_seam: String,
    pub tee_tcb_svn: String,
    pub td_attributes: String,
    pub xfam: String,
    /// The platform's family and model in upper-case hexadecimal, where the quote names it.
    pub fmspc: Option<String>,
    /// The entire quote, for verification elsewhere.
    pub quote_hex: String,
}

/// What a `DecodedReport` holds.
#[verifier::ext_equal]
pub struct DecodedModel {
    pub mrtd: Seq<char>,
    pub rtmr0: Seq<char>,
    pub rtmr1: Seq<char>,
    pub rtmr2: Seq<char>,
    pub rtmr3: Seq<char>,
    pub report_data: Seq<char>,
    pub mr_seam: Seq<char>,
    pub mr_signer_seam: Seq<char>,
    pub tee_tcb_svn: Seq<char>,
    pub td_attributes: Seq<char>,
    pub xfam: Seq<char>,
    pub fmspc: Option<Seq<char>>,
    pub quote_hex: Seq<char>,
}

impl View for DecodedReport {
    type V = DecodedModel;

    open spec fn view(&self) -> DecodedModel {
        DecodedModel {
            mrtd: self.mrtd@,
            rtmr0: self.rtmr0@,
            rtmr1: self.rtmr1@,
            rtmr2: self.rtmr2@,
            rtmr3: self.rtmr3@,
            report_data: self.report_data@,
            mr_seam: self.mr_seam@,
            mr_signer_seam: self.mr_signer_seam@,
            tee_tcb_svn: self.tee_tcb_svn@,
            td_attributes: self.td_attributes@,
            xfam: self.xfam@,
            fmspc: text::opt_view(self.fmspc),
            quote_hex: self.quote_hex@,
        }
    }
}

/// One CVM's verification outcome.
#[derive(Debug, Clone)]
pub struct CvmVerdict {
    /// The vmm uuid of the CVM.
    pub vm_id: String,
    /// Did the quote's signature, certificate chain and TCB chain check out?
    pub sig_valid: bool,
    /// Intel's TCB status of the verified quote; only `UpToDate` is fully good.
    pub tcb_status: Option<String>,
    /// Intel's advisories for the matched TCB level.
    pub advisory_ids: Vec<String>,
    /// The platform's family and model in upper-case hexadecimal.
    pub fmspc: Option<String>,
    /// What the verified quote says; nothing until a TDX quote was verified.
    pub decoded: Option<DecodedReport>,
    /// Are the measurements in the verified quote those that the report claims?
    pub quote_measurements_match: Option<bool>,
    /// Are the claimed measurements on the approved list? Nothing where the check does not apply or
    /// could not be made.
    pub on_chain_approved: Option<bool>,
    /// The contract that holds the approved list.
    pub on_chain_contract: Option<String>,
    /// The first failure.
    pub error: Option<String>,
    /// Unix seconds when the verification began.
    pub verified_at: u64,
}

/// What a `CvmVerdict` says.
#[verifier::ext_equal]
pub struct CvmVerdictModel {
    pub vm_id: Seq<char>,
    pub sig_valid: bool,
    pub tcb_status: Option<Seq<char>>,
    pub advisory_ids: Seq<Seq<char>>,
    pub fmspc: Option<Seq<char>>,
    pub decoded: Option<DecodedModel>,
    pub quote_measurements_match: Option<bool>,
    pub on_chain_approved: Option<bool>,
    pub on_chain_contract: Option<Seq<char>>,
    pub error: Option<Seq<char>>,
    pub verified_at: u64,
}

impl View for CvmVerdict {
    type V = CvmVerdictModel;

    open spec fn view(&self) -> CvmVerdictModel {
        CvmVerdictModel {
            vm_id: self.vm_id@,
            sig_valid: self.sig_valid,
            tcb_status: text::opt_view(self.tcb_status),
            advisory_ids: text::each_view(self.advisory_ids@),
            fmspc: text::opt_view(self.fmspc),
            decoded: text::opt_view(self.decoded),
            quote_measurements_match: self.quote_measurements_match,
            on_chain_approved: self.on_chain_approved,
            on_chain_contract: text::opt_view(self.on_chain_contract),
            error: text::opt_view(self.error),
            verified_at: self.verified_at,
        }
    }
}

/// What is to be done next for a CVM.
#[derive(Debug)]
pub enum VerifyStep {
    /// Nothing: this is the verdict.
    Done(CvmVerdict),
    /// Fetch the collateral for this quote from Intel's PCS.
    FetchCollateral { verdict: CvmVerdict, quote: Vec<u8> },
    /// Ask a contract.
    AskChain { verdict: CvmVerdict, query: ChainQuery },
}

/// What a `VerifyStep` says.
#[verifier::ext_equal]
pub enum StepModel {
    Done(CvmVerdictModel),
    FetchCollateral { verdict: CvmVerdictModel, quote: Seq<u8> },
    AskChain { verdict: CvmVerdictModel, query: (Seq<char>, Seq<char>) },
}

impl View for VerifyStep {
    type V = StepModel;

    open spec fn view(&self) -> StepModel {
        match *self {
            VerifyStep::Done(verdict) => StepModel::Done(verdict@),
            VerifyStep::FetchCollateral { verdict, quote } => StepModel::FetchCollateral {
                verdict: verdict@,
                quote: quote@,
            },
            VerifyStep::AskChain { verdict, query } => StepModel::AskChain {
                verdict: verdict@,
                query: query@,
            },
        }
    }
}

/// What came of asking Intel's PCS for collateral.
#[derive(Debug)]
pub enum CollateralReply {
    /// No HTTP client could be built.
    ClientFailed(String),
    /// The collateral could not be fetched.
    FetchFailed(String),
    Fetched(Collateral),
}

/// A verdict on which nothing has been found yet.
pub open spec fn fresh_verdict(vm_id: Seq<char>, now: u64) -> CvmVerdictModel {
    CvmVerdictModel {
        vm_id,
        sig_valid: false,
        tcb_status: None,
        advisory_ids: Seq::empty(),
        fmspc: None,
        decoded: None,
        quote_measurements_match: None,
        on_chain_approved: None,
        on_chain_contract: None,
        error: None,
        verified_at: now,
    }
}

/// A verdict that ended with an error.
pub open spec fn failed(v: CvmVerdictModel, e: Seq<char>) -> CvmVerdictModel {
    CvmVerdictModel { error: Some(e), ..v }
}

/// A verdict with an error noted, unless one came before.
pub open spec fn noted(v: CvmVerdictModel, e: Seq<char>) -> CvmVerdictModel {
    if v.error is Some {
        v
    } else {
        failed(v, e)
    }
}

/// The five registers of a TD report, as the reports write them.
pub open spec fn registers_of(td: dcap::TdModel) -> report::MeasurementsModel {
    report::MeasurementsModel {
        mrtd: hex::hex_of(td.mr_td, false),
        rtmr0: hex::hex_of(td.rt_mr0, false),
        rtmr1: hex::hex_of(td.rt_mr1, false),
        rtmr2: hex::hex_of(td.rt_mr2, false),
        rtmr3: hex::hex_of(td.rt_mr3, false),
    }
}

/// Two sets of registers agree but for the case of their letters.
pub open spec fn same_measurements(
    a: report::MeasurementsModel,
    b: report::MeasurementsModel,
) -> bool {
    &&& text::lowered(a.mrtd) == text::lowered(b.mrtd)
    &&& text::lowered(a.rtmr0) == text::lowered(b.rtmr0)
    &&& text::lowered(a.rtmr1) == text::lowered(b.rtmr1)
    &&& text::lowered(a.rtmr2) == text::lowered(b.rtmr2)
    &&& text::lowered(a.rtmr3) == text::lowered(b.rtmr3)
}

/// What a verified quote with this TD report says.
pub open spec fn decoded_of(
    td: dcap::TdModel,
    quote: Seq<u8>,
    fmspc: Option<Seq<char>>,
) -> DecodedModel {
    DecodedModel {
        mrtd: hex::hex_of(td.mr_td, false),
        rtmr0: hex::hex_of(td.rt_mr0, false),
        rtmr1: hex::hex_of(td.rt_mr1, false),
        rtmr2: hex::hex_of(td.rt_mr2, false),
        rtmr3: hex::hex_of(td.rt_mr3, false),
        report_data: hex::hex_of(td.report_data, false),
        mr_seam: hex::hex_of(td.mr_seam, false),
        mr_signer_seam: hex::hex_of(td.mr_signer_seam, false),
        tee_tcb_svn: hex::hex_of(td.tee_tcb_svn, false),
        td_attributes: hex::hex_of(td.td_attributes, false),
        xfam: hex::hex_of(td.xfam, false),
        fmspc,
        quote_hex: hex::hex_of(quote, false),
    }
}

/// What a verified quote says, where it is a TDX quote.
pub open spec fn decoded_quote(
    verified: dcap::VerifiedModel,
    quote: Seq<u8>,
    fmspc: Option<Seq<char>>,
) -> Option<DecodedModel> {
    match verified.td {
        Some(td) => Some(decoded_of(td, quote, fmspc)),
        None => None,
    }
}

/// A platform's family and model, in upper-case hexadecimal.
pub open spec fn platform_text(platform: Option<Seq<u8>>) -> Option<Seq<char>> {
    match platform {
        Some(bytes) => Some(hex::hex_of(bytes, true)),
        None => None,
    }
}

/// The verdict once the quote was verified and held against the claimed measurements.
pub open spec fn bound_verdict(
    v: CvmVerdictModel,
    claimed: Option<report::MeasurementsModel>,
    quote: Seq<u8>,
    verified: dcap::VerifiedModel,
    fmspc: Option<Seq<char>>,
) -> CvmVerdictModel {
    let w = CvmVerdictModel {
        sig_valid: true,
        tcb_status: Some(verified.status),
        advisory_ids: verified.advisory_ids,
        fmspc,
        decoded: decoded_quote(verified, quote, fmspc),
        ..v
    };
    match claimed {
        None => w,
        Some(m) => match verified.td {
            Some(td) => CvmVerdictModel {
                quote_measurements_match: Some(same_measurements(registers_of(td), m)),
                ..w
            },
            None => noted(
                CvmVerdictModel { quote_measurements_match: Some(false), ..w },
                "verified quote is not a TDX TD10/TD15 report"@,
            ),
        },
    }
}

/// What is to be done once the quote was verified: ask the contract for the role and network,
/// where there is one.
pub open spec fn chain_step(cvm: CvmAttestation, v: CvmVerdictModel) -> StepModel {
    match text::opt_view(cvm.network) {
        None => StepModel::Done(v),
        Some(network) => match onchain::contract_for(cvm.role, network) {
            None => StepModel::Done(v),
            Some(contract) => {
                let w = CvmVerdictModel { on_chain_contract: Some(contract), ..v };
                match text::opt_view(cvm.measurements) {
                    None => StepModel::Done(
                        noted(w, "no measurements in report; cannot run on-chain check"@),
                    ),
                    Some(m) => match onchain::chain_query(contract, network, m) {
                        Err(e) => StepModel::Done(
                            noted(w, "on-chain check failed: "@ + onchain::chain_error_text(e)),
                        ),
                        Ok(query) => StepModel::AskChain { verdict: w, query },
                    },
                }
            },
        },
    }
}

/// What is to be done first for a CVM.
pub open spec fn first_step(cvm: CvmAttestation, now: u64) -> StepModel {
    let v = fresh_verdict(cvm.vm_id@, now);
    match text::opt_view(cvm.app_cert_pem) {
        None => StepModel::Done(
            failed(v, "no app_cert_pem in report (guest-agent unreachable?)"@),
        ),
        Some(pem) => match cert::quote_of_cert(pem) {
            Err(e) => StepModel::Done(
                failed(v, "quote extraction failed: "@ + cert::quote_error_text(e)),
            ),
            Ok(quote) => StepModel::FetchCollateral { verdict: v, quote },
        },
    }
}

/// What is to be done once it is known what `dcap_qvl` says of the quote.
pub open spec fn verified_step(
    cvm: CvmAttestation,
    v: CvmVerdictModel,
    quote: Seq<u8>,
    verified: Result<dcap::VerifiedModel, Seq<char>>,
    fmspc: Option<Seq<char>>,
) -> StepModel {
    match verified {
        Err(e) => StepModel::Done(failed(v, "quote verification failed: "@ + e)),
        Ok(found) => chain_step(
            cvm,
            bound_verdict(v, text::opt_view(cvm.measurements), quote, found, fmspc),
        ),
    }
}

/// What is to be done once Intel's PCS was asked for collateral.
pub open spec fn collateral_step(
    cvm: CvmAttestation,
    v: CvmVerdictModel,
    quote: Seq<u8>,
    reply: CollateralReply,
    now: u64,
) -> StepModel {
    match reply {
        CollateralReply::ClientFailed(e) => StepModel::Done(
            failed(v, "Intel PCS client build failed: "@ + e@),
        ),
        CollateralReply::FetchFailed(e) => StepModel::Done(
            failed(v, "Intel PCS collateral fetch failed: "@ + e@),
        ),
        CollateralReply::Fetched(collateral) => verified_step(
            cvm,
            v,
            quote,
            dcap::quote_verification(quote, collateral@, now),
            platform_text(dcap::quote_platform(quote)),
        ),
    }
}

/// The verdict once the contract was asked.
pub open spec fn chain_verdict(v: CvmVerdictModel, reply: RpcReply) -> CvmVerdictModel {
    match onchain::approval_of_reply(reply) {
        Ok(approved) => CvmVerdictModel { on_chain_approved: Some(approved), ..v },
        Err(e) => noted(v, "on-chain check failed: "@ + onchain::chain_error_text(e)),
    }
}

/// The verdict on a CVM, given when its verification began, what Intel's PCS answered and when, and
/// what the contract answered. An answer that no step waits for changes nothing.
pub open spec fn verdict_of(
    cvm: CvmAttestation,
    begun: u64,
    collateral: CollateralReply,
    fetched: u64,
    chain: RpcReply,
) -> CvmVerdictModel {
    match first_step(cvm, begun) {
        StepModel::FetchCollateral { verdict, quote } => match collateral_step(
            cvm,
            verdict,
            quote,
            collateral,
            fetched,
        ) {
            StepModel::AskChain { verdict, .. } => chain_verdict(verdict, chain),
            StepModel::FetchCollateral { verdict, .. } => verdict,
            StepModel::Done(verdict) => verdict,
        },
        StepModel::AskChain { verdict, .. } => verdict,
        StepModel::Done(verdict) => verdict,
    }
}

impl CvmVerdict {
    /// A fresh, all-negative verdict.
    pub fn new(vm_id: String, now: u64) -> (r: CvmVerdict)
        ensures
            r@ == fresh_verdict(vm_id@, now),
    {
        let r = CvmVerdict {
            vm_id,
            sig_valid: false,
            tcb_status: None,
            advisory_ids: Vec::new(),
            fmspc: None,
            decoded: None,
            quote_measurements_match: None,
            on_chain_approved: None,
            on_chain_contract: None,
            error: None,
            verified_at: now,
        };
        assert(r@ =~= fresh_verdict(vm_id@, now));
        r
    }

    fn fail(self, e: String) -> (r: CvmVerdict)
        ensures
            r@ == failed(self@, e@),
    {
        CvmVerdict { error: Some(e), ..self }
    }

    fn note(self, e: String) -> (r: CvmVerdict)
        ensures
            r@ == noted(self@, e@),
    {
        if self.error.is_some() {
            self
        } else {
            self.fail(e)
        }
    }
}

/// The five registers of a TD report, in hexadecimal.
pub fn quote_measurements(td: &TdReport) -> (r: Measurements)
    ensures
        r@ == registers_of(td@),
{
    Measurements {
        mrtd: hex::hex_lower(td.mr_td.as_slice()),
        rtmr0: hex::hex_lower(td.rt_mr0.as_slice()),
        rtmr1: hex::hex_lower(td.rt_mr1.as_slice()),
        rtmr2: hex::hex_lower(td.rt_mr2.as_slice()),
        rtmr3: hex::hex_lower(td.rt_mr3.as_slice()),
    }
}

/// Compare two sets of registers, whatever the case of their letters.
pub fn measurements_eq(a: &Measurements, b: &Measurements) -> (r: bool)
    ensures
        r == same_measurements(a@, b@),
{
    hex::hex_eq(a.mrtd.as_str(), b.mrtd.as_str()) && hex::hex_eq(
        a.rtmr0.as_str(),
        b.rtmr0.as_str(),
    ) && hex::hex_eq(a.rtmr1.as_str(), b.rtmr1.as_str()) && hex::hex_eq(
        a.rtmr2.as_str(),
        b.rtmr2.as_str(),
    ) && hex::hex_eq(a.rtmr3.as_str(), b.rtmr3.as_str())
}

/// The platform's family and model that a quote names, in upper-case hexadecimal.
pub fn extract_fmspc(raw_quote: &[u8]) -> (r: Option<String>)
    ensures
        text::opt_view(r) == platform_text(dcap::quote_platform(raw_quote@)),
{
    match dcap::read_fmspc(raw_quote) {
        Some(fmspc) => Some(hex::hex_upper(fmspc.as_slice())),
        None => None,
    }
}

/// What a verified quote says, where it is a TDX quote.
pub fn decode_report(verified: &VerifiedQuote, raw_quote: &[u8], fmspc: Option<String>) -> (r: Option<
    DecodedReport,
>)
    ensures
        text::opt_view(r) == decoded_quote(verified@, raw_quote@, text::opt_view(fmspc)),
{
    match &verified.td {
        None => None,
        Some(td) => Some(
            DecodedReport {
                mrtd: hex::hex_lower(td.mr_td.as_slice()),
                rtmr0: hex::hex_lower(td.rt_mr0.as_slice()),
                rtmr1: hex::hex_lower(td.rt_mr1.as_slice()),
                rtmr2: hex::hex_lower(td.rt_mr2.as_slice()),
                rtmr3: hex::hex_lower(td.rt_mr3.as_slice()),
                report_data: hex::hex_lower(td.report_data.as_slice()),
                mr_seam: hex::hex_lower(td.mr_seam.as_slice()),
                mr_signer_seam: hex::hex_lower(td.mr_signer_seam.as_slice()),
                tee_tcb_svn: hex::hex_lower(td.tee_tcb_svn.as_slice()),
                td_attributes: hex::hex_lower(td.td_attributes.as_slice()),
                xfam: hex::hex_lower(td.xfam.as_slice()),
                fmspc,
                quote_hex: hex::hex_lower(raw_quote),
            },
        ),
    }
}

/// Begins the verification of a CVM: takes the quote from its certificate.
pub fn begin_verification(cvm: &CvmAttestation, now: u64) -> (r: VerifyStep)
    ensures
        r@ == first_step(*cvm, now),
{
    let v = CvmVerdict::new(cvm.vm_id.clone(), now);
    match &cvm.app_cert_pem {
        None => VerifyStep::Done(
            v.fail("no app_cert_pem in report (guest-agent unreachable?)".to_owned()),
        ),
        Some(pem) => match cert::extract_quote_from_app_cert(pem.as_str()) {
            Err(e) => {
                let why = e.text();
                VerifyStep::Done(
                    v.fail(text::joined("quote extraction failed: ", why.as_str())),
                )
            },
            Ok(quote) => VerifyStep::FetchCollateral { verdict: v, quote },
        },
    }
}

/// Goes on with what Intel's PCS answered.
pub fn collateral_arrived(
    cvm: &CvmAttestation,
    verdict: CvmVerdict,
    quote: &Vec<u8>,
    reply: CollateralReply,
    now: u64,
) -> (r: VerifyStep)
    ensures
        r@ == collateral_step(*cvm, verdict@, quote@, reply, now),
{
    match reply {
        CollateralReply::ClientFailed(e) => VerifyStep::Done(
            verdict.fail(text::joined("Intel PCS client build failed: ", e.as_str())),
        ),
        CollateralReply::FetchFailed(e) => VerifyStep::Done(
            verdict.fail(text::joined("Intel PCS collateral fetch failed: ", e.as_str())),
        ),
        CollateralReply::Fetched(collateral) => {
            let verified = dcap::verify_quote(quote.as_slice(), collateral, now);
            let fmspc = extract_fmspc(quote.as_slice());
            quote_verified(cvm, verdict, quote, verified, fmspc)
        },
    }
}

/// Goes on with what `dcap_qvl` says of the quote: the verified report, and the platform's family
/// and model in hexadecimal. Without the latter the verdict stands all the same.
pub fn quote_verified(
    cvm: &CvmAttestation,
    verdict: CvmVerdict,
    quote: &Vec<u8>,
    verified: Result<VerifiedQuote, String>,
    fmspc: Option<String>,
) -> (r: VerifyStep)
    ensures
        r@ == verified_step(
            *cvm,
            verdict@,
            quote@,
            match verified {
                Ok(found) => Ok(found@),
                Err(e) => Err(e@),
            },
            text::opt_view(fmspc),
        ),
{
    match verified {
        Err(e) => VerifyStep::Done(
            verdict.fail(text::joined("quote verification failed: ", e.as_str())),
        ),
        Ok(found) => {
            let v = bind_verified(verdict, &cvm.measurements, quote, found, fmspc);
            ask_chain(cvm, v)
        },
    }
}

fn bind_verified(
    verdict: CvmVerdict,
    claimed: &Option<Measurements>,
    quote: &Vec<u8>,
    verified: VerifiedQuote,
    fmspc: Option<String>,
) -> (r: CvmVerdict)
    ensures
        r@ == bound_verdict(
            verdict@,
            text::opt_view(*claimed),
            quote@,
            verified@,
            text::opt_view(fmspc),
        ),
{
    let decoded = decode_report(&verified, quote.as_slice(), text::copied(&fmspc));
    let mut v = verdict;
    v.sig_valid = true;
    v.tcb_status = Some(verified.status);
    v.advisory_ids = verified.advisory_ids;
    v.fmspc = fmspc;
    v.decoded = decoded;
    match claimed {
        None => v,
        Some(m) => match &verified.td {
            Some(td) => {
                let from_quote = quote_measurements(td);
                v.quote_measurements_match = Some(measurements_eq(&from_quote, m));
                v
            },
            None => {
                v.quote_measurements_match = Some(false);
                v.note("verified quote is not a TDX TD10/TD15 report".to_owned())
            },
        },
    }
}

fn ask_chain(cvm: &CvmAttestation, verdict: CvmVerdict) -> (r: VerifyStep)
    ensures
        r@ == chain_step(*cvm, verdict@),
{
    let network = match &cvm.network {
        None => return VerifyStep::Done(verdict),
        Some(network) => network,
    };
    let contract = match onchain::approval_contract(cvm.role, network.as_str()) {
        None => return VerifyStep::Done(verdict),
        Some(contract) => contract,
    };
    let mut v = verdict;
    v.on_chain_contract = Some(contract.clone());
    match &cvm.measurements {
        None => VerifyStep::Done(
            v.note("no measurements in report; cannot run on-chain check".to_owned()),
        ),
        Some(m) => match onchain::approval_query(contract.as_str(), network.as_str(), m) {
            Err(e) => {
                let why = e.text();
                VerifyStep::Done(v.note(text::joined("on-chain check failed: ", why.as_str())))
            },
            Ok(query) => VerifyStep::AskChain { verdict: v, query },
        },
    }
}

/// Ends the verification with what came of asking the contract. Where no answer could be had, it
/// stays unknown whether the measurements are approved.
pub fn chain_replied(verdict: CvmVerdict, reply: RpcReply) -> (r: CvmVerdict)
    ensures
        r@ == chain_verdict(verdict@, reply),
{
    match onchain::check_on_chain(reply) {
        Ok(approved) => {
            let mut v = verdict;
            v.on_chain_approved = Some(approved);
            v
        },
        Err(e) => {
            let why = e.text();
            verdict.note(text::joined("on-chain check failed: ", why.as_str()))
        },
    }
}

/// The verification fails closed: a signature counts as valid only where a quote was taken from the
/// certificate, its collateral was fetched and `dcap_qvl` accepted the two. Otherwise the verdict
/// says why, and nothing else on it is positive.
pub proof fn law_verdict_fails_closed(
    cvm: CvmAttestation,
    begun: u64,
    collateral: CollateralReply,
    fetched: u64,
    chain: RpcReply,
)
    ensures
        ({
            let v = verdict_of(cvm, begun, collateral, fetched, chain);
            &&& v.sig_valid <==> {
                &&& text::opt_view(cvm.app_cert_pem) matches Some(pem)
                &&& cert::quote_of_cert(pem) matches Ok(quote)
                &&& collateral matches CollateralReply::Fetched(found)
                &&& dcap::quote_verification(quote, found@, fetched) is Ok
            }
            &&& !v.sig_valid ==> v.error is Some && v == failed(
                fresh_verdict(cvm.vm_id@, begun),
                v.error->Some_0,
            )
        }),
{
}

/// A verdict is about its CVM, from when its verification began.
pub proof fn law_verdict_names_its_cvm(
    cvm: CvmAttestation,
    begun: u64,
    collateral: CollateralReply,
    fetched: u64,
    chain: RpcReply,
)
    ensures
        verdict_of(cvm, begun, collateral, fetched, chain).vm_id == cvm.vm_id@,
        verdict_of(cvm, begun, collateral, fetched, chain).verified_at == begun,
{
}

/// Measurements count as approved only where the signature is valid, the role and network have a
/// contract, the report claims measurements and the contract's answer was an explicit yes. Where
/// there is a contract and its answer is not known, the verdict says why.
pub proof fn law_approval_fails_closed(
    cvm: CvmAttestation,
    begun: u64,
    collateral: CollateralReply,
    fetched: u64,
    chain: RpcReply,
)
    ensures
        ({
            let v = verdict_of(cvm, begun, collateral, fetched, chain);
            &&& v.on_chain_approved is Some ==> {
                &&& v.sig_valid
                &&& cvm.measurements is Some
                &&& text::opt_view(cvm.network) matches Some(network)
                &&& onchain::contract_for(cvm.role, network) is Some
                &&& v.on_chain_contract == onchain::contract_for(cvm.role, network)
                &&& onchain::approval_of_reply(chain) == Ok::<bool, onchain::ChainErrorModel>(
                    v.on_chain_approved->Some_0,
                )
            }
            &&& v.on_chain_contract is Some && v.on_chain_approved is None ==> v.error is Some
        }),
{
}

/// CVMs of other roles than worker and keystore, and CVMs without a known network, are never held
/// against a contract.
pub proof fn law_agnostic_cvms_skip_chain(
    cvm: CvmAttestation,
    begun: u64,
    collateral: CollateralReply,
    fetched: u64,
    chain: RpcReply,
)
    requires
        cvm.role == Role::Kms || cvm.role == Role::Gateway || cvm.role == Role::Unknown || (
        text::opt_view(cvm.network) != Some("mainnet"@) && text::opt_view(cvm.network) != Some(
            "testnet"@,
        )),
    ensures
        verdict_of(cvm, begun, collateral, fetched, chain).on_chain_contract is None,
        verdict_of(cvm, begun, collateral, fetched, chain).on_chain_approved is None,
{
}

/// Where the measurements are said to match, the verdict carries the decoded quote, and the claimed
/// registers are the verified ones but for the case of their letters.
pub proof fn law_match_binds_claim_to_quote(
    cvm: CvmAttestation,
    begun: u64,
    collateral: CollateralReply,
    fetched: u64,
    chain: RpcReply,
)
    requires
        verdict_of(cvm, begun, collateral, fetched, chain).quote_measurements_match == Some(true),
    ensures
        ({
            let v = verdict_of(cvm, begun, collateral, fetched, chain);
            &&& v.sig_valid
            &&& v.decoded matches Some(d)
            &&& text::opt_view(cvm.measurements) matches Some(m)
            &&& text::lowered(m.mrtd) == d.mrtd
            &&& text::lowered(m.rtmr0) == d.rtmr0
            &&& text::lowered(m.rtmr1) == d.rtmr1
            &&& text::lowered(m.rtmr2) == d.rtmr2
            &&& text::lowered(m.rtmr3) == d.rtmr3
        }),
{
    if let StepModel::FetchCollateral { quote, .. } = first_step(cvm, begun) {
        if let CollateralReply::Fetched(found) = collateral {
            if let Ok(verified) = dcap::quote_verification(quote, found@, fetched) {
                if let Some(td) = verified.td {
                    hex::law_hex_case_agrees(td.mr_td);
                    hex::law_hex_case_agrees(td.rt_mr0);
                    hex::law_hex_case_agrees(td.rt_mr1);
                    hex::law_hex_case_agrees(td.rt_mr2);
                    hex::law_hex_case_agrees(td.rt_mr3);
                }
            }
        }
    }
}

/// Whether two sets of registers agree is an equivalence.
pub proof fn law_measurements_equivalence(
    a: report::MeasurementsModel,
    b: report::MeasurementsModel,
    c: report::MeasurementsModel,
)
    ensures
        same_measurements(a, a),
        same_measurements(a, b) == same_measurements(b, a),
        same_measurements(a, b) && same_measurements(b, c) ==> same_measurements(a, c),
{
}

/// Whatever a report says, the only addresses that a contract is asked at are the two fixed endpoints,
/// and the only contracts that are asked are those of the role on the network.
pub proof fn law_queries_go_to_fixed_endpoints(cvm: CvmAttestation, v: CvmVerdictModel)
    ensures
        chain_step(cvm, v) matches StepModel::AskChain { verdict, query } ==> {
            &&& query.0 == "https://rpc.mainnet.fastnear.com"@ || query.0
                == "https://rpc.testnet.fastnear.com"@
            &&& text::opt_view(cvm.network) matches Some(network)
            &&& text::opt_view(cvm.measurements) matches Some(m)
            &&& onchain::contract_for(cvm.role, network) matches Some(contract)
            &&& verdict.on_chain_contract == Some(contract)
            &&& query.1 == onchain::rpc_request(contract, m)
        },
{
}

/// A verdict without the parts that name the platform.
pub open spec fn without_platform(v: CvmVerdictModel) -> CvmVerdictModel {
    CvmVerdictModel {
        fmspc: None,
        decoded: match v.decoded {
            Some(d) => Some(DecodedModel { fmspc: None, ..d }),
            None => None,
        },
        ..v
    }
}

/// Whether the platform's family and model could be read changes nothing else about a verdict.
pub proof fn law_platform_does_not_decide(
    v: CvmVerdictModel,
    claimed: Option<report::MeasurementsModel>,
    quote: Seq<u8>,
    verified: dcap::VerifiedModel,
    fmspc: Option<Seq<char>>,
)
    ensures
        without_platform(bound_verdict(v, claimed, quote, verified, fmspc)) == without_platform(
            bound_verdict(v, claimed, quote, verified, None),
        ),
{
}

} // verus!
