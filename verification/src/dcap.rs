//! Intel DCAP verification through `dcap_qvl`.
use vstd::prelude::*;

use crate::text;

verus! {

/// What Intel's provisioning certification service (PCS) holds about the platform of a quote.
#[derive(Debug, Clone)]
pub struct Collateral {
    pub pck_crl_issuer_chain: String,
    pub root_ca_crl: Vec<u8>,
    pub pck_crl: Vec<u8>,
    pub tcb_info_issuer_chain: String,
    pub tcb_info: String,
    pub tcb_info_signature: Vec<u8>,
    pub qe_identity_issuer_chain: String,
    pub qe_identity: String,
    pub qe_identity_signature: Vec<u8>,
    pub pck_certificate_chain: Option<String>,
}

/// What a `Collateral` holds.
pub struct CollateralModel {
    pub pck_crl_issuer_chain: Seq<char>,
    pub root_ca_crl: Seq<u8>,
    pub pck_crl: Seq<u8>,
    pub tcb_info_issuer_chain: Seq<char>,
    pub tcb_info: Seq<char>,
    pub tcb_info_signature: Seq<u8>,
    pub qe_identity_issuer_chain: Seq<char>,
    pub qe_identity: Seq<char>,
    pub qe_identity_signature: Seq<u8>,
    pub pck_certificate_chain: Option<Seq<char>>,
}

impl View for Collateral {
    type V = CollateralModel;

    open spec fn view(&self) -> CollateralModel {
        CollateralModel {
            pck_crl_issuer_chain: self.pck_crl_issuer_chain@,
            root_ca_crl: self.root_ca_crl@,
            pck_crl: self.pck_crl@,
            tcb_info_issuer_chain: self.tcb_info_issuer_chain@,
            tcb_info: self.tcb_info@,
            tcb_info_signature: self.tcb_info_signature@,
            qe_identity_issuer_chain: self.qe_identity_issuer_chain@,
            qe_identity: self.qe_identity@,
            qe_identity_signature: self.qe_identity_signature@,
            pck_certificate_chain: text::opt_view(self.pck_certificate_chain),
        }
    }
}

/// The report of a trust domain (TD): the body of a TDX quote.
#[derive(Debug, Clone)]
pub struct TdReport {
    /// Virtual firmware measurement.
    pub mr_td: [u8; 48],
    pub rt_mr0: [u8; 48],
    pub rt_mr1: [u8; 48],
    pub rt_mr2: [u8; 48],
    pub rt_mr3: [u8; 48],
    pub report_data: [u8; 64],
    /// The TDX module's measurement.
    pub mr_seam: [u8; 48],
    /// The TDX module's signer.
    pub mr_signer_seam: [u8; 48],
    pub tee_tcb_svn: [u8; 16],
    pub td_attributes: [u8; 8],
    pub xfam: [u8; 8],
}

/// What a `TdReport` holds.
pub struct TdModel {
    pub mr_td: Seq<u8>,
    pub rt_mr0: Seq<u8>,
    pub rt_mr1: Seq<u8>,
    pub rt_mr2: Seq<u8>,
    pub rt_mr3: Seq<u8>,
    pub report_data: Seq<u8>,
    pub mr_seam: Seq<u8>,
    pub mr_signer_seam: Seq<u8>,
    pub tee_tcb_svn: Seq<u8>,
    pub td_attributes: Seq<u8>,
    pub xfam: Seq<u8>,
}

impl View for TdReport {
    type V = TdModel;

    open spec fn view(&self) -> TdModel {
        TdModel {
            mr_td: self.mr_td@,
            rt_mr0: self.rt_mr0@,
            rt_mr1: self.rt_mr1@,
            rt_mr2: self.rt_mr2@,
            rt_mr3: self.rt_mr3@,
            report_data: self.report_data@,
            mr_seam: self.mr_seam@,
            mr_signer_seam: self.mr_signer_seam@,
            tee_tcb_svn: self.tee_tcb_svn@,
            td_attributes: self.td_attributes@,
            xfam: self.xfam@,
        }
    }
}

/// A quote whose signature, certificate chain and TCB chain were checked.
#[derive(Debug, Clone)]
pub struct VerifiedQuote {
    /// Intel's TCB status (`UpToDate`, `OutOfDate`, ...).
    pub status: String,
    /// Intel's advisories (`INTEL-SA-...`) for the matched TCB level.
    pub advisory_ids: Vec<String>,
    /// The TD report; nothing where the quote is of another kind (an SGX enclave).
    pub td: Option<TdReport>,
}

/// What a `VerifiedQuote` holds.
pub struct VerifiedModel {
    pub status: Seq<char>,
    pub advisory_ids: Seq<Seq<char>>,
    pub td: Option<TdModel>,
}

impl View for VerifiedQuote {
    type V = VerifiedModel;

    open spec fn view(&self) -> VerifiedModel {
        VerifiedModel {
            status: self.status@,
            advisory_ids: text::each_view(self.advisory_ids@),
            td: text::opt_view(self.td),
        }
    }
}

/// What `dcap_qvl::verify::verify` decides of a quote, given the collateral for its platform and the
/// time in Unix seconds: the verified report, or the error as it is printed with its causes.
pub uninterp spec fn quote_verification(
    quote: Seq<u8>,
    collateral: CollateralModel,
    now: u64,
) -> Result<VerifiedModel, Seq<char>>;

/// The FMSPC, a platform's family and model, that `dcap_qvl::intel::quote_fmspc` reads from the
/// certificate chain inside a quote.
pub uninterp spec fn quote_platform(quote: Seq<u8>) -> Option<Seq<u8>>;

/// `dcap_qvl::verify::verify`, with the TD report that `Report::as_td10` gives of the verified
/// quote. The result depends on the quote, the collateral and the time alone and is named
/// `quote_verification`; an error is handed on as `anyhow` prints it with its causes.
#[verifier::external_body]
pub(crate) fn verify_quote(quote: &[u8], collateral: Collateral, now: u64) -> (r: Result<
    VerifiedQuote,
    String,
>)
    ensures
        match r {
            Ok(v) => quote_verification(quote@, collateral@, now) == Ok::<VerifiedModel, Seq<char>>(
                v@,
            ),
            Err(e) => quote_verification(quote@, collateral@, now) == Err::<VerifiedModel, Seq<char>>(
                e@,
            ),
        },
{
    let Collateral { pck_crl_issuer_chain, root_ca_crl, pck_crl, tcb_info_issuer_chain, tcb_info,
        tcb_info_signature, qe_identity_issuer_chain, qe_identity, qe_identity_signature,
        pck_certificate_chain } = collateral;
    let collateral = dcap_qvl::QuoteCollateralV3 { pck_crl_issuer_chain, root_ca_crl, pck_crl,
        tcb_info_issuer_chain, tcb_info, tcb_info_signature, qe_identity_issuer_chain, qe_identity,
        qe_identity_signature, pck_certificate_chain };
    let v = dcap_qvl::verify::verify(quote, &collateral, now).map_err(|e| format!("{e:#}"))?;
    let td = v.report.as_td10().map(|t| TdReport { mr_td: t.mr_td, rt_mr0: t.rt_mr0,
        rt_mr1: t.rt_mr1, rt_mr2: t.rt_mr2, rt_mr3: t.rt_mr3, report_data: t.report_data,
        mr_seam: t.mr_seam, mr_signer_seam: t.mr_signer_seam, tee_tcb_svn: t.tee_tcb_svn,
        td_attributes: t.td_attributes, xfam: t.xfam });
    Ok(VerifiedQuote { status: v.status, advisory_ids: v.advisory_ids, td })
}

/// `dcap_qvl::quote::Quote::parse` and `dcap_qvl::intel::quote_fmspc` on what it parsed; nothing
/// where either fails. The result depends on the quote alone and is named `quote_platform`.
#[verifier::external_body]
pub(crate) fn read_fmspc(quote: &[u8]) -> (r: Option<[u8; 6]>)
    ensures
        text::opt_view(r) == quote_platform(quote@),
{
    let parsed = dcap_qvl::quote::Quote::parse(quote).ok()?;
    dcap_qvl::intel::quote_fmspc(&parsed).ok()
}

} // verus!
