//! Laws of the verification: the quote inside a certificate, and what a verdict says.
use vstd::prelude::*;

use crate::dcap::Collateral;
use crate::onchain::RpcReply;
use crate::report::CvmAttestation;
use crate::verify::{CollateralReply, CvmVerdictModel, StepModel};
use crate::{cert, dcap, hex, onchain, report, text, verify};

verus! {

/// The four bytes that a TDX quote begins with stand in `blob` at `i`.
pub open spec fn header_at(blob: Seq<u8>, i: int) -> bool {
    0 <= i <= blob.len() - 4 && blob.subrange(i, i + 4) == seq![4u8, 0, 2, 0]
}

proof fn lemma_header(blob: Seq<u8>, i: int)
    ensures
        header_at(blob, i) == cert::magic_at(blob, i),
{
    let header = seq![4u8, 0, 2, 0];
    if cert::magic_at(blob, i) {
        assert(blob.subrange(i, i + 4) =~= header);
    }
    if header_at(blob, i) {
        let part = blob.subrange(i, i + 4);
        assert(part[0] == blob[i] && part[1] == blob[i + 1] && part[2] == blob[i + 2] && part[3]
            == blob[i + 3]);
    }
}

/// What is taken from the value of a quote extension. Without a header there is no quote; otherwise the
/// quote begins at the first header and goes to the end, and is refused exactly where it has fewer than
/// a thousand bytes.
pub proof fn law_quote_in_extension_value(blob: Seq<u8>, i: int)
    ensures
        (forall|k: int| !header_at(blob, k)) ==> cert::quote_in_blob(blob) == Err::<
            Seq<u8>,
            cert::QuoteErrorModel,
        >(cert::QuoteErrorModel::NoMagic),
        header_at(blob, i) && (forall|k: int| 0 <= k < i ==> !header_at(blob, k)) ==> {
            &&& blob.len() - i >= 1000 ==> cert::quote_in_blob(blob) == Ok::<
                Seq<u8>,
                cert::QuoteErrorModel,
            >(blob.subrange(i, blob.len() as int))
            &&& blob.len() - i < 1000 ==> cert::quote_in_blob(blob) == Err::<
                Seq<u8>,
                cert::QuoteErrorModel,
            >(cert::QuoteErrorModel::TooShort(blob.len() - i))
        },
{
    assert forall|k: int| header_at(blob, k) == cert::magic_at(blob, k) by {
        lemma_header(blob, k);
    }
    if header_at(blob, i) && (forall|k: int| 0 <= k < i ==> !header_at(blob, k)) {
        assert(cert::magic_at(blob, i));
        assert(cert::first_magic(blob, i));
        let c = choose|c: int| cert::first_magic(blob, c);
        assert(cert::first_magic(blob, c));
        if c < i {
            assert(!header_at(blob, c));
        }
        if i < c {
            assert(!cert::magic_at(blob, i));
        }
        assert(c == i);
        assert(blob.skip(i) =~= blob.subrange(i, blob.len() as int));
    }
}

proof fn lemma_quote_extension(extensions: Seq<(Seq<char>, Seq<u8>)>, k: int, i: int)
    requires
        0 <= k <= i <= extensions.len(),
        forall|j: int|
            k <= j < i ==> (#[trigger] extensions[j]).0 != "1.3.6.1.4.1.62397.1.8"@,
    ensures
        i < extensions.len() && extensions[i].0 == "1.3.6.1.4.1.62397.1.8"@
            ==> cert::quote_extension_from(extensions, k) == Some(i),
        i == extensions.len() ==> cert::quote_extension_from(extensions, k) is None,
    decreases i - k,
{
    if k < i {
        lemma_quote_extension(extensions, k + 1, i);
    }
}

/// The quote comes from the first extension with dstack's identifier; a certificate without one has no
/// quote.
pub proof fn law_quote_extension_is_the_first(extensions: Seq<(Seq<char>, Seq<u8>)>, i: int)
    requires
        0 <= i <= extensions.len(),
        forall|j: int|
            0 <= j < i ==> (#[trigger] extensions[j]).0 != "1.3.6.1.4.1.62397.1.8"@,
    ensures
        i < extensions.len() && extensions[i].0 == "1.3.6.1.4.1.62397.1.8"@
            ==> cert::quote_in_extensions(extensions) == cert::quote_in_blob(extensions[i].1),
        i == extensions.len() ==> cert::quote_in_extensions(extensions) == Err::<
            Seq<u8>,
            cert::QuoteErrorModel,
        >(cert::QuoteErrorModel::NoExtension),
{
    lemma_quote_extension(extensions, 0, i);
}

/// The quote of a certificate is that of its first PEM block; a block or a certificate that cannot be
/// read is refused with what the reader says.
pub proof fn law_quote_is_the_leafs(pem: Seq<char>)
    ensures
        match cert::first_pem_block(vstd::utf8::encode_utf8(pem)) {
            Err(e) => cert::quote_of_cert(pem) == Err::<Seq<u8>, cert::QuoteErrorModel>(
                cert::QuoteErrorModel::Pem(e),
            ),
            Ok(der) => match cert::certificate_extensions(der) {
                Err(e) => cert::quote_of_cert(pem) == Err::<Seq<u8>, cert::QuoteErrorModel>(
                    cert::QuoteErrorModel::Certificate(e),
                ),
                Ok(found) => cert::quote_of_cert(pem) == cert::quote_in_extensions(found),
            },
        },
{
}

/// A refused certificate says what was wrong, with all that the reader said or how long the quote was.
pub proof fn law_quote_errors_say_why(e: Seq<char>, n: nat)
    ensures
        cert::quote_error_text(cert::QuoteErrorModel::Pem(e)) == "PEM parse: "@ + e,
        cert::quote_error_text(cert::QuoteErrorModel::Certificate(e))
            == "parse leaf X.509 certificate: "@ + e,
        cert::quote_error_text(cert::QuoteErrorModel::TooShort(n as int))
            == "extracted quote too short ("@ + text::decimal(n)
            + " bytes); extraction likely failed"@,
        cert::quote_error_text(cert::QuoteErrorModel::NoExtension) == "quote extension "@
            + cert::QUOTE_EXT_OID@ + " not found in leaf cert"@,
        cert::quote_error_text(cert::QuoteErrorModel::NoMagic)
            == "TDX quote magic not found in cert extension"@,
{
}

/// A verified quote gives a verdict that says exactly what Intel's verification found: the TCB status
/// and the advisories as they are, the platform and every register of the quote in hexadecimal, and the
/// quote itself.
pub proof fn law_verdict_says_what_intel_found(
    cvm: CvmAttestation,
    begun: u64,
    collateral: Collateral,
    fetched: u64,
    chain: RpcReply,
    pem: Seq<char>,
    quote: Seq<u8>,
    found: dcap::VerifiedModel,
)
    requires
        text::opt_view(cvm.app_cert_pem) == Some(pem),
        cert::quote_of_cert(pem) == Ok::<Seq<u8>, cert::QuoteErrorModel>(quote),
        dcap::quote_verification(quote, collateral@, fetched) == Ok::<
            dcap::VerifiedModel,
            Seq<char>,
        >(found),
    ensures
        ({
            let v = verify::verdict_of(
                cvm,
                begun,
                CollateralReply::Fetched(collateral),
                fetched,
                chain,
            );
            &&& v.sig_valid
            &&& v.tcb_status == Some(found.status)
            &&& v.advisory_ids == found.advisory_ids
            &&& match dcap::quote_platform(quote) {
                Some(platform) => v.fmspc == Some(hex::hex_of(platform, true)),
                None => v.fmspc is None,
            }
            &&& v.decoded is Some <==> found.td is Some
            &&& found.td matches Some(td) ==> v.decoded matches Some(d) && {
                &&& d.mrtd == hex::hex_of(td.mr_td, false)
                &&& d.rtmr0 == hex::hex_of(td.rt_mr0, false)
                &&& d.rtmr1 == hex::hex_of(td.rt_mr1, false)
                &&& d.rtmr2 == hex::hex_of(td.rt_mr2, false)
                &&& d.rtmr3 == hex::hex_of(td.rt_mr3, false)
                &&& d.report_data == hex::hex_of(td.report_data, false)
                &&& d.mr_seam == hex::hex_of(td.mr_seam, false)
                &&& d.mr_signer_seam == hex::hex_of(td.mr_signer_seam, false)
                &&& d.tee_tcb_svn == hex::hex_of(td.tee_tcb_svn, false)
                &&& d.td_attributes == hex::hex_of(td.td_attributes, false)
                &&& d.xfam == hex::hex_of(td.xfam, false)
                &&& d.fmspc == v.fmspc
                &&& d.quote_hex == hex::hex_of(quote, false)
            }
        }),
{
}

/// The claimed registers match a verified TDX quote exactly where each of the five is the register of
/// the same name in the quote, in whatever case; a quote of another kind never matches, and without a
/// claim nothing is compared.
pub proof fn law_claim_matches_register_by_register(
    cvm: CvmAttestation,
    begun: u64,
    collateral: Collateral,
    fetched: u64,
    chain: RpcReply,
    pem: Seq<char>,
    quote: Seq<u8>,
    found: dcap::VerifiedModel,
)
    requires
        text::opt_view(cvm.app_cert_pem) == Some(pem),
        cert::quote_of_cert(pem) == Ok::<Seq<u8>, cert::QuoteErrorModel>(quote),
        dcap::quote_verification(quote, collateral@, fetched) == Ok::<
            dcap::VerifiedModel,
            Seq<char>,
        >(found),
    ensures
        ({
            let v = verify::verdict_of(
                cvm,
                begun,
                CollateralReply::Fetched(collateral),
                fetched,
                chain,
            );
            match cvm.measurements {
                None => v.quote_measurements_match is None,
                Some(m) => match found.td {
                    None => v.quote_measurements_match == Some(false),
                    Some(td) => v.quote_measurements_match == Some(
                        text::lowered(m.mrtd@) == hex::hex_of(td.mr_td, false) && text::lowered(
                            m.rtmr0@,
                        ) == hex::hex_of(td.rt_mr0, false) && text::lowered(m.rtmr1@)
                            == hex::hex_of(td.rt_mr1, false) && text::lowered(m.rtmr2@)
                            == hex::hex_of(td.rt_mr2, false) && text::lowered(m.rtmr3@)
                            == hex::hex_of(td.rt_mr3, false),
                    ),
                },
            }
        }),
{
    if let Some(td) = found.td {
        hex::law_hex_case_agrees(td.mr_td);
        hex::law_hex_case_agrees(td.rt_mr0);
        hex::law_hex_case_agrees(td.rt_mr1);
        hex::law_hex_case_agrees(td.rt_mr2);
        hex::law_hex_case_agrees(td.rt_mr3);
    }
}

/// A verification that gets no verified quote says which step failed and why.
pub proof fn law_failed_verification_says_why(
    cvm: CvmAttestation,
    begun: u64,
    reply: CollateralReply,
    fetched: u64,
    chain: RpcReply,
)
    ensures
        ({
            let v = verify::verdict_of(cvm, begun, reply, fetched, chain);
            match cvm.app_cert_pem {
                None => v.error == Some("no app_cert_pem in report (guest-agent unreachable?)"@),
                Some(pem) => match cert::quote_of_cert(pem@) {
                    Err(e) => v.error == Some(
                        "quote extraction failed: "@ + cert::quote_error_text(e),
                    ),
                    Ok(quote) => match reply {
                        CollateralReply::ClientFailed(e) => v.error == Some(
                            "Intel PCS client build failed: "@ + e@,
                        ),
                        CollateralReply::FetchFailed(e) => v.error == Some(
                            "Intel PCS collateral fetch failed: "@ + e@,
                        ),
                        CollateralReply::Fetched(c) => dcap::quote_verification(quote, c@, fetched)
                            matches Err(e) ==> v.error == Some("quote verification failed: "@ + e),
                    },
                },
            }
        }),
{
}

/// Once a quote was verified, the contract's answer is in the verdict exactly where there is a contract
/// for the role and network and the report claims registers, and it is what the contract answered. The
/// error of such a verdict is the first thing that went wrong after that, and there is none where
/// nothing did.
pub proof fn law_verdict_says_what_the_contract_answered(
    cvm: CvmAttestation,
    begun: u64,
    collateral: Collateral,
    fetched: u64,
    chain: RpcReply,
    pem: Seq<char>,
    quote: Seq<u8>,
    found: dcap::VerifiedModel,
)
    requires
        text::opt_view(cvm.app_cert_pem) == Some(pem),
        cert::quote_of_cert(pem) == Ok::<Seq<u8>, cert::QuoteErrorModel>(quote),
        dcap::quote_verification(quote, collateral@, fetched) == Ok::<
            dcap::VerifiedModel,
            Seq<char>,
        >(found),
    ensures
        ({
            let v = verify::verdict_of(
                cvm,
                begun,
                CollateralReply::Fetched(collateral),
                fetched,
                chain,
            );
            let contract = match cvm.network {
                Some(network) => onchain::contract_for(cvm.role, network@),
                None => None,
            };
            let asked = contract is Some && cvm.measurements is Some;
            &&& v.on_chain_contract == contract
            &&& v.on_chain_approved == (match onchain::approval_of_reply(chain) {
                Ok(approved) if asked => Some(approved),
                _ => None,
            })
            &&& v.error == (if cvm.measurements is Some && found.td is None {
                Some("verified quote is not a TDX TD10/TD15 report"@)
            } else if contract is Some && cvm.measurements is None {
                Some("no measurements in report; cannot run on-chain check"@)
            } else {
                match onchain::approval_of_reply(chain) {
                    Err(e) if asked => Some(
                        "on-chain check failed: "@ + onchain::chain_error_text(e),
                    ),
                    _ => None,
                }
            })
        }),
{
    if let Some(network) = cvm.network {
        onchain::law_contract_by_role_and_network(cvm.role, network@);
    }
}

/// A verification begins with nothing found, and an error is all that a failure adds.
pub proof fn law_verdict_begins_with_nothing(
    vm_id: Seq<char>,
    now: u64,
    v: CvmVerdictModel,
    e: Seq<char>,
)
    ensures
        ({
            let fresh = verify::fresh_verdict(vm_id, now);
            &&& fresh.vm_id == vm_id && fresh.verified_at == now
            &&& !fresh.sig_valid && fresh.tcb_status is None && fresh.advisory_ids.len() == 0
            &&& fresh.fmspc is None && fresh.decoded is None && fresh.error is None
            &&& fresh.quote_measurements_match is None
            &&& fresh.on_chain_approved is None && fresh.on_chain_contract is None
        }),
        verify::failed(v, e).error == Some(e),
        only_error_differs(v, verify::failed(v, e)),
        verify::noted(v, e).error == (if v.error is Some {
            v.error
        } else {
            Some(e)
        }),
        only_error_differs(v, verify::noted(v, e)),
{
}

/// Two verdicts agree on everything but what went wrong.
pub open spec fn only_error_differs(v: CvmVerdictModel, w: CvmVerdictModel) -> bool {
    &&& w.vm_id == v.vm_id && w.verified_at == v.verified_at
    &&& w.sig_valid == v.sig_valid && w.tcb_status == v.tcb_status
    &&& w.advisory_ids == v.advisory_ids && w.fmspc == v.fmspc && w.decoded == v.decoded
    &&& w.quote_measurements_match == v.quote_measurements_match
    &&& w.on_chain_approved == v.on_chain_approved && w.on_chain_contract == v.on_chain_contract
}

/// Whatever a verdict said before, a verified quote is entered as it was found; nothing else changes,
/// and an error that came before stays.
pub proof fn law_verified_quote_is_entered(
    v: CvmVerdictModel,
    claimed: Option<report::MeasurementsModel>,
    quote: Seq<u8>,
    found: dcap::VerifiedModel,
    fmspc: Option<Seq<char>>,
)
    ensures
        ({
            let w = verify::bound_verdict(v, claimed, quote, found, fmspc);
            &&& w.sig_valid && w.tcb_status == Some(found.status)
            &&& w.advisory_ids == found.advisory_ids && w.fmspc == fmspc
            &&& w.vm_id == v.vm_id && w.verified_at == v.verified_at
            &&& w.on_chain_approved == v.on_chain_approved
            &&& w.on_chain_contract == v.on_chain_contract
            &&& w.decoded is Some <==> found.td is Some
            &&& found.td matches Some(td) ==> {
                let d = w.decoded->Some_0;
                &&& d.mrtd == hex::hex_of(td.mr_td, false)
                &&& d.rtmr0 == hex::hex_of(td.rt_mr0, false)
                &&& d.rtmr1 == hex::hex_of(td.rt_mr1, false)
                &&& d.rtmr2 == hex::hex_of(td.rt_mr2, false)
                &&& d.rtmr3 == hex::hex_of(td.rt_mr3, false)
                &&& d.report_data == hex::hex_of(td.report_data, false)
                &&& d.mr_seam == hex::hex_of(td.mr_seam, false)
                &&& d.mr_signer_seam == hex::hex_of(td.mr_signer_seam, false)
                &&& d.tee_tcb_svn == hex::hex_of(td.tee_tcb_svn, false)
                &&& d.td_attributes == hex::hex_of(td.td_attributes, false)
                &&& d.xfam == hex::hex_of(td.xfam, false)
                &&& d.fmspc == fmspc && d.quote_hex == hex::hex_of(quote, false)
            }
            &&& w.quote_measurements_match == (match (claimed, found.td) {
                (None, _) => v.quote_measurements_match,
                (Some(_), None) => Some(false),
                (Some(m), Some(td)) => Some(
                    text::lowered(m.mrtd) == hex::hex_of(td.mr_td, false) && text::lowered(m.rtmr0)
                        == hex::hex_of(td.rt_mr0, false) && text::lowered(m.rtmr1) == hex::hex_of(
                        td.rt_mr1,
                        false,
                    ) && text::lowered(m.rtmr2) == hex::hex_of(td.rt_mr2, false) && text::lowered(
                        m.rtmr3,
                    ) == hex::hex_of(td.rt_mr3, false),
                ),
            })
            &&& w.error == (if v.error is None && claimed is Some && found.td is None {
                Some("verified quote is not a TDX TD10/TD15 report"@)
            } else {
                v.error
            })
        }),
{
    if let Some(td) = found.td {
        hex::law_hex_case_agrees(td.mr_td);
        hex::law_hex_case_agrees(td.rt_mr0);
        hex::law_hex_case_agrees(td.rt_mr1);
        hex::law_hex_case_agrees(td.rt_mr2);
        hex::law_hex_case_agrees(td.rt_mr3);
    }
}

/// Whatever a verdict said before, the contract's answer is entered as it is; nothing else changes, and
/// an error that came before stays.
pub proof fn law_answer_is_entered(v: CvmVerdictModel, reply: RpcReply)
    ensures
        ({
            let w = verify::chain_verdict(v, reply);
            match onchain::approval_of_reply(reply) {
                Ok(approved) => {
                    &&& w.on_chain_approved == Some(approved)
                    &&& w.error == v.error
                    &&& only_error_differs(
                        v,
                        CvmVerdictModel { on_chain_approved: v.on_chain_approved, ..w },
                    )
                },
                Err(e) => {
                    &&& w.error == (if v.error is Some {
                        v.error
                    } else {
                        Some("on-chain check failed: "@ + onchain::chain_error_text(e))
                    })
                    &&& only_error_differs(v, w)
                },
            }
        }),
{
}

/// A contract is asked exactly where there is one for the role and network and the report claims
/// registers; it is then in the verdict, of which nothing else changes.
pub proof fn law_who_is_asked(cvm: CvmAttestation, v: CvmVerdictModel)
    ensures
        ({
            let contract = match cvm.network {
                Some(network) => onchain::contract_for(cvm.role, network@),
                None => None,
            };
            let step = verify::chain_step(cvm, v);
            match contract {
                None => step == StepModel::Done(v),
                Some(account) => {
                    let w = CvmVerdictModel { on_chain_contract: Some(account), ..v };
                    match cvm.measurements {
                        None => step matches StepModel::Done(d) && only_error_differs(w, d)
                            && d.error == (if v.error is Some {
                            v.error
                        } else {
                            Some("no measurements in report; cannot run on-chain check"@)
                        }),
                        Some(m) => step matches StepModel::AskChain { verdict, query } && verdict
                            == w && onchain::chain_query(account, cvm.network->Some_0@, m@) == Ok::<
                            (Seq<char>, Seq<char>),
                            onchain::ChainErrorModel,
                        >(query),
                    }
                },
            }
        }),
{
    if let Some(network) = cvm.network {
        onchain::law_contract_by_role_and_network(cvm.role, network@);
    }
}

} // verus!
