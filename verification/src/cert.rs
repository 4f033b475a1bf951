//! The TDX quote inside an RA-TLS certificate.
use vstd::prelude::*;

use crate::text;

verus! {

/// dstack embeds the TDX quote in the RA-TLS leaf certificate under this private-enterprise OID.
pub const QUOTE_EXT_OID: &'static str = "1.3.6.1.4.1.62397.1.8";

/// A real TDX v4 quote is several KiB; anything tiny means that something else was found.
pub const MIN_QUOTE_LEN: usize = 1000;

/// Why no quote could be taken from a certificate.
#[derive(Debug, Clone)]
pub enum QuoteError {
    /// The text holds no readable PEM block.
    Pem(String),
    /// The first PEM block is no X.509 certificate.
    Certificate(String),
    /// The certificate has no quote extension.
    NoExtension,
    /// The extension holds no TDX quote header.
    NoMagic,
    /// What follows the quote header is shorter than any quote; its length in bytes.
    TooShort(usize),
}

/// What a `QuoteError` says.
pub enum QuoteErrorModel {
    Pem(Seq<char>),
    Certificate(Seq<char>),
    NoExtension,
    NoMagic,
    TooShort(int),
}

impl View for QuoteError {
    type V = QuoteErrorModel;

    open spec fn view(&self) -> QuoteErrorModel {
        match *self {
            QuoteError::Pem(e) => QuoteErrorModel::Pem(e@),
            QuoteError::Certificate(e) => QuoteErrorModel::Certificate(e@),
            QuoteError::NoExtension => QuoteErrorModel::NoExtension,
            QuoteError::NoMagic => QuoteErrorModel::NoMagic,
            QuoteError::TooShort(n) => QuoteErrorModel::TooShort(n as int),
        }
    }
}

/// One extension of a certificate: its OID in dotted decimal, and the content of its value.
#[derive(Debug, Clone)]
pub struct Extension {
    pub oid: String,
    pub value: Vec<u8>,
}

impl View for Extension {
    type V = (Seq<char>, Seq<u8>);

    open spec fn view(&self) -> (Seq<char>, Seq<u8>) {
        (self.oid@, self.value@)
    }
}

/// What `x509_parser::pem::parse_x509_pem` decodes: the content of the first PEM block, or the
/// error as it is printed.
pub uninterp spec fn first_pem_block(pem: Seq<u8>) -> Result<Seq<u8>, Seq<char>>;

/// The extensions that `x509_parser::parse_x509_certificate` reads from a DER certificate, in
/// order, or the error as it is printed.
pub uninterp spec fn certificate_extensions(der: Seq<u8>) -> Result<
    Seq<(Seq<char>, Seq<u8>)>,
    Seq<char>,
>;

/// `x509_parser::pem::parse_x509_pem`: decodes the first PEM block of a text. What it gives
/// depends on the bytes alone and is named `first_pem_block`.
#[verifier::external_body]
pub(crate) fn read_pem(pem: &[u8]) -> (r: Result<Vec<u8>, String>)
    ensures
        match r {
            Ok(der) => first_pem_block(pem@) == Ok::<Seq<u8>, Seq<char>>(der@),
            Err(e) => first_pem_block(pem@) == Err::<Seq<u8>, Seq<char>>(e@),
        },
{
    match x509_parser::pem::parse_x509_pem(pem) {
        Ok((_, block)) => Ok(block.contents),
        Err(e) => Err(e.to_string()),
    }
}

/// `x509_parser::parse_x509_certificate`, with the extensions of the certificate in the order of
/// `X509Certificate::iter_extensions`, each OID written by `Oid::to_id_string`. What it gives
/// depends on the bytes alone and is named `certificate_extensions`.
#[verifier::external_body]
pub(crate) fn read_extensions(der: &[u8]) -> (r: Result<Vec<Extension>, String>)
    ensures
        match r {
            Ok(found) => certificate_extensions(der@) == Ok::<
                Seq<(Seq<char>, Seq<u8>)>,
                Seq<char>,
            >(text::each_view(found@)),
            Err(e) => certificate_extensions(der@) == Err::<
                Seq<(Seq<char>, Seq<u8>)>,
                Seq<char>,
            >(e@),
        },
{
    match x509_parser::parse_x509_certificate(der) {
        Ok((_, cert)) => Ok(
            cert.iter_extensions().map(
                |e| Extension { oid: e.oid.to_id_string(), value: e.value.to_vec() },
            ).collect(),
        ),
        Err(e) => Err(format!("{:#}", anyhow::Error::new(e))),
    }
}

/// The header of an Intel TDX v4 quote (version 4, attestation key type 2) stands in `blob` from
/// position `i` on.
pub open spec fn magic_at(blob: Seq<u8>, i: int) -> bool {
    &&& 0 <= i
    &&& i + 4 <= blob.len()
    &&& blob[i] == 4
    &&& blob[i + 1] == 0
    &&& blob[i + 2] == 2
    &&& blob[i + 3] == 0
}

/// `i` is the first position at which a quote header stands in `blob`.
pub open spec fn first_magic(blob: Seq<u8>, i: int) -> bool {
    magic_at(blob, i) && forall|j: int| 0 <= j < i ==> !magic_at(blob, j)
}

/// No quote header stands in `blob`.
pub open spec fn no_magic(blob: Seq<u8>) -> bool {
    forall|j: int| !magic_at(blob, j)
}

/// The quote in the value of a quote extension: all that follows the framing before the first
/// quote header.
pub open spec fn quote_in_blob(blob: Seq<u8>) -> Result<Seq<u8>, QuoteErrorModel> {
    if no_magic(blob) {
        Err(QuoteErrorModel::NoMagic)
    } else {
        let quote = blob.skip(choose|i: int| first_magic(blob, i));
        if quote.len() < MIN_QUOTE_LEN {
            Err(QuoteErrorModel::TooShort(quote.len() as int))
        } else {
            Ok(quote)
        }
    }
}

/// The first position from `i` on of an extension that carries a quote.
pub open spec fn quote_extension_from(extensions: Seq<(Seq<char>, Seq<u8>)>, i: int) -> Option<int>
    decreases extensions.len() - i,
{
    if i >= extensions.len() {
        None
    } else if extensions[i].0 == QUOTE_EXT_OID@ {
        Some(i)
    } else {
        quote_extension_from(extensions, i + 1)
    }
}

/// The quote in the first extension of a certificate that carries one.
pub open spec fn quote_in_extensions(extensions: Seq<(Seq<char>, Seq<u8>)>) -> Result<
    Seq<u8>,
    QuoteErrorModel,
> {
    match quote_extension_from(extensions, 0) {
        Some(i) => quote_in_blob(extensions[i].1),
        None => Err(QuoteErrorModel::NoExtension),
    }
}

/// The quote in the leaf certificate of a PEM chain.
pub open spec fn quote_of_cert(pem: Seq<char>) -> Result<Seq<u8>, QuoteErrorModel> {
    match first_pem_block(vstd::utf8::encode_utf8(pem)) {
        Err(e) => Err(QuoteErrorModel::Pem(e)),
        Ok(der) => match certificate_extensions(der) {
            Err(e) => Err(QuoteErrorModel::Certificate(e)),
            Ok(extensions) => quote_in_extensions(extensions),
        },
    }
}

/// What a `QuoteError` says, in words.
pub open spec fn quote_error_text(e: QuoteErrorModel) -> Seq<char> {
    match e {
        QuoteErrorModel::Pem(e) => "PEM parse: "@ + e,
        QuoteErrorModel::Certificate(e) => "parse leaf X.509 certificate: "@ + e,
        QuoteErrorModel::NoExtension => "quote extension "@ + QUOTE_EXT_OID@
            + " not found in leaf cert"@,
        QuoteErrorModel::NoMagic => "TDX quote magic not found in cert extension"@,
        QuoteErrorModel::TooShort(n) => "extracted quote too short ("@ + text::decimal(n as nat)
            + " bytes); extraction likely failed"@,
    }
}

/// The result of taking a quote out, as values.
pub open spec fn quote_result(r: Result<Vec<u8>, QuoteError>) -> Result<Seq<u8>, QuoteErrorModel> {
    match r {
        Ok(quote) => Ok(quote@),
        Err(e) => Err(e@),
    }
}

impl QuoteError {
    /// What went wrong, in words.
    pub fn text(&self) -> (r: String)
        ensures
            r@ == quote_error_text(self@),
    {
        match self {
            QuoteError::Pem(e) => text::joined("PEM parse: ", e.as_str()),
            QuoteError::Certificate(e) => text::joined(
                "parse leaf X.509 certificate: ",
                e.as_str(),
            ),
            QuoteError::NoExtension => {
                let start = text::joined("quote extension ", QUOTE_EXT_OID);
                text::joined(start.as_str(), " not found in leaf cert")
            },
            QuoteError::NoMagic => "TDX quote magic not found in cert extension".to_owned(),
            QuoteError::TooShort(n) => {
                let count = text::decimal_text(*n as u64);
                let start = text::joined("extracted quote too short (", count.as_str());
                text::joined(start.as_str(), " bytes); extraction likely failed")
            },
        }
    }
}

fn magic_position(blob: &[u8]) -> (r: Option<usize>)
    ensures
        match r {
            Some(i) => first_magic(blob@, i as int),
            None => no_magic(blob@),
        },
{
    if blob.len() < 4 {
        return None;
    }
    let last: usize = blob.len() - 4;
    let mut i: usize = 0;
    while i <= last
        invariant
            last + 4 == blob@.len(),
            i <= last + 1,
            forall|j: int| 0 <= j < i ==> !magic_at(blob@, j),
        decreases last + 1 - i,
    {
        if blob[i] == 4 && blob[i + 1] == 0 && blob[i + 2] == 2 && blob[i + 3] == 0 {
            return Some(i);
        }
        i = i + 1;
    }
    None
}

/// The quote in the value of a quote extension. What stands before the first quote header is
/// framing, whatever its length.
pub fn extract_quote_from_blob(blob: &[u8]) -> (r: Result<Vec<u8>, QuoteError>)
    ensures
        quote_result(r) == quote_in_blob(blob@),
{
    match magic_position(blob) {
        None => Err(QuoteError::NoMagic),
        Some(pos) => {
            proof {
                let i = choose|i: int| first_magic(blob@, i);
                assert(first_magic(blob@, i));
                assert(i == pos) by {
                    if i < pos {
                        assert(!magic_at(blob@, i));
                    }
                    if pos < i {
                        assert(!magic_at(blob@, pos as int));
                    }
                }
                assert(magic_at(blob@, pos as int));
            }
            let count: usize = blob.len() - pos;
            if count < MIN_QUOTE_LEN {
                return Err(QuoteError::TooShort(count));
            }
            let mut quote: Vec<u8> = Vec::new();
            let mut k: usize = pos;
            while k < blob.len()
                invariant
                    pos <= k <= blob@.len(),
                    quote@ == blob@.subrange(pos as int, k as int),
                decreases blob@.len() - k,
            {
                quote.push(blob[k]);
                k = k + 1;
            }
            assert(quote@ =~= blob@.skip(pos as int));
            Ok(quote)
        },
    }
}

/// The quote in the first extension of a certificate that carries one.
pub fn extract_quote_from_extensions(extensions: &Vec<Extension>) -> (r: Result<
    Vec<u8>,
    QuoteError,
>)
    ensures
        quote_result(r) == quote_in_extensions(text::each_view(extensions@)),
{
    let mut i: usize = 0;
    while i < extensions.len()
        invariant
            i <= extensions@.len(),
            quote_extension_from(text::each_view(extensions@), 0) == quote_extension_from(
                text::each_view(extensions@),
                i as int,
            ),
        decreases extensions@.len() - i,
    {
        assert(text::each_view(extensions@)[i as int] == extensions@[i as int]@);
        if text::same_text(extensions[i].oid.as_str(), QUOTE_EXT_OID) {
            return extract_quote_from_blob(extensions[i].value.as_slice());
        }
        i = i + 1;
    }
    Err(QuoteError::NoExtension)
}

/// The raw Intel TDX quote in the leaf certificate of an RA-TLS chain.
pub fn extract_quote_from_app_cert(pem: &str) -> (r: Result<Vec<u8>, QuoteError>)
    ensures
        quote_result(r) == quote_of_cert(pem@),
{
    match read_pem(pem.as_bytes()) {
        Err(e) => Err(QuoteError::Pem(e)),
        Ok(der) => match read_extensions(der.as_slice()) {
            Err(e) => Err(QuoteError::Certificate(e)),
            Ok(extensions) => extract_quote_from_extensions(&extensions),
        },
    }
}

/// A quote taken from an extension is the end of the extension's value, begins with a quote header
/// that is the first one there, and is no shorter than a quote can be.
pub proof fn law_quote_is_framed_suffix(blob: Seq<u8>)
    ensures
        quote_in_blob(blob) matches Ok(quote) ==> {
            &&& quote.len() >= MIN_QUOTE_LEN
            &&& first_magic(blob, blob.len() - quote.len())
            &&& quote == blob.skip(blob.len() - quote.len())
        },
{
    if !no_magic(blob) {
        let j = choose|j: int| magic_at(blob, j);
        lemma_first_magic(blob, j);
        let i = choose|i: int| first_magic(blob, i);
        assert(first_magic(blob, i));
    }
}

/// Framing in front of a quote makes no difference, whatever its length, as long as no quote header
/// begins in it.
pub proof fn law_quote_framing_is_ignored(frame: Seq<u8>, quote: Seq<u8>)
    requires
        quote.len() >= MIN_QUOTE_LEN,
        magic_at(quote, 0),
        forall|j: int| 0 <= j < frame.len() ==> !magic_at(frame + quote, j),
    ensures
        quote_in_blob(frame + quote) == Ok::<Seq<u8>, QuoteErrorModel>(quote),
{
    let blob = frame + quote;
    let n = frame.len() as int;
    assert(magic_at(blob, n));
    assert(first_magic(blob, n));
    let i = choose|i: int| first_magic(blob, i);
    assert(first_magic(blob, i));
    if i < n {
        assert(!magic_at(blob, i));
    }
    assert(i == n);
    assert(blob.skip(n) =~= quote);
}

proof fn lemma_first_magic(blob: Seq<u8>, j: int)
    requires
        magic_at(blob, j),
    ensures
        exists|i: int| first_magic(blob, i),
    decreases j,
{
    if exists|k: int| 0 <= k < j && magic_at(blob, k) {
        let k = choose|k: int| 0 <= k < j && magic_at(blob, k);
        lemma_first_magic(blob, k);
    } else {
        assert(first_magic(blob, j));
    }
}

} // verus!
