//! The cross-check against the approved measurements on the NEAR chain: which contract is asked,
//! what is sent, and what the answer means.
use vstd::prelude::*;

use crate::json;
use crate::report::{Measurements, Role};
use crate::{report, text};

verus! {

/// The RPC endpoint of a network.
pub open spec fn rpc_endpoint(network: Seq<char>) -> Option<Seq<char>> {
    if network == "mainnet"@ {
        Some("https://rpc.mainnet.fastnear.com"@)
    } else if network == "testnet"@ {
        Some("https://rpc.testnet.fastnear.com"@)
    } else {
        None
    }
}

/// The suffix of the accounts of a network.
pub open spec fn account_suffix(network: Seq<char>) -> Option<Seq<char>> {
    if network == "mainnet"@ {
        Some("near"@)
    } else if network == "testnet"@ {
        Some("testnet"@)
    } else {
        None
    }
}

/// The contract that holds the approved measurements for a role on a network.
pub open spec fn contract_for(role: Role, network: Seq<char>) -> Option<Seq<char>> {
    match account_suffix(network) {
        None => None,
        Some(suffix) => match role {
            Role::Worker => Some("worker.outlayer."@ + suffix),
            Role::Keystore => Some("dao.outlayer."@ + suffix),
            _ => None,
        },
    }
}

/// The RPC endpoint of a network (fixed; not derived from any request).
pub fn rpc_url(network: &str) -> (r: Option<&'static str>)
    ensures
        text::opt_view(r) == rpc_endpoint(network@),
{
    if text::same_text(network, "mainnet") {
        Some("https://rpc.mainnet.fastnear.com")
    } else if text::same_text(network, "testnet") {
        Some("https://rpc.testnet.fastnear.com")
    } else {
        None
    }
}

/// The suffix of NEAR accounts on a network: `near` on mainnet, `testnet` on testnet.
pub fn near_tla(network: &str) -> (r: Option<&'static str>)
    ensures
        text::opt_view(r) == account_suffix(network@),
{
    if text::same_text(network, "mainnet") {
        Some("near")
    } else if text::same_text(network, "testnet") {
        Some("testnet")
    } else {
        None
    }
}

/// The contract that holds the approved measurements: the register contract for workers, the
/// keystore DAO for keystores. There is none for other roles or unknown networks.
pub fn approval_contract(role: Role, network: &str) -> (r: Option<String>)
    ensures
        text::opt_view(r) == contract_for(role, network@),
{
    match near_tla(network) {
        None => None,
        Some(tla) => match role {
            Role::Worker => Some(text::joined("worker.outlayer.", tla)),
            Role::Keystore => Some(text::joined("dao.outlayer.", tla)),
            Role::Kms | Role::Gateway | Role::Unknown => None,
        },
    }
}

/// A character of the standard base64 alphabet.
pub open spec fn base64_char(n: int) -> char {
    if n < 26 {
        (65 + n) as char
    } else if n < 52 {
        (71 + n) as char
    } else if n < 62 {
        (n - 4) as char
    } else if n == 62 {
        '+'
    } else {
        '/'
    }
}

/// Bytes in standard base64 with padding (RFC 4648): four characters for each three bytes.
pub open spec fn base64_text(bytes: Seq<u8>) -> Seq<char>
    decreases bytes.len(),
{
    if bytes.len() == 0 {
        Seq::empty()
    } else {
        let a = bytes[0] as int;
        let b = if bytes.len() > 1 { bytes[1] as int } else { 0 };
        let c = if bytes.len() > 2 { bytes[2] as int } else { 0 };
        let third = if bytes.len() > 1 { base64_char(b % 16 * 4 + c / 64) } else { '=' };
        let fourth = if bytes.len() > 2 { base64_char(c % 64) } else { '=' };
        let group = seq![base64_char(a / 4), base64_char(a % 4 * 16 + b / 16), third, fourth];
        if bytes.len() <= 3 {
            group
        } else {
            group + base64_text(bytes.skip(3))
        }
    }
}

/// `base64::engine::general_purpose::STANDARD.encode`: the bytes in the standard base64 alphabet,
/// with padding.
#[verifier::external_body]
pub(crate) fn encode_base64(bytes: &[u8]) -> (r: String)
    ensures
        r@ == base64_text(bytes@),
{
    base64::Engine::encode(&base64::engine::general_purpose::STANDARD, bytes)
}

/// One member of a JSON object whose value is a string.
pub open spec fn text_member(key: Seq<char>, value: Seq<char>) -> Seq<char> {
    seq!['"'] + key + "\":"@ + json::json_string(value)
}

/// The arguments of the contract's view method, as JSON.
pub open spec fn view_args(m: report::MeasurementsModel) -> Seq<char> {
    "{\"measurements\":{"@ + text_member("mrtd"@, m.mrtd) + ","@ + text_member("rtmr0"@, m.rtmr0)
        + ","@ + text_member("rtmr1"@, m.rtmr1) + ","@ + text_member("rtmr2"@, m.rtmr2) + ","@
        + text_member("rtmr3"@, m.rtmr3) + "}}"@
}

/// The JSON-RPC request that asks a contract whether it approves of measurements.
pub open spec fn rpc_request(contract: Seq<char>, m: report::MeasurementsModel) -> Seq<char> {
    "{\"jsonrpc\":\"2.0\",\"id\":\"1\",\"method\":\"query\",\"params\":{\"request_type\":\"call_function\",\"finality\":\"final\","@
        + text_member("account_id"@, contract)
        + ",\"method_name\":\"is_measurements_approved\","@ + text_member(
        "args_base64"@,
        base64_text(vstd::utf8::encode_utf8(view_args(m))),
    ) + "}}"@
}

fn push_text(out: &mut String, s: &str)
    ensures
        final(out)@ == old(out)@ + s@,
{
    out.append(s);
}

fn push_member(out: &mut String, key: &str, value: &str)
    ensures
        final(out)@ == old(out)@ + text_member(key@, value@),
{
    let ghost start = out@;
    out.push('"');
    out.append(key);
    out.append("\":");
    match json::quote_json(value) {
        Ok(quoted) => out.append(quoted.as_str()),
        Err(_) => {},
    }
    assert(out@ =~= start + text_member(key@, value@));
}

/// The arguments of the contract's view method, as JSON.
pub fn approval_args(m: &Measurements) -> (r: String)
    ensures
        r@ == view_args(m@),
{
    let mut out = "{\"measurements\":{".to_owned();
    push_member(&mut out, "mrtd", m.mrtd.as_str());
    push_text(&mut out, ",");
    push_member(&mut out, "rtmr0", m.rtmr0.as_str());
    push_text(&mut out, ",");
    push_member(&mut out, "rtmr1", m.rtmr1.as_str());
    push_text(&mut out, ",");
    push_member(&mut out, "rtmr2", m.rtmr2.as_str());
    push_text(&mut out, ",");
    push_member(&mut out, "rtmr3", m.rtmr3.as_str());
    push_text(&mut out, "}}");
    out
}

/// The JSON-RPC request that asks `contract` whether it approves of `m`.
pub fn approval_request(contract: &str, m: &Measurements) -> (r: String)
    ensures
        r@ == rpc_request(contract@, m@),
{
    let args = approval_args(m);
    let encoded = encode_base64(args.as_str().as_bytes());
    let mut out =
        "{\"jsonrpc\":\"2.0\",\"id\":\"1\",\"method\":\"query\",\"params\":{\"request_type\":\"call_function\",\"finality\":\"final\",".to_owned();
    push_member(&mut out, "account_id", contract);
    push_text(&mut out, ",\"method_name\":\"is_measurements_approved\",");
    push_member(&mut out, "args_base64", encoded.as_str());
    push_text(&mut out, "}}");
    out
}

/// Why it is not known whether a contract approves of measurements.
#[derive(Debug, Clone)]
pub enum ChainError {
    /// There is no RPC endpoint for this network.
    NoRpcUrl(String),
    /// No HTTP client could be built.
    Client(String),
    /// The request could not be sent, or nothing came back.
    Request(String),
    /// The endpoint answered with this HTTP status.
    Http(String),
    /// The answer could not be read as JSON.
    Body(String),
    /// The answer reports this error.
    Rpc(String),
    /// The answer carries no result.
    NoResult,
    /// The result is not an array of bytes.
    NotBytes(String),
    /// The bytes of the result are no JSON.
    NotJson(String),
    /// The contract returned something other than `true` or `false`.
    NotBool,
}

/// What a `ChainError` says.
pub enum ChainErrorModel {
    NoRpcUrl(Seq<char>),
    Client(Seq<char>),
    Request(Seq<char>),
    Http(Seq<char>),
    Body(Seq<char>),
    Rpc(Seq<char>),
    NoResult,
    NotBytes(Seq<char>),
    NotJson(Seq<char>),
    NotBool,
}

impl View for ChainError {
    type V = ChainErrorModel;

    open spec fn view(&self) -> ChainErrorModel {
        match *self {
            ChainError::NoRpcUrl(s) => ChainErrorModel::NoRpcUrl(s@),
            ChainError::Client(s) => ChainErrorModel::Client(s@),
            ChainError::Request(s) => ChainErrorModel::Request(s@),
            ChainError::Http(s) => ChainErrorModel::Http(s@),
            ChainError::Body(s) => ChainErrorModel::Body(s@),
            ChainError::Rpc(s) => ChainErrorModel::Rpc(s@),
            ChainError::NoResult => ChainErrorModel::NoResult,
            ChainError::NotBytes(s) => ChainErrorModel::NotBytes(s@),
            ChainError::NotJson(s) => ChainErrorModel::NotJson(s@),
            ChainError::NotBool => ChainErrorModel::NotBool,
        }
    }
}

/// What a `ChainError` says, in words.
pub open spec fn chain_error_text(e: ChainErrorModel) -> Seq<char> {
    match e {
        ChainErrorModel::NoRpcUrl(s) => "no RPC URL for network "@ + s,
        ChainErrorModel::Client(s) => "build RPC client: "@ + s,
        ChainErrorModel::Request(s) => "RPC request: "@ + s,
        ChainErrorModel::Http(s) => "RPC HTTP "@ + s,
        ChainErrorModel::Body(s) => "decode RPC JSON: "@ + s,
        ChainErrorModel::Rpc(s) => "RPC error: "@ + s,
        ChainErrorModel::NoResult => "RPC response missing result.result"@,
        ChainErrorModel::NotBytes(s) => "result.result is not a byte array: "@ + s,
        ChainErrorModel::NotJson(s) => "view return value is not JSON: "@ + s,
        ChainErrorModel::NotBool => "is_measurements_approved did not return a bool"@,
    }
}

impl ChainError {
    /// What went wrong, in words.
    pub fn text(&self) -> (r: String)
        ensures
            r@ == chain_error_text(self@),
    {
        match self {
            ChainError::NoRpcUrl(s) => text::joined("no RPC URL for network ", s.as_str()),
            ChainError::Client(s) => text::joined("build RPC client: ", s.as_str()),
            ChainError::Request(s) => text::joined("RPC request: ", s.as_str()),
            ChainError::Http(s) => text::joined("RPC HTTP ", s.as_str()),
            ChainError::Body(s) => text::joined("decode RPC JSON: ", s.as_str()),
            ChainError::Rpc(s) => text::joined("RPC error: ", s.as_str()),
            ChainError::NoResult => "RPC response missing result.result".to_owned(),
            ChainError::NotBytes(s) => text::joined(
                "result.result is not a byte array: ",
                s.as_str(),
            ),
            ChainError::NotJson(s) => text::joined("view return value is not JSON: ", s.as_str()),
            ChainError::NotBool => "is_measurements_approved did not return a bool".to_owned(),
        }
    }
}

/// The question to put to a contract: what to post, and where.
#[derive(Debug, Clone)]
pub struct ChainQuery {
    pub url: String,
    pub body: String,
}

impl View for ChainQuery {
    type V = (Seq<char>, Seq<char>);

    open spec fn view(&self) -> (Seq<char>, Seq<char>) {
        (self.url@, self.body@)
    }
}

/// The question whether a contract on a network approves of measurements.
pub open spec fn chain_query(
    contract: Seq<char>,
    network: Seq<char>,
    m: report::MeasurementsModel,
) -> Result<(Seq<char>, Seq<char>), ChainErrorModel> {
    match rpc_endpoint(network) {
        None => Err(ChainErrorModel::NoRpcUrl(network)),
        Some(url) => Ok((url, rpc_request(contract, m))),
    }
}

/// The question whether `contract` on `network` approves of `m`.
pub fn approval_query(contract: &str, network: &str, m: &Measurements) -> (r: Result<
    ChainQuery,
    ChainError,
>)
    ensures
        match r {
            Ok(query) => chain_query(contract@, network@, m@) == Ok::<
                (Seq<char>, Seq<char>),
                ChainErrorModel,
            >(query@),
            Err(e) => chain_query(contract@, network@, m@) == Err::<
                (Seq<char>, Seq<char>),
                ChainErrorModel,
            >(e@),
        },
{
    match rpc_url(network) {
        None => Err(ChainError::NoRpcUrl(network.to_owned())),
        Some(url) => Ok(ChainQuery { url: url.to_owned(), body: approval_request(contract, m) }),
    }
}

/// What came of posting a question.
#[derive(Debug)]
pub enum RpcReply {
    /// No HTTP client could be built.
    ClientFailed(String),
    /// The request could not be sent, or nothing came back.
    RequestFailed(String),
    /// An HTTP response came back: its status code, the status as it is printed, and its body or
    /// why that could not be read. The body matters only where the status is a success.
    Answered { code: u16, status: String, body: Result<Vec<u8>, String> },
}

/// What a JSON-RPC answer carries: its error as it is printed, and the bytes of its result or why
/// the result is not a list of bytes.
#[derive(Debug)]
pub struct RpcAnswer {
    pub error: Option<String>,
    pub result: Option<Result<Vec<u8>, String>>,
}

/// What an `RpcAnswer` carries.
pub struct RpcAnswerModel {
    pub error: Option<Seq<char>>,
    pub result: Option<Result<Seq<u8>, Seq<char>>>,
}

impl View for RpcAnswer {
    type V = RpcAnswerModel;

    open spec fn view(&self) -> RpcAnswerModel {
        RpcAnswerModel {
            error: text::opt_view(self.error),
            result: match self.result {
                None => None,
                Some(Ok(bytes)) => Some(Ok(bytes@)),
                Some(Err(e)) => Some(Err(e@)),
            },
        }
    }
}

/// The value at `.result.result` of a document.
pub open spec fn result_member(document: json::Json) -> Option<json::Json> {
    match json::json_member(document, "result"@) {
        Some(outer) => json::json_member(outer, "result"@),
        None => None,
    }
}

/// What a JSON-RPC answer carries.
pub open spec fn answer_of(document: json::Json) -> RpcAnswerModel {
    RpcAnswerModel {
        error: match json::json_member(document, "error"@) {
            Some(e) => Some(json::json_print(e)),
            None => None,
        },
        result: match result_member(document) {
            None => None,
            Some(value) => Some(
                match json::json_bytes(value) {
                    Some(bytes) => Ok(bytes),
                    None => Err(json::json_bytes_error(value)),
                },
            ),
        },
    }
}

/// The bytes that the contract returned. An error in the answer comes before any result.
pub open spec fn returned_bytes(answer: RpcAnswerModel) -> Result<Seq<u8>, ChainErrorModel> {
    match answer.error {
        Some(e) => Err(ChainErrorModel::Rpc(e)),
        None => match answer.result {
            None => Err(ChainErrorModel::NoResult),
            Some(Err(e)) => Err(ChainErrorModel::NotBytes(e)),
            Some(Ok(bytes)) => Ok(bytes),
        },
    }
}

/// What the contract's return value says: its truth value, where it is one.
pub open spec fn returned_value(bytes: Seq<u8>) -> Result<Option<bool>, Seq<char>> {
    match json::json_document(bytes) {
        Ok(document) => Ok(json::json_bool(document)),
        Err(e) => Err(e),
    }
}

/// Whether the contract approves, from its return value.
pub open spec fn approval_of_value(value: Result<Option<bool>, Seq<char>>) -> Result<
    bool,
    ChainErrorModel,
> {
    match value {
        Err(e) => Err(ChainErrorModel::NotJson(e)),
        Ok(None) => Err(ChainErrorModel::NotBool),
        Ok(Some(approved)) => Ok(approved),
    }
}

/// Whether the contract approves, from the body of a successful response.
pub open spec fn approval_of_body(body: Seq<u8>) -> Result<bool, ChainErrorModel> {
    match json::json_document(body) {
        Err(e) => Err(ChainErrorModel::Body("error decoding response body: "@ + e)),
        Ok(document) => match returned_bytes(answer_of(document)) {
            Err(e) => Err(e),
            Ok(bytes) => approval_of_value(returned_value(bytes)),
        },
    }
}

/// An HTTP status code that stands for success.
pub open spec fn is_success(code: u16) -> bool {
    200 <= code <= 299
}

/// Whether the contract approves, from what came of the question.
pub open spec fn approval_of_reply(reply: RpcReply) -> Result<bool, ChainErrorModel> {
    match reply {
        RpcReply::ClientFailed(e) => Err(ChainErrorModel::Client(e@)),
        RpcReply::RequestFailed(e) => Err(ChainErrorModel::Request(e@)),
        RpcReply::Answered { code, status, body } => if !is_success(code) {
            Err(ChainErrorModel::Http(status@))
        } else {
            match body {
                Err(e) => Err(ChainErrorModel::Body(e@)),
                Ok(bytes) => approval_of_body(bytes@),
            }
        },
    }
}

/// The outcome of a check, as values.
pub open spec fn approval_result(r: Result<bool, ChainError>) -> Result<bool, ChainErrorModel> {
    match r {
        Ok(approved) => Ok(approved),
        Err(e) => Err(e@),
    }
}

/// Whether an HTTP status code stands for success.
pub fn http_success(code: u16) -> (r: bool)
    ensures
        r == is_success(code),
{
    200 <= code && code <= 299
}

fn read_answer(body: &[u8]) -> (r: Result<RpcAnswer, String>)
    ensures
        match r {
            Ok(answer) => json::json_document(body@) matches Ok(document) && answer@ == answer_of(
                document,
            ),
            Err(e) => json::json_document(body@) == Err::<json::Json, Seq<char>>(e@),
        },
{
    match json::read_json(body) {
        Err(e) => Err(e),
        Ok(document) => {
            let error = match json::member(&document, "error") {
                Some(e) => Some(json::print_json(e)),
                None => None,
            };
            let result = match json::member(&document, "result") {
                None => None,
                Some(outer) => match json::member(outer, "result") {
                    None => None,
                    Some(value) => Some(json::as_byte_list(value)),
                },
            };
            Ok(RpcAnswer { error, result })
        },
    }
}

fn read_value(bytes: &[u8]) -> (r: Result<Option<bool>, String>)
    ensures
        match r {
            Ok(value) => returned_value(bytes@) == Ok::<Option<bool>, Seq<char>>(value),
            Err(e) => returned_value(bytes@) == Err::<Option<bool>, Seq<char>>(e@),
        },
{
    match json::read_json(bytes) {
        Err(e) => Err(e),
        Ok(document) => Ok(json::as_truth(&document)),
    }
}

/// The bytes that the contract returned. An error in the answer comes before any result: it is
/// never taken for a refusal.
pub fn answer_bytes(answer: RpcAnswer) -> (r: Result<Vec<u8>, ChainError>)
    ensures
        match r {
            Ok(bytes) => returned_bytes(answer@) == Ok::<Seq<u8>, ChainErrorModel>(bytes@),
            Err(e) => returned_bytes(answer@) == Err::<Seq<u8>, ChainErrorModel>(e@),
        },
{
    match answer.error {
        Some(e) => Err(ChainError::Rpc(e)),
        None => match answer.result {
            None => Err(ChainError::NoResult),
            Some(Err(e)) => Err(ChainError::NotBytes(e)),
            Some(Ok(bytes)) => Ok(bytes),
        },
    }
}

/// Whether the contract approves, from what its return value was read as.
pub fn value_approval(value: Result<Option<bool>, String>) -> (r: Result<bool, ChainError>)
    ensures
        approval_result(r) == approval_of_value(
            match value {
                Ok(v) => Ok(v),
                Err(e) => Err(e@),
            },
        ),
{
    match value {
        Err(e) => Err(ChainError::NotJson(e)),
        Ok(None) => Err(ChainError::NotBool),
        Ok(Some(approved)) => Ok(approved),
    }
}

fn body_approval(body: &[u8]) -> (r: Result<bool, ChainError>)
    ensures
        approval_result(r) == approval_of_body(body@),
{
    match read_answer(body) {
        Err(e) => Err(ChainError::Body(text::joined("error decoding response body: ", e.as_str()))),
        Ok(answer) => match answer_bytes(answer) {
            Err(e) => Err(e),
            Ok(bytes) => value_approval(read_value(bytes.as_slice())),
        },
    }
}

/// Whether the contract approves, from what came of the question. Whatever goes wrong on the way
/// is an error, and never an approval or a refusal.
pub fn check_on_chain(reply: RpcReply) -> (r: Result<bool, ChainError>)
    ensures
        approval_result(r) == approval_of_reply(reply),
{
    match reply {
        RpcReply::ClientFailed(e) => Err(ChainError::Client(e)),
        RpcReply::RequestFailed(e) => Err(ChainError::Request(e)),
        RpcReply::Answered { code, status, body } => if !http_success(code) {
            Err(ChainError::Http(status))
        } else {
            match body {
                Err(e) => Err(ChainError::Body(e)),
                Ok(bytes) => body_approval(bytes.as_slice()),
            }
        },
    }
}

/// Only workers and keystores on a known network have a contract, and wherever there is a contract
/// there is an endpoint to ask it at.
pub proof fn law_contract_by_role_and_network(role: Role, network: Seq<char>)
    ensures
        contract_for(role, network) is Some <==> (role == Role::Worker || role == Role::Keystore) && (
        network == "mainnet"@ || network == "testnet"@),
        contract_for(role, network) is Some ==> rpc_endpoint(network) is Some,
{
}

/// An approval is read only from a successful response that carries no error and whose result is
/// the bytes of the JSON value `true`.
pub proof fn law_approval_is_explicit(reply: RpcReply)
    requires
        approval_of_reply(reply) == Ok::<bool, ChainErrorModel>(true),
    ensures
        ({
            &&& reply matches RpcReply::Answered { code, body: Ok(body), .. }
            &&& is_success(code)
            &&& json::json_document(body@) matches Ok(document)
            &&& json::json_member(document, "error"@) is None
            &&& result_member(document) matches Some(value)
            &&& json::json_bytes(value) matches Some(bytes)
            &&& json::json_document(bytes) == Ok::<json::Json, Seq<char>>(json::Json::Bool(true))
        }),
{
}

} // verus!
