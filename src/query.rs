//! One query against the queried chain, over either transport: the
//! authenticated application-level query that returns a proof, and the plain
//! REST fallback that returns none. The network calls are made by the caller;
//! this module decides what to send and what the answer means.
use vstd::prelude::*;

use crate::hex_codec::{decode_hex, encode_hex, hex_decoded, hex_encoded, is_hex};
use crate::merkle::{
    converted_layers, layers, native_view, tm_to_ics_merkle_proof, MerkleProof, NativeProof,
};

verus! {

/// The header that carries the target height of a REST query.
pub const HEIGHT_HEADER: &'static str = "x-cosmos-block-height";

/// A query that the origin chain asked the relayer to make.
#[derive(Clone, Debug, PartialEq, Eq)]
pub struct QueryRequest {
    pub chain_id: String,
    /// Correlates the request with its response; carried over unchanged.
    pub query_id: String,
    pub connection_id: String,
    /// The query path on the queried chain.
    pub query_type: String,
    pub height: u64,
    /// Hex text for the authenticated query, a plain path for the REST one.
    pub payload: String,
}

/// The answer to a query.
#[derive(Clone, Debug, PartialEq, Eq)]
pub struct QueryResponse {
    pub chain_id: String,
    pub query_id: String,
    /// Hex text of the value for the authenticated query, the body for REST.
    pub result: String,
    /// The height, in decimal.
    pub height: String,
    /// Present exactly for the authenticated query.
    pub proof: Option<MerkleProof>,
}

/// Why a query failed.
#[derive(Debug)]
pub enum IcqError {
    /// The payload is not hex text.
    Parse,
    /// The query could not be made, or the application answered with an error code.
    Query,
    /// The application answered without a proof.
    Proof,
    /// The native proof is malformed; the converter's error, as it gave it.
    ProofConversion(ibc_relayer_types::core::ics23_commitment::error::Error),
}

/// A token transfer, as a REST endpoint describes one.
#[derive(Clone, Debug, PartialEq, Eq)]
pub struct MsgTransfer {
    pub amount: String,
    pub denom: String,
    pub receiver: String,
    pub sender: String,
}

/// The application-level query to issue against the queried chain.
#[derive(Debug)]
pub struct AbciQueryCall {
    pub path: String,
    pub data: Vec<u8>,
    pub height: u64,
    /// Whether a proof is asked for.
    pub prove: bool,
}

/// What the queried chain's application answered.
pub struct AbciReply {
    /// The response code; zero is success.
    pub code: u32,
    pub value: Vec<u8>,
    pub height: u64,
    pub proof: Option<NativeProof>,
}

/// The GET request of a REST query.
#[derive(Debug)]
pub struct RestCall {
    pub url: String,
    pub header_name: String,
    pub header_value: String,
}

/// The decimal digit of a value below ten.
pub open spec fn digit_char(d: nat) -> char {
    (('0' as nat) + d) as char
}

/// The decimal text of a number, without leading zeros.
pub open spec fn decimal(n: nat) -> Seq<char>
    decreases n,
{
    if n < 10 {
        seq![digit_char(n)]
    } else {
        decimal(n / 10).push(digit_char(n % 10))
    }
}

/// Relies on the `Display` of u64 (through `to_string`): decimal digits,
/// without sign or leading zeros.
#[verifier::external_body]
fn decimal_string(n: u64) -> (r: String)
    ensures
        r@ == decimal(n as nat),
{
    n.to_string()
}

/// Whether `resp` is the answer to `request` built from an application's
/// value and height and a converted proof.
pub open spec fn is_rpc_response(
    resp: QueryResponse,
    request: QueryRequest,
    value: Seq<u8>,
    height: u64,
    proof: Seq<Seq<u8>>,
) -> bool {
    &&& resp.chain_id == request.chain_id
    &&& resp.query_id == request.query_id
    &&& resp.result@ == hex_encoded(value)
    &&& resp.height@ == decimal(height as nat)
    &&& resp.proof matches Some(m) && layers(m) == proof
}

/// What the answer to `request` is, given the application's reply: an error
/// code is a `Query` error whatever the proof, a success without a proof a
/// `Proof` error, a proof that does not convert the converter's error, and
/// else the value in hex, the height in decimal and the converted proof.
pub open spec fn rpc_reply_outcome(
    request: QueryRequest,
    a: AbciReply,
    r: Result<QueryResponse, IcqError>,
) -> bool {
    if a.code != 0 {
        r == Err::<QueryResponse, IcqError>(IcqError::Query)
    } else {
        match a.proof {
            None => r == Err::<QueryResponse, IcqError>(IcqError::Proof),
            Some(p) => {
                &&& (r is Ok <==> converted_layers(native_view(p)) is Some)
                &&& (r matches Err(e) ==> e is ProofConversion)
                &&& (r matches Ok(resp) ==> is_rpc_response(
                    resp,
                    request,
                    a.value@,
                    a.height,
                    converted_layers(native_view(p))->0,
                ))
            },
        }
    }
}

/// The application-level query for `request`: its payload decoded from hex,
/// at the request's height, with a proof asked for. A payload that is not hex
/// text is a `Parse` error, and then there is no query to make.
pub fn rpc_query_call(request: &QueryRequest) -> (r: Result<AbciQueryCall, IcqError>)
    ensures
        r is Ok <==> is_hex(request.payload@),
        r matches Err(e) ==> e is Parse,
        r matches Ok(c) ==> {
            &&& c.path == request.query_type
            &&& c.data@ == hex_decoded(request.payload@)
            &&& c.height == request.height
            &&& c.prove
        },
{
    match decode_hex(&request.payload) {
        Ok(data) => Ok(
            AbciQueryCall {
                path: request.query_type.clone(),
                data,
                height: request.height,
                prove: true,
            },
        ),
        Err(_) => Err(IcqError::Parse),
    }
}

/// Builds the answer to `request` from the application's value and height
/// and the outcome of the proof conversion, whose error is passed on as it is.
pub fn assemble_rpc_response(
    request: &QueryRequest,
    value: &Vec<u8>,
    height: u64,
    converted: Result<MerkleProof, ibc_relayer_types::core::ics23_commitment::error::Error>,
) -> (r: Result<QueryResponse, IcqError>)
    ensures
        r is Ok <==> converted is Ok,
        converted matches Err(e) ==> r == Err::<QueryResponse, IcqError>(
            IcqError::ProofConversion(e),
        ),
        converted matches Ok(m) ==> r matches Ok(resp) && resp.proof == Some(m)
            && is_rpc_response(resp, *request, value@, height, layers(m)),
{
    match converted {
        Ok(m) => Ok(
            QueryResponse {
                chain_id: request.chain_id.clone(),
                query_id: request.query_id.clone(),
                result: encode_hex(value),
                height: decimal_string(height),
                proof: Some(m),
            },
        ),
        Err(e) => Err(IcqError::ProofConversion(e)),
    }
}

/// What the application's answer to the query for `request` means. `None`
/// stands for a query that could not be made, which is a `Query` error.
pub fn rpc_query_response(request: &QueryRequest, reply: Option<AbciReply>) -> (r: Result<
    QueryResponse,
    IcqError,
>)
    ensures
        reply is None ==> r == Err::<QueryResponse, IcqError>(IcqError::Query),
        reply matches Some(a) ==> rpc_reply_outcome(*request, a, r),
{
    match reply {
        None => Err(IcqError::Query),
        Some(a) => {
            if a.code != 0 {
                return Err(IcqError::Query);
            }
            match a.proof {
                None => Err(IcqError::Proof),
                Some(p) => {
                    let converted = tm_to_ics_merkle_proof(&p);
                    assemble_rpc_response(request, &a.value, a.height, converted)
                },
            }
        },
    }
}

/// The GET request of a REST query: the payload as path, the height in
/// decimal in the height header.
pub fn rest_query_call(request: &QueryRequest) -> (r: RestCall)
    ensures
        r.url == request.payload,
        r.header_name@ == HEIGHT_HEADER@,
        r.header_value@ == decimal(request.height as nat),
{
    RestCall {
        url: request.payload.clone(),
        header_name: String::from_str(HEIGHT_HEADER),
        header_value: decimal_string(request.height),
    }
}

/// The answer to a REST query: the body as it came, the request's height,
/// and never a proof.
pub fn rest_query_response(request: &QueryRequest, body: String) -> (r: QueryResponse)
    ensures
        r.chain_id == request.chain_id,
        r.query_id == request.query_id,
        r.result == body,
        r.height@ == decimal(request.height as nat),
        r.proof is None,
{
    QueryResponse {
        chain_id: request.chain_id.clone(),
        query_id: request.query_id.clone(),
        result: body,
        height: decimal_string(request.height),
        proof: None,
    }
}

} // verus!
