//! Commitment proofs: the native form that the queried chain's application
//! query returns, and the canonical form that the origin chain verifies.
use vstd::prelude::*;

use prost::Message;

verus! {

/// One operation of a native proof: its type tag, its key and its data.
#[derive(Clone, Debug, PartialEq, Eq)]
pub struct ProofOp {
    pub field_type: String,
    pub key: Vec<u8>,
    pub data: Vec<u8>,
}

/// A native commitment proof, as the queried chain's query endpoint gives it.
#[derive(Clone, Debug, PartialEq, Eq)]
pub struct NativeProof {
    pub ops: Vec<ProofOp>,
}

/// The canonical proof: an ordered sequence of commitment-proof layers, each
/// held as its protobuf encoding.
#[derive(Clone, Debug, PartialEq, Eq)]
pub struct MerkleProof {
    pub proofs: Vec<Vec<u8>>,
}

/// An operation seen as plain values.
pub open spec fn op_view(op: ProofOp) -> (Seq<char>, Seq<u8>, Seq<u8>) {
    (op.field_type@, op.key@, op.data@)
}

/// The operations of a native proof, seen as plain values.
pub open spec fn native_view(p: NativeProof) -> Seq<(Seq<char>, Seq<u8>, Seq<u8>)> {
    p.ops@.map_values(|op: ProofOp| op_view(op))
}

/// The layers of a canonical proof.
pub open spec fn layers(m: MerkleProof) -> Seq<Seq<u8>> {
    m.proofs@.map_values(|l: Vec<u8>| l@)
}

/// The layers that the conversion of a native proof yields, or `None` where
/// it rejects the proof.
pub uninterp spec fn converted_layers(ops: Seq<(Seq<char>, Seq<u8>, Seq<u8>)>) -> Option<
    Seq<Seq<u8>>,
>;

#[verifier::external_type_specification]
#[verifier::external_body]
pub struct ExCommitmentError(ibc_relayer_types::core::ics23_commitment::error::Error);

/// Relies on ibc_relayer_types' convert_tm_to_ics_merkle_proof, which decodes
/// the data of each operation as one commitment-proof layer, in order, and
/// fails on the first that does not decode; each layer is handed back in its
/// protobuf encoding (prost's `Message::encode_to_vec`). The result depends on
/// the operations alone.
#[verifier::external_body]
pub(crate) fn tm_to_ics_merkle_proof(p: &NativeProof) -> (r: Result<MerkleProof, ibc_relayer_types::core::ics23_commitment::error::Error>)
    ensures
        r is Ok <==> converted_layers(native_view(*p)) is Some,
        r matches Ok(m) ==> layers(m) == converted_layers(native_view(*p))->0,
{
    let ops = p.ops.iter().map(|o| tendermint::merkle::proof::ProofOp {
        field_type: o.field_type.clone(),
        key: o.key.clone(),
        data: o.data.clone(),
    }).collect();
    let tm = tendermint::merkle::proof::ProofOps { ops };
    let m = ibc_relayer_types::core::ics23_commitment::merkle::convert_tm_to_ics_merkle_proof(&tm)?;
    Ok(MerkleProof { proofs: m.proofs.iter().map(|c| c.encode_to_vec()).collect() })
}

/// Converts a native proof into the canonical one. A malformed proof is
/// rejected with the converter's own error; no layer is ever dropped.
pub fn convert_native_proof(p: &NativeProof) -> (r: Result<MerkleProof, ibc_relayer_types::core::ics23_commitment::error::Error>)
    ensures
        r is Ok <==> converted_layers(native_view(*p)) is Some,
        r matches Ok(m) ==> layers(m) == converted_layers(native_view(*p))->0,
{
    tm_to_ics_merkle_proof(p)
}

} // verus!
