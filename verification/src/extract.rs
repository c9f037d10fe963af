//! Address extraction: given a contract's kind tag and its payload, the
//! sender and receiver address bytes, when the kind defines the field and
//! the payload decodes. A tag outside the enumeration, a kind without the
//! field, or an undecodable payload all yield no address — absence of data,
//! never an error.

use vstd::prelude::*;
use crate::kinds::{
    kind_from_tag, sender_field, receiver_field, spec_kind_from_tag, spec_sender_field,
    spec_receiver_field, ContractKind,
};
use crate::model::ContractPayload;
use crate::proto::{find_bytes_field, spec_bytes_field, parse_varint, scan_fields};

verus! {

/// The sender address a contract of tag `tag` with payload bytes `payload`
/// yields: the kind's sender field, when the kind is known, defines one,
/// and the payload decodes.
pub open spec fn spec_extract_sender(tag: i32, payload: Seq<u8>) -> Option<Seq<u8>> {
    match spec_kind_from_tag(tag) {
        None => None,
        Some(k) => match spec_sender_field(k) {
            None => None,
            Some(f) => spec_bytes_field(payload, f as nat),
        },
    }
}

/// The receiver address a contract yields, by the same rule over the
/// receiver side of the table.
pub open spec fn spec_extract_receiver(tag: i32, payload: Seq<u8>) -> Option<Seq<u8>> {
    match spec_kind_from_tag(tag) {
        None => None,
        Some(k) => match spec_receiver_field(k) {
            None => None,
            Some(f) => spec_bytes_field(payload, f as nat),
        },
    }
}

/// Extracts the sending address from a contract parameter, if the kind
/// defines one and the payload decodes.
pub fn extract_from_address(contract_type: i32, parameter: &ContractPayload) -> (r: Option<
    Vec<u8>,
>)
    ensures
        match r {
            None => spec_extract_sender(contract_type, parameter.value@) is None,
            Some(v) => spec_extract_sender(contract_type, parameter.value@) == Some(v@),
        },
{
    match kind_from_tag(contract_type) {
        None => None,
        Some(k) => match sender_field(k) {
            None => None,
            Some(f) => find_bytes_field(&parameter.value, f),
        },
    }
}

/// Extracts the receiving address from a contract parameter, if the kind
/// defines one and the payload decodes.
pub fn extract_to_address(contract_type: i32, parameter: &ContractPayload) -> (r: Option<Vec<u8>>)
    ensures
        match r {
            None => spec_extract_receiver(contract_type, parameter.value@) is None,
            Some(v) => spec_extract_receiver(contract_type, parameter.value@) == Some(v@),
        },
{
    match kind_from_tag(contract_type) {
        None => None,
        Some(k) => match receiver_field(k) {
            None => None,
            Some(f) => find_bytes_field(&parameter.value, f),
        },
    }
}

/// The canonical one-record payload that carries `v` in the `bytes` field
/// `f`: a one-byte tag, a one-byte length, then the content.
pub open spec fn spec_encode_bytes_field(f: u64, v: Seq<u8>) -> Seq<u8> {
    seq![(8 * f + 2) as u8, v.len() as u8] + v
}

/// Reading field `f` back out of its canonical one-record payload returns
/// exactly the content that was put in.
pub proof fn lemma_bytes_field_round_trip(f: u64, v: Seq<u8>)
    requires
        1 <= f <= 15,
        v.len() < 128,
    ensures
        spec_bytes_field(spec_encode_bytes_field(f, v), f as nat) == Some(v),
{
    let s = spec_encode_bytes_field(f, v);
    assert(s.len() == v.len() + 2);
    assert(s[0] == 8 * f + 2 && s[0] < 128);
    assert(s[1] == v.len() && s[1] < 128);
    assert(parse_varint(s, 0, 10) == Some((((8 * f + 2) as u8) as nat, 1int)));
    assert((8 * (f as nat) + 2) / 8 == f as nat && (8 * (f as nat) + 2) % 8 == 2) by (nonlinear_arith)
        requires
            1 <= f <= 15,
    ;
    assert(parse_varint(s, 1, 10) == Some((v.len(), 2int)));
    assert(s.subrange(2, 2 + v.len() as int) =~= v);
    assert(scan_fields(s, 2 + v.len() as int, f as nat, Some(v)) == Some(Some(v)));
    assert(scan_fields(s, 0, f as nat, None) == Some(Some(v)));
}

/// For every kind with a sender field, a payload carrying a known address
/// in that field gives it back unchanged through the sender extraction.
pub proof fn lemma_extract_sender_round_trip(tag: i32, k: ContractKind, f: u64, addr: Seq<u8>)
    requires
        spec_kind_from_tag(tag) == Some(k),
        spec_sender_field(k) == Some(f),
        addr.len() < 128,
    ensures
        spec_extract_sender(tag, spec_encode_bytes_field(f, addr)) == Some(addr),
{
    crate::kinds::lemma_fields_small(k);
    lemma_bytes_field_round_trip(f, addr);
}

/// For every kind with a receiver field, the analogous round trip holds for
/// the receiver extraction.
pub proof fn lemma_extract_receiver_round_trip(tag: i32, k: ContractKind, f: u64, addr: Seq<u8>)
    requires
        spec_kind_from_tag(tag) == Some(k),
        spec_receiver_field(k) == Some(f),
        addr.len() < 128,
    ensures
        spec_extract_receiver(tag, spec_encode_bytes_field(f, addr)) == Some(addr),
{
    crate::kinds::lemma_fields_small(k);
    lemma_bytes_field_round_trip(f, addr);
}

/// A kind with no sender field yields no sender address, whatever the
/// payload holds; likewise on the receiver side.
pub proof fn lemma_extract_absent_field(tag: i32, k: ContractKind, payload: Seq<u8>)
    requires
        spec_kind_from_tag(tag) == Some(k),
    ensures
        spec_sender_field(k) is None ==> spec_extract_sender(tag, payload) is None,
        spec_receiver_field(k) is None ==> spec_extract_receiver(tag, payload) is None,
{
}

/// A tag outside the enumeration yields no address in either direction,
/// whatever the payload holds.
pub proof fn lemma_extract_unknown_tag(tag: i32, payload: Seq<u8>)
    requires
        spec_kind_from_tag(tag) is None,
    ensures
        spec_extract_sender(tag, payload) is None,
        spec_extract_receiver(tag, payload) is None,
{
}

} // verus!
