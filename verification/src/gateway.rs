//! Extension gateway: the five numbered call descriptors, the encoders that
//! build each call's input bytes, and the status translation of each raw host
//! reply into a typed outcome.
//!
//! The host transport itself is outside the library: a caller encodes a
//! call's input here, performs the numbered call, and hands the raw reply
//! (status word and payload bytes) back to the translators. Every reply is
//! accounted for: a payload that is not exactly one valid encoding of the
//! descriptor's result shape, or a status word outside the convention, is a
//! protocol violation, never coerced into success or into a generic failure.

use crate::codec::{
    dec_bool, dec_option_u32, decode_bool, decode_option_u32, enc_bytes, enc_u32,
    is_bool_encoding, is_option_u32_encoding, is_unit_encoding, push_all, u32_le_bytes,
};
use crate::errors::RCErrorCode;
use vstd::prelude::*;

verus! {

/// Numbered call identifiers of the five descriptors, stable between the
/// adapter and the host.
pub const FUNC_READ_NFT: u32 = 1;

pub const FUNC_MINT_NFT: u32 = 2;

pub const FUNC_CREATE_COLLECTION: u32 = 3;

pub const FUNC_ADD_RESOURCE: u32 = 4;

pub const FUNC_REMOVE_RESOURCE: u32 = 5;

/// An opaque fixed-size token identifying an account: either the transaction
/// originator or the adapter instance itself. The execution context supplies
/// it; the adapter only forwards its bytes verbatim.
#[derive(Clone, Copy, Debug)]
pub struct AccountId {
    pub bytes: [u8; 32],
}

impl View for AccountId {
    type V = Seq<u8>;

    open spec fn view(&self) -> Seq<u8> {
        self.bytes@
    }
}

impl AccountId {
    pub fn new(bytes: [u8; 32]) -> (r: AccountId)
        ensures
            r@ == bytes@,
    {
        AccountId { bytes }
    }
}

/// Append the verbatim bytes of an account token.
pub fn push_account(out: &mut Vec<u8>, a: &AccountId)
    ensures
        final(out)@ == old(out)@ + a@,
{
    let mut i: usize = 0;
    while i < 32
        invariant
            i <= 32,
            out@ == old(out)@ + a@.subrange(0, i as int),
        decreases 32 - i,
    {
        out.push(a.bytes[i]);
        proof {
            assert(a@.subrange(0, i as int).push(a@[i as int]) =~= a@.subrange(0, i as int + 1));
        }
        i += 1;
    }
    proof {
        assert(a@.subrange(0, 32) =~= a@);
    }
}

/// Input bytes of the read-ownership call: caller token, collection
/// identifier, NFT identifier, in that order.
pub fn encode_read_nft_input(caller: &AccountId, collection_id: u32, nft_id: u32) -> (r: Vec<u8>)
    ensures
        r@ == caller@ + enc_u32(collection_id) + enc_u32(nft_id),
{
    let mut out: Vec<u8> = Vec::new();
    push_account(&mut out, caller);
    let cid = u32_le_bytes(collection_id);
    push_all(&mut out, &cid);
    let nid = u32_le_bytes(nft_id);
    push_all(&mut out, &nid);
    proof {
        assert(out@ =~= caller@ + enc_u32(collection_id) + enc_u32(nft_id));
    }
    out
}

/// Input bytes of the mint call: adapter token, owner token, collection
/// identifier, metadata bytes, in that order.
pub fn encode_mint_nft_input(
    contract: &AccountId,
    owner: &AccountId,
    collection_id: u32,
    metadata: &Vec<u8>,
) -> (r: Vec<u8>)
    requires
        metadata@.len() <= 0xffff_ffff,
    ensures
        r@ == contract@ + owner@ + enc_u32(collection_id) + enc_bytes(metadata@),
{
    let mut out: Vec<u8> = Vec::new();
    push_account(&mut out, contract);
    push_account(&mut out, owner);
    let cid = u32_le_bytes(collection_id);
    push_all(&mut out, &cid);
    crate::codec::push_byte_string(&mut out, metadata);
    proof {
        assert(out@ =~= contract@ + owner@ + enc_u32(collection_id) + enc_bytes(metadata@));
    }
    out
}

/// Input bytes of the create-collection call: adapter token, metadata bytes,
/// symbol bytes, in that order.
pub fn encode_create_collection_input(
    contract: &AccountId,
    metadata: &Vec<u8>,
    symbol: &Vec<u8>,
) -> (r: Vec<u8>)
    requires
        metadata@.len() <= 0xffff_ffff,
        symbol@.len() <= 0xffff_ffff,
    ensures
        r@ == contract@ + enc_bytes(metadata@) + enc_bytes(symbol@),
{
    let mut out: Vec<u8> = Vec::new();
    push_account(&mut out, contract);
    crate::codec::push_byte_string(&mut out, metadata);
    crate::codec::push_byte_string(&mut out, symbol);
    proof {
        assert(out@ =~= contract@ + enc_bytes(metadata@) + enc_bytes(symbol@));
    }
    out
}

/// Input bytes of the add-resource call: adapter token, collection
/// identifier, NFT identifier, metadata bytes, in that order.
pub fn encode_add_resource_input(
    contract: &AccountId,
    collection_id: u32,
    nft_id: u32,
    metadata: &Vec<u8>,
) -> (r: Vec<u8>)
    requires
        metadata@.len() <= 0xffff_ffff,
    ensures
        r@ == contract@ + enc_u32(collection_id) + enc_u32(nft_id) + enc_bytes(metadata@),
{
    let mut out: Vec<u8> = Vec::new();
    push_account(&mut out, contract);
    let cid = u32_le_bytes(collection_id);
    push_all(&mut out, &cid);
    let nid = u32_le_bytes(nft_id);
    push_all(&mut out, &nid);
    crate::codec::push_byte_string(&mut out, metadata);
    proof {
        assert(out@ =~= contract@ + enc_u32(collection_id) + enc_u32(nft_id) + enc_bytes(
            metadata@,
        ));
    }
    out
}

/// Input bytes of the remove-resource call: adapter token, collection
/// identifier, NFT identifier, resource identifier, in that order.
pub fn encode_remove_resource_input(
    contract: &AccountId,
    collection_id: u32,
    nft_id: u32,
    resource_id: u32,
) -> (r: Vec<u8>)
    ensures
        r@ == contract@ + enc_u32(collection_id) + enc_u32(nft_id) + enc_u32(resource_id),
{
    let mut out: Vec<u8> = Vec::new();
    push_account(&mut out, contract);
    let cid = u32_le_bytes(collection_id);
    push_all(&mut out, &cid);
    let nid = u32_le_bytes(nft_id);
    push_all(&mut out, &nid);
    let rid = u32_le_bytes(resource_id);
    push_all(&mut out, &rid);
    proof {
        assert(out@ =~= contract@ + enc_u32(collection_id) + enc_u32(nft_id) + enc_u32(
            resource_id,
        ));
    }
    out
}

/// A raw host reply, translated: either the decoded payload, a recoverable
/// failure from the closed taxonomy, or a protocol violation that must abort
/// the invocation.
#[derive(Debug)]
pub enum Translated<T> {
    Payload(T),
    Failure(RCErrorCode),
    Violation,
}

/// Translation of a reply whose payload carries a flag.
pub open spec fn translate_flag_spec(status: u32, payload: Seq<u8>) -> Translated<bool> {
    if status == 1 {
        Translated::Failure(RCErrorCode::Failed)
    } else if status != 0 {
        Translated::Violation
    } else if is_bool_encoding(payload) {
        Translated::Payload(dec_bool(payload))
    } else {
        Translated::Violation
    }
}

/// Translation of a reply whose payload carries an optional identifier.
pub open spec fn translate_optional_id_spec(status: u32, payload: Seq<u8>) -> Translated<
    Option<u32>,
> {
    if status == 1 {
        Translated::Failure(RCErrorCode::Failed)
    } else if status != 0 {
        Translated::Violation
    } else if is_option_u32_encoding(payload) {
        Translated::Payload(dec_option_u32(payload))
    } else {
        Translated::Violation
    }
}

/// Translation of a reply that carries no payload: success rides on the
/// status word alone.
pub open spec fn translate_ack_spec(status: u32, payload: Seq<u8>) -> Translated<()> {
    if status == 1 {
        Translated::Failure(RCErrorCode::Failed)
    } else if status != 0 {
        Translated::Violation
    } else if is_unit_encoding(payload) {
        Translated::Payload(())
    } else {
        Translated::Violation
    }
}

pub fn translate_flag(status: u32, payload: &Vec<u8>) -> (r: Translated<bool>)
    ensures
        r == translate_flag_spec(status, payload@),
{
    if status == 1 {
        Translated::Failure(RCErrorCode::Failed)
    } else if status != 0 {
        Translated::Violation
    } else {
        match decode_bool(payload) {
            Some(b) => Translated::Payload(b),
            None => Translated::Violation,
        }
    }
}

pub fn translate_optional_id(status: u32, payload: &Vec<u8>) -> (r: Translated<Option<u32>>)
    ensures
        r == translate_optional_id_spec(status, payload@),
{
    if status == 1 {
        Translated::Failure(RCErrorCode::Failed)
    } else if status != 0 {
        Translated::Violation
    } else {
        match decode_option_u32(payload) {
            Some(o) => Translated::Payload(o),
            None => Translated::Violation,
        }
    }
}

/// Law: translation hands back an identifier exactly when the status word
/// reports success and the payload is precisely that identifier's encoding —
/// an identifier can neither be fabricated nor lost in translation.
pub proof fn lemma_granted_id_characterized(status: u32, payload: Seq<u8>, id: u32)
    ensures
        translate_optional_id_spec(status, payload) == Translated::<Option<u32>>::Payload(
            Some(id),
        ) <==> (status == 0 && payload == crate::codec::enc_option_u32(Some(id))),
{
    crate::codec::lemma_option_u32_round_trip(Some(id));
    if status == 0 && is_option_u32_encoding(payload) && dec_option_u32(payload) == Some(id) {
        assert(payload.len() == 5 && payload[0] == 1);
        let t = payload.subrange(1, 5);
        assert(crate::codec::dec_u32(t) == id);
        crate::codec::lemma_enc_of_dec_identity(t);
        assert(payload =~= seq![1u8] + t);
    }
}

pub fn translate_ack(status: u32, payload: &Vec<u8>) -> (r: Translated<()>)
    ensures
        r == translate_ack_spec(status, payload@),
{
    if status == 1 {
        Translated::Failure(RCErrorCode::Failed)
    } else if status != 0 {
        Translated::Violation
    } else if payload.len() == 0 {
        Translated::Payload(())
    } else {
        Translated::Violation
    }
}

} // verus!
