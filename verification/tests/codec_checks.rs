//! The wire codec against the codec crate the host side uses: every encoding
//! the library produces must match it byte for byte, and every reply shape it
//! decodes must accept exactly that crate's output.

use parity_scale_codec::{Compact, Encode};
use rmrk_extension::codec::{
    compact_u32_bytes, decode_bool, decode_id_result, decode_option_u32, decode_u32,
    push_byte_string, u32_le_bytes,
};
use rmrk_extension::errors::RCErrorCode;
use rmrk_extension::gateway::{
    encode_create_collection_input, encode_read_nft_input, encode_remove_resource_input, AccountId,
};

#[test]
fn u32_encoding_matches_scale() {
    assert_eq!(u32_le_bytes(0), 0u32.encode());
    assert_eq!(u32_le_bytes(7), 7u32.encode());
    assert_eq!(u32_le_bytes(7), vec![7, 0, 0, 0]);
    assert_eq!(u32_le_bytes(0xDEAD_BEEF), 0xDEAD_BEEFu32.encode());
    assert_eq!(u32_le_bytes(u32::MAX), u32::MAX.encode());
}

#[test]
fn compact_encoding_matches_scale_in_every_mode() {
    for n in [
        0u32,
        1,
        5,
        63,
        64,
        1000,
        16383,
        16384,
        65536,
        1073741823,
        1073741824,
        u32::MAX,
    ] {
        assert_eq!(compact_u32_bytes(n), Compact(n).encode(), "length {n}");
    }
    assert_eq!(compact_u32_bytes(5), vec![20]);
    assert_eq!(compact_u32_bytes(1073741824), vec![3, 0, 0, 0, 64]);
}

#[test]
fn byte_string_encoding_matches_scale() {
    for bytes in [vec![], vec![9u8], b"metadata".to_vec(), vec![0u8; 200]] {
        let mut out = Vec::new();
        push_byte_string(&mut out, &bytes);
        assert_eq!(out, bytes.encode());
    }
}

#[test]
fn read_nft_input_matches_scale_tuple_encoding() {
    let caller = AccountId::new([9u8; 32]);
    let ours = encode_read_nft_input(&caller, 7, 1000);
    let theirs = ([9u8; 32], 7u32, 1000u32).encode();
    assert_eq!(ours, theirs);
}

#[test]
fn create_collection_input_matches_scale_tuple_encoding() {
    let contract = AccountId::new([3u8; 32]);
    let metadata = b"m".to_vec();
    let symbol = b"s".to_vec();
    let ours = encode_create_collection_input(&contract, &metadata, &symbol);
    let theirs = ([3u8; 32], b"m".to_vec(), b"s".to_vec()).encode();
    assert_eq!(ours, theirs);
}

#[test]
fn remove_resource_input_matches_scale_tuple_encoding() {
    let contract = AccountId::new([0u8; 32]);
    let ours = encode_remove_resource_input(&contract, 7, 2, 3);
    let theirs = ([0u8; 32], 7u32, 2u32, 3u32).encode();
    assert_eq!(ours, theirs);
}

#[test]
fn bool_decoding_accepts_exactly_scale_output() {
    assert_eq!(decode_bool(&true.encode()), Some(true));
    assert_eq!(decode_bool(&false.encode()), Some(false));
    assert_eq!(decode_bool(&vec![2]), None);
    assert_eq!(decode_bool(&vec![]), None);
    assert_eq!(decode_bool(&vec![1, 0]), None);
}

#[test]
fn u32_decoding_accepts_exactly_four_bytes() {
    assert_eq!(decode_u32(&7u32.encode()), Some(7));
    assert_eq!(decode_u32(&0xDEAD_BEEFu32.encode()), Some(0xDEAD_BEEF));
    assert_eq!(decode_u32(&vec![1, 2, 3]), None);
    assert_eq!(decode_u32(&vec![1, 2, 3, 4, 5]), None);
}

#[test]
fn optional_id_decoding_accepts_exactly_scale_output() {
    assert_eq!(decode_option_u32(&Some(7u32).encode()), Some(Some(7)));
    assert_eq!(decode_option_u32(&None::<u32>.encode()), Some(None));
    assert_eq!(None::<u32>.encode(), vec![0]);
    assert_eq!(decode_option_u32(&vec![1, 2, 3]), None);
    assert_eq!(decode_option_u32(&vec![2, 7, 0, 0, 0]), None);
    assert_eq!(decode_option_u32(&vec![]), None);
}

#[test]
fn id_result_decoding_accepts_exactly_scale_output() {
    // on the wire an error code is its index in the closed taxonomy
    assert_eq!(
        decode_id_result(&Ok::<u32, u8>(7).encode()),
        Some(Ok(7)),
    );
    assert_eq!(
        decode_id_result(&Err::<u32, u8>(0).encode()),
        Some(Err(RCErrorCode::Failed)),
    );
    assert_eq!(
        decode_id_result(&Err::<u32, u8>(1).encode()),
        Some(Err(RCErrorCode::CollectionNotCreated)),
    );
    assert_eq!(
        decode_id_result(&Err::<u32, u8>(2).encode()),
        Some(Err(RCErrorCode::CollectionAlreadyCreated)),
    );
}

#[test]
fn id_result_decoding_rejects_a_tag_outside_the_taxonomy() {
    // a tag the adapter does not know means the wire contract drifted: fatal
    assert_eq!(decode_id_result(&Err::<u32, u8>(3).encode()), None);
    assert_eq!(decode_id_result(&vec![2, 0]), None);
    assert_eq!(decode_id_result(&vec![0, 1, 2]), None);
}
