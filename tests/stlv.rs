use rugix_core::stlv::{decode, decode_segment, encode, DecodeError, Record};
use rugix_core::tags::{KnownTag, Tag};

fn rec(tag: Tag, value: &[u8]) -> Record {
    Record { tag, value: value.to_vec() }
}

fn views(rs: &[Record]) -> Vec<(u32, Vec<u8>)> {
    rs.iter().map(|r| (r.tag.0, r.value.clone())).collect()
}

#[test]
fn encode_writes_tag_length_value() {
    let bytes = encode(&vec![rec(KnownTag::PayloadData.tag(), &[1, 2, 3])]);
    assert_eq!(bytes, vec![0x42, 0xfd, 0x64, 0x1a, 0, 0, 0, 3, 1, 2, 3]);
    assert_eq!(encode(&vec![]), Vec::<u8>::new());
}

#[test]
fn decode_inverts_encode() {
    let records = vec![
        rec(KnownTag::BundleHeader.tag(), &[]),
        rec(Tag(0x1234_5678), &[9; 300]),
        rec(KnownTag::Signatures.tag(), &[7, 8]),
    ];
    let bytes = encode(&records);
    let back = decode(&bytes).unwrap();
    assert_eq!(views(&back), views(&records));
}

#[test]
fn nested_segment_round_trips() {
    let inner = encode(&vec![rec(KnownTag::PayloadEntryHeaderHash.tag(), &[0xaa; 32])]);
    let outer = encode(&vec![rec(KnownTag::BundleHeaderPayloadIndex.tag(), &inner)]);
    let top = decode(&outer).unwrap();
    assert_eq!(top.len(), 1);
    let children = decode(&top[0].value).unwrap();
    assert_eq!(views(&children), vec![(0x5f6a60b1, vec![0xaa; 32])]);
}

#[test]
fn decode_rejects_truncated_bytes() {
    assert!(matches!(decode(&vec![0x42, 0xfd, 0x64]), Err(DecodeError::Malformed)));
    let mut bytes = encode(&vec![rec(KnownTag::PayloadData.tag(), &[1, 2, 3])]);
    bytes.pop();
    assert!(matches!(decode(&bytes), Err(DecodeError::Malformed)));
}

#[test]
fn segment_skips_unknown_optional_tag() {
    let bytes = encode(&vec![
        rec(KnownTag::PayloadEntryHeaderHash.tag(), &[1]),
        rec(Tag(0xffff_fff0), &[5, 5, 5, 5]),
        rec(KnownTag::PayloadEntryFileHash.tag(), &[2]),
    ]);
    let kept = decode_segment(&bytes).unwrap();
    assert_eq!(views(&kept), vec![(0x5f6a60b1, vec![1]), (0x0c8d1fd0, vec![2])]);
}

#[test]
fn segment_fails_on_unknown_required_tag() {
    let bytes = encode(&vec![
        rec(KnownTag::PayloadEntryHeaderHash.tag(), &[1]),
        rec(Tag(0x0000_0001), &[5]),
    ]);
    assert!(matches!(
        decode_segment(&bytes),
        Err(DecodeError::NewerFormat { tag: Tag(0x0000_0001) })
    ));
}
