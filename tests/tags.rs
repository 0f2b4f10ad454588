use rugix_core::tags::{is_know, is_optional, is_required, resolve, tag_name, KnownTag, Tag};

fn all_tags() -> Vec<KnownTag> {
    vec![
        KnownTag::Bundle,
        KnownTag::BundleHeader,
        KnownTag::BundleHeaderManifest,
        KnownTag::BundleHeaderHashAlgorithm,
        KnownTag::BundleHeaderPayloadIndex,
        KnownTag::PayloadEntryTypeSlot,
        KnownTag::PayloadEntryTypeExecute,
        KnownTag::PayloadEntryHeaderHash,
        KnownTag::PayloadEntryFileHash,
        KnownTag::PayloadEntryDeltaEncoding,
        KnownTag::PayloadTypeSlotSlot,
        KnownTag::PayloadTypeExecuteHandler,
        KnownTag::BlockIndex,
        KnownTag::BundleHeaderIsIncremental,
        KnownTag::BlockIndexChunker,
        KnownTag::BlockIndexHashAlgorithm,
        KnownTag::BlockIndexBlockHashes,
        KnownTag::BlockIndexBlockSizes,
        KnownTag::Signatures,
        KnownTag::SignaturesCmsSignature,
        KnownTag::Payloads,
        KnownTag::Payload,
        KnownTag::PayloadHeader,
        KnownTag::PayloadData,
        KnownTag::PayloadHeaderBlockEncoding,
        KnownTag::CompressionXz,
        KnownTag::BlockEncodingHashAlgorithm,
        KnownTag::BlockEncodingDeduplicated,
        KnownTag::BlockEncodingChunker,
        KnownTag::BlockEncodingCompression,
        KnownTag::BlockEncodingBlockHashes,
        KnownTag::BlockEncodingBlockSizes,
        KnownTag::DeltaEncodingFormat,
        KnownTag::DeltaEncodingInput,
        KnownTag::DeltaEncodingOriginalHash,
        KnownTag::DeltaEncodingInputHash,
        KnownTag::SignedMetadata,
        KnownTag::SignedMetadataHeaderHash,
    ]
}

#[test]
fn optional_and_required_are_complementary() {
    for value in [0u32, 1, 0x7fff_ffff, 0x8000_0000, 0xffff_ffff, 0x6b50_741c, 0xa839_36f1] {
        let tag = Tag(value);
        assert_eq!(is_optional(tag), !is_required(tag));
        assert_eq!(is_optional(tag), value >= 0x8000_0000);
    }
}

#[test]
fn defined_tags_match_their_declared_class() {
    for k in all_tags() {
        assert_eq!(is_optional(k.tag()), k.declared_optional(), "{}", k.name());
    }
    assert!(is_optional(KnownTag::Signatures.tag()));
    assert!(is_optional(KnownTag::SignaturesCmsSignature.tag()));
    assert!(is_required(KnownTag::Bundle.tag()));
}

#[test]
fn defined_tags_are_distinct() {
    let tags = all_tags();
    assert_eq!(tags.len(), 38);
    for (i, a) in tags.iter().enumerate() {
        for (j, b) in tags.iter().enumerate() {
            if i != j {
                assert_ne!(a.tag(), b.tag());
            }
        }
    }
}

#[test]
fn resolve_names_defined_tags() {
    for k in all_tags() {
        assert_eq!(resolve(k.tag()), Some(k));
        assert!(is_know(k.tag()));
    }
    assert_eq!(tag_name(Tag(0x6b50741c)), Some("BUNDLE"));
    assert_eq!(tag_name(Tag(0x9795498f)), Some("SIGNATURES_CMS_SIGNATURE"));
    assert_eq!(tag_name(Tag(0x0000_0001)), None);
    assert!(!is_know(Tag(0xffff_fff0)));
}

#[test]
fn tag_bytes_are_big_endian() {
    let tag = Tag::from_bytes([0x6b, 0x50, 0x74, 0x1c]);
    assert_eq!(tag, KnownTag::Bundle.tag());
    assert_eq!(tag.as_bytes(), [0x6b, 0x50, 0x74, 0x1c]);
    assert_eq!(KnownTag::Payloads.tag().as_bytes(), [0x01, 0xf3, 0x8f, 0xba]);
}
