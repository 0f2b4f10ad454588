//! Tags of the bundle format.
//!
//! The top bit of a tag's first byte tells whether a record with the tag may be
//! skipped by a reader that does not know the tag (*optional*) or whether such a
//! reader must give up (*required*). Tags are globally unique, so a record can be
//! identified without any context.
use vstd::prelude::*;

verus! {

/// Bit mask, on the first byte of a tag, of the optional bit.
const IS_OPTIONAL_MASK: u8 = 0x80;

/// A four-byte tag, held as its big-endian value.
#[derive(Clone, Copy, Debug, PartialEq, Eq, Structural, Hash)]
pub struct Tag(pub u32);

impl Tag {
    /// Tag whose big-endian bytes are `bytes`.
    pub fn from_bytes(bytes: [u8; 4]) -> (r: Tag)
        ensures
            r.0 == be_value(bytes[0], bytes[1], bytes[2], bytes[3]),
    {
        Tag(((bytes[0] as u32) << 24u32) | ((bytes[1] as u32) << 16u32) | ((bytes[2] as u32)
            << 8u32) | (bytes[3] as u32))
    }

    /// Big-endian bytes of the tag.
    pub fn as_bytes(self) -> (r: [u8; 4])
        ensures
            be_value(r[0], r[1], r[2], r[3]) == self.0,
    {
        let v = self.0;
        let r = [(v >> 24u32) as u8, (v >> 16u32) as u8, (v >> 8u32) as u8, v as u8];
        assert(((((v >> 24u32) as u8) as u32) << 24u32) | ((((v >> 16u32) as u8) as u32)
            << 16u32) | ((((v >> 8u32) as u8) as u32) << 8u32) | ((v as u8) as u32) == v)
            by (bit_vector);
        r
    }
}

/// The value of four big-endian bytes.
pub open spec fn be_value(b0: u8, b1: u8, b2: u8, b3: u8) -> u32 {
    ((b0 as u32) << 24u32) | ((b1 as u32) << 16u32) | ((b2 as u32) << 8u32) | (b3 as u32)
}

/// A tag is optional when the top bit of its first byte is set.
pub open spec fn tag_is_optional(tag: Tag) -> bool {
    tag.0 >= 0x8000_0000
}

/// A tag is required when the top bit of its first byte is clear.
pub open spec fn tag_is_required(tag: Tag) -> bool {
    tag.0 < 0x8000_0000
}

/// Returns whether handling of the tag is optional.
pub fn is_optional(tag: Tag) -> (r: bool)
    ensures
        r == tag_is_optional(tag),
{
    let v = tag.0;
    let first = (v >> 24u32) as u8;
    assert(((((v >> 24u32) as u8) & 0x80u8) != 0u8) == (v >= 0x8000_0000u32)) by (bit_vector);
    (first & IS_OPTIONAL_MASK) != 0
}

/// Returns whether handling of the tag is required.
pub fn is_required(tag: Tag) -> (r: bool)
    ensures
        r == tag_is_required(tag),
{
    !is_optional(tag)
}

/// Returns whether the tag is one of the defined tags.
pub fn is_know(tag: Tag) -> (r: bool)
    ensures
        r == spec_resolve(tag.0).is_some(),
{
    resolve(tag).is_some()
}

/// Symbolic name of the tag, for diagnostics, if it is a defined tag.
pub fn tag_name(tag: Tag) -> (r: Option<&'static str>)
    ensures
        r.is_some() == spec_resolve(tag.0).is_some(),
        r.is_some() ==> r.unwrap()@ == spec_resolve(tag.0).unwrap().spec_name(),
{
    match resolve(tag) {
        Some(k) => Some(k.name()),
        None => None,
    }
}

/// Every tag is either optional or required, never both, and each defined tag's
/// top bit agrees with the class that its definition declares.
pub proof fn lemma_tag_classification(tag: Tag, k: KnownTag)
    ensures
        tag_is_optional(tag) == !tag_is_required(tag),
        tag_is_optional(Tag(k.spec_value())) == k.spec_declared_optional(),
{
}

/// No two distinct defined tags share a value.
pub proof fn lemma_tags_distinct(a: KnownTag, b: KnownTag)
    requires
        a != b,
    ensures
        a.spec_value() != b.spec_value(),
{
    lemma_resolve_value(a);
    lemma_resolve_value(b);
}

/// Every tag that the bundle format defines.
#[derive(Clone, Copy, Debug, PartialEq, Eq, Structural, Hash)]
pub enum KnownTag {
    /// Bundle root segment.
    Bundle,
    /// Bundle header segment.
    BundleHeader,
    /// Bundle manifest.
    BundleHeaderManifest,
    /// Hash algorithm of the bundle header.
    BundleHeaderHashAlgorithm,
    /// Entry in the payload index.
    BundleHeaderPayloadIndex,
    /// Payload installed into a slot.
    PayloadEntryTypeSlot,
    /// Payload handed to a handler.
    PayloadEntryTypeExecute,
    /// Hash of the payload's header.
    PayloadEntryHeaderHash,
    /// Hash of the payload's file.
    PayloadEntryFileHash,
    /// Payload entry delta encoding.
    PayloadEntryDeltaEncoding,
    /// Slot where the payload should be installed to.
    PayloadTypeSlotSlot,
    /// Handler that executes the payload.
    PayloadTypeExecuteHandler,
    /// Block index segment.
    BlockIndex,
    /// Incremental-update flag of the header.
    BundleHeaderIsIncremental,
    /// Chunker of the block index.
    BlockIndexChunker,
    /// Hash algorithm of the block index.
    BlockIndexHashAlgorithm,
    /// Block hashes of the block index.
    BlockIndexBlockHashes,
    /// Block sizes of the block index.
    BlockIndexBlockSizes,
    /// Signatures segment of the bundle.
    Signatures,
    /// CMS signature.
    SignaturesCmsSignature,
    /// Payloads segment of the bundle.
    Payloads,
    /// Payload segment.
    Payload,
    /// Payload header segment.
    PayloadHeader,
    /// Data of the payload.
    PayloadData,
    /// Payload block encoding.
    PayloadHeaderBlockEncoding,
    /// XZ compression.
    CompressionXz,
    /// Hash algorithm of a block encoding.
    BlockEncodingHashAlgorithm,
    /// Deduplication flag of a block encoding.
    BlockEncodingDeduplicated,
    /// Chunker of a block encoding.
    BlockEncodingChunker,
    /// Compression of a block encoding.
    BlockEncodingCompression,
    /// Block index.
    BlockEncodingBlockHashes,
    /// Block sizes.
    BlockEncodingBlockSizes,
    /// Delta encoding format.
    DeltaEncodingFormat,
    /// Delta encoding input.
    DeltaEncodingInput,
    /// Delta encoding original hash.
    DeltaEncodingOriginalHash,
    /// Hash to identify a delta encoding input.
    DeltaEncodingInputHash,
    /// Signed metadata.
    SignedMetadata,
    /// Signed metadata header hash.
    SignedMetadataHeaderHash,
}

impl KnownTag {
    /// Value of the tag.
    pub open spec fn spec_value(self) -> u32 {
        match self {
            KnownTag::Bundle => 0x6b50741c,
            KnownTag::BundleHeader => 0x49af6433,
            KnownTag::BundleHeaderManifest => 0x161aa242,
            KnownTag::BundleHeaderHashAlgorithm => 0x5cb80dd6,
            KnownTag::BundleHeaderPayloadIndex => 0x13737992,
            KnownTag::PayloadEntryTypeSlot => 0x45ca7e7e,
            KnownTag::PayloadEntryTypeExecute => 0x3adf32f5,
            KnownTag::PayloadEntryHeaderHash => 0x5f6a60b1,
            KnownTag::PayloadEntryFileHash => 0x0c8d1fd0,
            KnownTag::PayloadEntryDeltaEncoding => 0x272cdf9f,
            KnownTag::PayloadTypeSlotSlot => 0x1b231de7,
            KnownTag::PayloadTypeExecuteHandler => 0x4b3836a2,
            KnownTag::BlockIndex => 0x1ae50c8e,
            KnownTag::BundleHeaderIsIncremental => 0x20f3d16b,
            KnownTag::BlockIndexChunker => 0x5cdf21b0,
            KnownTag::BlockIndexHashAlgorithm => 0x1d92a080,
            KnownTag::BlockIndexBlockHashes => 0x55e547d8,
            KnownTag::BlockIndexBlockSizes => 0x4668c5ba,
            KnownTag::Signatures => 0xa83936f1,
            KnownTag::SignaturesCmsSignature => 0x9795498f,
            KnownTag::Payloads => 0x01f38fba,
            KnownTag::Payload => 0x490cafaf,
            KnownTag::PayloadHeader => 0x0959ca75,
            KnownTag::PayloadData => 0x42fd641a,
            KnownTag::PayloadHeaderBlockEncoding => 0x40ed9314,
            KnownTag::CompressionXz => 0x747df11b,
            KnownTag::BlockEncodingHashAlgorithm => 0x7f1f994b,
            KnownTag::BlockEncodingDeduplicated => 0x05902926,
            KnownTag::BlockEncodingChunker => 0x55872cf8,
            KnownTag::BlockEncodingCompression => 0x783217c6,
            KnownTag::BlockEncodingBlockHashes => 0x76b3d7a0,
            KnownTag::BlockEncodingBlockSizes => 0x27e5d3f2,
            KnownTag::DeltaEncodingFormat => 0x3b8aeb9a,
            KnownTag::DeltaEncodingInput => 0x4e08b9f1,
            KnownTag::DeltaEncodingOriginalHash => 0x64760e1c,
            KnownTag::DeltaEncodingInputHash => 0x3a0d1307,
            KnownTag::SignedMetadata => 0x61d0871e,
            KnownTag::SignedMetadataHeaderHash => 0x1f992dfc,
        }
    }

    /// Whether the definition declares the tag optional.
    pub open spec fn spec_declared_optional(self) -> bool {
        match self {
            KnownTag::Signatures | KnownTag::SignaturesCmsSignature => true,
            _ => false,
        }
    }

    /// Symbolic name of the tag.
    pub open spec fn spec_name(self) -> Seq<char> {
        match self {
            KnownTag::Bundle => "BUNDLE"@,
            KnownTag::BundleHeader => "BUNDLE_HEADER"@,
            KnownTag::BundleHeaderManifest => "BUNDLE_HEADER_MANIFEST"@,
            KnownTag::BundleHeaderHashAlgorithm => "BUNDLE_HEADER_HASH_ALGORITHM"@,
            KnownTag::BundleHeaderPayloadIndex => "BUNDLE_HEADER_PAYLOAD_INDEX"@,
            KnownTag::PayloadEntryTypeSlot => "PAYLOAD_ENTRY_TYPE_SLOT"@,
            KnownTag::PayloadEntryTypeExecute => "PAYLOAD_ENTRY_TYPE_EXECUTE"@,
            KnownTag::PayloadEntryHeaderHash => "PAYLOAD_ENTRY_HEADER_HASH"@,
            KnownTag::PayloadEntryFileHash => "PAYLOAD_ENTRY_FILE_HASH"@,
            KnownTag::PayloadEntryDeltaEncoding => "PAYLOAD_ENTRY_DELTA_ENCODING"@,
            KnownTag::PayloadTypeSlotSlot => "PAYLOAD_TYPE_SLOT_SLOT"@,
            KnownTag::PayloadTypeExecuteHandler => "PAYLOAD_TYPE_EXECUTE_HANDLER"@,
            KnownTag::BlockIndex => "BLOCK_INDEX"@,
            KnownTag::BundleHeaderIsIncremental => "BUNDLE_HEADER_IS_INCREMENTAL"@,
            KnownTag::BlockIndexChunker => "BLOCK_INDEX_CHUNKER"@,
            KnownTag::BlockIndexHashAlgorithm => "BLOCK_INDEX_HASH_ALGORITHM"@,
            KnownTag::BlockIndexBlockHashes => "BLOCK_INDEX_BLOCK_HASHES"@,
            KnownTag::BlockIndexBlockSizes => "BLOCK_INDEX_BLOCK_SIZES"@,
            KnownTag::Signatures => "SIGNATURES"@,
            KnownTag::SignaturesCmsSignature => "SIGNATURES_CMS_SIGNATURE"@,
            KnownTag::Payloads => "PAYLOADS"@,
            KnownTag::Payload => "PAYLOAD"@,
            KnownTag::PayloadHeader => "PAYLOAD_HEADER"@,
            KnownTag::PayloadData => "PAYLOAD_DATA"@,
            KnownTag::PayloadHeaderBlockEncoding => "PAYLOAD_HEADER_BLOCK_ENCODING"@,
            KnownTag::CompressionXz => "COMPRESSION_XZ"@,
            KnownTag::BlockEncodingHashAlgorithm => "BLOCK_ENCODING_HASH_ALGORITHM"@,
            KnownTag::BlockEncodingDeduplicated => "BLOCK_ENCODING_DEDUPLICATED"@,
            KnownTag::BlockEncodingChunker => "BLOCK_ENCODING_CHUNKER"@,
            KnownTag::BlockEncodingCompression => "BLOCK_ENCODING_COMPRESSION"@,
            KnownTag::BlockEncodingBlockHashes => "BLOCK_ENCODING_BLOCK_HASHES"@,
            KnownTag::BlockEncodingBlockSizes => "BLOCK_ENCODING_BLOCK_SIZES"@,
            KnownTag::DeltaEncodingFormat => "DELTA_ENCODING_FORMAT"@,
            KnownTag::DeltaEncodingInput => "DELTA_ENCODING_INPUT"@,
            KnownTag::DeltaEncodingOriginalHash => "DELTA_ENCODING_ORIGINAL_HASH"@,
            KnownTag::DeltaEncodingInputHash => "DELTA_ENCODING_INPUT_HASH"@,
            KnownTag::SignedMetadata => "SIGNED_METADATA"@,
            KnownTag::SignedMetadataHeaderHash => "SIGNED_METADATA_HEADER_HASH"@,
        }
    }

    /// The tag itself.
    pub fn tag(self) -> (r: Tag)
        ensures
            r.0 == self.spec_value(),
    {
        match self {
            KnownTag::Bundle => Tag(0x6b50741c),
            KnownTag::BundleHeader => Tag(0x49af6433),
            KnownTag::BundleHeaderManifest => Tag(0x161aa242),
            KnownTag::BundleHeaderHashAlgorithm => Tag(0x5cb80dd6),
            KnownTag::BundleHeaderPayloadIndex => Tag(0x13737992),
            KnownTag::PayloadEntryTypeSlot => Tag(0x45ca7e7e),
            KnownTag::PayloadEntryTypeExecute => Tag(0x3adf32f5),
            KnownTag::PayloadEntryHeaderHash => Tag(0x5f6a60b1),
            KnownTag::PayloadEntryFileHash => Tag(0x0c8d1fd0),
            KnownTag::PayloadEntryDeltaEncoding => Tag(0x272cdf9f),
            KnownTag::PayloadTypeSlotSlot => Tag(0x1b231de7),
            KnownTag::PayloadTypeExecuteHandler => Tag(0x4b3836a2),
            KnownTag::BlockIndex => Tag(0x1ae50c8e),
            KnownTag::BundleHeaderIsIncremental => Tag(0x20f3d16b),
            KnownTag::BlockIndexChunker => Tag(0x5cdf21b0),
            KnownTag::BlockIndexHashAlgorithm => Tag(0x1d92a080),
            KnownTag::BlockIndexBlockHashes => Tag(0x55e547d8),
            KnownTag::BlockIndexBlockSizes => Tag(0x4668c5ba),
            KnownTag::Signatures => Tag(0xa83936f1),
            KnownTag::SignaturesCmsSignature => Tag(0x9795498f),
            KnownTag::Payloads => Tag(0x01f38fba),
            KnownTag::Payload => Tag(0x490cafaf),
            KnownTag::PayloadHeader => Tag(0x0959ca75),
            KnownTag::PayloadData => Tag(0x42fd641a),
            KnownTag::PayloadHeaderBlockEncoding => Tag(0x40ed9314),
            KnownTag::CompressionXz => Tag(0x747df11b),
            KnownTag::BlockEncodingHashAlgorithm => Tag(0x7f1f994b),
            KnownTag::BlockEncodingDeduplicated => Tag(0x05902926),
            KnownTag::BlockEncodingChunker => Tag(0x55872cf8),
            KnownTag::BlockEncodingCompression => Tag(0x783217c6),
            KnownTag::BlockEncodingBlockHashes => Tag(0x76b3d7a0),
            KnownTag::BlockEncodingBlockSizes => Tag(0x27e5d3f2),
            KnownTag::DeltaEncodingFormat => Tag(0x3b8aeb9a),
            KnownTag::DeltaEncodingInput => Tag(0x4e08b9f1),
            KnownTag::DeltaEncodingOriginalHash => Tag(0x64760e1c),
            KnownTag::DeltaEncodingInputHash => Tag(0x3a0d1307),
            KnownTag::SignedMetadata => Tag(0x61d0871e),
            KnownTag::SignedMetadataHeaderHash => Tag(0x1f992dfc),
        }
    }

    /// Whether the definition declares the tag optional.
    pub fn declared_optional(self) -> (r: bool)
        ensures
            r == self.spec_declared_optional(),
    {
        match self {
            KnownTag::Signatures | KnownTag::SignaturesCmsSignature => true,
            _ => false,
        }
    }

    /// Symbolic name of the tag.
    pub fn name(self) -> (r: &'static str)
        ensures
            r@ == self.spec_name(),
    {
        match self {
            KnownTag::Bundle => "BUNDLE",
            KnownTag::BundleHeader => "BUNDLE_HEADER",
            KnownTag::BundleHeaderManifest => "BUNDLE_HEADER_MANIFEST",
            KnownTag::BundleHeaderHashAlgorithm => "BUNDLE_HEADER_HASH_ALGORITHM",
            KnownTag::BundleHeaderPayloadIndex => "BUNDLE_HEADER_PAYLOAD_INDEX",
            KnownTag::PayloadEntryTypeSlot => "PAYLOAD_ENTRY_TYPE_SLOT",
            KnownTag::PayloadEntryTypeExecute => "PAYLOAD_ENTRY_TYPE_EXECUTE",
            KnownTag::PayloadEntryHeaderHash => "PAYLOAD_ENTRY_HEADER_HASH",
            KnownTag::PayloadEntryFileHash => "PAYLOAD_ENTRY_FILE_HASH",
            KnownTag::PayloadEntryDeltaEncoding => "PAYLOAD_ENTRY_DELTA_ENCODING",
            KnownTag::PayloadTypeSlotSlot => "PAYLOAD_TYPE_SLOT_SLOT",
            KnownTag::PayloadTypeExecuteHandler => "PAYLOAD_TYPE_EXECUTE_HANDLER",
            KnownTag::BlockIndex => "BLOCK_INDEX",
            KnownTag::BundleHeaderIsIncremental => "BUNDLE_HEADER_IS_INCREMENTAL",
            KnownTag::BlockIndexChunker => "BLOCK_INDEX_CHUNKER",
            KnownTag::BlockIndexHashAlgorithm => "BLOCK_INDEX_HASH_ALGORITHM",
            KnownTag::BlockIndexBlockHashes => "BLOCK_INDEX_BLOCK_HASHES",
            KnownTag::BlockIndexBlockSizes => "BLOCK_INDEX_BLOCK_SIZES",
            KnownTag::Signatures => "SIGNATURES",
            KnownTag::SignaturesCmsSignature => "SIGNATURES_CMS_SIGNATURE",
            KnownTag::Payloads => "PAYLOADS",
            KnownTag::Payload => "PAYLOAD",
            KnownTag::PayloadHeader => "PAYLOAD_HEADER",
            KnownTag::PayloadData => "PAYLOAD_DATA",
            KnownTag::PayloadHeaderBlockEncoding => "PAYLOAD_HEADER_BLOCK_ENCODING",
            KnownTag::CompressionXz => "COMPRESSION_XZ",
            KnownTag::BlockEncodingHashAlgorithm => "BLOCK_ENCODING_HASH_ALGORITHM",
            KnownTag::BlockEncodingDeduplicated => "BLOCK_ENCODING_DEDUPLICATED",
            KnownTag::BlockEncodingChunker => "BLOCK_ENCODING_CHUNKER",
            KnownTag::BlockEncodingCompression => "BLOCK_ENCODING_COMPRESSION",
            KnownTag::BlockEncodingBlockHashes => "BLOCK_ENCODING_BLOCK_HASHES",
            KnownTag::BlockEncodingBlockSizes => "BLOCK_ENCODING_BLOCK_SIZES",
            KnownTag::DeltaEncodingFormat => "DELTA_ENCODING_FORMAT",
            KnownTag::DeltaEncodingInput => "DELTA_ENCODING_INPUT",
            KnownTag::DeltaEncodingOriginalHash => "DELTA_ENCODING_ORIGINAL_HASH",
            KnownTag::DeltaEncodingInputHash => "DELTA_ENCODING_INPUT_HASH",
            KnownTag::SignedMetadata => "SIGNED_METADATA",
            KnownTag::SignedMetadataHeaderHash => "SIGNED_METADATA_HEADER_HASH",
        }
    }
}

/// The defined tag with the given value, if there is one.
pub open spec fn spec_resolve(value: u32) -> Option<KnownTag> {
    if value == 0x6b50741c {
        Some(KnownTag::Bundle)
    } else if value == 0x49af6433 {
        Some(KnownTag::BundleHeader)
    } else if value == 0x161aa242 {
        Some(KnownTag::BundleHeaderManifest)
    } else if value == 0x5cb80dd6 {
        Some(KnownTag::BundleHeaderHashAlgorithm)
    } else if value == 0x13737992 {
        Some(KnownTag::BundleHeaderPayloadIndex)
    } else if value == 0x45ca7e7e {
        Some(KnownTag::PayloadEntryTypeSlot)
    } else if value == 0x3adf32f5 {
        Some(KnownTag::PayloadEntryTypeExecute)
    } else if value == 0x5f6a60b1 {
        Some(KnownTag::PayloadEntryHeaderHash)
    } else if value == 0x0c8d1fd0 {
        Some(KnownTag::PayloadEntryFileHash)
    } else if value == 0x272cdf9f {
        Some(KnownTag::PayloadEntryDeltaEncoding)
    } else if value == 0x1b231de7 {
        Some(KnownTag::PayloadTypeSlotSlot)
    } else if value == 0x4b3836a2 {
        Some(KnownTag::PayloadTypeExecuteHandler)
    } else if value == 0x1ae50c8e {
        Some(KnownTag::BlockIndex)
    } else if value == 0x20f3d16b {
        Some(KnownTag::BundleHeaderIsIncremental)
    } else if value == 0x5cdf21b0 {
        Some(KnownTag::BlockIndexChunker)
    } else if value == 0x1d92a080 {
        Some(KnownTag::BlockIndexHashAlgorithm)
    } else if value == 0x55e547d8 {
        Some(KnownTag::BlockIndexBlockHashes)
    } else if value == 0x4668c5ba {
        Some(KnownTag::BlockIndexBlockSizes)
    } else if value == 0xa83936f1 {
        Some(KnownTag::Signatures)
    } else if value == 0x9795498f {
        Some(KnownTag::SignaturesCmsSignature)
    } else if value == 0x01f38fba {
        Some(KnownTag::Payloads)
    } else if value == 0x490cafaf {
        Some(KnownTag::Payload)
    } else if value == 0x0959ca75 {
        Some(KnownTag::PayloadHeader)
    } else if value == 0x42fd641a {
        Some(KnownTag::PayloadData)
    } else if value == 0x40ed9314 {
        Some(KnownTag::PayloadHeaderBlockEncoding)
    } else if value == 0x747df11b {
        Some(KnownTag::CompressionXz)
    } else if value == 0x7f1f994b {
        Some(KnownTag::BlockEncodingHashAlgorithm)
    } else if value == 0x05902926 {
        Some(KnownTag::BlockEncodingDeduplicated)
    } else if value == 0x55872cf8 {
        Some(KnownTag::BlockEncodingChunker)
    } else if value == 0x783217c6 {
        Some(KnownTag::BlockEncodingCompression)
    } else if value == 0x76b3d7a0 {
        Some(KnownTag::BlockEncodingBlockHashes)
    } else if value == 0x27e5d3f2 {
        Some(KnownTag::BlockEncodingBlockSizes)
    } else if value == 0x3b8aeb9a {
        Some(KnownTag::DeltaEncodingFormat)
    } else if value == 0x4e08b9f1 {
        Some(KnownTag::DeltaEncodingInput)
    } else if value == 0x64760e1c {
        Some(KnownTag::DeltaEncodingOriginalHash)
    } else if value == 0x3a0d1307 {
        Some(KnownTag::DeltaEncodingInputHash)
    } else if value == 0x61d0871e {
        Some(KnownTag::SignedMetadata)
    } else if value == 0x1f992dfc {
        Some(KnownTag::SignedMetadataHeaderHash)
    } else {
        None
    }
}

/// Resolves a raw tag to its definition, if it is one of the defined tags.
pub fn resolve(tag: Tag) -> (r: Option<KnownTag>)
    ensures
        r == spec_resolve(tag.0),
{
    match tag.0 {
        0x6b50741c => Some(KnownTag::Bundle),
        0x49af6433 => Some(KnownTag::BundleHeader),
        0x161aa242 => Some(KnownTag::BundleHeaderManifest),
        0x5cb80dd6 => Some(KnownTag::BundleHeaderHashAlgorithm),
        0x13737992 => Some(KnownTag::BundleHeaderPayloadIndex),
        0x45ca7e7e => Some(KnownTag::PayloadEntryTypeSlot),
        0x3adf32f5 => Some(KnownTag::PayloadEntryTypeExecute),
        0x5f6a60b1 => Some(KnownTag::PayloadEntryHeaderHash),
        0x0c8d1fd0 => Some(KnownTag::PayloadEntryFileHash),
        0x272cdf9f => Some(KnownTag::PayloadEntryDeltaEncoding),
        0x1b231de7 => Some(KnownTag::PayloadTypeSlotSlot),
        0x4b3836a2 => Some(KnownTag::PayloadTypeExecuteHandler),
        0x1ae50c8e => Some(KnownTag::BlockIndex),
        0x20f3d16b => Some(KnownTag::BundleHeaderIsIncremental),
        0x5cdf21b0 => Some(KnownTag::BlockIndexChunker),
        0x1d92a080 => Some(KnownTag::BlockIndexHashAlgorithm),
        0x55e547d8 => Some(KnownTag::BlockIndexBlockHashes),
        0x4668c5ba => Some(KnownTag::BlockIndexBlockSizes),
        0xa83936f1 => Some(KnownTag::Signatures),
        0x9795498f => Some(KnownTag::SignaturesCmsSignature),
        0x01f38fba => Some(KnownTag::Payloads),
        0x490cafaf => Some(KnownTag::Payload),
        0x0959ca75 => Some(KnownTag::PayloadHeader),
        0x42fd641a => Some(KnownTag::PayloadData),
        0x40ed9314 => Some(KnownTag::PayloadHeaderBlockEncoding),
        0x747df11b => Some(KnownTag::CompressionXz),
        0x7f1f994b => Some(KnownTag::BlockEncodingHashAlgorithm),
        0x05902926 => Some(KnownTag::BlockEncodingDeduplicated),
        0x55872cf8 => Some(KnownTag::BlockEncodingChunker),
        0x783217c6 => Some(KnownTag::BlockEncodingCompression),
        0x76b3d7a0 => Some(KnownTag::BlockEncodingBlockHashes),
        0x27e5d3f2 => Some(KnownTag::BlockEncodingBlockSizes),
        0x3b8aeb9a => Some(KnownTag::DeltaEncodingFormat),
        0x4e08b9f1 => Some(KnownTag::DeltaEncodingInput),
        0x64760e1c => Some(KnownTag::DeltaEncodingOriginalHash),
        0x3a0d1307 => Some(KnownTag::DeltaEncodingInputHash),
        0x61d0871e => Some(KnownTag::SignedMetadata),
        0x1f992dfc => Some(KnownTag::SignedMetadataHeaderHash),
        _ => None,
    }
}

/// Every defined tag resolves back to its own definition.
pub proof fn lemma_resolve_value(k: KnownTag)
    ensures
        spec_resolve(k.spec_value()) == Some(k),
{
    match k {
        KnownTag::Bundle => {},
        KnownTag::BundleHeader => {},
        KnownTag::BundleHeaderManifest => {},
        KnownTag::BundleHeaderHashAlgorithm => {},
        KnownTag::BundleHeaderPayloadIndex => {},
        KnownTag::PayloadEntryTypeSlot => {},
        KnownTag::PayloadEntryTypeExecute => {},
        KnownTag::PayloadEntryHeaderHash => {},
        KnownTag::PayloadEntryFileHash => {},
        KnownTag::PayloadEntryDeltaEncoding => {},
        KnownTag::PayloadTypeSlotSlot => {},
        KnownTag::PayloadTypeExecuteHandler => {},
        KnownTag::BlockIndex => {},
        KnownTag::BundleHeaderIsIncremental => {},
        KnownTag::BlockIndexChunker => {},
        KnownTag::BlockIndexHashAlgorithm => {},
        KnownTag::BlockIndexBlockHashes => {},
        KnownTag::BlockIndexBlockSizes => {},
        KnownTag::Signatures => {},
        KnownTag::SignaturesCmsSignature => {},
        KnownTag::Payloads => {},
        KnownTag::Payload => {},
        KnownTag::PayloadHeader => {},
        KnownTag::PayloadData => {},
        KnownTag::PayloadHeaderBlockEncoding => {},
        KnownTag::CompressionXz => {},
        KnownTag::BlockEncodingHashAlgorithm => {},
        KnownTag::BlockEncodingDeduplicated => {},
        KnownTag::BlockEncodingChunker => {},
        KnownTag::BlockEncodingCompression => {},
        KnownTag::BlockEncodingBlockHashes => {},
        KnownTag::BlockEncodingBlockSizes => {},
        KnownTag::DeltaEncodingFormat => {},
        KnownTag::DeltaEncodingInput => {},
        KnownTag::DeltaEncodingOriginalHash => {},
        KnownTag::DeltaEncodingInputHash => {},
        KnownTag::SignedMetadata => {},
        KnownTag::SignedMetadataHeaderHash => {},
    }
}

} // verus!
