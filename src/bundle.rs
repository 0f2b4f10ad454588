//! Payload index of a bundle header and the integrity checks of payloads
//! against it.
use vstd::prelude::*;

verus! {

/// Where a payload goes.
pub enum PayloadTarget {
    /// Installed into the slot of this name.
    Slot { slot: String },
    /// Handed to this handler command line.
    Execute { handler: Vec<String> },
}

/// A payload stored as a delta against an original.
pub struct DeltaEncoding {
    /// Identifier of the delta format.
    pub format: Vec<u8>,
    /// Hash of the original that the delta applies to.
    pub original_hash: Vec<u8>,
}

/// Entry of the payload index: what the header declares of one payload.
pub struct PayloadEntry {
    pub target: PayloadTarget,
    /// Hash of the payload's header.
    pub header_hash: Vec<u8>,
    /// Hash of the payload's raw file content.
    pub file_hash: Vec<u8>,
    pub delta_encoding: Option<DeltaEncoding>,
}

/// Integrity errors of a bundle.
#[derive(Clone, Copy, Debug, PartialEq, Eq, Structural)]
pub enum BundleError {
    /// The payload index has no entry for the payload.
    MissingPayloadEntry { payload: usize },
    /// The payload's header does not hash to what the index declares.
    HeaderHashMismatch { payload: usize },
    /// The payload's file does not hash to what the index declares.
    FileHashMismatch { payload: usize },
    /// The original that a delta applies to is not there or hashes otherwise.
    DeltaBaseUnavailable,
}

/// Whether two byte strings are equal.
pub fn bytes_equal(a: &Vec<u8>, b: &Vec<u8>) -> (r: bool)
    ensures
        r == (a@ == b@),
{
    if a.len() != b.len() {
        return false;
    }
    let mut i: usize = 0;
    while i < a.len()
        invariant
            a@.len() == b@.len(),
            i <= a@.len(),
            a@.take(i as int) == b@.take(i as int),
        decreases a@.len() - i,
    {
        if a[i] != b[i] {
            assert(a@[i as int] != b@[i as int]);
            return false;
        }
        assert(a@.take(i + 1) =~= a@.take(i as int).push(a@[i as int]));
        assert(b@.take(i + 1) =~= b@.take(i as int).push(b@[i as int]));
        i += 1;
    }
    assert(a@.take(i as int) =~= a@);
    assert(b@.take(i as int) =~= b@);
    true
}

impl PayloadEntry {
    /// Checks the hash of the payload's header, as computed while reading it.
    pub fn check_header_hash(&self, payload: usize, computed: &Vec<u8>) -> (r: Result<
        (),
        BundleError,
    >)
        ensures
            r is Ok <==> computed@ == self.header_hash@,
            r is Err ==> r == Err::<(), BundleError>(BundleError::HeaderHashMismatch { payload }),
    {
        if bytes_equal(&self.header_hash, computed) {
            Ok(())
        } else {
            Err(BundleError::HeaderHashMismatch { payload })
        }
    }

    /// Checks the hash of the payload's file, as computed after reading it whole.
    pub fn check_file_hash(&self, payload: usize, computed: &Vec<u8>) -> (r: Result<
        (),
        BundleError,
    >)
        ensures
            r is Ok <==> computed@ == self.file_hash@,
            r is Err ==> r == Err::<(), BundleError>(BundleError::FileHashMismatch { payload }),
    {
        if bytes_equal(&self.file_hash, computed) {
            Ok(())
        } else {
            Err(BundleError::FileHashMismatch { payload })
        }
    }

    /// Checks, before anything is written, that the original of a delta payload is
    /// there with the declared hash; a payload without delta encoding needs none.
    pub fn check_delta_base(&self, original_hash: Option<&Vec<u8>>) -> (r: Result<
        (),
        BundleError,
    >)
        ensures
            r is Ok <==> match self.delta_encoding {
                None => true,
                Some(d) => original_hash is Some && original_hash.unwrap()@ == d.original_hash@,
            },
            r is Err ==> r == Err::<(), BundleError>(BundleError::DeltaBaseUnavailable),
    {
        match &self.delta_encoding {
            None => Ok(()),
            Some(d) => match original_hash {
                Some(h) => {
                    if bytes_equal(&d.original_hash, h) {
                        Ok(())
                    } else {
                        Err(BundleError::DeltaBaseUnavailable)
                    }
                },
                None => Err(BundleError::DeltaBaseUnavailable),
            },
        }
    }
}

/// Checks payload number `payload` against the payload index: its header hash
/// and its file hash must both equal what the index declares for it.
pub fn check_payload(
    index: &Vec<PayloadEntry>,
    payload: usize,
    header_hash: &Vec<u8>,
    file_hash: &Vec<u8>,
) -> (r: Result<(), BundleError>)
    ensures
        payload >= index@.len() ==> r == Err::<(), BundleError>(
            BundleError::MissingPayloadEntry { payload },
        ),
        payload < index@.len() ==> {
            let e = index@[payload as int];
            &&& r is Ok <==> (header_hash@ == e.header_hash@ && file_hash@ == e.file_hash@)
            &&& header_hash@ != e.header_hash@ ==> r == Err::<(), BundleError>(
                BundleError::HeaderHashMismatch { payload },
            )
            &&& (header_hash@ == e.header_hash@ && file_hash@ != e.file_hash@) ==> r == Err::<
                (),
                BundleError,
            >(BundleError::FileHashMismatch { payload })
        },
{
    if payload >= index.len() {
        return Err(BundleError::MissingPayloadEntry { payload });
    }
    let entry = &index[payload];
    match entry.check_header_hash(payload, header_hash) {
        Err(e) => Err(e),
        Ok(()) => entry.check_file_hash(payload, file_hash),
    }
}

} // verus!
