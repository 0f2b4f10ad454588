//! Tag-length-value records.
//!
//! A record is its tag as four big-endian bytes, the length of its value as four
//! big-endian bytes, and the value. A segment's value is itself a sequence of
//! records; which tags hold segments is a convention of each tag, not of the codec.
use vstd::prelude::*;
use crate::tags::{Tag, tag_is_optional, spec_resolve, is_know, is_optional, be_value};

verus! {

/// One record: a tag and its raw value.
pub struct Record {
    pub tag: Tag,
    pub value: Vec<u8>,
}

impl View for Record {
    type V = (Tag, Seq<u8>);

    open spec fn view(&self) -> (Tag, Seq<u8>) {
        (self.tag, self.value@)
    }
}

/// Errors of decoding records.
#[derive(Clone, Copy, Debug, PartialEq, Eq, Structural)]
pub enum DecodeError {
    /// The bytes end inside a record, or a length runs past them.
    Malformed,
    /// A required tag that this reader does not know: the data is of a newer format.
    NewerFormat { tag: Tag },
}

/// Views of a sequence of records.
pub open spec fn records_view(rs: Seq<Record>) -> Seq<(Tag, Seq<u8>)> {
    rs.map_values(|r: Record| r@)
}

/// Big-endian bytes of a 32-bit value.
pub open spec fn be_bytes(x: u32) -> Seq<u8> {
    seq![(x >> 24u32) as u8, (x >> 16u32) as u8, (x >> 8u32) as u8, x as u8]
}

/// The 32-bit big-endian value at position `i` of `b`.
pub open spec fn read_be(b: Seq<u8>, i: int) -> u32 {
    be_value(b[i], b[i + 1], b[i + 2], b[i + 3])
}

/// Bytes of one record.
pub open spec fn encode_record(rec: (Tag, Seq<u8>)) -> Seq<u8> {
    be_bytes(rec.0.0) + be_bytes(rec.1.len() as u32) + rec.1
}

/// Bytes of a sequence of records, one after the other.
pub open spec fn encode_records(rs: Seq<(Tag, Seq<u8>)>) -> Seq<u8>
    decreases rs.len(),
{
    if rs.len() == 0 {
        Seq::empty()
    } else {
        encode_record(rs[0]) + encode_records(rs.drop_first())
    }
}

/// Every value of the records fits a 32-bit length.
pub open spec fn lengths_fit(rs: Seq<(Tag, Seq<u8>)>) -> bool {
    forall|i: int| 0 <= i < rs.len() ==> rs[i].1.len() <= u32::MAX
}

/// The records that `b` is the encoding of, if it is a well-formed sequence of records.
pub open spec fn parse_records(b: Seq<u8>) -> Option<Seq<(Tag, Seq<u8>)>>
    decreases b.len(),
{
    if b.len() == 0 {
        Some(Seq::empty())
    } else if b.len() < 8 {
        None
    } else {
        let len = read_be(b, 4) as int;
        if b.len() - 8 < len {
            None
        } else {
            match parse_records(b.subrange(8 + len, b.len() as int)) {
                Some(rest) => Some(seq![(Tag(read_be(b, 0)), b.subrange(8, 8 + len))] + rest),
                None => None,
            }
        }
    }
}

/// `rest` with `prefix` in front, when there is one.
pub open spec fn prepend(
    prefix: Seq<(Tag, Seq<u8>)>,
    rest: Option<Seq<(Tag, Seq<u8>)>>,
) -> Option<Seq<(Tag, Seq<u8>)>> {
    match rest {
        Some(r) => Some(prefix + r),
        None => None,
    }
}

/// The records that a reader keeps of a segment: those with a defined tag, in
/// order; records with an unknown optional tag are skipped, and the first record
/// with an unknown required tag is an error.
pub open spec fn known_records(rs: Seq<(Tag, Seq<u8>)>) -> Result<Seq<(Tag, Seq<u8>)>, Tag>
    decreases rs.len(),
{
    if rs.len() == 0 {
        Ok(Seq::empty())
    } else {
        let rest = known_records(rs.drop_first());
        if spec_resolve(rs[0].0.0).is_some() {
            match rest {
                Ok(k) => Ok(seq![rs[0]] + k),
                Err(t) => Err(t),
            }
        } else if tag_is_optional(rs[0].0) {
            rest
        } else {
            Err(rs[0].0)
        }
    }
}

/// What decoding a segment's bytes gives.
pub open spec fn decode_segment_spec(b: Seq<u8>) -> Result<Seq<(Tag, Seq<u8>)>, DecodeError> {
    match parse_records(b) {
        None => Err(DecodeError::Malformed),
        Some(rs) => match known_records(rs) {
            Ok(k) => Ok(k),
            Err(t) => Err(DecodeError::NewerFormat { tag: t }),
        },
    }
}

proof fn lemma_be_round_trip(x: u32)
    ensures
        read_be(be_bytes(x), 0) == x,
{
    assert(((((x >> 24u32) as u8) as u32) << 24u32) | ((((x >> 16u32) as u8) as u32) << 16u32)
        | ((((x >> 8u32) as u8) as u32) << 8u32) | ((x as u8) as u32) == x) by (bit_vector);
}

proof fn lemma_encode_push(rs: Seq<(Tag, Seq<u8>)>, r: (Tag, Seq<u8>))
    ensures
        encode_records(rs.push(r)) == encode_records(rs) + encode_record(r),
    decreases rs.len(),
{
    if rs.len() == 0 {
        assert(rs.push(r).drop_first() =~= Seq::empty());
        assert(rs.push(r)[0] == r);
        assert(encode_records(Seq::<(Tag, Seq<u8>)>::empty()) == Seq::<u8>::empty());
        assert(encode_records(rs.push(r)) =~= encode_records(rs) + encode_record(r));
    } else {
        assert(rs.push(r).drop_first() =~= rs.drop_first().push(r));
        assert(rs.push(r)[0] == rs[0]);
        lemma_encode_push(rs.drop_first(), r);
        assert(encode_records(rs.push(r)) == encode_record(rs[0]) + (encode_records(
            rs.drop_first(),
        ) + encode_record(r)));
        assert(encode_records(rs.push(r)) =~= encode_records(rs) + encode_record(r));
    }
}

/// Decoding the encoding of records gives back the same records.
pub proof fn lemma_round_trip(rs: Seq<(Tag, Seq<u8>)>)
    requires
        lengths_fit(rs),
    ensures
        parse_records(encode_records(rs)) == Some(rs),
    decreases rs.len(),
{
    if rs.len() > 0 {
        let r = rs[0];
        let b = encode_records(rs);
        let rest = encode_records(rs.drop_first());
        let len = r.1.len() as int;
        lemma_be_round_trip(r.0.0);
        lemma_be_round_trip(len as u32);
        assert(b.subrange(0, 4) =~= be_bytes(r.0.0));
        assert(b.subrange(4, 8) =~= be_bytes(len as u32));
        assert(read_be(b, 0) == read_be(be_bytes(r.0.0), 0));
        assert(read_be(b, 4) == read_be(be_bytes(len as u32), 0));
        assert(b.subrange(8, 8 + len) =~= r.1);
        assert(b.subrange(8 + len, b.len() as int) =~= rest);
        assert(lengths_fit(rs.drop_first()));
        lemma_round_trip(rs.drop_first());
        assert(seq![(Tag(read_be(b, 0)), b.subrange(8, 8 + len))] + rs.drop_first() =~= rs);
    }
}

/// A reader skips a record whose tag is unknown and optional: the rest decodes as
/// if the record were not there.
pub proof fn lemma_skip_unknown_optional(
    a: Seq<(Tag, Seq<u8>)>,
    r: (Tag, Seq<u8>),
    b: Seq<(Tag, Seq<u8>)>,
)
    requires
        spec_resolve(r.0.0).is_none(),
        tag_is_optional(r.0),
    ensures
        known_records(a + seq![r] + b) == known_records(a + b),
    decreases a.len(),
{
    if a.len() == 0 {
        assert((a + seq![r] + b).drop_first() =~= a + b);
    } else {
        assert((a + seq![r] + b).drop_first() =~= a.drop_first() + seq![r] + b);
        assert((a + b).drop_first() =~= a.drop_first() + b);
        lemma_skip_unknown_optional(a.drop_first(), r, b);
    }
}

/// A reader stops at a record whose tag is unknown and required, when every record
/// before it has a defined tag or an optional one.
pub proof fn lemma_fail_unknown_required(
    a: Seq<(Tag, Seq<u8>)>,
    r: (Tag, Seq<u8>),
    b: Seq<(Tag, Seq<u8>)>,
)
    requires
        spec_resolve(r.0.0).is_none(),
        !tag_is_optional(r.0),
        forall|i: int|
            0 <= i < a.len() ==> spec_resolve(a[i].0.0).is_some() || tag_is_optional(#[trigger] a[i].0),
    ensures
        known_records(a + seq![r] + b) == Err::<Seq<(Tag, Seq<u8>)>, Tag>(r.0),
    decreases a.len(),
{
    if a.len() == 0 {
        assert((a + seq![r] + b)[0] == r);
    } else {
        assert((a + seq![r] + b).drop_first() =~= a.drop_first() + seq![r] + b);
        assert((a + seq![r] + b)[0] == a[0]);
        assert forall|i: int| 0 <= i < a.drop_first().len() implies spec_resolve(
            a.drop_first()[i].0.0,
        ).is_some() || tag_is_optional(#[trigger] a.drop_first()[i].0) by {
            assert(a.drop_first()[i] == a[i + 1]);
        }
        lemma_fail_unknown_required(a.drop_first(), r, b);
    }
}

/// In a segment, a record with an unknown optional tag is skipped, exactly its
/// encoded bytes, and one with an unknown required tag, where no earlier record
/// stops the reader, fails with a newer-format error.
pub proof fn lemma_segment_unknown_tag(
    a: Seq<(Tag, Seq<u8>)>,
    r: (Tag, Seq<u8>),
    b: Seq<(Tag, Seq<u8>)>,
)
    requires
        lengths_fit(a),
        lengths_fit(b),
        r.1.len() <= u32::MAX,
        spec_resolve(r.0.0).is_none(),
    ensures
        tag_is_optional(r.0) ==> decode_segment_spec(encode_records(a + seq![r] + b))
            == decode_segment_spec(encode_records(a + b)),
        (!tag_is_optional(r.0) && forall|i: int|
            0 <= i < a.len() ==> spec_resolve(a[i].0.0).is_some() || tag_is_optional(
                #[trigger] a[i].0,
            )) ==> decode_segment_spec(encode_records(a + seq![r] + b)) == Err::<
            Seq<(Tag, Seq<u8>)>,
            DecodeError,
        >(DecodeError::NewerFormat { tag: r.0 }),
{
    let all = a + seq![r] + b;
    assert(lengths_fit(all)) by {
        assert forall|i: int| 0 <= i < all.len() implies all[i].1.len() <= u32::MAX by {
            if i < a.len() {
                assert(all[i] == a[i]);
            } else if i == a.len() {
                assert(all[i] == r);
            } else {
                assert(all[i] == b[i - a.len() - 1]);
            }
        }
    }
    assert(lengths_fit(a + b)) by {
        assert forall|i: int| 0 <= i < (a + b).len() implies (a + b)[i].1.len() <= u32::MAX by {
            if i < a.len() {
                assert((a + b)[i] == a[i]);
            } else {
                assert((a + b)[i] == b[i - a.len()]);
            }
        }
    }
    lemma_round_trip(all);
    lemma_round_trip(a + b);
    if tag_is_optional(r.0) {
        lemma_skip_unknown_optional(a, r, b);
    } else if forall|i: int|
        0 <= i < a.len() ==> spec_resolve(a[i].0.0).is_some() || tag_is_optional(
            #[trigger] a[i].0,
        ) {
        lemma_fail_unknown_required(a, r, b);
    }
}

fn read_u32(b: &Vec<u8>, i: usize) -> (r: u32)
    requires
        i + 4 <= b@.len(),
    ensures
        r == read_be(b@, i as int),
{
    let _n = b.len();
    ((b[i] as u32) << 24u32) | ((b[i + 1] as u32) << 16u32) | ((b[i + 2] as u32) << 8u32) | (b[i
        + 3] as u32)
}

fn push_u32(out: &mut Vec<u8>, x: u32)
    ensures
        final(out)@ == old(out)@ + be_bytes(x),
{
    out.push((x >> 24u32) as u8);
    out.push((x >> 16u32) as u8);
    out.push((x >> 8u32) as u8);
    out.push(x as u8);
    assert(final(out)@ =~= old(out)@ + be_bytes(x));
}

/// Encodes records one after the other.
pub fn encode(records: &Vec<Record>) -> (r: Vec<u8>)
    requires
        lengths_fit(records_view(records@)),
    ensures
        r@ == encode_records(records_view(records@)),
{
    let mut out: Vec<u8> = Vec::new();
    let ghost rv = records_view(records@);
    let mut i: usize = 0;
    assert(rv.take(0) =~= Seq::empty());
    while i < records.len()
        invariant
            i <= records@.len(),
            rv == records_view(records@),
            lengths_fit(rv),
            out@ == encode_records(rv.take(i as int)),
        decreases records@.len() - i,
    {
        let rec = &records[i];
        assert(rv[i as int] == rec@);
        push_u32(&mut out, rec.tag.0);
        push_u32(&mut out, rec.value.len() as u32);
        let mut j: usize = 0;
        let ghost start = out@;
        while j < rec.value.len()
            invariant
                j <= rec.value@.len(),
                out@ == start + rec.value@.take(j as int),
            decreases rec.value@.len() - j,
        {
            out.push(rec.value[j]);
            j += 1;
            assert(out@ =~= start + rec.value@.take(j as int));
        }
        assert(rec.value@.take(j as int) =~= rec.value@);
        proof {
            lemma_encode_push(rv.take(i as int), rv[i as int]);
            assert(rv.take(i as int).push(rv[i as int]) =~= rv.take(i + 1));
        }
        assert(out@ =~= encode_records(rv.take(i as int)) + encode_record(rv[i as int]));
        i += 1;
    }
    assert(rv.take(i as int) =~= rv);
    out
}

/// Decodes a sequence of records; fails exactly when the bytes are not one.
pub fn decode(bytes: &Vec<u8>) -> (r: Result<Vec<Record>, DecodeError>)
    ensures
        match parse_records(bytes@) {
            Some(rs) => r.is_ok() && records_view(r.unwrap()@) == rs,
            None => r == Err::<Vec<Record>, DecodeError>(DecodeError::Malformed),
        },
{
    let n = bytes.len();
    let mut out: Vec<Record> = Vec::new();
    let mut pos: usize = 0;
    assert(bytes@.subrange(0, n as int) =~= bytes@);
    while pos < n
        invariant
            n == bytes@.len(),
            pos <= n,
            parse_records(bytes@) == prepend(
                records_view(out@),
                parse_records(bytes@.subrange(pos as int, n as int)),
            ),
        decreases n - pos,
    {
        let ghost rem = bytes@.subrange(pos as int, n as int);
        if n - pos < 8 {
            return Err(DecodeError::Malformed);
        }
        let tag = read_u32(bytes, pos);
        let len = read_u32(bytes, pos + 4) as usize;
        assert(read_be(rem, 0) == tag);
        assert(read_be(rem, 4) == len);
        if n - pos - 8 < len {
            return Err(DecodeError::Malformed);
        }
        let mut value: Vec<u8> = Vec::new();
        let mut j: usize = 0;
        while j < len
            invariant
                n == bytes@.len(),
                pos + 8 + len <= n,
                j <= len,
                value@ == bytes@.subrange(pos + 8, pos + 8 + j),
            decreases len - j,
        {
            value.push(bytes[pos + 8 + j]);
            j += 1;
            assert(value@ =~= bytes@.subrange(pos + 8, pos + 8 + j));
        }
        let rec = Record { tag: Tag(tag), value };
        let ghost old_view = records_view(out@);
        out.push(rec);
        assert(rem.subrange(8, 8 + len as int) =~= rec.value@);
        assert(rem.subrange(8 + len as int, rem.len() as int) =~= bytes@.subrange(
            pos + 8 + len,
            n as int,
        ));
        assert(records_view(out@) =~= old_view.push(rec@));
        assert(forall|s: Seq<(Tag, Seq<u8>)>|
            old_view + (seq![rec@] + s) =~= #[trigger] (old_view.push(rec@) + s));
        pos = pos + 8 + len;
    }
    assert(records_view(out@) + Seq::<(Tag, Seq<u8>)>::empty() =~= records_view(out@));
    Ok(out)
}

/// Decodes the records of a segment, keeping those with a defined tag: records
/// with an unknown optional tag are skipped, and one with an unknown required tag
/// fails with a newer-format error.
pub fn decode_segment(bytes: &Vec<u8>) -> (r: Result<Vec<Record>, DecodeError>)
    ensures
        match decode_segment_spec(bytes@) {
            Ok(k) => r.is_ok() && records_view(r.unwrap()@) == k,
            Err(e) => r == Err::<Vec<Record>, DecodeError>(e),
        },
{
    let mut records = match decode(bytes) {
        Ok(rs) => rs,
        Err(e) => return Err(e),
    };
    let ghost all = records_view(records@);
    // Walk from the back, so that each record can be moved out with a pop.
    let mut kept_rev: Vec<Record> = Vec::new();
    let mut stop: Option<Tag> = None;
    while records.len() > 0
        invariant
            records@.len() <= all.len(),
            records_view(records@) == all.take(records@.len() as int),
            match stop {
                Some(t) => known_records(all.skip(records@.len() as int)) == Err::<
                    Seq<(Tag, Seq<u8>)>,
                    Tag,
                >(t),
                None => known_records(all.skip(records@.len() as int)) == Ok::<
                    Seq<(Tag, Seq<u8>)>,
                    Tag,
                >(records_view(kept_rev@).reverse()),
            },
        decreases records@.len(),
    {
        let ghost before = records@;
        let rec = records.pop().unwrap();
        let ghost k = records@.len() as int;
        assert(records_view(before) =~= records_view(records@).push(rec@));
        assert(records_view(records@) =~= all.take(records@.len() as int));
        assert(records_view(before)[k] == rec@);
        assert(all.take(k + 1)[k] == all[k]);
        assert(rec@ == all[k]);
        assert(all.skip(k).drop_first() =~= all.skip(k + 1));
        assert(all.skip(k)[0] == rec@);
        if is_know(rec.tag) {
            let ghost kept_before = records_view(kept_rev@);
            kept_rev.push(rec);
            assert(records_view(kept_rev@) =~= kept_before.push(rec@));
            assert(kept_before.push(rec@).reverse() =~= seq![rec@] + kept_before.reverse());
        } else if is_optional(rec.tag) {
        } else {
            stop = Some(rec.tag);
        }
    }
    assert(all.skip(0) =~= all);
    if let Some(t) = stop {
        return Err(DecodeError::NewerFormat { tag: t });
    }
    let mut kept: Vec<Record> = Vec::new();
    let ghost kr = records_view(kept_rev@);
    while kept_rev.len() > 0
        invariant
            kr.reverse() == records_view(kept@) + records_view(kept_rev@).reverse(),
        decreases kept_rev@.len(),
    {
        let ghost before_rev = records_view(kept_rev@);
        let ghost before = records_view(kept@);
        let rec = kept_rev.pop().unwrap();
        kept.push(rec);
        assert(before_rev =~= records_view(kept_rev@).push(rec@));
        assert(records_view(kept@) =~= before.push(rec@));
        assert(before_rev.reverse() =~= seq![rec@] + records_view(kept_rev@).reverse());
        assert(records_view(kept@) + records_view(kept_rev@).reverse() =~= before
            + before_rev.reverse());
    }
    assert(records_view(kept@) + records_view(kept_rev@).reverse() =~= records_view(kept@));
    Ok(kept)
}

} // verus!
