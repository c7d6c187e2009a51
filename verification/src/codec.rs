//! Persistence format of the installed-app index.
//!
//! The index file holds a record count followed by the records, each one an
//! application id (length-prefixed UTF-8 bytes) and the content hash of the
//! bundle installed under it; all integers are 64-bit little-endian.
//! [`encode_index`] and [`decode_index`] are proved against the
//! specification-level [`encode_index_spec`] and [`decode_index_spec`], and
//! [`lemma_index_round_trip`] proves that decoding an encoding yields the
//! records unchanged. Reading and writing the file itself is I/O and lives
//! outside this crate.

use vstd::prelude::*;
use vstd::utf8::{decode_utf8, encode_utf8, valid_utf8};

use crate::bytesutil::bytes_range;
use crate::index::{lookup_in, InstalledAppRecord, InstalledAppsIndex};

verus! {

/// The little-endian bytes of a 64-bit integer.
pub open spec fn u64_le_spec(n: u64) -> Seq<u8> {
    seq![
        (n & 0xff) as u8,
        ((n >> 8) & 0xff) as u8,
        ((n >> 16) & 0xff) as u8,
        ((n >> 24) & 0xff) as u8,
        ((n >> 32) & 0xff) as u8,
        ((n >> 40) & 0xff) as u8,
        ((n >> 48) & 0xff) as u8,
        ((n >> 56) & 0xff) as u8,
    ]
}

/// The 64-bit integer read from eight little-endian bytes.
pub open spec fn u64_from_le(s: Seq<u8>) -> u64
    recommends
        s.len() == 8,
{
    (s[0] as u64) | ((s[1] as u64) << 8) | ((s[2] as u64) << 16) | ((s[3] as u64) << 24) | ((
    s[4] as u64) << 32) | ((s[5] as u64) << 40) | ((s[6] as u64) << 48) | ((s[7] as u64) << 56)
}

/// Reading back the little-endian bytes of an integer yields the integer.
pub proof fn lemma_u64_le_round_trip(n: u64)
    ensures
        u64_from_le(u64_le_spec(n)) == n,
{
    assert((((n & 0xff) as u8) as u64) | ((((n >> 8) & 0xff) as u8 as u64) << 8) | ((((n >> 16)
        & 0xff) as u8 as u64) << 16) | ((((n >> 24) & 0xff) as u8 as u64) << 24) | ((((n >> 32)
        & 0xff) as u8 as u64) << 32) | ((((n >> 40) & 0xff) as u8 as u64) << 40) | ((((n >> 48)
        & 0xff) as u8 as u64) << 48) | ((((n >> 56) & 0xff) as u8 as u64) << 56) == n)
        by (bit_vector);
}

/// Appends the little-endian bytes of `n`.
fn push_u64_le(out: &mut Vec<u8>, n: u64)
    ensures
        final(out)@ == old(out)@ + u64_le_spec(n),
{
    out.push((n & 0xff) as u8);
    out.push(((n >> 8) & 0xff) as u8);
    out.push(((n >> 16) & 0xff) as u8);
    out.push(((n >> 24) & 0xff) as u8);
    out.push(((n >> 32) & 0xff) as u8);
    out.push(((n >> 40) & 0xff) as u8);
    out.push(((n >> 48) & 0xff) as u8);
    out.push(((n >> 56) & 0xff) as u8);
    proof {
        assert(out@ =~= old(out)@ + u64_le_spec(n));
    }
}

/// Reads the 64-bit little-endian integer at `pos`.
fn read_u64_le(bytes: &Vec<u8>, pos: usize) -> (r: u64)
    requires
        pos + 8 <= bytes@.len(),
    ensures
        r == u64_from_le(bytes@.subrange(pos as int, pos + 8)),
{
    let n = bytes.len();
    proof {
        assert(pos + 8 <= n);
    }
    let r = (bytes[pos] as u64) | ((bytes[pos + 1] as u64) << 8u64) | ((bytes[pos + 2] as u64)
        << 16u64) | ((bytes[pos + 3] as u64) << 24u64) | ((bytes[pos + 4] as u64) << 32u64) | ((
    bytes[pos + 5] as u64) << 40u64) | ((bytes[pos + 6] as u64) << 48u64) | ((bytes[pos + 7] as u64)
        << 56u64);
    proof {
        let s = bytes@.subrange(pos as int, pos + 8);
        assert(s[0] == bytes@[pos as int]);
        assert(s[1] == bytes@[pos + 1]);
        assert(s[2] == bytes@[pos + 2]);
        assert(s[3] == bytes@[pos + 3]);
        assert(s[4] == bytes@[pos + 4]);
        assert(s[5] == bytes@[pos + 5]);
        assert(s[6] == bytes@[pos + 6]);
        assert(s[7] == bytes@[pos + 7]);
    }
    r
}

/// The encoding of one record: length-prefixed id bytes, then the hash.
pub open spec fn encode_record_spec(id: Seq<u8>, hash: u64) -> Seq<u8> {
    u64_le_spec(id.len() as u64) + id + u64_le_spec(hash)
}

/// The encoding of a sequence of records.
pub open spec fn encode_records_spec(pairs: Seq<(Seq<u8>, u64)>) -> Seq<u8>
    decreases pairs.len(),
{
    if pairs.len() == 0 {
        Seq::empty()
    } else {
        encode_record_spec(pairs[0].0, pairs[0].1) + encode_records_spec(pairs.drop_first())
    }
}

/// The encoding of the whole index: the record count, then the records.
pub open spec fn encode_index_spec(pairs: Seq<(Seq<u8>, u64)>) -> Seq<u8> {
    u64_le_spec(pairs.len() as u64) + encode_records_spec(pairs)
}

/// Appending a record appends its encoding.
proof fn lemma_encode_records_push(pairs: Seq<(Seq<u8>, u64)>, p: (Seq<u8>, u64))
    ensures
        encode_records_spec(pairs.push(p)) == encode_records_spec(pairs) + encode_record_spec(
            p.0,
            p.1,
        ),
    decreases pairs.len(),
{
    let pushed = pairs.push(p);
    let one = encode_record_spec(p.0, p.1);
    if pairs.len() == 0 {
        assert(pushed[0] == p);
        assert(pushed.drop_first() =~= Seq::<(Seq<u8>, u64)>::empty());
        assert(encode_records_spec(Seq::<(Seq<u8>, u64)>::empty()) == Seq::<u8>::empty());
        assert(encode_records_spec(pushed) == one + Seq::<u8>::empty());
        assert(one + Seq::<u8>::empty() =~= one);
        assert(encode_records_spec(pairs) + one =~= one);
    } else {
        assert(pushed[0] == pairs[0]);
        assert(pushed.drop_first() =~= pairs.drop_first().push(p));
        lemma_encode_records_push(pairs.drop_first(), p);
        let head = encode_record_spec(pairs[0].0, pairs[0].1);
        assert(encode_records_spec(pushed) == head + (encode_records_spec(pairs.drop_first())
            + one));
        assert(head + (encode_records_spec(pairs.drop_first()) + one) =~= (head
            + encode_records_spec(pairs.drop_first())) + one);
        assert(encode_records_spec(pairs) == head + encode_records_spec(pairs.drop_first()));
    }
}

/// The records of an index, as pairs of id bytes and hash.
pub open spec fn index_pairs(records: Seq<InstalledAppRecord>) -> Seq<(Seq<u8>, u64)> {
    records.map(|i: int, r: InstalledAppRecord| (encode_utf8(r.app_id@), r.happ_bundle_hash))
}

/// Encodes the index for persistence.
pub fn encode_index(index: &InstalledAppsIndex) -> (r: Vec<u8>)
    ensures
        r@ == encode_index_spec(index_pairs(index.records@)),
{
    let ghost pairs = index_pairs(index.records@);
    let n = index.records.len();
    let mut out: Vec<u8> = Vec::new();
    push_u64_le(&mut out, n as u64);
    let mut i: usize = 0;
    while i < n
        invariant
            n == index.records@.len(),
            pairs == index_pairs(index.records@),
            i <= n,
            out@ == u64_le_spec(n as u64) + encode_records_spec(pairs.take(i as int)),
        decreases n - i,
    {
        let rec = &index.records[i];
        let id_bytes: &[u8] = rec.app_id.as_str().as_bytes();
        push_u64_le(&mut out, id_bytes.len() as u64);
        out.extend_from_slice(id_bytes);
        push_u64_le(&mut out, rec.happ_bundle_hash);
        i = i + 1;
        proof {
            assert(pairs.take(i as int).drop_last() =~= pairs.take(i - 1));
            assert(pairs.take(i as int).last() == pairs[i - 1]);
            lemma_encode_records_push(pairs.take(i - 1), pairs[i - 1]);
            assert(pairs.take(i as int) =~= pairs.take(i - 1).push(pairs[i - 1]));
            assert(out@ =~= u64_le_spec(n as u64) + encode_records_spec(pairs.take(i as int)));
        }
    }
    proof {
        assert(pairs.take(n as int) =~= pairs);
    }
    out
}

/// How `count` records decode from `bytes`: `None` when the bytes are
/// malformed or leave a remainder.
pub open spec fn decode_records_spec(bytes: Seq<u8>, count: nat) -> Option<Seq<(Seq<u8>, u64)>>
    decreases count,
{
    if count == 0 {
        if bytes.len() == 0 {
            Some(Seq::<(Seq<u8>, u64)>::empty())
        } else {
            None
        }
    } else if bytes.len() < 8 {
        None
    } else {
        let idlen = u64_from_le(bytes.take(8)) as int;
        if bytes.len() < 16 + idlen {
            None
        } else {
            let id = bytes.subrange(8, 8 + idlen);
            let hash = u64_from_le(bytes.subrange(8 + idlen, 16 + idlen));
            match decode_records_spec(bytes.skip(16 + idlen), (count - 1) as nat) {
                Some(rest) => Some(seq![(id, hash)] + rest),
                None => None,
            }
        }
    }
}

/// How a whole index file decodes.
pub open spec fn decode_index_spec(bytes: Seq<u8>) -> Option<Seq<(Seq<u8>, u64)>> {
    if bytes.len() < 8 {
        None
    } else {
        decode_records_spec(bytes.skip(8), u64_from_le(bytes.take(8)) as nat)
    }
}

/// The hash recorded for an id by the latest matching record of a decoded
/// file: later records overwrite earlier ones.
pub open spec fn last_lookup(pairs: Seq<(Seq<u8>, u64)>, id: Seq<char>) -> Option<u64>
    decreases pairs.len(),
{
    if pairs.len() == 0 {
        None
    } else if valid_utf8(pairs.last().0) && decode_utf8(pairs.last().0) == id {
        Some(pairs.last().1)
    } else {
        last_lookup(pairs.drop_last(), id)
    }
}

/// Relies on String::from_utf8 (std): accepts exactly the valid UTF-8 byte
/// sequences, and the accepted string's characters decode the bytes.
#[verifier::external_body]
fn string_from_utf8(bytes: Vec<u8>) -> (r: Option<String>)
    ensures
        r is Some <==> valid_utf8(bytes@),
        r matches Some(s) ==> s@ == decode_utf8(bytes@),
{
    match String::from_utf8(bytes) {
        Ok(s) => Some(s),
        Err(_) => None,
    }
}

/// Decodes a persisted index file.
///
/// Succeeds exactly on well-formed bytes whose application ids are UTF-8;
/// the decoded index is then well-formed and maps each application id to the
/// hash of the latest record that names it.
pub fn decode_index(bytes: &Vec<u8>) -> (r: Option<InstalledAppsIndex>)
    ensures
        decode_index_spec(bytes@) is None ==> r is None,
        (decode_index_spec(bytes@) matches Some(pairs) && (forall|k: int|
            0 <= k < pairs.len() ==> valid_utf8((#[trigger] pairs[k]).0))) ==> r is Some,
        r matches Some(idx) ==> idx.wf(),
        r matches Some(idx) ==> (decode_index_spec(bytes@) matches Some(pairs) && forall|
            id: Seq<char>,
        | idx.spec_lookup(id) == last_lookup(pairs, id)),
{
    let n = bytes.len();
    if n < 8 {
        return None;
    }
    let count = read_u64_le(bytes, 0);
    proof {
        assert(bytes@.subrange(0, 8) =~= bytes@.take(8));
    }
    let mut idx = InstalledAppsIndex::new();
    let ghost done: Seq<(Seq<u8>, u64)> = Seq::empty();
    let ghost mut done = done;
    let mut pos: usize = 8;
    let mut i: u64 = 0;
    while i < count
        invariant
            n == bytes@.len(),
            8 <= pos <= n,
            i <= count,
            idx.wf(),
            forall|id: Seq<char>| idx.spec_lookup(id) == last_lookup(done, id),
            decode_index_spec(bytes@) == (match decode_records_spec(
                bytes@.skip(pos as int),
                (count - i) as nat,
            ) {
                Some(rest) => Some(done + rest),
                None => None,
            }),
        decreases count - i,
    {
        let ghost s = bytes@.skip(pos as int);
        let rem = n - pos;
        if rem < 8 {
            proof {
                assert(s.len() < 8);
                assert(decode_records_spec(s, (count - i) as nat) is None);
            }
            return None;
        }
        let idlen64 = read_u64_le(bytes, pos);
        proof {
            assert(s.take(8) =~= bytes@.subrange(pos as int, pos + 8));
        }
        if rem < 16 {
            proof {
                assert(s.len() < 16 + u64_from_le(s.take(8)) as int);
                assert(decode_records_spec(s, (count - i) as nat) is None);
            }
            return None;
        }
        if idlen64 > (rem - 16) as u64 {
            proof {
                assert(s.len() < 16 + u64_from_le(s.take(8)) as int);
                assert(decode_records_spec(s, (count - i) as nat) is None);
            }
            return None;
        }
        let idlen = idlen64 as usize;
        let id_vec = bytes_range(bytes, pos + 8, pos + 8 + idlen);
        proof {
            assert(s.subrange(8, 8 + idlen as int) =~= bytes@.subrange(pos + 8, pos + 8 + idlen));
        }
        let hash = read_u64_le(bytes, pos + 8 + idlen);
        proof {
            assert(s.subrange(8 + idlen as int, 16 + idlen as int) =~= bytes@.subrange(
                pos + 8 + idlen,
                pos + 16 + idlen,
            ));
        }
        let ghost id_bytes = id_vec@;
        let app_id = match string_from_utf8(id_vec) {
            Some(a) => a,
            None => {
                proof {
                    let pair = (id_bytes, hash);
                    assert(s.skip(16 + idlen as int) =~= bytes@.skip(pos + 16 + idlen));
                    assert(decode_records_spec(s, (count - i) as nat) == (
                    match decode_records_spec(bytes@.skip(pos + 16 + idlen), (count - i - 1) as nat) {
                        Some(rest) => Some(seq![pair] + rest),
                        None => None,
                    }));
                    if decode_index_spec(bytes@) is Some {
                        let rest = decode_records_spec(
                            bytes@.skip(pos + 16 + idlen),
                            (count - i - 1) as nat,
                        )->Some_0;
                        let pairs = decode_index_spec(bytes@)->Some_0;
                        assert(pairs == done + (seq![pair] + rest));
                        assert(pairs[done.len() as int] == pair);
                        assert(!valid_utf8(pairs[done.len() as int].0));
                    }
                }
                return None;
            },
        };
        idx.record_install(app_id, hash);
        proof {
            let pair = (id_bytes, hash);
            let done2 = done.push(pair);
            assert(done2.last() == pair);
            assert(done2.drop_last() =~= done);
            assert(s.skip(16 + idlen as int) =~= bytes@.skip(pos + 16 + idlen));
            assert(decode_records_spec(s, (count - i) as nat) == (
            match decode_records_spec(bytes@.skip(pos + 16 + idlen), (count - i - 1) as nat) {
                Some(rest) => Some(seq![pair] + rest),
                None => None,
            }));
            assert forall|rest: Seq<(Seq<u8>, u64)>| done + (seq![pair] + rest) =~= done2
                + rest by {}
            done = done2;
        }
        pos = pos + 16 + idlen;
        i = i + 1;
    }
    if pos != n {
        proof {
            assert(bytes@.skip(pos as int).len() > 0);
            assert(decode_records_spec(bytes@.skip(pos as int), 0) is None);
        }
        return None;
    }
    proof {
        assert(bytes@.skip(n as int) =~= Seq::<u8>::empty());
        assert(decode_records_spec(bytes@.skip(pos as int), 0) == Some(
            Seq::<(Seq<u8>, u64)>::empty(),
        ));
        assert(done + Seq::<(Seq<u8>, u64)>::empty() =~= done);
    }
    Some(idx)
}

/// Dropping a record that does not name `id` leaves `id`'s lookup unchanged.
proof fn lemma_lookup_drop_last(records: Seq<InstalledAppRecord>, id: Seq<char>)
    requires
        records.len() > 0,
        records.last().app_id@ != id,
    ensures
        lookup_in(records, id) == lookup_in(records.drop_last(), id),
    decreases records.len(),
{
    if records.len() == 1 {
        assert(records[0] == records.last());
        assert(records.drop_first() =~= Seq::<InstalledAppRecord>::empty());
        assert(records.drop_last() =~= Seq::<InstalledAppRecord>::empty());
    } else {
        assert(records.drop_last()[0] == records[0]);
        if records[0].app_id@ != id {
            assert(records.drop_first().drop_last() =~= records.drop_last().drop_first());
            assert(records.drop_first().last() == records.last());
            lemma_lookup_drop_last(records.drop_first(), id);
        }
    }
}

/// For a well-formed index, looking an id up by the latest matching record of
/// its encoded pairs — as [`decode_index`] does — agrees with the index's own
/// first-match lookup: persisting the index and reading it back preserves
/// every application's recorded hash.
pub proof fn lemma_index_pairs_lookup(records: Seq<InstalledAppRecord>, id: Seq<char>)
    requires
        forall|i: int, j: int|
            0 <= i < j < records.len() ==> #[trigger] records[i].app_id@
                != #[trigger] records[j].app_id@,
    ensures
        last_lookup(index_pairs(records), id) == lookup_in(records, id),
    decreases records.len(),
{
    if records.len() > 0 {
        let pairs = index_pairs(records);
        let last = records.last();
        assert(pairs.last() == (encode_utf8(last.app_id@), last.happ_bundle_hash));
        vstd::utf8::encode_utf8_valid_utf8(last.app_id@);
        vstd::utf8::encode_utf8_decode_utf8(last.app_id@);
        assert(pairs.drop_last() =~= index_pairs(records.drop_last()));
        if last.app_id@ == id {
            assert(last_lookup(pairs, id) == Some(last.happ_bundle_hash));
            crate::index::lemma_lookup_prefix_miss(records, id, records.len() - 1);
            assert(records.skip(records.len() - 1)[0] == last);
            assert(lookup_in(records, id) == Some(last.happ_bundle_hash));
        } else {
            assert(last_lookup(pairs, id) == last_lookup(pairs.drop_last(), id));
            lemma_lookup_drop_last(records, id);
            lemma_index_pairs_lookup(records.drop_last(), id);
        }
    }
}

/// Decoding an encoded index yields its records unchanged.
#[verifier::rlimit(50)]
proof fn lemma_records_round_trip(pairs: Seq<(Seq<u8>, u64)>)
    requires
        forall|k: int| 0 <= k < pairs.len() ==> (#[trigger] pairs[k].0).len()
            < 0x1_0000_0000_0000_0000,
    ensures
        decode_records_spec(encode_records_spec(pairs), pairs.len() as nat) == Some(pairs),
    decreases pairs.len(),
{
    if pairs.len() == 0 {
    } else {
        let p = pairs[0];
        let head = encode_record_spec(p.0, p.1);
        let tail = encode_records_spec(pairs.drop_first());
        let bytes = head + tail;
        assert(encode_records_spec(pairs) == bytes);
        let idlen = p.0.len() as int;
        assert(head.len() == 16 + idlen);
        assert(bytes.take(8) =~= u64_le_spec(p.0.len() as u64));
        lemma_u64_le_round_trip(p.0.len() as u64);
        assert(u64_from_le(bytes.take(8)) == p.0.len() as u64);
        assert(bytes.subrange(8, 8 + idlen) =~= p.0);
        assert(bytes.subrange(8 + idlen, 16 + idlen) =~= u64_le_spec(p.1));
        lemma_u64_le_round_trip(p.1);
        assert(bytes.skip(16 + idlen) =~= tail);
        assert forall|k: int| 0 <= k < pairs.drop_first().len() implies (#[trigger] pairs.drop_first()[k].0).len()
            < 0x1_0000_0000_0000_0000 by {
            assert(pairs.drop_first()[k] == pairs[k + 1]);
        }
        lemma_records_round_trip(pairs.drop_first());
        assert(seq![(bytes.subrange(8, 8 + idlen), u64_from_le(bytes.subrange(8 + idlen, 16 + idlen)))]
            + pairs.drop_first() =~= pairs);
    }
}

/// Decoding the encoding of an index's records yields them unchanged: the
/// persisted index file is read back exactly as it was written.
pub proof fn lemma_index_round_trip(pairs: Seq<(Seq<u8>, u64)>)
    requires
        pairs.len() < 0x1_0000_0000_0000_0000,
        forall|k: int| 0 <= k < pairs.len() ==> (#[trigger] pairs[k].0).len()
            < 0x1_0000_0000_0000_0000,
    ensures
        decode_index_spec(encode_index_spec(pairs)) == Some(pairs),
{
    let bytes = encode_index_spec(pairs);
    assert(bytes.take(8) =~= u64_le_spec(pairs.len() as u64));
    lemma_u64_le_round_trip(pairs.len() as u64);
    assert(bytes.skip(8) =~= encode_records_spec(pairs));
    lemma_records_round_trip(pairs);
}

} // verus!
