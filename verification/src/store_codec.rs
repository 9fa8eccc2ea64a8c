//! The key store's export blob format, parsed and bounds-checked here.
//!
//! A blob is an 8-byte big-endian record count followed by that many
//! records, each an 8-byte big-endian key length, an 8-byte big-endian
//! value length, the key bytes and the value bytes, filling the blob
//! exactly. The engine's store writes this format; this module decides
//! decodability in verified code, so a blob with malformed framing (for
//! instance one declaring an absurd record length) is refused cleanly
//! instead of reaching an unchecked allocation. The records' key and value
//! bytes themselves are opaque at this layer: they are handed to the
//! engine's store as they stand, and only the engine can tell whether they
//! are records it once wrote.

use vstd::prelude::*;

verus! {

/// The value of the 8 big-endian bytes at `pos`.
pub open spec fn be64(b: Seq<u8>, pos: int) -> int {
    b[pos] * 0x100_0000_0000_0000 + b[pos + 1] * 0x1_0000_0000_0000 + b[pos + 2]
        * 0x100_0000_0000 + b[pos + 3] * 0x1_0000_0000 + b[pos + 4] * 0x100_0000 + b[pos + 5]
        * 0x1_0000 + b[pos + 6] * 0x100 + b[pos + 7]
}

/// Where `n` length-prefixed records starting at `pos` end, or nothing if
/// they overrun the blob.
pub open spec fn records_end(b: Seq<u8>, pos: int, n: nat) -> Option<int>
    decreases n,
{
    if n == 0 {
        Some(pos)
    } else if pos + 16 <= b.len() && pos + 16 + be64(b, pos) + be64(b, pos + 8) <= b.len() {
        records_end(b, pos + 16 + be64(b, pos) + be64(b, pos + 8), (n - 1) as nat)
    } else {
        None
    }
}

/// A well-formed store blob: the record count, then exactly that many
/// records, ending exactly at the blob's end.
pub open spec fn store_blob_decodable(b: Seq<u8>) -> bool {
    b.len() >= 8 && records_end(b, 8, be64(b, 0) as nat) == Some(b.len() as int)
}

/// The key of the record at `pos`.
pub open spec fn record_key(b: Seq<u8>, pos: int) -> Seq<u8> {
    b.subrange(pos + 16, pos + 16 + be64(b, pos))
}

/// The value of the record at `pos`.
pub open spec fn record_value(b: Seq<u8>, pos: int) -> Seq<u8> {
    b.subrange(pos + 16 + be64(b, pos), pos + 16 + be64(b, pos) + be64(b, pos + 8))
}

/// The key/value records that `n` length-prefixed records from `pos` hold,
/// as long as they stay within the blob.
pub open spec fn records_from(b: Seq<u8>, pos: int, n: nat) -> Seq<(Seq<u8>, Seq<u8>)>
    decreases n,
{
    if n == 0 {
        Seq::empty()
    } else if pos + 16 <= b.len() && pos + 16 + be64(b, pos) + be64(b, pos + 8) <= b.len() {
        seq![(record_key(b, pos), record_value(b, pos))] + records_from(
            b,
            pos + 16 + be64(b, pos) + be64(b, pos + 8),
            (n - 1) as nat,
        )
    } else {
        Seq::empty()
    }
}

/// The records a store blob holds.
pub open spec fn store_blob_records(b: Seq<u8>) -> Seq<(Seq<u8>, Seq<u8>)> {
    records_from(b, 8, be64(b, 0) as nat)
}

/// The mathematical value of a vector of parsed records.
pub open spec fn entry_views(es: Seq<(Vec<u8>, Vec<u8>)>) -> Seq<(Seq<u8>, Seq<u8>)> {
    es.map_values(|e: (Vec<u8>, Vec<u8>)| (e.0@, e.1@))
}

/// The value of the 8 big-endian bytes at `pos`.
fn read_be64(bytes: &Vec<u8>, pos: usize) -> (r: u64)
    requires
        pos + 8 <= bytes@.len(),
    ensures
        r as int == be64(bytes@, pos as int),
{
    // Binds the blob length as a usize, which bounds `pos + 7` below
    // usize::MAX for the index arithmetic.
    let _blob_len: usize = bytes.len();
    (bytes[pos] as u64) * 0x100_0000_0000_0000 + (bytes[pos + 1] as u64) * 0x1_0000_0000_0000 + (
    bytes[pos + 2] as u64) * 0x100_0000_0000 + (bytes[pos + 3] as u64) * 0x1_0000_0000 + (bytes[pos
        + 4] as u64) * 0x100_0000 + (bytes[pos + 5] as u64) * 0x1_0000 + (bytes[pos + 6] as u64)
        * 0x100 + (bytes[pos + 7] as u64)
}

/// Decodes a store blob into its key/value records, or reports it
/// malformed. Succeeds exactly on well-formed blobs and returns exactly the
/// records the blob holds; every length field is bounds-checked against the
/// blob before it is trusted.
pub fn parse_store_blob(bytes: &Vec<u8>) -> (r: Option<Vec<(Vec<u8>, Vec<u8>)>>)
    ensures
        r is Some <==> store_blob_decodable(bytes@),
        match r {
            Some(es) => entry_views(es@) == store_blob_records(bytes@),
            None => true,
        },
{
    if bytes.len() < 8 {
        return None;
    }
    let count = read_be64(bytes, 0);
    let mut entries: Vec<(Vec<u8>, Vec<u8>)> = Vec::new();
    let mut pos: usize = 8;
    let mut i: u64 = 0;
    while i < count
        invariant
            bytes@.len() >= 8,
            8 <= pos <= bytes@.len(),
            i <= count,
            count as int == be64(bytes@, 0),
            records_end(bytes@, 8, count as nat) == records_end(
                bytes@,
                pos as int,
                (count - i) as nat,
            ),
            records_from(bytes@, 8, count as nat) == entry_views(entries@) + records_from(
                bytes@,
                pos as int,
                (count - i) as nat,
            ),
        decreases count - i,
    {
        let ghost entries_before = entry_views(entries@);
        let ghost remaining = (count - i) as nat;
        if bytes.len() - pos < 16 {
            return None;
        }
        let key_len = read_be64(bytes, pos);
        let value_len = read_be64(bytes, pos + 8);
        let avail = (bytes.len() - pos - 16) as u64;
        if key_len > avail {
            return None;
        }
        if value_len > avail - key_len {
            return None;
        }
        let key_start = pos + 16;
        let key_len_u = key_len as usize;
        let value_len_u = value_len as usize;
        let mut key: Vec<u8> = Vec::new();
        let mut j: usize = 0;
        while j < key_len_u
            invariant
                j <= key_len_u,
                key_start + key_len_u <= bytes@.len(),
                bytes@.len() <= usize::MAX,
                key@ =~= bytes@.subrange(key_start as int, key_start as int + j),
            decreases key_len_u - j,
        {
            key.push(bytes[key_start + j]);
            j = j + 1;
        }
        let value_start = key_start + key_len_u;
        let mut value: Vec<u8> = Vec::new();
        let mut j2: usize = 0;
        while j2 < value_len_u
            invariant
                j2 <= value_len_u,
                value_start + value_len_u <= bytes@.len(),
                bytes@.len() <= usize::MAX,
                value@ =~= bytes@.subrange(value_start as int, value_start as int + j2),
            decreases value_len_u - j2,
        {
            value.push(bytes[value_start + j2]);
            j2 = j2 + 1;
        }
        proof {
            assert(key@ == record_key(bytes@, pos as int));
            assert(value@ == record_value(bytes@, pos as int));
        }
        entries.push((key, value));
        pos = pos + 16 + key_len_u + value_len_u;
        i = i + 1;
        proof {
            let b = bytes@;
            let rec = (record_key(b, pos - 16 - key_len_u - value_len_u), record_value(
                b,
                pos - 16 - key_len_u - value_len_u,
            ));
            assert(entry_views(entries@) =~= entries_before.push(rec));
            assert(entries_before.push(rec) =~= entries_before + seq![rec]);
            assert(entries_before + (seq![rec] + records_from(b, pos as int, (remaining - 1) as nat))
                =~= (entries_before + seq![rec]) + records_from(b, pos as int, (remaining - 1) as nat));
        }
    }
    if pos == bytes.len() {
        proof {
            assert(records_from(bytes@, pos as int, 0) =~= Seq::<(Seq<u8>, Seq<u8>)>::empty());
            assert(entry_views(entries@) + records_from(bytes@, pos as int, 0) =~= entry_views(
                entries@,
            ));
        }
        Some(entries)
    } else {
        None
    }
}

} // verus!
