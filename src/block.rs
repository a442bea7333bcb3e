//! Block summaries assembled from the node's block responses.
use vstd::prelude::*;
use sha2::Digest;
use crate::text::{
    chars_of, copy_range, find_sub, find_sub_from, parse_i64_range, parse_i64_spec, trim_bounds,
    trim_spec,
};

verus! {

/// The SHA-256 digest of `data`.
pub uninterp spec fn sha256_of(data: Seq<u8>) -> Seq<u8>;

/// Relies on sha2's `Sha256::digest` (through the `Digest` trait): the
/// SHA-256 digest of `data`, which is 32 bytes long.
#[verifier::external_body]
fn sha256(data: &Vec<u8>) -> (r: Vec<u8>)
    ensures
        r@ == sha256_of(data@),
        r@.len() == 32,
{
    sha2::Sha256::digest(data.as_slice()).to_vec()
}

/// The upper-case hexadecimal digit for a value below sixteen.
pub open spec fn hex_digit_upper(n: int) -> char {
    seq!['0', '1', '2', '3', '4', '5', '6', '7', '8', '9', 'A', 'B', 'C', 'D', 'E', 'F'][n]
}

/// Upper-case hexadecimal text of `b`: two digits per byte, high half first.
pub open spec fn hex_upper(b: Seq<u8>) -> Seq<char>
    decreases b.len(),
{
    if b.len() == 0 {
        Seq::empty()
    } else {
        hex_upper(b.drop_last()) + seq![
            hex_digit_upper(b.last() as int / 16),
            hex_digit_upper(b.last() as int % 16),
        ]
    }
}

/// Relies on `hex::encode_upper`: each byte becomes two digits of
/// `0123456789ABCDEF`, the high four bits first.
#[verifier::external_body]
fn encode_upper(data: &Vec<u8>) -> (r: String)
    ensures
        r@ == hex_upper(data@),
{
    hex::encode_upper(data)
}

/// A point in time as the node reports it.
#[derive(Clone, Copy, Debug, PartialEq, Eq, Structural)]
pub struct Timestamp {
    /// Seconds since the Unix epoch.
    pub seconds: i64,
    /// Nanoseconds within the second.
    pub nanos: i32,
}

/// A block header as the node returns it.
#[derive(Clone, Debug)]
pub struct RawHeader {
    pub height: i64,
    pub time: Option<Timestamp>,
}

/// A block as the node returns it: header and transaction data.
#[derive(Clone, Debug)]
pub struct RawBlock {
    pub header: Option<RawHeader>,
    /// The encoded transactions of the block's data section.
    pub txs: Option<Vec<Vec<u8>>>,
}

/// A block query's response as the node returns it.
#[derive(Clone, Debug)]
pub struct RawBlockResponse {
    /// The hash from the block identifier.
    pub block_id_hash: Option<Vec<u8>>,
    pub block: Option<RawBlock>,
}

/// Why a block response could not be summarised.
#[derive(Clone, Copy, Debug, PartialEq, Eq, Structural)]
pub enum BlockError {
    MissingBlockId,
    MissingBlock,
    MissingHeader,
    MissingTime,
    MissingData,
    /// The node answered with another height than the one asked for.
    HeightMismatch { got: i64, expected: i64 },
}

/// Summary of one block.
#[derive(Clone, Debug)]
pub struct BlockInfo {
    pub height: i64,
    /// Upper-case hex of the block hash.
    pub block_hash: String,
    pub timestamp: Timestamp,
    /// Upper-case hex of the SHA-256 of each transaction, in block order.
    pub txhashes: Vec<String>,
}

impl BlockInfo {
    /// This summary describes the block of hash `id` at `height`, made at
    /// `time`, whose transactions are `txs`.
    pub open spec fn summarises(self, id: Seq<u8>, height: i64, time: Timestamp, txs: Seq<Vec<u8>>) -> bool {
        &&& self.height == height
        &&& self.block_hash@ == hex_upper(id)
        &&& self.timestamp == time
        &&& self.txhashes@.len() == txs.len()
        &&& forall|i: int|
            0 <= i < txs.len() ==> #[trigger] self.txhashes@[i]@ == hex_upper(sha256_of(txs[i]@))
    }
}

/// The transaction hashes of a block: upper-case hex of each transaction's
/// SHA-256, in order.
pub fn transaction_hashes(txs: &Vec<Vec<u8>>) -> (r: Vec<String>)
    ensures
        r@.len() == txs@.len(),
        forall|i: int| 0 <= i < txs@.len() ==> #[trigger] r@[i]@ == hex_upper(sha256_of(txs@[i]@)),
{
    let mut r: Vec<String> = Vec::new();
    let mut i: usize = 0;
    while i < txs.len()
        invariant
            i <= txs@.len(),
            r@.len() == i,
            forall|j: int| 0 <= j < i ==> #[trigger] r@[j]@ == hex_upper(sha256_of(txs@[j]@)),
        decreases txs@.len() - i,
    {
        let digest = sha256(&txs[i]);
        r.push(encode_upper(&digest));
        i = i + 1;
    }
    r
}

/// Summarises a block response. Every part the summary needs must be
/// present (checked in the order block id, block, header, time, data); when
/// `expected_height` is given, the header must carry that height.
pub fn block_info_from(res: RawBlockResponse, expected_height: Option<i64>) -> (r: Result<BlockInfo, BlockError>)
    ensures
        match res.block_id_hash {
            None => r == Err::<BlockInfo, BlockError>(BlockError::MissingBlockId),
            Some(id) => match res.block {
                None => r == Err::<BlockInfo, BlockError>(BlockError::MissingBlock),
                Some(b) => match b.header {
                    None => r == Err::<BlockInfo, BlockError>(BlockError::MissingHeader),
                    Some(h) => match h.time {
                        None => r == Err::<BlockInfo, BlockError>(BlockError::MissingTime),
                        Some(t) => match b.txs {
                            None => r == Err::<BlockInfo, BlockError>(BlockError::MissingData),
                            Some(txs) => if expected_height is Some && expected_height->Some_0
                                != h.height {
                                r == Err::<BlockInfo, BlockError>(
                                    BlockError::HeightMismatch {
                                        got: h.height,
                                        expected: expected_height->Some_0,
                                    },
                                )
                            } else {
                                (r matches Ok(info) && info.summarises(id@, h.height, t, txs@))
                            },
                        },
                    },
                },
            },
        },
{
    let id = match res.block_id_hash {
        Some(id) => id,
        None => return Err(BlockError::MissingBlockId),
    };
    let block = match res.block {
        Some(b) => b,
        None => return Err(BlockError::MissingBlock),
    };
    let header = match block.header {
        Some(h) => h,
        None => return Err(BlockError::MissingHeader),
    };
    let time = match header.time {
        Some(t) => t,
        None => return Err(BlockError::MissingTime),
    };
    let txs = match block.txs {
        Some(t) => t,
        None => return Err(BlockError::MissingData),
    };
    if let Some(e) = expected_height {
        if e != header.height {
            return Err(BlockError::HeightMismatch { got: header.height, expected: e });
        }
    }
    Ok(BlockInfo {
        height: header.height,
        block_hash: encode_upper(&id),
        timestamp: time,
        txhashes: transaction_hashes(&txs),
    })
}

/// The text between the first occurrence of `p` in `s` and the next one
/// (or the end), as `s.split(p).nth(1)` gives it.
pub open spec fn segment_after(s: Seq<char>, p: Seq<char>) -> Option<Seq<char>> {
    match find_sub_from(s, p, 0) {
        None => None,
        Some(i) => {
            let start = i + p.len();
            let end = match find_sub_from(s, p, start) {
                Some(j) => j,
                None => s.len() as int,
            };
            Some(s.subrange(start, end))
        },
    }
}

/// `t` without one closing parenthesis at its end, if it has one.
pub open spec fn strip_closing_paren(t: Seq<char>) -> Seq<char> {
    if t.len() > 0 && t.last() == ')' {
        t.drop_last()
    } else {
        t
    }
}

/// The height written after `needle` in `s`: the text up to the next
/// `needle`, trimmed, without a closing parenthesis, read as an `i64`.
pub open spec fn height_after(s: Seq<char>, needle: Seq<char>) -> Option<i64> {
    match segment_after(s, needle) {
        None => None,
        Some(seg) => parse_i64_spec(strip_closing_paren(trim_spec(seg))),
    }
}

/// The lowest height that a node says it keeps, in either of the two
/// phrasings nodes use for it when asked for a block it has pruned.
pub open spec fn lowest_height_hint_spec(s: Seq<char>) -> Option<i64> {
    match height_after(s, "lowest height is"@) {
        Some(h) => Some(h),
        None => height_after(s, "base height: "@),
    }
}

fn height_after_chars(s: &Vec<char>, needle: &Vec<char>) -> (r: Option<i64>)
    ensures
        r == height_after(s@, needle@),
{
    let n = s.len();
    let i = match find_sub(s, needle, 0) {
        None => return None,
        Some(i) => i,
    };
    let start = i + needle.len();
    assert(start <= n);
    let end = match find_sub(s, needle, start) {
        Some(j) => j,
        None => s.len(),
    };
    let seg = copy_range(s, start, end);
    let (lo, hi) = trim_bounds(&seg);
    let ghost trimmed = seg@.subrange(lo as int, hi as int);
    let mut stop = hi;
    if hi > lo && seg[hi - 1] == ')' {
        stop = hi - 1;
        assert(seg@.subrange(lo as int, stop as int) == trimmed.drop_last());
    }
    assert(seg@.subrange(lo as int, stop as int) == strip_closing_paren(trimmed));
    assert(segment_after(s@, needle@) == Some(seg@));
    assert(trimmed == trim_spec(seg@));
    parse_i64_range(&seg, lo, stop)
}

/// The lowest height that the node's error `message` says it keeps, if the
/// message says so in one of the known phrasings.
pub fn lowest_height_hint(message: &str) -> (r: Option<i64>)
    ensures
        r == lowest_height_hint_spec(message@),
{
    let s = chars_of(message);
    let first = chars_of("lowest height is");
    if let Some(h) = height_after_chars(&s, &first) {
        return Some(h);
    }
    let second = chars_of("base height: ");
    height_after_chars(&s, &second)
}

} // verus!
