//! Creative Voice File (.VOC) parsing, shared by the talking-head voices
//! (which carry a lip-sync mouth stream) and the plain sound effects.
//!
//! After the 0x1a-byte header the file is a walk of typed blocks
//! `[type u8][size u24 le][payload]`, ended by a type-0 block or by running
//! out of room for a block header. Type 1 carries the audio
//! (`[time-constant][codec][8-bit unsigned PCM..]`, rate `1e6 / (256 - tc)`),
//! type 5 the lip-sync stream (from payload + 2 up to the first 0xff),
//! types 6 and 7 mark a repeat loop.
use vstd::prelude::*;

verus! {

/// A parsed .VOC: the 8-bit unsigned mono PCM and its sample rate, plus the
/// lip-sync mouth stream when present (empty for sound effects).
pub struct Voc {
    pub rate: u32,
    pub pcm: Vec<u8>,
    pub lipsync: Vec<u8>,
    pub looping: bool,
}

/// The state the block walk accumulates: the sample rate (once a data block
/// was seen), the PCM, the lip-sync stream and the loop flag.
pub struct VocWalk {
    pub rate: Option<u32>,
    pub pcm: Seq<u8>,
    pub lipsync: Seq<u8>,
    pub looping: bool,
}

/// Length of the fixed file header; the first block starts here.
pub open spec fn voc_header_len() -> int {
    0x1a
}

/// The 19-byte signature every file starts with: "Creative Voice File".
pub open spec fn voc_signature() -> Seq<u8> {
    seq![
        0x43u8, 0x72u8, 0x65u8, 0x61u8, 0x74u8, 0x69u8, 0x76u8, 0x65u8, 0x20u8, 0x56u8,
        0x6fu8, 0x69u8, 0x63u8, 0x65u8, 0x20u8, 0x46u8, 0x69u8, 0x6cu8, 0x65u8,
    ]
}

/// The 24-bit little-endian size of the block whose header starts at `pos`.
pub open spec fn block_size(data: Seq<u8>, pos: int) -> int {
    data[pos + 1] as int + data[pos + 2] as int * 0x100 + data[pos + 3] as int * 0x10000
}

/// Index of the first 0xff at or after `i` in `s` (the stream length when
/// there is none).
pub open spec fn first_ff_from(s: Seq<u8>, i: int) -> int
    decreases s.len() - i,
{
    if i >= s.len() {
        s.len() as int
    } else if s[i] == 0xff {
        i
    } else {
        first_ff_from(s, i + 1)
    }
}

/// The lip-sync mouth stream a comment-block payload carries: from byte 2 up
/// to the 0xff terminator (or the payload end).
pub open spec fn lipsync_of(payload: Seq<u8>) -> Seq<u8> {
    let stream = payload.subrange(2, payload.len() as int);
    stream.take(first_ff_from(stream, 0))
}

/// The sample rate a data block's time constant selects: `1e6 / (256 - tc)`.
pub open spec fn rate_of(tc: u8) -> u32 {
    (1_000_000int / (256 - tc as int)) as u32
}

/// What one block does to the walk state.
pub open spec fn apply_block(block_type: u8, payload: Seq<u8>, st: VocWalk) -> VocWalk {
    if block_type == 5 && payload.len() > 2 {
        VocWalk { lipsync: lipsync_of(payload), ..st }
    } else if block_type == 1 && payload.len() > 2 {
        VocWalk {
            rate: Some(rate_of(payload[0])),
            pcm: payload.subrange(2, payload.len() as int),
            ..st
        }
    } else if block_type == 6 || block_type == 7 {
        VocWalk { looping: true, ..st }
    } else {
        st
    }
}

/// The payload of the block at `pos`, cut at the end of the data.
pub open spec fn block_payload(data: Seq<u8>, pos: int) -> Seq<u8> {
    let start = pos + 4;
    let end = if start + block_size(data, pos) < data.len() {
        start + block_size(data, pos)
    } else {
        data.len() as int
    };
    data.subrange(start, end)
}

/// Where the walk goes after the block at `pos` (clamped to the data end,
/// where the walk stops anyway).
pub open spec fn next_block_pos(data: Seq<u8>, pos: int) -> int {
    let next = pos + 4 + block_size(data, pos);
    if next < data.len() {
        next
    } else {
        data.len() as int
    }
}

/// The block walk from `pos`: stop at a type-0 block or when fewer than 4
/// bytes remain, else apply the block and go on.
pub open spec fn walk_blocks(data: Seq<u8>, pos: int, st: VocWalk) -> VocWalk
    decreases data.len() - pos,
{
    if pos < 0 || pos + 4 > data.len() || data[pos] == 0 {
        st
    } else {
        walk_blocks(
            data,
            next_block_pos(data, pos),
            apply_block(data[pos], block_payload(data, pos), st),
        )
    }
}

/// The walk's starting state: no rate, nothing collected, not looping.
pub open spec fn empty_walk() -> VocWalk {
    VocWalk { rate: None, pcm: Seq::empty(), lipsync: Seq::empty(), looping: false }
}

/// The whole file: `None` unless the header and signature are there, a data
/// block gave a rate and the PCM it left is not empty.
pub open spec fn voc_parse_spec(data: Seq<u8>) -> Option<(u32, Seq<u8>, Seq<u8>, bool)> {
    if data.len() < voc_header_len() || data.take(19) != voc_signature() {
        None
    } else {
        let w = walk_blocks(data, voc_header_len(), empty_walk());
        match w.rate {
            None => None,
            Some(rate) => if w.pcm.len() == 0 {
                None
            } else {
                Some((rate, w.pcm, w.lipsync, w.looping))
            },
        }
    }
}

/// The 24-bit little-endian value of three bytes.
fn u24_le(b0: u8, b1: u8, b2: u8) -> (v: usize)
    ensures
        v == b0 as int + b1 as int * 0x100 + b2 as int * 0x10000,
{
    let v: usize = (b0 as usize) | ((b1 as usize) << 8) | ((b2 as usize) << 16);
    assert(v == b0 as int + b1 as int * 0x100 + b2 as int * 0x10000) by (bit_vector)
        requires
            v == (b0 as usize) | ((b1 as usize) << 8) | ((b2 as usize) << 16),
    ;
    v
}

/// Copies `data[start..end]` into a fresh vector.
fn copy_range(data: &[u8], start: usize, end: usize) -> (out: Vec<u8>)
    requires
        start <= end <= data@.len(),
    ensures
        out@ == data@.subrange(start as int, end as int),
{
    let mut out: Vec<u8> = Vec::new();
    let mut i: usize = start;
    while i < end
        invariant
            start <= i <= end <= data@.len(),
            out@ == data@.subrange(start as int, i as int),
        decreases end - i,
    {
        out.push(data[i]);
        i = i + 1;
        assert(out@ =~= data@.subrange(start as int, i as int));
    }
    out
}

/// Position of the first 0xff in `data[start..end]`, as an index into
/// `data` (`end` when there is none).
fn find_ff(data: &[u8], start: usize, end: usize) -> (pos: usize)
    requires
        start <= end <= data@.len(),
    ensures
        start <= pos <= end,
        pos - start == first_ff_from(data@.subrange(start as int, end as int), 0),
{
    let ghost s = data@.subrange(start as int, end as int);
    let mut i: usize = start;
    while i < end
        invariant
            start <= i <= end <= data@.len(),
            s == data@.subrange(start as int, end as int),
            first_ff_from(s, (i - start) as int) == first_ff_from(s, 0),
        decreases end - i,
    {
        if data[i] == 0xff {
            assert(s[(i - start) as int] == 0xff);
            return i;
        }
        assert(s[(i - start) as int] != 0xff);
        i = i + 1;
    }
    i
}

/// True when `data` starts with the "Creative Voice File" signature.
fn has_signature(data: &[u8]) -> (b: bool)
    requires
        data@.len() >= 19,
    ensures
        b == (data@.take(19) == voc_signature()),
{
    let b = data[0] == 0x43 && data[1] == 0x72 && data[2] == 0x65 && data[3] == 0x61
        && data[4] == 0x74 && data[5] == 0x69 && data[6] == 0x76 && data[7] == 0x65
        && data[8] == 0x20 && data[9] == 0x56 && data[10] == 0x6f && data[11] == 0x69
        && data[12] == 0x63 && data[13] == 0x65 && data[14] == 0x20 && data[15] == 0x46
        && data[16] == 0x69 && data[17] == 0x6c && data[18] == 0x65;
    proof {
        if b {
            assert(data@.take(19) =~= voc_signature());
        } else {
            if data@.take(19) == voc_signature() {
                assert(data@.take(19)[0] == voc_signature()[0]);
                assert(data@.take(19)[1] == voc_signature()[1]);
                assert(data@.take(19)[2] == voc_signature()[2]);
                assert(data@.take(19)[3] == voc_signature()[3]);
                assert(data@.take(19)[4] == voc_signature()[4]);
                assert(data@.take(19)[5] == voc_signature()[5]);
                assert(data@.take(19)[6] == voc_signature()[6]);
                assert(data@.take(19)[7] == voc_signature()[7]);
                assert(data@.take(19)[8] == voc_signature()[8]);
                assert(data@.take(19)[9] == voc_signature()[9]);
                assert(data@.take(19)[10] == voc_signature()[10]);
                assert(data@.take(19)[11] == voc_signature()[11]);
                assert(data@.take(19)[12] == voc_signature()[12]);
                assert(data@.take(19)[13] == voc_signature()[13]);
                assert(data@.take(19)[14] == voc_signature()[14]);
                assert(data@.take(19)[15] == voc_signature()[15]);
                assert(data@.take(19)[16] == voc_signature()[16]);
                assert(data@.take(19)[17] == voc_signature()[17]);
                assert(data@.take(19)[18] == voc_signature()[18]);
            }
        }
    }
    b
}

/// Parse a Creative Voice File. Returns `None` only when there is no usable
/// audio (a bad header, no type-1 block, or an empty PCM); the lip-sync
/// stream is optional.
pub fn parse(data: &[u8]) -> (res: Option<Voc>)
    ensures
        match voc_parse_spec(data@) {
            None => res is None,
            Some((rate, pcm, lipsync, looping)) => res matches Some(v) && v.rate == rate
                && v.pcm@ == pcm && v.lipsync@ == lipsync && v.looping == looping,
        },
{
    if data.len() < 0x1a || !has_signature(data) {
        return None;
    }
    let mut rate: Option<u32> = None;
    let mut pcm: Vec<u8> = Vec::new();
    let mut lipsync: Vec<u8> = Vec::new();
    let mut looping = false;
    let mut pos: usize = 0x1a;
    let ghost target = walk_blocks(data@, voc_header_len(), empty_walk());
    assert(pcm@ =~= Seq::<u8>::empty());
    assert(lipsync@ =~= Seq::<u8>::empty());
    while pos <= data.len() && data.len() - pos >= 4
        invariant
            0x1a <= pos <= data@.len(),
            walk_blocks(
                data@,
                pos as int,
                VocWalk { rate: rate, pcm: pcm@, lipsync: lipsync@, looping: looping },
            ) == target,
        ensures
            0x1a <= pos <= data@.len(),
            pos + 4 > data@.len() || data@[pos as int] == 0,
            walk_blocks(
                data@,
                pos as int,
                VocWalk { rate: rate, pcm: pcm@, lipsync: lipsync@, looping: looping },
            ) == target,
        decreases data@.len() - pos,
    {
        let block_type = data[pos];
        if block_type == 0 {
            break;
        }
        let size = u24_le(data[pos + 1], data[pos + 2], data[pos + 3]);
        let payload_start = pos + 4;
        let payload_end = if size < data.len() - payload_start {
            payload_start + size
        } else {
            data.len()
        };
        let ghost st = VocWalk { rate: rate, pcm: pcm@, lipsync: lipsync@, looping: looping };
        let ghost payload = data@.subrange(payload_start as int, payload_end as int);
        assert(payload == block_payload(data@, pos as int));
        if block_type == 5 && payload_end - payload_start > 2 {
            let end = find_ff(data, payload_start + 2, payload_end);
            lipsync = copy_range(data, payload_start + 2, end);
            assert(payload.subrange(2, payload.len() as int) =~= data@.subrange(
                payload_start + 2,
                payload_end as int,
            ));
            assert(lipsync@ =~= lipsync_of(payload));
        } else if block_type == 1 && payload_end - payload_start > 2 {
            let tc = data[payload_start];
            rate = Some(1_000_000 / (256 - tc as u32));
            pcm = copy_range(data, payload_start + 2, payload_end);
            assert(pcm@ =~= payload.subrange(2, payload.len() as int));
        } else if block_type == 6 {
            looping = true;
        } else if block_type == 7 {
            looping = true;
        }
        assert(VocWalk { rate: rate, pcm: pcm@, lipsync: lipsync@, looping: looping }
            == apply_block(block_type, payload, st));
        pos = if size < data.len() - payload_start {
            payload_start + size
        } else {
            data.len()
        };
    }
    match rate {
        None => None,
        Some(r) => {
            if pcm.len() == 0 {
                None
            } else {
                Some(Voc { rate: r, pcm, lipsync, looping })
            }
        },
    }
}

} // verus!
