//! Byte layout of the particle records shared by the host, the compute stage
//! and the vertex input stage: 16 bytes per record, no padding, each of the
//! four 32-bit components little-endian, in the order position x, position y,
//! velocity x, velocity y.
use vstd::prelude::*;

verus! {

/// Size in bytes of one record; also the vertex stride.
pub const RECORD_SIZE: usize = 16;

/// Offset of the position inside a record; the vertex stage reads it.
pub const POSITION_OFFSET: u32 = 0;

/// Offset of the velocity inside a record.
pub const VELOCITY_OFFSET: u32 = 8;

/// One particle record. Each component is the bit pattern of a 32-bit float.
#[derive(Debug, Clone, Copy, PartialEq, Eq, Structural)]
pub struct ParticleRecord {
    pub pos_x: u32,
    pub pos_y: u32,
    pub vel_x: u32,
    pub vel_y: u32,
}

/// The four bytes of `w`, least significant first.
pub open spec fn word_bytes(w: u32) -> Seq<u8> {
    seq![(w & 0xff) as u8, ((w >> 8u32) & 0xff) as u8, ((w >> 16u32) & 0xff) as u8, ((w >> 24u32) & 0xff) as u8]
}

/// The word whose bytes, least significant first, are `b0`..`b3`.
pub open spec fn word_of(b0: u8, b1: u8, b2: u8, b3: u8) -> u32 {
    (b0 as u32) | ((b1 as u32) << 8u32) | ((b2 as u32) << 16u32) | ((b3 as u32) << 24u32)
}

/// The 16 bytes of one record.
pub open spec fn record_bytes(r: ParticleRecord) -> Seq<u8> {
    word_bytes(r.pos_x) + word_bytes(r.pos_y) + word_bytes(r.vel_x) + word_bytes(r.vel_y)
}

/// The record held by the 16 bytes `s`.
pub open spec fn record_of(s: Seq<u8>) -> ParticleRecord {
    ParticleRecord {
        pos_x: word_of(s[0], s[1], s[2], s[3]),
        pos_y: word_of(s[4], s[5], s[6], s[7]),
        vel_x: word_of(s[8], s[9], s[10], s[11]),
        vel_y: word_of(s[12], s[13], s[14], s[15]),
    }
}

/// The contents of a buffer that holds `recs`, one after the other.
pub open spec fn records_bytes(recs: Seq<ParticleRecord>) -> Seq<u8>
    decreases recs.len(),
{
    if recs.len() == 0 {
        Seq::empty()
    } else {
        records_bytes(recs.drop_last()) + record_bytes(recs.last())
    }
}

/// The records held by `bytes`, read 16 at a time; a tail shorter than a
/// record is not read.
pub open spec fn records_of(bytes: Seq<u8>) -> Seq<ParticleRecord> {
    Seq::new(
        bytes.len() / (RECORD_SIZE as nat),
        |i: int| record_of(bytes.subrange(i * RECORD_SIZE, i * RECORD_SIZE + RECORD_SIZE)),
    )
}

/// Size in bytes of a buffer of `count` records.
pub fn buffer_size(count: u32) -> (r: u64)
    ensures
        r == count * RECORD_SIZE,
{
    proof {
        assert(count as int * 16 <= 0xffff_ffff * 16) by (nonlinear_arith)
            requires
                count <= 0xffff_ffffu32,
        ;
    }
    count as u64 * RECORD_SIZE as u64
}

fn push_word(out: &mut Vec<u8>, w: u32)
    ensures
        final(out)@ == old(out)@ + word_bytes(w),
{
    out.push((w & 0xff) as u8);
    out.push(((w >> 8u32) & 0xff) as u8);
    out.push(((w >> 16u32) & 0xff) as u8);
    out.push(((w >> 24u32) & 0xff) as u8);
    assert(final(out)@ =~= old(out)@ + word_bytes(w));
}

/// The bytes written to the particle buffer to upload `recs`.
pub fn encode_records(recs: &Vec<ParticleRecord>) -> (r: Vec<u8>)
    ensures
        r@ == records_bytes(recs@),
        r@.len() == recs@.len() * RECORD_SIZE,
{
    proof {
        lemma_records_bytes_len(recs@);
    }
    let mut out: Vec<u8> = Vec::new();
    let mut i: usize = 0;
    while i < recs.len()
        invariant
            i <= recs@.len(),
            out@ == records_bytes(recs@.subrange(0, i as int)),
        decreases recs@.len() - i,
    {
        let r = recs[i];
        let ghost before = out@;
        push_word(&mut out, r.pos_x);
        push_word(&mut out, r.pos_y);
        push_word(&mut out, r.vel_x);
        push_word(&mut out, r.vel_y);
        proof {
            let next = recs@.subrange(0, i + 1);
            assert(next.drop_last() =~= recs@.subrange(0, i as int));
            assert(out@ =~= before + record_bytes(r));
        }
        i = i + 1;
    }
    assert(recs@.subrange(0, recs@.len() as int) =~= recs@);
    out
}

fn read_word(bytes: &Vec<u8>, at: usize) -> (r: u32)
    requires
        at + 4 <= bytes@.len(),
    ensures
        r == word_of(bytes@[at as int], bytes@[at + 1], bytes@[at + 2], bytes@[at + 3]),
{
    let len = bytes.len();
    assert(at + 4 <= len);
    (bytes[at] as u32) | ((bytes[at + 1] as u32) << 8u32) | ((bytes[at + 2] as u32) << 16u32)
        | ((bytes[at + 3] as u32) << 24u32)
}

/// The records that `bytes` holds, as read back from the particle buffer.
pub fn decode_records(bytes: &Vec<u8>) -> (r: Vec<ParticleRecord>)
    ensures
        r@ == records_of(bytes@),
{
    let len = bytes.len();
    let n = len / RECORD_SIZE;
    let mut out: Vec<ParticleRecord> = Vec::new();
    let mut i: usize = 0;
    while i < n
        invariant
            len == bytes@.len(),
            n == bytes@.len() / (RECORD_SIZE as nat),
            i <= n,
            out@.len() == i,
            forall|k: int| 0 <= k < i ==> #[trigger] out@[k] == records_of(bytes@)[k],
        decreases n - i,
    {
        proof {
            assert(i * RECORD_SIZE + RECORD_SIZE <= len) by (nonlinear_arith)
                requires
                    i < n,
                    n == len / 16,
            ;
        }
        let at = i * RECORD_SIZE;
        let rec = ParticleRecord {
            pos_x: read_word(bytes, at),
            pos_y: read_word(bytes, at + 4),
            vel_x: read_word(bytes, at + 8),
            vel_y: read_word(bytes, at + 12),
        };
        out.push(rec);
        i = i + 1;
    }
    assert(out@ =~= records_of(bytes@));
    out
}

proof fn lemma_word_round_trip(w: u32)
    ensures
        word_of(word_bytes(w)[0], word_bytes(w)[1], word_bytes(w)[2], word_bytes(w)[3]) == w,
{
    assert(((w & 0xff) as u8) as u32 | ((((w >> 8u32) & 0xff) as u8) as u32) << 8u32
        | ((((w >> 16u32) & 0xff) as u8) as u32) << 16u32 | ((((w >> 24u32) & 0xff) as u8) as u32) << 24u32 == w)
        by (bit_vector);
}

proof fn lemma_record_round_trip(r: ParticleRecord)
    ensures
        record_bytes(r).len() == RECORD_SIZE,
        record_of(record_bytes(r)) == r,
{
    lemma_word_round_trip(r.pos_x);
    lemma_word_round_trip(r.pos_y);
    lemma_word_round_trip(r.vel_x);
    lemma_word_round_trip(r.vel_y);
}

proof fn lemma_records_bytes_len(recs: Seq<ParticleRecord>)
    ensures
        records_bytes(recs).len() == recs.len() * RECORD_SIZE,
    decreases recs.len(),
{
    if recs.len() > 0 {
        lemma_records_bytes_len(recs.drop_last());
        lemma_record_round_trip(recs.last());
    }
}

proof fn lemma_record_at(recs: Seq<ParticleRecord>, i: int)
    requires
        0 <= i < recs.len(),
    ensures
        records_bytes(recs).subrange(i * RECORD_SIZE, i * RECORD_SIZE + RECORD_SIZE) == record_bytes(recs[i]),
    decreases recs.len(),
{
    let front = recs.drop_last();
    lemma_records_bytes_len(front);
    lemma_record_round_trip(recs.last());
    let all = records_bytes(recs);
    assert(all == records_bytes(front) + record_bytes(recs.last()));
    if i == recs.len() - 1 {
        assert(all.subrange(i * RECORD_SIZE, i * RECORD_SIZE + RECORD_SIZE) =~= record_bytes(recs.last()));
    } else {
        lemma_record_at(front, i);
        assert(i * RECORD_SIZE + RECORD_SIZE <= front.len() * RECORD_SIZE) by (nonlinear_arith)
            requires
                i < front.len(),
        ;
        assert(all.subrange(i * RECORD_SIZE, i * RECORD_SIZE + RECORD_SIZE)
            =~= records_bytes(front).subrange(i * RECORD_SIZE, i * RECORD_SIZE + RECORD_SIZE));
    }
}

/// Reading back a buffer just after `recs` were written to it gives `recs`.
pub proof fn lemma_upload_round_trip(recs: Seq<ParticleRecord>)
    ensures
        records_of(records_bytes(recs)) == recs,
{
    let bytes = records_bytes(recs);
    lemma_records_bytes_len(recs);
    assert(bytes.len() / (RECORD_SIZE as nat) == recs.len()) by (nonlinear_arith)
        requires
            bytes.len() == recs.len() * RECORD_SIZE,
    ;
    assert forall|i: int| 0 <= i < recs.len() implies #[trigger] records_of(bytes)[i] == recs[i] by {
        lemma_record_at(recs, i);
        lemma_record_round_trip(recs[i]);
    }
    assert(records_of(bytes) =~= recs);
}

/// Uploading `count` records fills a buffer of `count * 16` bytes exactly,
/// and the buffer then holds exactly `count` records.
pub proof fn lemma_upload_fills_buffer(recs: Seq<ParticleRecord>, count: u32)
    requires
        recs.len() == count,
    ensures
        records_bytes(recs).len() == count * RECORD_SIZE,
        records_of(records_bytes(recs)).len() == count,
{
    lemma_records_bytes_len(recs);
    lemma_upload_round_trip(recs);
}

} // verus!
