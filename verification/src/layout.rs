//! The memory-layout contract shared by host and device.
//!
//! Samples and the configuration record are 32-bit scalars, tightly packed
//! with no padding; an input record is two such scalars in field order. The
//! model carries each scalar as its 32-bit pattern (`u32`) and fixes the byte
//! order of the packed form, so that host and device agree bit for bit on
//! every buffer's contents.

use vstd::prelude::*;

verus! {

use crate::errors::PipelineError;

/// Byte stride of one input or output sample (one 32-bit scalar).
pub const SAMPLE_STRIDE: usize = 4;

/// Byte size of the configuration record (one 32-bit scalar).
pub const CONFIG_STRIDE: usize = 4;

/// Byte stride of one two-field input record.
pub const RECORD_STRIDE: usize = 8;

/// The configuration record shared verbatim between host and device:
/// one scalar, the propagation-speed constant, carried as its bit pattern.
#[derive(Clone, Copy, Debug, PartialEq, Eq, Structural)]
pub struct BeamformingConfig {
    pub speed_of_sound_bits: u32,
}

/// A two-field input record: a sample value and its per-record multiplier,
/// each a 32-bit scalar carried as its bit pattern, laid out in field order.
#[derive(Clone, Copy, Debug, PartialEq, Eq, Structural)]
pub struct InputRecord {
    pub value_bits: u32,
    pub multiplier_bits: u32,
}

/// The four packed bytes of one 32-bit word, least significant first.
pub open spec fn word_bytes(w: u32) -> Seq<u8> {
    seq![
        (w & 0xff) as u8,
        ((w >> 8) & 0xff) as u8,
        ((w >> 16) & 0xff) as u8,
        ((w >> 24) & 0xff) as u8,
    ]
}

/// The 32-bit word whose packed bytes are `b0, b1, b2, b3`.
pub open spec fn word_of_bytes(b0: u8, b1: u8, b2: u8, b3: u8) -> u32 {
    (b0 as u32) | ((b1 as u32) << 8) | ((b2 as u32) << 16) | ((b3 as u32) << 24)
}

/// The packed byte image of a sequence of 32-bit words.
pub open spec fn words_bytes(s: Seq<u32>) -> Seq<u8>
    decreases s.len(),
{
    if s.len() == 0 {
        Seq::empty()
    } else {
        word_bytes(s[0]) + words_bytes(s.drop_first())
    }
}

/// The words read back from a packed byte image, four bytes at a time.
pub open spec fn bytes_words(b: Seq<u8>) -> Seq<u32>
    decreases b.len(),
{
    if b.len() < 4 {
        Seq::empty()
    } else {
        seq![word_of_bytes(b[0], b[1], b[2], b[3])] + bytes_words(b.skip(4))
    }
}

/// The words of one record, in field order.
pub open spec fn record_words(r: InputRecord) -> Seq<u32> {
    seq![r.value_bits, r.multiplier_bits]
}

/// The flat word image of a sequence of records.
pub open spec fn records_words(s: Seq<InputRecord>) -> Seq<u32>
    decreases s.len(),
{
    if s.len() == 0 {
        Seq::empty()
    } else {
        record_words(s[0]) + records_words(s.drop_first())
    }
}

/// Packing a word and reading it back yields the word.
pub proof fn lemma_word_round_trip(w: u32)
    ensures
        word_of_bytes(
            (w & 0xff) as u8,
            ((w >> 8) & 0xff) as u8,
            ((w >> 16) & 0xff) as u8,
            ((w >> 24) & 0xff) as u8,
        ) == w,
{
    assert(((w & 0xff) as u8) as u32 | ((((w >> 8) & 0xff) as u8) as u32) << 8
        | ((((w >> 16) & 0xff) as u8) as u32) << 16 | ((((w >> 24) & 0xff) as u8) as u32) << 24
        == w) by (bit_vector);
}

/// The byte image of a concatenation is the concatenation of the images.
pub proof fn lemma_words_bytes_append(s1: Seq<u32>, s2: Seq<u32>)
    ensures
        words_bytes(s1 + s2) == words_bytes(s1) + words_bytes(s2),
    decreases s1.len(),
{
    if s1.len() == 0 {
        assert(s1 + s2 == s2);
        assert(words_bytes(s1) + words_bytes(s2) == words_bytes(s2));
    } else {
        assert((s1 + s2).drop_first() == s1.drop_first() + s2);
        lemma_words_bytes_append(s1.drop_first(), s2);
        assert(words_bytes(s1) + words_bytes(s2)
            == word_bytes(s1[0]) + (words_bytes(s1.drop_first()) + words_bytes(s2)));
    }
}

/// A byte image is four bytes per word.
pub proof fn lemma_words_bytes_len(s: Seq<u32>)
    ensures
        words_bytes(s).len() == 4 * s.len(),
    decreases s.len(),
{
    if s.len() > 0 {
        lemma_words_bytes_len(s.drop_first());
    }
}

/// Reading words out of a packed image yields the words that were packed.
pub proof fn lemma_words_round_trip(s: Seq<u32>)
    ensures
        bytes_words(words_bytes(s)) == s,
    decreases s.len(),
{
    if s.len() == 0 {
        assert(bytes_words(words_bytes(s)) =~= s);
    } else {
        let b = words_bytes(s);
        lemma_words_bytes_len(s.drop_first());
        assert(b.len() == 4 + words_bytes(s.drop_first()).len());
        lemma_word_round_trip(s[0]);
        assert(b.skip(4) =~= words_bytes(s.drop_first()));
        lemma_words_round_trip(s.drop_first());
        assert(bytes_words(b) =~= s);
    }
}

/// Repacking the words read from a well-sized image yields the image.
pub proof fn lemma_bytes_round_trip(b: Seq<u8>)
    requires
        b.len() % 4 == 0,
    ensures
        words_bytes(bytes_words(b)) == b,
    decreases b.len(),
{
    if b.len() == 0 {
        assert(words_bytes(bytes_words(b)) =~= b);
    } else {
        let w = word_of_bytes(b[0], b[1], b[2], b[3]);
        let b0 = b[0];
        let b1 = b[1];
        let b2 = b[2];
        let b3 = b[3];
        let v = (b0 as u32) | ((b1 as u32) << 8) | ((b2 as u32) << 16) | ((b3 as u32) << 24);
        assert((v & 0xff) as u8 == b0 && ((v >> 8) & 0xff) as u8 == b1
            && ((v >> 16) & 0xff) as u8 == b2 && ((v >> 24) & 0xff) as u8 == b3)
            by (bit_vector)
            requires
                v == (b0 as u32) | ((b1 as u32) << 8) | ((b2 as u32) << 16) | ((b3 as u32) << 24),
        ;
        assert(bytes_words(b) == seq![w] + bytes_words(b.skip(4)));
        assert((seq![w] + bytes_words(b.skip(4))).drop_first() =~= bytes_words(b.skip(4)));
        assert(b.skip(4).len() % 4 == 0);
        lemma_bytes_round_trip(b.skip(4));
        assert(word_bytes(w) =~= seq![b0, b1, b2, b3]);
        assert(words_bytes(bytes_words(b)) =~= b);
    }
}

/// The word image of a record concatenation, concatenated.
pub proof fn lemma_records_words_append(s1: Seq<InputRecord>, s2: Seq<InputRecord>)
    ensures
        records_words(s1 + s2) == records_words(s1) + records_words(s2),
    decreases s1.len(),
{
    if s1.len() == 0 {
        assert(s1 + s2 == s2);
        assert(records_words(s1) + records_words(s2) == records_words(s2));
    } else {
        assert((s1 + s2).drop_first() == s1.drop_first() + s2);
        lemma_records_words_append(s1.drop_first(), s2);
        assert(records_words(s1) + records_words(s2)
            == record_words(s1[0]) + (records_words(s1.drop_first()) + records_words(s2)));
    }
}

/// A record image is two words per record.
pub proof fn lemma_records_words_len(s: Seq<InputRecord>)
    ensures
        records_words(s).len() == 2 * s.len(),
    decreases s.len(),
{
    if s.len() > 0 {
        lemma_records_words_len(s.drop_first());
    }
}

/// Packs one word into its four bytes, least significant first.
pub fn word_to_bytes(w: u32) -> (r: Vec<u8>)
    ensures
        r@ == word_bytes(w),
{
    let mut v: Vec<u8> = Vec::new();
    proof {
        assert(w & 0xff < 256 && (w >> 8) & 0xff < 256 && (w >> 16) & 0xff < 256
            && (w >> 24) & 0xff < 256) by (bit_vector);
    }
    v.push((w & 0xff) as u8);
    v.push(((w >> 8) & 0xff) as u8);
    v.push(((w >> 16) & 0xff) as u8);
    v.push(((w >> 24) & 0xff) as u8);
    proof {
        assert(v@ =~= word_bytes(w));
    }
    v
}

/// Packs a sequence of words into its byte image.
pub fn words_to_bytes(words: &Vec<u32>) -> (r: Vec<u8>)
    ensures
        r@ == words_bytes(words@),
        r@.len() == 4 * words@.len(),
{
    let mut out: Vec<u8> = Vec::new();
    let mut i: usize = 0;
    proof {
        assert(out@ =~= words_bytes(words@.subrange(0, 0)));
    }
    while i < words.len()
        invariant
            i <= words@.len(),
            out@ == words_bytes(words@.subrange(0, i as int)),
        decreases words@.len() - i,
    {
        let b = word_to_bytes(words[i]);
        let mut j: usize = 0;
        let ghost out0 = out@;
        while j < b.len()
            invariant
                j <= b@.len(),
                out@ == out0 + b@.subrange(0, j as int),
            decreases b@.len() - j,
        {
            out.push(b[j]);
            j += 1;
            proof {
                assert(out@ =~= out0 + b@.subrange(0, j as int));
            }
        }
        proof {
            assert(b@.subrange(0, b@.len() as int) =~= b@);
            lemma_words_bytes_append(words@.subrange(0, i as int), seq![words@[i as int]]);
            assert(words@.subrange(0, i as int) + seq![words@[i as int]]
                =~= words@.subrange(0, i + 1));
            reveal_with_fuel(words_bytes, 2);
            assert(seq![words@[i as int]].drop_first() =~= Seq::<u32>::empty());
            assert(words_bytes(seq![words@[i as int]]) =~= word_bytes(words@[i as int]));
        }
        i += 1;
    }
    proof {
        assert(words@.subrange(0, words@.len() as int) =~= words@);
        lemma_words_bytes_len(words@);
    }
    out
}

/// Reads the words back out of a packed byte image. Fails with
/// `InvalidSize` exactly when the image is not a whole number of words.
pub fn bytes_to_words(bytes: &Vec<u8>) -> (r: Result<Vec<u32>, PipelineError>)
    ensures
        bytes@.len() % 4 == 0 <==> r is Ok,
        r is Ok ==> r->Ok_0@ == bytes_words(bytes@),
        r is Ok ==> r->Ok_0@.len() == bytes@.len() / 4,
        r is Err ==> r->Err_0 == PipelineError::InvalidSize,
{
    if bytes.len() % 4 != 0 {
        return Err(PipelineError::InvalidSize);
    }
    let mut out: Vec<u32> = Vec::new();
    let mut i: usize = 0;
    proof {
        assert(out@ =~= bytes_words(bytes@.subrange(0, 0)));
    }
    while i < bytes.len()
        invariant
            i <= bytes@.len(),
            i % 4 == 0,
            bytes@.len() % 4 == 0,
            out@ == bytes_words(bytes@.subrange(0, i as int)),
            out@.len() == i / 4,
        decreases bytes@.len() - i,
    {
        proof {
            assert((bytes@.len() - i) % 4 == 0);
            assert(i + 4 <= bytes@.len());
        }
        let b0 = bytes[i];
        let b1 = bytes[i + 1];
        let b2 = bytes[i + 2];
        let b3 = bytes[i + 3];
        let w = (b0 as u32) | ((b1 as u32) << 8) | ((b2 as u32) << 16) | ((b3 as u32) << 24);
        out.push(w);
        proof {
            lemma_bytes_words_snoc(bytes@, i as int);
        }
        i += 4;
    }
    proof {
        assert(bytes@.subrange(0, bytes@.len() as int) =~= bytes@);
    }
    Ok(out)
}

/// Appending one whole word's bytes to a well-sized prefix appends the word.
proof fn lemma_bytes_words_snoc(b: Seq<u8>, i: int)
    requires
        0 <= i,
        i % 4 == 0,
        i + 4 <= b.len(),
    ensures
        bytes_words(b.subrange(0, i + 4))
            == bytes_words(b.subrange(0, i)).push(
                word_of_bytes(b[i], b[i + 1], b[i + 2], b[i + 3])),
    decreases i,
{
    if i == 0 {
        let p = b.subrange(0, 4);
        assert(p.len() == 4 && p.len() < 8);
        assert(p.skip(4).len() == 0);
        reveal_with_fuel(bytes_words, 2);
        assert(p[0] == b[0] && p[1] == b[1] && p[2] == b[2] && p[3] == b[3]);
        assert(bytes_words(p) =~= seq![word_of_bytes(b[0], b[1], b[2], b[3])]);
        assert(bytes_words(b.subrange(0, 0)) =~= Seq::<u32>::empty());
        assert(bytes_words(b.subrange(0, 4))
            =~= bytes_words(b.subrange(0, 0)).push(word_of_bytes(b[0], b[1], b[2], b[3])));
    } else {
        let p = b.subrange(0, i + 4);
        let q = b.subrange(0, i);
        assert(p.len() >= 8);
        assert(q.len() >= 4);
        lemma_bytes_words_snoc(b.skip(4), i - 4);
        assert(p.skip(4) =~= b.skip(4).subrange(0, i));
        assert(q.skip(4) =~= b.skip(4).subrange(0, i - 4));
        assert(bytes_words(p) == seq![word_of_bytes(p[0], p[1], p[2], p[3])]
            + bytes_words(p.skip(4)));
        assert(bytes_words(q) == seq![word_of_bytes(q[0], q[1], q[2], q[3])]
            + bytes_words(q.skip(4)));
        assert(b.skip(4)[i - 4] == b[i] && b.skip(4)[i - 3] == b[i + 1]
            && b.skip(4)[i - 2] == b[i + 2] && b.skip(4)[i - 1] == b[i + 3]);
        assert(bytes_words(p) =~= bytes_words(q).push(
            word_of_bytes(b[i], b[i + 1], b[i + 2], b[i + 3])));
    }
}

/// Flattens records into their word image, field order kept.
pub fn records_to_words(records: &Vec<InputRecord>) -> (r: Vec<u32>)
    ensures
        r@ == records_words(records@),
        r@.len() == 2 * records@.len(),
{
    let mut out: Vec<u32> = Vec::new();
    let mut i: usize = 0;
    proof {
        assert(out@ =~= records_words(records@.subrange(0, 0)));
    }
    while i < records.len()
        invariant
            i <= records@.len(),
            out@ == records_words(records@.subrange(0, i as int)),
            out@.len() == 2 * i,
        decreases records@.len() - i,
    {
        out.push(records[i].value_bits);
        out.push(records[i].multiplier_bits);
        proof {
            lemma_records_words_append(records@.subrange(0, i as int), seq![records@[i as int]]);
            assert(records@.subrange(0, i as int) + seq![records@[i as int]]
                =~= records@.subrange(0, i + 1));
            reveal_with_fuel(records_words, 2);
            assert(seq![records@[i as int]].drop_first() =~= Seq::<InputRecord>::empty());
            assert(records_words(seq![records@[i as int]]) =~= record_words(records@[i as int]));
            assert(out@ =~= records_words(records@.subrange(0, i + 1)));
        }
        i += 1;
    }
    proof {
        assert(records@.subrange(0, records@.len() as int) =~= records@);
        lemma_records_words_len(records@);
    }
    out
}

/// Reads records back out of a flat word image. Fails with `InvalidSize`
/// exactly when the image is not a whole number of records.
pub fn words_to_records(words: &Vec<u32>) -> (r: Result<Vec<InputRecord>, PipelineError>)
    ensures
        words@.len() % 2 == 0 <==> r is Ok,
        r is Ok ==> records_words(r->Ok_0@) == words@,
        r is Ok ==> r->Ok_0@.len() == words@.len() / 2,
        r is Err ==> r->Err_0 == PipelineError::InvalidSize,
{
    if words.len() % 2 != 0 {
        return Err(PipelineError::InvalidSize);
    }
    let mut out: Vec<InputRecord> = Vec::new();
    let mut i: usize = 0;
    proof {
        assert(records_words(out@) =~= words@.subrange(0, 0));
    }
    while i < words.len()
        invariant
            i <= words@.len(),
            i % 2 == 0,
            words@.len() % 2 == 0,
            records_words(out@) == words@.subrange(0, i as int),
            out@.len() == i / 2,
        decreases words@.len() - i,
    {
        proof {
            assert((words@.len() - i) % 2 == 0);
            assert(i + 2 <= words@.len());
        }
        let rec = InputRecord { value_bits: words[i], multiplier_bits: words[i + 1] };
        let ghost prev = out@;
        out.push(rec);
        proof {
            assert(out@ =~= prev + seq![rec]);
            lemma_records_words_append(prev, seq![rec]);
            reveal_with_fuel(records_words, 2);
            assert(seq![rec].drop_first() =~= Seq::<InputRecord>::empty());
            assert(records_words(seq![rec]) =~= record_words(rec));
            assert(records_words(out@) =~= words@.subrange(0, i + 2));
        }
        i += 2;
    }
    proof {
        assert(words@.subrange(0, words@.len() as int) =~= words@);
    }
    Ok(out)
}

/// Byte extent of `n` packed samples; fails with `InvalidSize` exactly when
/// that extent does not fit the machine's address range.
pub fn sample_extent(n: usize) -> (r: Result<usize, PipelineError>)
    ensures
        n * 4 <= usize::MAX <==> r is Ok,
        r is Ok ==> r->Ok_0 == n * 4,
        r is Err ==> r->Err_0 == PipelineError::InvalidSize,
{
    if n > usize::MAX / 4 {
        proof {
            assert(n > usize::MAX / 4 ==> n * 4 > usize::MAX) by (nonlinear_arith);
        }
        return Err(PipelineError::InvalidSize);
    }
    proof {
        assert(n <= usize::MAX / 4 ==> n * 4 <= usize::MAX) by (nonlinear_arith);
    }
    Ok(n * 4)
}

/// Packs the configuration record into its byte image: the four bytes of
/// its one scalar.
pub fn config_to_bytes(config: &BeamformingConfig) -> (r: Vec<u8>)
    ensures
        r@ == word_bytes(config.speed_of_sound_bits),
        r@.len() == CONFIG_STRIDE,
{
    word_to_bytes(config.speed_of_sound_bits)
}

} // verus!
