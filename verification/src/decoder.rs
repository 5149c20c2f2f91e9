//! Chunked decoding: fixed-size chunks of IQ samples, clean exhaustion at a
//! chunk boundary, and rejection of truncated tails.

use vstd::prelude::*;

use crate::sample::{
    spec_decode_sample, decode_sample_at, IqSample, SampleType,
};

verus! {

/// The chunked sample decoder's configuration: how many samples one read
/// returns and how each scalar is encoded on disk. Both are fixed for the
/// decoder's lifetime; the byte stream itself stays with the caller, who
/// hands each read's bytes in.
#[derive(Clone, Copy, PartialEq, Eq, Structural, Debug)]
pub struct ChunkDecoder {
    /// Samples decoded per chunk; at least one.
    pub samples_per_chunk: usize,
    /// The on-disk encoding of each scalar component.
    pub sample_type: SampleType,
}

/// Error returned when the stream ends partway through a chunk: the
/// remaining bytes cannot form `samples_per_chunk` whole samples, and the
/// decoder never fabricates or zero-pads samples.
#[derive(Clone, Copy, PartialEq, Eq, Structural, Debug)]
pub enum DecodeError {
    /// Between one byte and one byte short of a full chunk arrived before
    /// end-of-stream.
    TruncatedChunk,
}

impl ChunkDecoder {
    /// A decoder is well formed when it decodes at least one sample per
    /// chunk and a whole chunk's byte count fits in `usize`.
    pub open spec fn wf(self) -> bool {
        &&& 1 <= self.samples_per_chunk
        &&& self.samples_per_chunk * self.sample_type.spec_sample_len() <= usize::MAX
    }

    /// Bytes one chunk occupies in the stream.
    pub open spec fn spec_chunk_byte_len(self) -> nat {
        (self.samples_per_chunk * self.sample_type.spec_sample_len()) as nat
    }

    /// Creates a decoder that reads `samples_per_chunk` samples per chunk,
    /// each encoded per `sample_type`.
    pub fn new(samples_per_chunk: usize, sample_type: SampleType) -> (d: ChunkDecoder)
        requires
            1 <= samples_per_chunk,
            samples_per_chunk * sample_type.spec_sample_len() <= usize::MAX,
        ensures
            d.wf(),
            d == (ChunkDecoder { samples_per_chunk, sample_type }),
    {
        ChunkDecoder { samples_per_chunk, sample_type }
    }

    /// The number of bytes one chunk occupies in the stream.
    pub fn chunk_byte_len(&self) -> (n: usize)
        requires
            self.wf(),
        ensures
            n == self.spec_chunk_byte_len(),
            2 <= n,
    {
        let w = self.sample_type.sample_len();
        proof {
            assert(self.samples_per_chunk * w >= 1 * w) by (nonlinear_arith)
                requires
                    1 <= self.samples_per_chunk,
                    0 <= w,
            ;
        }
        self.samples_per_chunk * w
    }
}

/// The sequence of samples a whole buffer of records decodes to, one sample
/// per `spec_sample_len` bytes, in stream order.
pub open spec fn spec_decode_chunk(t: SampleType, b: Seq<u8>) -> Seq<IqSample>
    recommends
        b.len() % t.spec_sample_len() == 0,
{
    let w = t.spec_sample_len() as int;
    Seq::new(b.len() / t.spec_sample_len(), |j: int| spec_decode_sample(
        t,
        b.subrange(j * w, (j + 1) * w),
    ))
}

impl ChunkDecoder {
    /// Decodes one full chunk's buffer into exactly `samples_per_chunk`
    /// samples, in the order the records stand in the buffer.
    pub fn decode_chunk(&self, buf: &Vec<u8>) -> (samples: Vec<IqSample>)
        requires
            self.wf(),
            buf@.len() == self.spec_chunk_byte_len(),
        ensures
            samples@ == spec_decode_chunk(self.sample_type, buf@),
            samples@.len() == self.samples_per_chunk,
    {
        let w = self.sample_type.sample_len();
        let n = self.samples_per_chunk;
        proof {
            assert(buf@.len() / self.sample_type.spec_sample_len() == n as nat) by (
            nonlinear_arith)
                requires
                    buf@.len() == n * self.sample_type.spec_sample_len(),
                    w == self.sample_type.spec_sample_len(),
                    2 <= w,
            ;
        }
        let mut samples: Vec<IqSample> = Vec::new();
        let mut j: usize = 0;
        let mut off: usize = 0;
        while j < n
            invariant
                self.wf(),
                w == self.sample_type.spec_sample_len(),
                n == self.samples_per_chunk,
                buf@.len() == n * w,
                j <= n,
                off == j * w,
                samples@.len() == j,
                forall|m: int|
                    0 <= m < j ==> samples@[m] == spec_decode_sample(
                        self.sample_type,
                        buf@.subrange(m * (w as int), (m + 1) * (w as int)),
                    ),
            decreases n - j,
        {
            proof {
                assert((j + 1) * (w as int) == j * (w as int) + w) by (nonlinear_arith);
                assert((j + 1) * (w as int) <= n * (w as int)) by (nonlinear_arith)
                    requires
                        j < n,
                        0 <= w,
                ;
            }
            let s = decode_sample_at(self.sample_type, buf, off);
            samples.push(s);
            j = j + 1;
            off = off + w;
        }
        proof {
            assert(samples@ =~= spec_decode_chunk(self.sample_type, buf@));
        }
        samples
    }
}

/// What one read attempt at a chunk boundary amounts to, judged by how many
/// bytes the stream yielded before the chunk was full or the stream ended.
#[derive(Clone, Copy, PartialEq, Eq, Structural, Debug)]
pub enum ChunkOutcome {
    /// The stream yielded a whole chunk's bytes: samples are decoded.
    Full,
    /// The stream yielded nothing: clean end-of-stream at a chunk boundary.
    Exhausted,
    /// The stream ended after yielding part of a chunk: an error.
    Truncated,
}

/// Classifies a read attempt: `chunk_bytes` is the whole chunk's byte count,
/// `filled` how many bytes the stream yielded before it ended or the chunk
/// was full.
pub open spec fn spec_chunk_outcome(chunk_bytes: nat, filled: nat) -> ChunkOutcome
    recommends
        0 < chunk_bytes,
        filled <= chunk_bytes,
{
    if filled == chunk_bytes {
        ChunkOutcome::Full
    } else if filled == 0 {
        ChunkOutcome::Exhausted
    } else {
        ChunkOutcome::Truncated
    }
}

/// How many bytes a read attempt of `chunk_bytes` obtains from a stream with
/// `avail` bytes left: everything it asked for, or whatever remains.
pub open spec fn spec_bytes_yielded(chunk_bytes: nat, avail: nat) -> nat {
    if avail >= chunk_bytes {
        chunk_bytes
    } else {
        avail
    }
}

impl ChunkDecoder {
    /// Turns one read attempt's bytes into the decoder's answer.
    ///
    /// `buf` is a whole chunk's buffer; its first `filled` bytes are what the
    /// stream yielded before it ended or the chunk was full. A full buffer
    /// decodes to exactly `samples_per_chunk` samples; zero bytes is clean
    /// exhaustion, not an error; anything in between is a truncated final
    /// chunk and is rejected rather than padded or silently dropped.
    pub fn next_chunk(&self, buf: &Vec<u8>, filled: usize) -> (r: Result<
        Option<Vec<IqSample>>,
        DecodeError,
    >)
        requires
            self.wf(),
            buf@.len() == self.spec_chunk_byte_len(),
            filled <= buf@.len(),
        ensures
            spec_chunk_outcome(self.spec_chunk_byte_len(), filled as nat) == ChunkOutcome::Full
                ==> (r matches Ok(Some(samples)) && samples@ == spec_decode_chunk(
                self.sample_type,
                buf@,
            ) && samples@.len() == self.samples_per_chunk),
            spec_chunk_outcome(self.spec_chunk_byte_len(), filled as nat)
                == ChunkOutcome::Exhausted ==> r matches Ok(None),
            spec_chunk_outcome(self.spec_chunk_byte_len(), filled as nat)
                == ChunkOutcome::Truncated ==> r == Result::<
                Option<Vec<IqSample>>,
                DecodeError,
            >::Err(DecodeError::TruncatedChunk),
    {
        if filled == buf.len() {
            Ok(Some(self.decode_chunk(buf)))
        } else if filled == 0 {
            Ok(None)
        } else {
            Err(DecodeError::TruncatedChunk)
        }
    }
}

/// Bytes left in a stream that held `avail` bytes, after `reads` chunk-read
/// attempts of `chunk_bytes` each: every attempt consumes what it yielded,
/// so the position never rewinds and stays put once the stream is empty.
pub open spec fn spec_stream_after(chunk_bytes: nat, avail: nat, reads: nat) -> nat
    decreases reads,
{
    if reads == 0 {
        avail
    } else {
        let prev = spec_stream_after(chunk_bytes, avail, (reads - 1) as nat);
        (prev - spec_bytes_yielded(chunk_bytes, prev)) as nat
    }
}

/// A stream holding exactly `k` whole chunks yields a full chunk at each of
/// its first `k` reads, then clean exhaustion at read `k` and at every read
/// after it — and never a truncation error.
pub proof fn lemma_exact_multiple_stream(chunk_bytes: nat, k: nat, j: nat)
    requires
        0 < chunk_bytes,
    ensures
        j < k ==> spec_stream_after(chunk_bytes, k * chunk_bytes, j) == (k - j) * chunk_bytes
            && spec_chunk_outcome(
            chunk_bytes,
            spec_bytes_yielded(chunk_bytes, spec_stream_after(chunk_bytes, k * chunk_bytes, j)),
        ) == ChunkOutcome::Full,
        j >= k ==> spec_stream_after(chunk_bytes, k * chunk_bytes, j) == 0 && spec_chunk_outcome(
            chunk_bytes,
            spec_bytes_yielded(chunk_bytes, spec_stream_after(chunk_bytes, k * chunk_bytes, j)),
        ) == ChunkOutcome::Exhausted,
    decreases j,
{
    if j == 0 {
        if k == 0 {
            assert(k * chunk_bytes == 0);
        } else {
            assert((k - 1) * chunk_bytes >= 0) by (nonlinear_arith)
                requires
                    k >= 1,
                    chunk_bytes > 0,
            ;
            assert(k * chunk_bytes == (k - 1) * chunk_bytes + chunk_bytes) by (nonlinear_arith);
        }
    } else {
        lemma_exact_multiple_stream(chunk_bytes, k, (j - 1) as nat);
        if j - 1 < k {
            assert((k - (j - 1)) * chunk_bytes == (k - j) * chunk_bytes + chunk_bytes) by (
            nonlinear_arith);
            assert((k - j) * chunk_bytes >= 0) by (nonlinear_arith)
                requires
                    j <= k,
                    chunk_bytes > 0,
            ;
            if j < k {
                assert((k - j) * chunk_bytes >= 1 * chunk_bytes) by (nonlinear_arith)
                    requires
                        k - j >= 1,
                        chunk_bytes > 0,
                ;
            }
        }
    }
}

/// A stream holding `k` whole chunks and a non-empty partial tail of `r`
/// bytes (`0 < r < chunk_bytes`) yields `k` full chunks, then a truncation
/// error at read `k`; the error is terminal: the partial read consumed the
/// tail, so every later read sees clean exhaustion.
pub proof fn lemma_truncated_tail_stream(chunk_bytes: nat, k: nat, r: nat, j: nat)
    requires
        0 < chunk_bytes,
        0 < r < chunk_bytes,
    ensures
        j < k ==> spec_stream_after(chunk_bytes, k * chunk_bytes + r, j) == (k - j) * chunk_bytes
            + r && spec_chunk_outcome(
            chunk_bytes,
            spec_bytes_yielded(
                chunk_bytes,
                spec_stream_after(chunk_bytes, k * chunk_bytes + r, j),
            ),
        ) == ChunkOutcome::Full,
        j == k ==> spec_stream_after(chunk_bytes, k * chunk_bytes + r, j) == r
            && spec_chunk_outcome(
            chunk_bytes,
            spec_bytes_yielded(
                chunk_bytes,
                spec_stream_after(chunk_bytes, k * chunk_bytes + r, j),
            ),
        ) == ChunkOutcome::Truncated,
        j > k ==> spec_stream_after(chunk_bytes, k * chunk_bytes + r, j) == 0 && spec_chunk_outcome(
            chunk_bytes,
            spec_bytes_yielded(
                chunk_bytes,
                spec_stream_after(chunk_bytes, k * chunk_bytes + r, j),
            ),
        ) == ChunkOutcome::Exhausted,
    decreases j,
{
    if j == 0 {
        if k > 0 {
            assert(k * chunk_bytes >= 1 * chunk_bytes) by (nonlinear_arith)
                requires
                    k >= 1,
                    chunk_bytes > 0,
            ;
        } else {
            assert(k * chunk_bytes == 0);
        }
    } else {
        lemma_truncated_tail_stream(chunk_bytes, k, r, (j - 1) as nat);
        if j - 1 < k {
            assert((k - (j - 1)) * chunk_bytes == (k - j) * chunk_bytes + chunk_bytes) by (
            nonlinear_arith);
            assert((k - j) * chunk_bytes >= 0) by (nonlinear_arith)
                requires
                    j <= k,
                    chunk_bytes > 0,
            ;
            if j < k {
                assert((k - j) * chunk_bytes >= 1 * chunk_bytes) by (nonlinear_arith)
                    requires
                        k - j >= 1,
                        chunk_bytes > 0,
                ;
            }
        }
    }
}

/// An empty stream signals clean exhaustion at its very first read — never
/// an error — whatever the chunk size.
pub proof fn lemma_empty_stream(chunk_bytes: nat)
    requires
        0 < chunk_bytes,
    ensures
        spec_chunk_outcome(chunk_bytes, spec_bytes_yielded(chunk_bytes, 0))
            == ChunkOutcome::Exhausted,
{
}

} // verus!
