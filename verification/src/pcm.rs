//! Downmixing captured audio to mono, resampling it to the ASR rate and
//! cutting it into fixed-size little-endian PCM16 chunks.
use vstd::prelude::*;

verus! {

/// The sample rate that the ASR server expects.
pub const ASR_SAMPLE_RATE: u32 = 16_000;

/// Samples per chunk sent to the ASR server (100 ms at 16 kHz).
pub const ASR_CHUNK_SAMPLES: usize = 1_600;

/// The low byte of a sample.
pub open spec fn lo_byte(x: i16) -> u8 {
    ((x as u16) % 256) as u8
}

/// The high byte of a sample.
pub open spec fn hi_byte(x: i16) -> u8 {
    ((x as u16) / 256) as u8
}

/// Samples as little-endian bytes, two per sample.
pub open spec fn le_bytes(s: Seq<i16>) -> Seq<u8>
    decreases s.len(),
{
    if s.len() == 0 {
        Seq::empty()
    } else {
        le_bytes(s.drop_last()).push(lo_byte(s.last())).push(hi_byte(s.last()))
    }
}

pub proof fn lemma_le_bytes_len(s: Seq<i16>)
    ensures
        le_bytes(s).len() == 2 * s.len(),
    decreases s.len(),
{
    if s.len() > 0 {
        lemma_le_bytes_len(s.drop_last());
    }
}

fn le_bytes_prefix(v: &Vec<i16>, n: usize) -> (r: Vec<u8>)
    requires
        n <= v.len(),
    ensures
        r@ == le_bytes(v@.subrange(0, n as int)),
{
    let mut r: Vec<u8> = Vec::new();
    let mut i: usize = 0;
    while i < n
        invariant
            i <= n <= v.len(),
            r@ == le_bytes(v@.subrange(0, i as int)),
        decreases n - i,
    {
        let u = v[i] as u16;
        r.push((u % 256) as u8);
        r.push((u / 256) as u8);
        proof {
            assert(v@.subrange(0, i + 1).drop_last() =~= v@.subrange(0, i as int));
        }
        i += 1;
    }
    r
}

/// `i16::to_le_bytes` of every sample, concatenated.
pub fn i16_to_le_bytes(samples: &[i16]) -> (r: Vec<u8>)
    ensures
        r@ == le_bytes(samples@),
{
    let mut r: Vec<u8> = Vec::new();
    let mut i: usize = 0;
    while i < samples.len()
        invariant
            i <= samples.len(),
            r@ == le_bytes(samples@.subrange(0, i as int)),
        decreases samples.len() - i,
    {
        let u = samples[i] as u16;
        r.push((u % 256) as u8);
        r.push((u / 256) as u8);
        proof {
            assert(samples@.subrange(0, i + 1).drop_last() =~= samples@.subrange(0, i as int));
        }
        i += 1;
    }
    assert(samples@.subrange(0, samples@.len() as int) =~= samples@);
    r
}

/// `a.saturating_add(b)` for `u32`.
pub open spec fn sat_add(a: u32, b: u32) -> u32 {
    if a + b > u32::MAX {
        u32::MAX
    } else {
        (a + b) as u32
    }
}

/// The input samples resampled from `source` to `target` Hz by accumulating
/// `target` per input sample and emitting one output copy per `source`
/// accumulated, starting from accumulator `acc`; with the final accumulator.
pub open spec fn resampled(acc: u32, target: u32, source: u32, input: Seq<i16>) -> (Seq<i16>, u32)
    decreases input.len(),
{
    if input.len() == 0 {
        (Seq::empty(), acc)
    } else {
        let (prev, a) = resampled(acc, target, source, input.drop_last());
        let s = sat_add(a, target);
        (prev + Seq::new((s / source) as nat, |i: int| input.last()), (s % source) as u32)
    }
}

/// `out` holds the consecutive `c`-sample blocks of `q` as bytes, and
/// `pending` holds what is left after them, less than a block where blocks
/// are not empty.
pub open spec fn chunked(q: Seq<i16>, c: nat, out: Seq<Vec<u8>>, pending: Seq<i16>) -> bool {
    &&& out.len() * c + pending.len() == q.len()
    &&& pending == q.subrange((out.len() * c) as int, q.len() as int)
    &&& forall|j: int|
        0 <= j < out.len() ==> (#[trigger] out[j])@ == le_bytes(q.subrange(j * c, j * c + c))
    &&& c > 0 ==> pending.len() < c
}

/// Turns mono samples at a source rate into ASR chunks.
#[derive(Debug)]
pub struct AsrPcmChunker {
    pub source_rate: u32,
    pub target_rate: u32,
    pub resample_accumulator: u32,
    pub pending: Vec<i16>,
    pub chunk_samples: usize,
}

impl AsrPcmChunker {
    /// Positive rates, and less than a chunk waiting.
    pub open spec fn well_formed(&self) -> bool {
        &&& self.source_rate >= 1
        &&& self.target_rate >= 1
        &&& self.chunk_samples > 0 ==> self.pending@.len() < self.chunk_samples
    }

    /// A chunker from `source_rate` to `target_rate` (each at least 1).
    pub fn new(source_rate: u32, target_rate: u32, chunk_samples: usize) -> (r: AsrPcmChunker)
        ensures
            r.well_formed(),
            r.source_rate == if source_rate >= 1 {
                source_rate
            } else {
                1
            },
            r.target_rate == if target_rate >= 1 {
                target_rate
            } else {
                1
            },
            r.resample_accumulator == 0,
            r.pending@.len() == 0,
            r.chunk_samples == chunk_samples,
    {
        AsrPcmChunker {
            source_rate: if source_rate >= 1 {
                source_rate
            } else {
                1
            },
            target_rate: if target_rate >= 1 {
                target_rate
            } else {
                1
            },
            resample_accumulator: 0,
            pending: Vec::new(),
            chunk_samples,
        }
    }

    /// Appends one output sample, moving a full chunk to `out`.
    fn emit_sample(&mut self, sample: i16, out: &mut Vec<Vec<u8>>, Ghost(q): Ghost<Seq<i16>>)
        requires
            chunked(q, old(self).chunk_samples as nat, old(out)@, old(self).pending@),
        ensures
            chunked(q.push(sample), final(self).chunk_samples as nat, final(out)@, final(self).pending@),
            final(self).source_rate == old(self).source_rate,
            final(self).target_rate == old(self).target_rate,
            final(self).resample_accumulator == old(self).resample_accumulator,
            final(self).chunk_samples == old(self).chunk_samples,
    {
        let c = self.chunk_samples;
        let ghost m = out@.len();
        let ghost q2 = q.push(sample);
        self.pending.push(sample);
        assert(self.pending@ =~= q2.subrange((m * c) as int, q2.len() as int));
        if self.pending.len() >= c {
            let bytes = le_bytes_prefix(&self.pending, c);
            proof {
                assert(self.pending@.subrange(0, c as int) =~= q2.subrange((m * c) as int, (m * c + c) as int));
            }
            if c > 0 {
                self.pending.clear();
            }
            out.push(bytes);
            proof {
                assert(out@.len() * c == m * c + c) by (nonlinear_arith)
                    requires
                        out@.len() == m + 1,
                ;
                if c > 0 {
                    assert(self.pending@ =~= q2.subrange((out@.len() * c) as int, q2.len() as int));
                } else {
                    assert(m * c == 0) by (nonlinear_arith)
                        requires
                            c == 0,
                    ;
                    assert(out@.len() * c == 0) by (nonlinear_arith)
                        requires
                            c == 0,
                    ;
                }
                assert forall|j: int| 0 <= j < out@.len() implies (#[trigger] out@[j])@
                    == le_bytes(q2.subrange(j * c, j * c + c)) by {
                    if j < m {
                        assert(out@[j] == old(out)@[j]);
                        assert(j * c + c <= m * c) by (nonlinear_arith)
                            requires
                                j < m,
                                0 <= j,
                        ;
                        assert(q2.subrange(j * c, j * c + c) =~= q.subrange(j * c, j * c + c));
                    }
                }
            }
        } else {
            proof {
                assert forall|j: int| 0 <= j < out@.len() implies (#[trigger] out@[j])@
                    == le_bytes(q2.subrange(j * c, j * c + c)) by {
                    assert(j * c + c <= m * c) by (nonlinear_arith)
                        requires
                            j < m,
                            0 <= j,
                    ;
                    assert(q2.subrange(j * c, j * c + c) =~= q.subrange(j * c, j * c + c));
                }
            }
        }
    }

    /// Feeds one mono sample through the resampler.
    fn resample_push(&mut self, sample: i16, out: &mut Vec<Vec<u8>>, Ghost(q): Ghost<Seq<i16>>)
        requires
            old(self).well_formed(),
            chunked(q, old(self).chunk_samples as nat, old(out)@, old(self).pending@),
        ensures
            final(self).well_formed(),
            ({
                let (copies, acc) = resampled(
                    old(self).resample_accumulator,
                    old(self).target_rate,
                    old(self).source_rate,
                    seq![sample],
                );
                &&& chunked(q + copies, final(self).chunk_samples as nat, final(out)@, final(self).pending@)
                &&& final(self).resample_accumulator == acc
            }),
            final(self).source_rate == old(self).source_rate,
            final(self).target_rate == old(self).target_rate,
            final(self).chunk_samples == old(self).chunk_samples,
    {
        let ghost start = sat_add(self.resample_accumulator, self.target_rate);
        self.resample_accumulator = self.resample_accumulator.saturating_add(self.target_rate);
        let ghost mut count: nat = 0;
        let ghost mut qq = q;
        while self.resample_accumulator >= self.source_rate
            invariant
                self.source_rate >= 1,
                self.target_rate >= 1,
                self.chunk_samples > 0 ==> self.pending@.len() < self.chunk_samples,
                self.resample_accumulator + count * self.source_rate == start,
                qq == q + Seq::new(count, |i: int| sample),
                chunked(qq, self.chunk_samples as nat, out@, self.pending@),
                self.source_rate == old(self).source_rate,
                self.target_rate == old(self).target_rate,
                self.chunk_samples == old(self).chunk_samples,
            decreases self.resample_accumulator,
        {
            self.emit_sample(sample, out, Ghost(qq));
            proof {
                assert(qq.push(sample) =~= q + Seq::new(count + 1, |i: int| sample));
                qq = qq.push(sample);
                assert((count + 1) * self.source_rate == count * self.source_rate + self.source_rate)
                    by (nonlinear_arith);
                count = count + 1;
            }
            self.resample_accumulator = self.resample_accumulator - self.source_rate;
        }
        proof {
            vstd::arithmetic::div_mod::lemma_fundamental_div_mod_converse(
                start as int,
                self.source_rate as int,
                count as int,
                self.resample_accumulator as int,
            );
            let one = seq![sample];
            assert(one.drop_last() =~= Seq::<i16>::empty());
            assert(one.last() == sample);
            assert(resampled(
                old(self).resample_accumulator,
                old(self).target_rate,
                old(self).source_rate,
                one.drop_last(),
            ) == (Seq::<i16>::empty(), old(self).resample_accumulator));
            assert(start / self.source_rate == count);
            let (copies, acc) = resampled(
                old(self).resample_accumulator,
                old(self).target_rate,
                old(self).source_rate,
                one,
            );
            assert(copies =~= Seq::<i16>::empty() + Seq::new(count, |i: int| sample));
            assert(copies =~= Seq::new(count, |i: int| sample));
        }
    }

    /// Feeds one mono sample; returns the chunks that became full.
    pub fn push_i16_sample(&mut self, sample: i16) -> (r: Vec<Vec<u8>>)
        requires
            old(self).well_formed(),
        ensures
            final(self).well_formed(),
            ({
                let (copies, acc) = resampled(
                    old(self).resample_accumulator,
                    old(self).target_rate,
                    old(self).source_rate,
                    seq![sample],
                );
                &&& chunked(
                    old(self).pending@ + copies,
                    final(self).chunk_samples as nat,
                    r@,
                    final(self).pending@,
                )
                &&& final(self).resample_accumulator == acc
            }),
            final(self).source_rate == old(self).source_rate,
            final(self).target_rate == old(self).target_rate,
            final(self).chunk_samples == old(self).chunk_samples,
    {
        let mut out: Vec<Vec<u8>> = Vec::new();
        proof {
            assert(self.pending@ =~= self.pending@.subrange(0, self.pending@.len() as int));
            assert(0 * self.chunk_samples == 0);
        }
        self.resample_push(sample, &mut out, Ghost(self.pending@));
        out
    }
}

/// Integer division rounding toward zero, as Rust's `/` on signed integers.
pub open spec fn trunc_div(a: int, n: int) -> int {
    if a >= 0 {
        a / n
    } else {
        -((-a) / n)
    }
}

pub open spec fn sum_i16(s: Seq<i16>) -> int
    decreases s.len(),
{
    if s.len() == 0 {
        0
    } else {
        sum_i16(s.drop_last()) + s.last()
    }
}

pub open spec fn sum_u16(s: Seq<u16>) -> int
    decreases s.len(),
{
    if s.len() == 0 {
        0
    } else {
        sum_u16(s.drop_last()) + s.last()
    }
}

pub open spec fn min_nat(a: nat, b: nat) -> nat {
    if a < b {
        a
    } else {
        b
    }
}

/// Interleaved signed samples downmixed to mono: each frame of `c` samples
/// (the last one possibly shorter) becomes its average, rounded toward zero.
pub open spec fn mono_i16(s: Seq<i16>, c: nat) -> Seq<i16>
    decreases s.len(),
{
    if s.len() == 0 || c == 0 {
        Seq::empty()
    } else {
        let k = min_nat(c, s.len());
        seq![trunc_div(sum_i16(s.take(k as int)), k as int) as i16] + mono_i16(s.skip(k as int), c)
    }
}

/// Interleaved unsigned samples downmixed to mono: each frame's average,
/// rounded down, shifted by -32768 to a signed sample.
pub open spec fn mono_u16(s: Seq<u16>, c: nat) -> Seq<i16>
    decreases s.len(),
{
    if s.len() == 0 || c == 0 {
        Seq::empty()
    } else {
        let k = min_nat(c, s.len());
        seq![(sum_u16(s.take(k as int)) / (k as int) - 32768) as i16] + mono_u16(
            s.skip(k as int),
            c,
        )
    }
}

proof fn lemma_resampled_push(acc: u32, target: u32, source: u32, input: Seq<i16>, x: i16)
    requires
        source >= 1,
    ensures
        ({
            let (prev, a) = resampled(acc, target, source, input);
            let (one, a2) = resampled(a, target, source, seq![x]);
            resampled(acc, target, source, input.push(x)) == (prev + one, a2)
        }),
{
    let (prev, a) = resampled(acc, target, source, input);
    let ix = input.push(x);
    assert(ix.drop_last() =~= input);
    assert(ix.last() == x);
    let s = sat_add(a, target);
    let blk = Seq::new((s / source) as nat, |i: int| x);
    let (whole, w2) = resampled(acc, target, source, ix);
    assert(resampled(acc, target, source, ix.drop_last()) == (prev, a));
    assert(resampled(acc, target, source, ix) == (prev + Seq::new(
        (s / source) as nat,
        |i: int| ix.last(),
    ), (s % source) as u32));
    assert(whole =~= prev + blk);
    let one_seq = seq![x];
    assert(one_seq.drop_last() =~= Seq::<i16>::empty());
    assert(one_seq.last() == x);
    assert(resampled(a, target, source, one_seq.drop_last()) == (Seq::<i16>::empty(), a));
    let (one, a2) = resampled(a, target, source, one_seq);
    assert(Seq::<i16>::empty() + blk =~= blk);
    assert(one =~= blk);
}

fn frame_average_i16(samples: &[i16], start: usize, k: usize) -> (r: i16)
    requires
        1 <= k <= 65535,
        start + k <= samples.len(),
    ensures
        r == trunc_div(sum_i16(samples@.subrange(start as int, start + k)), k as int) as i16,
        -32768 <= trunc_div(sum_i16(samples@.subrange(start as int, start + k)), k as int) <= 32767,
{
    let mut acc: i64 = 0;
    let mut j = start;
    while j < start + k
        invariant
            start <= j <= start + k <= samples.len(),
            k <= usize::MAX,
            acc == sum_i16(samples@.subrange(start as int, j as int)),
            -32768 * (j - start) <= acc <= 32767 * (j - start),
            j - start <= k,
            k <= 65535,
        decreases start + k - j,
    {
        proof {
            assert(samples@.subrange(start as int, j + 1).drop_last() =~= samples@.subrange(
                start as int,
                j as int,
            ));
        }
        acc = acc + samples[j] as i64;
        j += 1;
    }
    let n = k as i64;
    let avg: i64 = if acc >= 0 {
        ((acc as u64) / (k as u64)) as i64
    } else {
        -((((-acc) as u64) / (k as u64)) as i64)
    };
    proof {
        let s = acc as int;
        if s >= 0 {
            assert(s / (k as int) <= 32767) by (nonlinear_arith)
                requires
                    0 <= s <= 32767 * k,
                    k >= 1,
            ;
            assert(s / (k as int) >= 0) by (nonlinear_arith)
                requires
                    0 <= s,
                    k >= 1,
            ;
        } else {
            assert((-s) / (k as int) <= 32768) by (nonlinear_arith)
                requires
                    0 < -s <= 32768 * k,
                    k >= 1,
            ;
            assert((-s) / (k as int) >= 0) by (nonlinear_arith)
                requires
                    0 < -s,
                    k >= 1,
            ;
        }
    }
    let _ = n;
    avg as i16
}

fn frame_average_u16(samples: &[u16], start: usize, k: usize) -> (r: i16)
    requires
        1 <= k <= 65535,
        start + k <= samples.len(),
    ensures
        r == (sum_u16(samples@.subrange(start as int, start + k)) / (k as int) - 32768) as i16,
        -32768 <= sum_u16(samples@.subrange(start as int, start + k)) / (k as int) - 32768 <= 32767,
{
    let mut acc: u64 = 0;
    let mut j = start;
    while j < start + k
        invariant
            start <= j <= start + k <= samples.len(),
            acc == sum_u16(samples@.subrange(start as int, j as int)),
            0 <= acc <= 65535 * (j - start),
            k <= 65535,
        decreases start + k - j,
    {
        proof {
            assert(samples@.subrange(start as int, j + 1).drop_last() =~= samples@.subrange(
                start as int,
                j as int,
            ));
        }
        acc = acc + samples[j] as u64;
        j += 1;
    }
    let avg = acc / (k as u64);
    proof {
        assert((acc as int) / (k as int) <= 65535) by (nonlinear_arith)
            requires
                acc <= 65535 * k,
                k >= 1,
        ;
    }
    (avg as i64 - 32768) as i16
}

impl AsrPcmChunker {
    /// Downmixes interleaved signed samples with `channels` per frame (at
    /// least 1) and feeds the mono samples; returns the chunks that became
    /// full.
    pub fn push_i16_interleaved(&mut self, samples: &[i16], channels: usize) -> (r: Vec<Vec<u8>>)
        requires
            old(self).well_formed(),
            channels <= 65535,
        ensures
            final(self).well_formed(),
            ({
                let c = if channels >= 1 {
                    channels as nat
                } else {
                    1
                };
                let (stream, acc) = resampled(
                    old(self).resample_accumulator,
                    old(self).target_rate,
                    old(self).source_rate,
                    mono_i16(samples@, c),
                );
                &&& chunked(
                    old(self).pending@ + stream,
                    final(self).chunk_samples as nat,
                    r@,
                    final(self).pending@,
                )
                &&& final(self).resample_accumulator == acc
            }),
            final(self).source_rate == old(self).source_rate,
            final(self).target_rate == old(self).target_rate,
            final(self).chunk_samples == old(self).chunk_samples,
    {
        let c: usize = if channels >= 1 {
            channels
        } else {
            1
        };
        let mut out: Vec<Vec<u8>> = Vec::new();
        let ghost p0 = self.pending@;
        let ghost acc0 = self.resample_accumulator;
        let ghost mut done: Seq<i16> = Seq::empty();
        proof {
            assert(p0 =~= p0.subrange(0, p0.len() as int));
            assert(p0 + resampled(acc0, self.target_rate, self.source_rate, done).0 =~= p0);
            assert(samples@.skip(0) =~= samples@);
            assert(mono_i16(samples@, c as nat) =~= done + mono_i16(samples@.skip(0), c as nat));
        }
        let mut i: usize = 0;
        while i < samples.len()
            invariant
                i <= samples.len(),
                c >= 1,
                c <= 65535,
                self.well_formed(),
                mono_i16(samples@, c as nat) == done + mono_i16(samples@.skip(i as int), c as nat),
                chunked(
                    p0 + resampled(acc0, self.target_rate, self.source_rate, done).0,
                    self.chunk_samples as nat,
                    out@,
                    self.pending@,
                ),
                self.resample_accumulator == resampled(
                    acc0,
                    self.target_rate,
                    self.source_rate,
                    done,
                ).1,
                self.source_rate == old(self).source_rate,
                self.target_rate == old(self).target_rate,
                self.chunk_samples == old(self).chunk_samples,
            decreases samples.len() - i,
        {
            let k = if samples.len() - i < c {
                samples.len() - i
            } else {
                c
            };
            let avg = frame_average_i16(samples, i, k);
            let ghost rest = samples@.skip(i as int);
            proof {
                assert(rest.take(k as int) =~= samples@.subrange(i as int, i + k));
                assert(rest.skip(k as int) =~= samples@.skip(i + k));
                assert(mono_i16(rest, c as nat) == seq![avg] + mono_i16(
                    samples@.skip(i + k),
                    c as nat,
                ));
                lemma_resampled_push(acc0, self.target_rate, self.source_rate, done, avg);
            }
            let ghost q = p0 + resampled(acc0, self.target_rate, self.source_rate, done).0;
            self.resample_push(avg, &mut out, Ghost(q));
            proof {
                let (prev, a) = resampled(acc0, self.target_rate, self.source_rate, done);
                let (one, a2) = resampled(a, self.target_rate, self.source_rate, seq![avg]);
                assert(q + one =~= p0 + (prev + one));
                assert(done.push(avg) + mono_i16(samples@.skip(i + k), c as nat) =~= done + (seq![
                    avg,
                ] + mono_i16(samples@.skip(i + k), c as nat)));
                done = done.push(avg);
            }
            i = i + k;
        }
        proof {
            assert(mono_i16(samples@.skip(i as int), c as nat) =~= Seq::<i16>::empty());
            assert(done + Seq::<i16>::empty() =~= done);
        }
        out
    }

    /// Downmixes interleaved unsigned samples with `channels` per frame (at
    /// least 1) and feeds the mono samples; returns the chunks that became
    /// full.
    pub fn push_u16_interleaved(&mut self, samples: &[u16], channels: usize) -> (r: Vec<Vec<u8>>)
        requires
            old(self).well_formed(),
            channels <= 65535,
        ensures
            final(self).well_formed(),
            ({
                let c = if channels >= 1 {
                    channels as nat
                } else {
                    1
                };
                let (stream, acc) = resampled(
                    old(self).resample_accumulator,
                    old(self).target_rate,
                    old(self).source_rate,
                    mono_u16(samples@, c),
                );
                &&& chunked(
                    old(self).pending@ + stream,
                    final(self).chunk_samples as nat,
                    r@,
                    final(self).pending@,
                )
                &&& final(self).resample_accumulator == acc
            }),
            final(self).source_rate == old(self).source_rate,
            final(self).target_rate == old(self).target_rate,
            final(self).chunk_samples == old(self).chunk_samples,
    {
        let c: usize = if channels >= 1 {
            channels
        } else {
            1
        };
        let mut out: Vec<Vec<u8>> = Vec::new();
        let ghost p0 = self.pending@;
        let ghost acc0 = self.resample_accumulator;
        let ghost mut done: Seq<i16> = Seq::empty();
        proof {
            assert(p0 =~= p0.subrange(0, p0.len() as int));
            assert(p0 + resampled(acc0, self.target_rate, self.source_rate, done).0 =~= p0);
            assert(samples@.skip(0) =~= samples@);
            assert(mono_u16(samples@, c as nat) =~= done + mono_u16(samples@.skip(0), c as nat));
        }
        let mut i: usize = 0;
        while i < samples.len()
            invariant
                i <= samples.len(),
                c >= 1,
                c <= 65535,
                self.well_formed(),
                mono_u16(samples@, c as nat) == done + mono_u16(samples@.skip(i as int), c as nat),
                chunked(
                    p0 + resampled(acc0, self.target_rate, self.source_rate, done).0,
                    self.chunk_samples as nat,
                    out@,
                    self.pending@,
                ),
                self.resample_accumulator == resampled(
                    acc0,
                    self.target_rate,
                    self.source_rate,
                    done,
                ).1,
                self.source_rate == old(self).source_rate,
                self.target_rate == old(self).target_rate,
                self.chunk_samples == old(self).chunk_samples,
            decreases samples.len() - i,
        {
            let k = if samples.len() - i < c {
                samples.len() - i
            } else {
                c
            };
            let avg = frame_average_u16(samples, i, k);
            let ghost rest = samples@.skip(i as int);
            proof {
                assert(rest.take(k as int) =~= samples@.subrange(i as int, i + k));
                assert(rest.skip(k as int) =~= samples@.skip(i + k));
                assert(mono_u16(rest, c as nat) == seq![avg] + mono_u16(
                    samples@.skip(i + k),
                    c as nat,
                ));
                lemma_resampled_push(acc0, self.target_rate, self.source_rate, done, avg);
            }
            let ghost q = p0 + resampled(acc0, self.target_rate, self.source_rate, done).0;
            self.resample_push(avg, &mut out, Ghost(q));
            proof {
                let (prev, a) = resampled(acc0, self.target_rate, self.source_rate, done);
                let (one, a2) = resampled(a, self.target_rate, self.source_rate, seq![avg]);
                assert(q + one =~= p0 + (prev + one));
                assert(done.push(avg) + mono_u16(samples@.skip(i + k), c as nat) =~= done + (seq![
                    avg,
                ] + mono_u16(samples@.skip(i + k), c as nat)));
                done = done.push(avg);
            }
            i = i + k;
        }
        proof {
            assert(mono_u16(samples@.skip(i as int), c as nat) =~= Seq::<i16>::empty());
            assert(done + Seq::<i16>::empty() =~= done);
        }
        out
    }
}

/// Every chunk that leaves the chunker holds exactly `c` samples, two bytes
/// each, and no sample is lost or duplicated: the chunks followed by what is
/// pending are the whole stream.
pub proof fn lemma_chunks_have_fixed_size(q: Seq<i16>, c: nat, out: Seq<Vec<u8>>, pending: Seq<i16>, j: int)
    requires
        chunked(q, c, out, pending),
        0 <= j < out.len(),
    ensures
        out[j]@.len() == 2 * c,
        out.len() * c + pending.len() == q.len(),
{
    assert(j * c + c <= out.len() * c) by (nonlinear_arith)
        requires
            0 <= j < out.len(),
    ;
    lemma_le_bytes_len(q.subrange(j * c, j * c + c));
}

/// At equal rates the resampler passes every sample through exactly once and
/// its accumulator stays at zero.
pub proof fn lemma_equal_rates_pass_through(rate: u32, input: Seq<i16>)
    requires
        rate >= 1,
    ensures
        resampled(0, rate, rate, input) == (input, 0u32),
    decreases input.len(),
{
    if input.len() > 0 {
        lemma_equal_rates_pass_through(rate, input.drop_last());
        let blk = Seq::new((sat_add(0, rate) / rate) as nat, |i: int| input.last());
        assert(sat_add(0, rate) == rate);
        assert(rate / rate == 1 && rate % rate == 0) by (nonlinear_arith)
            requires
                rate >= 1,
        ;
        assert(blk =~= seq![input.last()]);
        assert(input.drop_last() + blk =~= input);
    }
}

} // verus!
