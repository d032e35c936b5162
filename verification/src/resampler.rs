//! The input side of the resampler: planar packets are split into one queue
//! per channel, and the resampler takes fixed-size chunks off the front of
//! all queues at once.
use vstd::prelude::*;
use vstd::arithmetic::div_mod::lemma_fundamental_div_mod_converse;
use crate::audio_output::{frame_pos, lemma_next_frame_fits};

verus! {

/// The samples that `push_planar` appends to channel `c` out of a planar
/// packet of `channels` channels: the `c`-th of `channels` equal parts.
pub open spec fn planar_part<T>(input: Seq<T>, channels: nat, c: int) -> Seq<T> {
    let part = (input.len() / channels) as int;
    input.subrange(c * part, (c + 1) * part)
}

/// Queues of samples waiting to be resampled, one per channel, all of the
/// same length, taken in chunks of `duration` samples per channel.
pub struct PlanarInput<T> {
    queues: Vec<Vec<T>>,
    duration: usize,
}

impl<T: Copy> PlanarInput<T> {
    /// The queued samples of each channel, oldest first.
    pub closed spec fn queued(&self) -> Seq<Seq<T>> {
        Seq::new(self.queues@.len(), |c: int| self.queues@[c]@)
    }

    /// Number of samples per channel in one chunk.
    pub closed spec fn chunk_len(&self) -> nat {
        self.duration as nat
    }

    /// At least one channel, a non-empty chunk, and queues of equal length.
    pub open spec fn wf(&self) -> bool {
        &&& self.queued().len() > 0
        &&& self.chunk_len() > 0
        &&& forall|c: int|
            0 <= c < self.queued().len() ==> #[trigger] self.queued()[c].len()
                == self.queued()[0].len()
    }

    /// Number of samples queued in each channel.
    pub open spec fn queued_len(&self) -> nat {
        self.queued()[0].len()
    }

    /// Empty queues for `channels` channels, taken in chunks of `duration`.
    pub fn new(channels: usize, duration: usize) -> (r: Self)
        requires
            channels > 0,
            duration > 0,
        ensures
            r.wf(),
            r.chunk_len() == duration,
            r.queued().len() == channels,
            forall|c: int| 0 <= c < channels ==> #[trigger] r.queued()[c].len() == 0,
    {
        let mut queues: Vec<Vec<T>> = Vec::new();
        let mut i: usize = 0;
        while i < channels
            invariant
                i <= channels,
                queues@.len() == i,
                forall|c: int| 0 <= c < i ==> #[trigger] queues@[c]@.len() == 0,
            decreases channels - i,
        {
            queues.push(Vec::new());
            i = i + 1;
        }
        PlanarInput { queues, duration }
    }

    /// Number of channels.
    pub fn channels(&self) -> (n: usize)
        ensures
            n == self.queued().len(),
    {
        self.queues.len()
    }

    /// Number of samples per channel in one chunk.
    pub fn duration(&self) -> (n: usize)
        ensures
            n == self.chunk_len(),
    {
        self.duration
    }

    /// Number of samples queued in each channel.
    pub fn buffered(&self) -> (n: usize)
        requires
            self.wf(),
        ensures
            n == self.queued_len(),
    {
        self.queues[0].len()
    }

    /// Whether a whole chunk is queued.
    pub fn is_ready(&self) -> (ready: bool)
        requires
            self.wf(),
        ensures
            ready == (self.queued_len() >= self.chunk_len()),
    {
        self.queues[0].len() >= self.duration
    }

    /// Appends a planar packet: channel `c` gets the `c`-th of as many equal
    /// parts of `input` as there are channels (a remainder is dropped).
    pub fn push_planar(&mut self, input: &[T])
        requires
            old(self).wf(),
            old(self).queued_len() + input@.len() <= usize::MAX,
        ensures
            final(self).wf(),
            final(self).chunk_len() == old(self).chunk_len(),
            final(self).queued().len() == old(self).queued().len(),
            forall|c: int|
                0 <= c < old(self).queued().len() ==> #[trigger] final(self).queued()[c]
                    == old(self).queued()[c] + planar_part(
                    input@,
                    old(self).queued().len() as nat,
                    c,
                ),
    {
        let n = self.queues.len();
        let part = input.len() / n;
        let ghost old_q = self.queued();
        let ghost nch = n as nat;
        proof {
            assert(part * n <= input@.len()) by (nonlinear_arith)
                requires
                    part == input@.len() / (n as nat),
                    n > 0,
            ;
        }
        let mut c: usize = 0;
        let mut offset: usize = 0;
        while c < n
            invariant
                n == self.queues@.len(),
                n == old_q.len(),
                nch == n,
                n > 0,
                part == input@.len() / nch,
                part * n <= input@.len(),
                input@.len() <= usize::MAX,
                self.duration == old(self).duration,
                self.duration > 0,
                old_q == old(self).queued(),
                old(self).wf(),
                old_q[0].len() + input@.len() <= usize::MAX,
                c <= n,
                offset == c * part,
                forall|k: int|
                    0 <= k < c ==> #[trigger] self.queues@[k]@ == old_q[k] + planar_part(input@, nch, k),
                forall|k: int| c <= k < n ==> #[trigger] self.queues@[k]@ == old_q[k],
            decreases n - c,
        {
            proof {
                assert(offset + part <= part * n) by (nonlinear_arith)
                    requires
                        offset == c * part,
                        c < n,
                        part >= 0,
                ;
            }
            let end = offset + part;
            let mut j: usize = offset;
            let ghost before = self.queues@[c as int]@;
            let ghost outer = self.queues@;
            while j < end
                invariant
                    n == self.queues@.len(),
                    c < n,
                    offset <= j <= end,
                    end <= input@.len(),
                    before == old_q[c as int],
                    old_q[c as int].len() + input@.len() <= usize::MAX,
                    self.queues@[c as int]@ == before + input@.subrange(offset as int, j as int),
                    self.duration == old(self).duration,
                    outer.len() == n,
                    forall|k: int| 0 <= k < n && k != c ==> #[trigger] self.queues@[k] == outer[k],
                decreases end - j,
            {
                let x = input[j];
                self.queues[c].push(x);
                proof {
                    assert(input@.subrange(offset as int, j + 1) =~= input@.subrange(
                        offset as int,
                        j as int,
                    ).push(x));
                }
                j = j + 1;
            }
            proof {
                assert(planar_part(input@, nch, c as int) =~= input@.subrange(
                    offset as int,
                    end as int,
                )) by {
                    assert(c * part + part == (c + 1) * part) by (nonlinear_arith);
                }
                assert((c + 1) * part == c * part + part) by (nonlinear_arith);
            }
            offset = end;
            c = c + 1;
        }
        proof {
            assert forall|k: int| 0 <= k < n implies #[trigger] self.queues@[k]@.len()
                == self.queues@[0]@.len() by {
                assert(planar_part(input@, nch, k).len() == part) by {
                    assert(k * part + part == (k + 1) * part) by (nonlinear_arith);
                    assert((k + 1) * part <= n * part) by (nonlinear_arith)
                        requires
                            k + 1 <= n,
                            part >= 0,
                    ;
                    assert(k * part >= 0) by (nonlinear_arith)
                        requires
                            k >= 0,
                            part >= 0,
                    ;
                }
                assert(planar_part(input@, nch, 0).len() == part) by {
                    assert(part <= n * part) by (nonlinear_arith)
                        requires
                            n >= 1,
                            part >= 0,
                    ;
                }
            }
            assert forall|k: int| 0 <= k < n implies #[trigger] self.queued()[k] == old_q[k]
                + planar_part(input@, nch, k) by {}
        }
    }

    /// Number of silent samples that complete the last chunk of a queue of
    /// `len` samples.
    pub open spec fn pad_len(len: nat, duration: nat) -> nat {
        if len % duration == 0 {
            0
        } else {
            (duration - len % duration) as nat
        }
    }

    /// Pads every queue with `silence` up to the next multiple of the chunk
    /// length, so that what is left can be resampled. Returns `false`, and
    /// changes nothing, when nothing is queued.
    pub fn pad_to_chunk(&mut self, silence: T) -> (padded: bool)
        requires
            old(self).wf(),
            old(self).queued_len() + old(self).chunk_len() <= usize::MAX,
        ensures
            final(self).wf(),
            padded == (old(self).queued_len() > 0),
            final(self).chunk_len() == old(self).chunk_len(),
            final(self).queued().len() == old(self).queued().len(),
            !padded ==> final(self).queued() == old(self).queued(),
            padded ==> forall|c: int|
                0 <= c < old(self).queued().len() ==> #[trigger] final(self).queued()[c]
                    == old(self).queued()[c] + Seq::new(
                    Self::pad_len(old(self).queued_len(), old(self).chunk_len()),
                    |i: int| silence,
                ),
            padded ==> final(self).queued_len() % final(self).chunk_len() == 0,
    {
        let len = self.queues[0].len();
        if len == 0 {
            return false;
        }
        let n = self.queues.len();
        let partial = len % self.duration;
        let pad: usize = if partial != 0 {
            self.duration - partial
        } else {
            0
        };
        let ghost old_q = self.queued();
        let ghost fill = Seq::new(pad as nat, |i: int| silence);
        assert(pad == Self::pad_len(len as nat, self.duration as nat));
        let mut c: usize = 0;
        while c < n
            invariant
                n == self.queues@.len(),
                n == old_q.len(),
                n > 0,
                old_q == old(self).queued(),
                old(self).wf(),
                len == old_q[0].len(),
                pad < self.duration,
                len + self.duration <= usize::MAX,
                self.duration == old(self).duration,
                fill == Seq::new(pad as nat, |i: int| silence),
                c <= n,
                forall|k: int| 0 <= k < c ==> #[trigger] self.queues@[k]@ == old_q[k] + fill,
                forall|k: int| c <= k < n ==> #[trigger] self.queues@[k]@ == old_q[k],
            decreases n - c,
        {
            let ghost outer = self.queues@;
            assert(old_q[c as int].len() == len);
            let mut j: usize = 0;
            while j < pad
                invariant
                    n == self.queues@.len(),
                    c < n,
                    j <= pad,
                    pad < self.duration,
                    len + self.duration <= usize::MAX,
                    old_q[c as int].len() == len,
                    self.duration == old(self).duration,
                    self.queues@[c as int]@ == old_q[c as int] + Seq::new(j as nat, |i: int| silence),
                    outer.len() == n,
                    forall|k: int| 0 <= k < n && k != c ==> #[trigger] self.queues@[k] == outer[k],
                decreases pad - j,
            {
                self.queues[c].push(silence);
                proof {
                    assert(Seq::new((j + 1) as nat, |i: int| silence) =~= Seq::new(
                        j as nat,
                        |i: int| silence,
                    ).push(silence));
                }
                j = j + 1;
            }
            c = c + 1;
        }
        proof {
            assert forall|k: int| 0 <= k < n implies #[trigger] self.queued()[k] == old_q[k]
                + fill by {}
            assert forall|k: int| 0 <= k < n implies #[trigger] self.queues@[k]@.len()
                == self.queues@[0]@.len() by {
                assert(self.queues@[k]@ == old_q[k] + fill);
                assert(self.queues@[0]@ == old_q[0] + fill);
            }
            let d = self.duration as int;
            let l = len as int;
            if l % d != 0 {
                assert((l + (d - l % d)) % d == 0) by (nonlinear_arith)
                    requires
                        d > 0,
                        l >= 0,
                {
                    vstd::arithmetic::div_mod::lemma_fundamental_div_mod(l, d);
                    vstd::arithmetic::div_mod::lemma_fundamental_div_mod_converse(
                        l + (d - l % d),
                        d,
                        l / d + 1,
                        0,
                    );
                }
            }
            assert(self.queued_len() == len + pad);
        }
        true
    }

    /// Removes the oldest chunk from every queue and returns it, one vector
    /// per channel.
    pub fn take_chunk(&mut self) -> (chunk: Vec<Vec<T>>)
        requires
            old(self).wf(),
            old(self).queued_len() >= old(self).chunk_len(),
        ensures
            final(self).wf(),
            final(self).chunk_len() == old(self).chunk_len(),
            final(self).queued().len() == old(self).queued().len(),
            chunk@.len() == old(self).queued().len(),
            forall|c: int|
                0 <= c < old(self).queued().len() ==> #[trigger] chunk@[c]@ == old(
                    self,
                ).queued()[c].take(old(self).chunk_len() as int),
            forall|c: int|
                0 <= c < old(self).queued().len() ==> #[trigger] final(self).queued()[c] == old(
                    self,
                ).queued()[c].skip(old(self).chunk_len() as int),
    {
        let n = self.queues.len();
        let d = self.duration;
        let ghost old_q = self.queued();
        let mut chunk: Vec<Vec<T>> = Vec::new();
        let mut rest: Vec<Vec<T>> = Vec::new();
        let mut c: usize = 0;
        while c < n
            invariant
                n == self.queues@.len(),
                n == old_q.len(),
                old_q == old(self).queued(),
                self.queued() == old_q,
                old(self).wf(),
                d == old(self).duration,
                d <= old_q[0].len(),
                c <= n,
                chunk@.len() == c,
                rest@.len() == c,
                forall|k: int| 0 <= k < c ==> #[trigger] chunk@[k]@ == old_q[k].take(d as int),
                forall|k: int| 0 <= k < c ==> #[trigger] rest@[k]@ == old_q[k].skip(d as int),
            decreases n - c,
        {
            let len = self.queues[c].len();
            assert(old_q[c as int].len() == old_q[0].len());
            let mut head: Vec<T> = Vec::new();
            let mut tail: Vec<T> = Vec::new();
            let mut j: usize = 0;
            while j < len
                invariant
                    n == self.queues@.len(),
                    c < n,
                    self.queued() == old_q,
                    len == old_q[c as int].len(),
                    d <= len,
                    j <= len,
                    j <= d ==> head@ == old_q[c as int].take(j as int) && tail@.len() == 0,
                    j > d ==> head@ == old_q[c as int].take(d as int) && tail@
                        == old_q[c as int].subrange(d as int, j as int),
                decreases len - j,
            {
                let x = self.queues[c][j];
                assert(x == old_q[c as int][j as int]);
                if j < d {
                    head.push(x);
                    assert(old_q[c as int].take(j + 1) =~= old_q[c as int].take(j as int).push(x));
                } else {
                    tail.push(x);
                    assert(old_q[c as int].subrange(d as int, j + 1) =~= old_q[c as int].subrange(
                        d as int,
                        j as int,
                    ).push(x));
                }
                j = j + 1;
            }
            assert(tail@ =~= old_q[c as int].skip(d as int));
            chunk.push(head);
            rest.push(tail);
            c = c + 1;
        }
        self.queues = rest;
        proof {
            assert forall|k: int| 0 <= k < n implies #[trigger] self.queues@[k]@.len()
                == self.queues@[0]@.len() by {
                assert(old_q[k].len() == old_q[0].len());
            }
            assert forall|k: int| 0 <= k < n implies #[trigger] self.queued()[k] == old_q[k].skip(
                d as int,
            ) by {}
        }
        chunk
    }

    /// Removes every whole chunk from the queues, oldest first: chunk `k`
    /// holds, for each channel, the samples `k * d .. (k + 1) * d` of its
    /// queue, `d` the chunk length. Only a partial chunk stays queued.
    pub fn take_all_chunks(&mut self) -> (chunks: Vec<Vec<Vec<T>>>)
        requires
            old(self).wf(),
        ensures
            final(self).wf(),
            final(self).chunk_len() == old(self).chunk_len(),
            final(self).queued().len() == old(self).queued().len(),
            chunks@.len() == old(self).queued_len() / old(self).chunk_len(),
            final(self).queued_len() == old(self).queued_len() % old(self).chunk_len(),
            forall|k: int| 0 <= k < chunks@.len() ==> #[trigger] chunks@[k]@.len() == old(
                self,
            ).queued().len(),
            forall|k: int, c: int|
                0 <= k < chunks@.len() && 0 <= c < old(self).queued().len()
                    ==> #[trigger] chunks@[k]@[c]@ == old(self).queued()[c].subrange(
                    k * old(self).chunk_len(),
                    (k + 1) * old(self).chunk_len(),
                ),
            forall|c: int|
                0 <= c < old(self).queued().len() ==> #[trigger] final(self).queued()[c] == old(
                    self,
                ).queued()[c].skip((chunks@.len() * old(self).chunk_len()) as int),
    {
        let ghost old_q = self.queued();
        let ghost d = self.chunk_len() as int;
        let ghost n = old_q.len();
        let ghost len = old_q[0].len() as int;
        let ghost mut taken: int = 0;
        let mut chunks: Vec<Vec<Vec<T>>> = Vec::new();
        proof {
            assert(chunks@.len() * d == 0) by (nonlinear_arith)
                requires
                    chunks@.len() == 0,
            ;
            assert forall|c: int| 0 <= c < n implies #[trigger] self.queued()[c] == old_q[c].skip(
                0,
            ) by {
                assert(old_q[c].skip(0) =~= old_q[c]);
            }
        }
        while self.is_ready()
            invariant
                self.wf(),
                old_q == old(self).queued(),
                old(self).wf(),
                d == self.chunk_len(),
                d == old(self).chunk_len(),
                n == old_q.len(),
                n == self.queued().len(),
                len == old_q[0].len(),
                taken == chunks@.len() * d,
                0 <= taken <= len,
                self.queued_len() == len - taken,
                forall|c: int| 0 <= c < n ==> #[trigger] self.queued()[c] == old_q[c].skip(taken),
                forall|k: int| 0 <= k < chunks@.len() ==> #[trigger] chunks@[k]@.len() == n,
                forall|k: int, c: int|
                    0 <= k < chunks@.len() && 0 <= c < n ==> #[trigger] chunks@[k]@[c]@
                        == old_q[c].subrange(k * d, (k + 1) * d),
            decreases self.queued_len(),
        {
            let chunk = self.take_chunk();
            proof {
                assert forall|c: int| 0 <= c < n implies #[trigger] chunk@[c]@ == old_q[c].subrange(
                    taken,
                    taken + d,
                ) by {
                    assert(old_q[c].len() == len);
                    assert(old_q[c].skip(taken).take(d) =~= old_q[c].subrange(taken, taken + d));
                }
                assert forall|c: int| 0 <= c < n implies #[trigger] self.queued()[c] == old_q[c].skip(
                    taken + d,
                ) by {
                    assert(old_q[c].len() == len);
                    assert(old_q[c].skip(taken).skip(d) =~= old_q[c].skip(taken + d));
                }
                assert((chunks@.len() + 1) * d == chunks@.len() * d + d) by (nonlinear_arith);
            }
            let ghost k = chunks@.len() as int;
            chunks.push(chunk);
            proof {
                assert(chunks@[k]@ == chunk@);
                taken = taken + d;
            }
        }
        proof {
            let k = chunks@.len() as int;
            lemma_fundamental_div_mod_converse(len, d, k, len - taken);
        }
        chunks
    }
}

/// The first `frames` frames of every channel, laid out frame by frame:
/// frame `f` of channel `c` goes to position `f * n + c`, `n` channels.
pub fn interleave_channels<T: Copy>(channels: &Vec<Vec<T>>, frames: usize) -> (out: Vec<T>)
    requires
        forall|c: int| 0 <= c < channels@.len() ==> #[trigger] channels@[c]@.len() >= frames,
        frames * channels@.len() <= usize::MAX,
    ensures
        out@.len() == frames * channels@.len(),
        forall|f: int, c: int|
            0 <= f < frames && 0 <= c < channels@.len() ==> #[trigger] out@[frame_pos(
                f,
                c,
                channels@.len() as int,
            )] == channels@[c]@[f],
{
    let n = channels.len();
    let ghost ni = n as int;
    let mut out: Vec<T> = Vec::new();
    let mut f: usize = 0;
    while f < frames
        invariant
            n == channels@.len(),
            ni == n as int,
            forall|c: int| 0 <= c < n ==> #[trigger] channels@[c]@.len() >= frames,
            f <= frames,
            out@.len() == f * n,
            forall|j: int| 0 <= j < out@.len() ==> #[trigger] out@[j] == channels@[j % ni]@[j / ni],
        decreases frames - f,
    {
        let mut c: usize = 0;
        while c < n
            invariant
                n == channels@.len(),
                ni == n as int,
                forall|k: int| 0 <= k < n ==> #[trigger] channels@[k]@.len() >= frames,
                f < frames,
                c <= n,
                out@.len() == f * n + c,
                forall|j: int| 0 <= j < out@.len() ==> #[trigger] out@[j] == channels@[j % ni]@[j
                    / ni],
            decreases n - c,
        {
            proof {
                lemma_fundamental_div_mod_converse(f * ni + c, ni, f as int, c as int);
            }
            out.push(channels[c][f]);
            c = c + 1;
        }
        proof {
            if ni > 0 {
                lemma_next_frame_fits(f as int, frames as int, ni);
            } else {
                assert((f + 1) * ni == 0) by (nonlinear_arith)
                    requires
                        ni == 0,
                ;
                assert(f * ni == 0) by (nonlinear_arith)
                    requires
                        ni == 0,
                ;
            }
        }
        f = f + 1;
    }
    proof {
        assert forall|fr: int, c: int| 0 <= fr < frames && 0 <= c < ni implies #[trigger] out@[frame_pos(
            fr,
            c,
            ni,
        )] == channels@[c]@[fr] by {
            lemma_next_frame_fits(fr, frames as int, ni);
            lemma_fundamental_div_mod_converse(frame_pos(fr, c, ni), ni, fr, c);
        }
    }
    out
}

} // verus!
