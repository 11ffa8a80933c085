//! The transfer engine: tail-overlap validation of the resume point and
//! chunk-by-chunk accounting of appended bytes and progress reports.
//!
//! The engine is a state machine over plain values. The caller performs the
//! actual network reads and disk writes; it feeds each arriving body chunk to
//! [`Transfer::on_chunk`] and obeys the returned action (buffer, append
//! bytes and report progress, or abort). The machine never hands out a byte
//! whose preceding validation window failed comparison, and its progress
//! counter never decreases.

use vstd::prelude::*;

use crate::negotiate::{plan_wf, start_offset, NegotiationPlan};
use crate::outcome::{DownloadOutcome, ProgressEvent};

verus! {

/// A sequence of progress values that never decreases.
pub open spec fn monotone(s: Seq<u64>) -> bool {
    forall|i: int, j: int| 0 <= i <= j < s.len() ==> s[i] <= s[j]
}

/// Copy a byte vector. Used where a chunk is both handed back to the caller
/// for writing and retained in the accounting.
pub(crate) fn clone_bytes(v: &Vec<u8>) -> (r: Vec<u8>)
    ensures
        r@ == v@,
{
    let mut r: Vec<u8> = Vec::new();
    let mut i: usize = 0;
    while i < v.len()
        invariant
            i <= v.len(),
            r@ == v@.take(i as int),
        decreases v.len() - i,
    {
        proof {
            assert(v@.take((i + 1) as int) =~= v@.take(i as int).push(v@[i as int]));
        }
        r.push(v[i]);
        i = i + 1;
    }
    proof {
        assert(r@ =~= v@);
    }
    r
}

/// Append the bytes of `src` to `dst`.
pub(crate) fn append_bytes(dst: &mut Vec<u8>, src: &Vec<u8>)
    ensures
        final(dst)@ == old(dst)@ + src@,
{
    let ghost dst0 = old(dst)@;
    let mut i: usize = 0;
    while i < src.len()
        invariant
            i <= src.len(),
            dst@ == dst0 + src@.take(i as int),
        decreases src.len() - i,
    {
        proof {
            assert(dst0 + src@.take((i + 1) as int) =~= (dst0 + src@.take(i as int)).push(
                src@[i as int],
            ));
        }
        dst.push(src[i]);
        i = i + 1;
    }
    proof {
        assert(dst0 + src@.take(src@.len() as int) =~= dst0 + src@);
    }
}

/// Compare the first `w` bytes of `a` against `b`, whose length is `w`.
fn prefix_matches(a: &Vec<u8>, b: &Vec<u8>, w: usize) -> (r: bool)
    requires
        a@.len() >= w,
        b@.len() == w,
    ensures
        r == (a@.take(w as int) == b@),
{
    let mut i: usize = 0;
    while i < w
        invariant
            i <= w,
            a@.len() >= w,
            b@.len() == w,
            forall|k: int| 0 <= k < i ==> a@[k] == b@[k],
        decreases w - i,
    {
        if a[i] != b[i] {
            proof {
                assert(a@.take(w as int)[i as int] != b@[i as int]);
            }
            return false;
        }
        i = i + 1;
    }
    proof {
        assert(a@.take(w as int) =~= b@);
    }
    true
}

/// What the caller must do with one arriving chunk.
pub enum ChunkAction {
    /// The chunk was absorbed into the validation buffer; nothing reaches
    /// the file yet.
    Buffered,
    /// Append the carried bytes to the file, then report the carried
    /// progress event.
    Write(Vec<u8>, ProgressEvent),
    /// The tail-overlap comparison failed: abort with `ChecksumMismatch`
    /// and leave the file untouched.
    Mismatch,
    /// The byte counter cannot represent the transfer any more: abort as a
    /// transport failure. Bytes already written remain valid.
    Overflow,
}

/// One in-flight transfer.
///
/// Ghost fields record the whole history: every byte received, every byte
/// handed out for appending, and every progress value reported. Contracts
/// over them tie the machine to the negotiation plan.
pub struct Transfer {
    /// The plan negotiation built.
    pub plan: NegotiationPlan,
    /// The last `plan.window_bytes` bytes already on disk, read once.
    pub local_tail: Vec<u8>,
    /// Bytes of the re-requested range received so far, while they are
    /// still being compared against `local_tail`.
    pub buffer: Vec<u8>,
    /// Bytes of the remote resource present locally once all writes so far
    /// are flushed; the value reported as progress.
    pub downloaded: u64,
    /// Whether the machine is still accumulating the validation window.
    pub validating: bool,
    /// Whether the transfer was aborted (mismatch or counter overflow).
    pub failed: bool,
    /// History: every body byte received, in arrival order.
    pub received: Ghost<Seq<u8>>,
    /// History: every byte handed out for appending, in order.
    pub written: Ghost<Seq<u8>>,
    /// History: every progress value reported, in order.
    pub emitted: Ghost<Seq<u64>>,
}

impl Transfer {
    /// The machine's invariant, established by [`Transfer::begin`] and
    /// preserved by [`Transfer::on_chunk`].
    pub open spec fn wf(self) -> bool {
        let w = self.plan.window_bytes as int;
        &&& plan_wf(self.plan)
        &&& self.plan.use_range ==> self.local_tail@.len() == w
        &&& self.validating ==> self.plan.use_range
        &&& !self.failed ==> {
            if self.validating {
                &&& self.buffer@ == self.received@
                &&& self.buffer@.len() <= w
                &&& self.written@ == Seq::<u8>::empty()
                &&& self.emitted@ == seq![start_offset(self.plan)]
            } else if self.plan.use_range {
                &&& self.received@.len() > w
                &&& self.received@.take(w) == self.local_tail@
                &&& self.written@ == self.received@.skip(w)
            } else {
                self.written@ == self.received@
            }
        }
        &&& !self.failed ==> self.downloaded == start_offset(self.plan) + self.written@.len()
        &&& !self.failed ==> {
            &&& self.emitted@.len() >= 1
            &&& self.emitted@.first() == start_offset(self.plan)
            &&& self.emitted@.last() == self.downloaded
            &&& monotone(self.emitted@)
        }
    }

    /// Start a transfer under `plan`. `local_tail` holds the last
    /// `plan.window_bytes` bytes already on disk (empty when no validation
    /// will run). The returned event is the initial progress report: the
    /// counter starts at the resume offset and never resets.
    pub fn begin(plan: NegotiationPlan, local_tail: Vec<u8>) -> (r: (Transfer, ProgressEvent))
        requires
            plan_wf(plan),
            plan.use_range ==> local_tail@.len() == plan.window_bytes,
        ensures
            r.0.wf(),
            !r.0.failed,
            r.0.validating == plan.use_range,
            r.0.plan == plan,
            r.0.local_tail@ == local_tail@,
            r.0.received@ == Seq::<u8>::empty(),
            r.0.written@ == Seq::<u8>::empty(),
            r.0.emitted@ == seq![start_offset(plan)],
            r.0.downloaded == start_offset(plan),
            r.1.downloaded_bytes == start_offset(plan),
            r.1.total_bytes == Some(plan.content_length),
    {
        let start: u64 = if plan.use_range {
            plan.local_size
        } else {
            0
        };
        let ghost first_emitted: Seq<u64> = seq![start];
        let t = Transfer {
            plan,
            local_tail,
            buffer: Vec::new(),
            downloaded: start,
            validating: plan.use_range,
            failed: false,
            received: Ghost(Seq::empty()),
            written: Ghost(Seq::empty()),
            emitted: Ghost(first_emitted),
        };
        let ev = ProgressEvent { downloaded_bytes: start, total_bytes: Some(plan.content_length) };
        (t, ev)
    }

    /// Feed one arriving body chunk to the machine.
    ///
    /// While validating, chunks are buffered until more than `window_bytes`
    /// bytes are at hand; then the first `window_bytes` received bytes are
    /// compared against `local_tail`. A difference aborts the transfer with
    /// nothing ever written. On a match, the bytes beyond the window — and,
    /// afterwards, every further chunk — are handed out for appending,
    /// together with a progress event carrying the updated counter.
    pub fn on_chunk(&mut self, chunk: &Vec<u8>) -> (a: ChunkAction)
        requires
            old(self).wf(),
            !old(self).failed,
        ensures
            final(self).wf(),
            final(self).plan == old(self).plan,
            final(self).local_tail@ == old(self).local_tail@,
            final(self).received@ == old(self).received@ + chunk@,
            ({
                let w = old(self).plan.window_bytes as int;
                let r1 = old(self).received@ + chunk@;
                if old(self).validating {
                    if r1.len() <= w {
                        &&& a is Buffered
                        &&& !final(self).failed
                        &&& final(self).validating
                        &&& final(self).downloaded == old(self).downloaded
                        &&& final(self).written@ == old(self).written@
                        &&& final(self).emitted@ == old(self).emitted@
                    } else if r1.take(w) != old(self).local_tail@ {
                        &&& a is Mismatch
                        &&& final(self).failed
                        &&& final(self).written@ == Seq::<u8>::empty()
                        &&& final(self).emitted@ == old(self).emitted@
                    } else if old(self).plan.local_size + r1.len() - w > u64::MAX {
                        &&& a is Overflow
                        &&& final(self).failed
                        &&& final(self).written@ == Seq::<u8>::empty()
                        &&& final(self).emitted@ == old(self).emitted@
                    } else {
                        &&& (a matches ChunkAction::Write(bytes, ev) ==> {
                            &&& bytes@ == r1.skip(w)
                            &&& ev.downloaded_bytes == final(self).downloaded
                            &&& ev.total_bytes == Some(old(self).plan.content_length)
                        })
                        &&& a is Write
                        &&& !final(self).failed
                        &&& !final(self).validating
                        &&& final(self).downloaded == old(self).plan.local_size + r1.len() - w
                        &&& final(self).written@ == r1.skip(w)
                        &&& final(self).emitted@ == old(self).emitted@.push(
                            final(self).downloaded,
                        )
                    }
                } else {
                    if old(self).downloaded + chunk@.len() > u64::MAX {
                        &&& a is Overflow
                        &&& final(self).failed
                        &&& final(self).written@ == old(self).written@
                        &&& final(self).emitted@ == old(self).emitted@
                    } else {
                        &&& (a matches ChunkAction::Write(bytes, ev) ==> {
                            &&& bytes@ == chunk@
                            &&& ev.downloaded_bytes == final(self).downloaded
                            &&& ev.total_bytes == Some(old(self).plan.content_length)
                        })
                        &&& a is Write
                        &&& !final(self).failed
                        &&& !final(self).validating
                        &&& final(self).downloaded == old(self).downloaded + chunk@.len()
                        &&& final(self).written@ == old(self).written@ + chunk@
                        &&& final(self).emitted@ == old(self).emitted@.push(
                            final(self).downloaded,
                        )
                    }
                }
            }),
    {
        self.received = Ghost(self.received@ + chunk@);
        if self.validating {
            append_bytes(&mut self.buffer, chunk);
            let w = self.plan.window_bytes as usize;
            if self.buffer.len() <= w {
                ChunkAction::Buffered
            } else if !prefix_matches(&self.buffer, &self.local_tail, w) {
                self.failed = true;
                ChunkAction::Mismatch
            } else {
                let extra = self.buffer.split_off(w);
                match self.plan.local_size.checked_add(extra.len() as u64) {
                    None => {
                        self.failed = true;
                        ChunkAction::Overflow
                    },
                    Some(d) => {
                        self.downloaded = d;
                        self.validating = false;
                        self.buffer.clear();
                        self.written = Ghost(self.received@.skip(self.plan.window_bytes as int));
                        self.emitted = Ghost(self.emitted@.push(d));
                        proof {
                            assert(self.plan.window_bytes <= 65535);
                            assert(w as int == self.plan.window_bytes as int);
                            assert(self.received@.take(self.plan.window_bytes as int)
                                == self.local_tail@);
                            assert(extra@ =~= self.received@.skip(self.plan.window_bytes as int));
                            assert(self.emitted@.last() == d);
                            assert(monotone(self.emitted@));
                        }
                        let ev = ProgressEvent {
                            downloaded_bytes: d,
                            total_bytes: Some(self.plan.content_length),
                        };
                        ChunkAction::Write(extra, ev)
                    },
                }
            }
        } else {
            match self.downloaded.checked_add(chunk.len() as u64) {
                None => {
                    self.failed = true;
                    ChunkAction::Overflow
                },
                Some(d) => {
                    let out = clone_bytes(chunk);
                    self.downloaded = d;
                    self.written = Ghost(self.written@ + chunk@);
                    self.emitted = Ghost(self.emitted@.push(d));
                    proof {
                        if self.plan.use_range {
                            assert(self.received@.take(self.plan.window_bytes as int) =~= old(
                                self,
                            ).received@.take(self.plan.window_bytes as int));
                            assert(self.received@.skip(self.plan.window_bytes as int) =~= old(
                                self,
                            ).written@ + chunk@);
                        }
                        assert(monotone(self.emitted@));
                    }
                    let ev = ProgressEvent {
                        downloaded_bytes: d,
                        total_bytes: Some(self.plan.content_length),
                    };
                    ChunkAction::Write(out, ev)
                },
            }
        }
    }

    /// The stream is exhausted: the transfer succeeded with the current
    /// counter as the final local size.
    pub fn on_end(&self) -> (r: DownloadOutcome)
        requires
            self.wf(),
            !self.failed,
        ensures
            r == DownloadOutcome::Success(self.downloaded),
    {
        DownloadOutcome::Success(self.downloaded)
    }
}

} // verus!
