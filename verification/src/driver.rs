//! Whole-transfer semantics: what a run over a complete chunk sequence
//! appends and reports, independent of how the stream was cut into chunks.

use vstd::prelude::*;

use crate::negotiate::{plan_wf, spec_negotiate, start_offset, Negotiation, NegotiationPlan};
use crate::outcome::DownloadOutcome;
use crate::transfer::{append_bytes, clone_bytes, monotone, ChunkAction, Transfer};

verus! {

/// The views of a vector of chunks, in arrival order.
pub open spec fn chunk_views(chunks: Seq<Vec<u8>>) -> Seq<Seq<u8>> {
    chunks.map_values(|c: Vec<u8>| c@)
}

/// The concatenation of a sequence of chunks, in arrival order.
pub open spec fn flatten_chunks(chunks: Seq<Seq<u8>>) -> Seq<u8>
    decreases chunks.len(),
{
    if chunks.len() == 0 {
        Seq::empty()
    } else {
        flatten_chunks(chunks.drop_last()) + chunks.last()
    }
}

/// Flattening one more chunk appends that chunk's bytes.
pub proof fn lemma_flatten_step(chunks: Seq<Seq<u8>>, i: int)
    requires
        0 <= i < chunks.len(),
    ensures
        flatten_chunks(chunks.take(i + 1)) == flatten_chunks(chunks.take(i)) + chunks[i],
{
    assert(chunks.take(i + 1).drop_last() =~= chunks.take(i));
    assert(chunks.take(i + 1).last() == chunks[i]);
}

/// The flattening of a chunk sequence splits at any chunk boundary.
pub proof fn lemma_flatten_split(chunks: Seq<Seq<u8>>, i: int)
    requires
        0 <= i <= chunks.len(),
    ensures
        flatten_chunks(chunks) == flatten_chunks(chunks.take(i)) + flatten_chunks(
            chunks.skip(i),
        ),
    decreases chunks.len(),
{
    if i == chunks.len() {
        assert(chunks.take(i) =~= chunks);
        assert(chunks.skip(i) =~= Seq::<Seq<u8>>::empty());
        assert(flatten_chunks(chunks.take(i)) + flatten_chunks(chunks.skip(i))
            =~= flatten_chunks(chunks));
    } else {
        lemma_flatten_split(chunks.drop_last(), i);
        assert(chunks.drop_last().take(i) =~= chunks.take(i));
        assert(chunks.skip(i).drop_last() =~= chunks.drop_last().skip(i));
        assert(chunks.skip(i).last() == chunks.last());
        assert(flatten_chunks(chunks.take(i)) + flatten_chunks(chunks.skip(i)) =~= (
        flatten_chunks(chunks.take(i)) + flatten_chunks(chunks.drop_last().skip(i)))
            + chunks.last());
    }
}

/// Whether the received data completes the tail-overlap comparison and the
/// compared bytes agree with the local tail.
pub open spec fn validation_passes(plan: NegotiationPlan, tail: Seq<u8>, data: Seq<u8>) -> bool {
    data.len() > plan.window_bytes && data.take(plan.window_bytes as int) == tail
}

/// Whether the comparison completes and finds a difference: the one case
/// that aborts with `ChecksumMismatch`. Only the range path validates.
pub open spec fn validation_fails(plan: NegotiationPlan, tail: Seq<u8>, data: Seq<u8>) -> bool {
    plan.use_range && data.len() > plan.window_bytes && data.take(plan.window_bytes as int)
        != tail
}

/// The bytes a transfer over `data` appends to the local file: everything
/// past the validation window on a validated resume, everything on a
/// restart, and nothing when validation fails or never completes.
pub open spec fn spec_appended(plan: NegotiationPlan, tail: Seq<u8>, data: Seq<u8>) -> Seq<u8> {
    if !plan.use_range {
        data
    } else if validation_passes(plan, tail, data) {
        data.skip(plan.window_bytes as int)
    } else {
        Seq::empty()
    }
}

/// Whether the final byte count of the transfer fits the progress counter.
pub open spec fn counter_fits(plan: NegotiationPlan, tail: Seq<u8>, data: Seq<u8>) -> bool {
    start_offset(plan) + spec_appended(plan, tail, data).len() <= u64::MAX
}

/// Everything one complete run produced: the outcome handed to the caller,
/// the bytes appended to the local file, and the reported progress values.
pub struct TransferRun {
    pub outcome: DownloadOutcome,
    pub appended: Vec<u8>,
    pub progress: Vec<u64>,
}

/// Drive one transfer over a complete sequence of body chunks.
///
/// The result depends only on the concatenation of the chunks, never on how
/// the stream was cut: a difference inside the validation window aborts with
/// `ChecksumMismatch` and appends nothing; a validated resume appends
/// exactly the bytes past the window; a restart appends everything. The
/// progress values never decrease, start at the resume offset, and end at
/// the final local size.
pub fn run_transfer(plan: NegotiationPlan, local_tail: &Vec<u8>, chunks: &Vec<Vec<u8>>) -> (r:
    TransferRun)
    requires
        plan_wf(plan),
        plan.use_range ==> local_tail@.len() == plan.window_bytes,
    ensures
        ({
            let data = flatten_chunks(chunk_views(chunks@));
            let tail = local_tail@;
            &&& r.progress@.len() >= 1
            &&& r.progress@.first() == start_offset(plan)
            &&& monotone(r.progress@)
            &&& validation_fails(plan, tail, data) ==> {
                &&& r.outcome == DownloadOutcome::ChecksumMismatch
                &&& r.appended@ == Seq::<u8>::empty()
                &&& r.progress@ == seq![start_offset(plan)]
            }
            &&& !validation_fails(plan, tail, data) && counter_fits(plan, tail, data) ==> {
                &&& r.outcome == DownloadOutcome::Success(
                    (start_offset(plan) + spec_appended(plan, tail, data).len()) as u64,
                )
                &&& r.appended@ == spec_appended(plan, tail, data)
                &&& r.progress@.last() == start_offset(plan) + spec_appended(
                    plan,
                    tail,
                    data,
                ).len()
            }
            &&& !validation_fails(plan, tail, data) && !counter_fits(plan, tail, data)
                ==> r.outcome matches DownloadOutcome::TransportError(_)
        }),
{
    let ghost all = chunk_views(chunks@);
    let ghost data = flatten_chunks(all);
    let ghost tail = local_tail@;
    let (mut t, first) = Transfer::begin(plan, clone_bytes(local_tail));
    let mut appended: Vec<u8> = Vec::new();
    let mut progress: Vec<u64> = Vec::new();
    progress.push(first.downloaded_bytes);
    let mut i: usize = 0;
    while i < chunks.len()
        invariant
            i <= chunks.len(),
            all == chunk_views(chunks@),
            tail == local_tail@,
            data == flatten_chunks(all),
            t.wf(),
            !t.failed,
            t.plan == plan,
            t.local_tail@ == tail,
            t.received@ == flatten_chunks(all.take(i as int)),
            appended@ == t.written@,
            progress@ == t.emitted@,
        decreases chunks.len() - i,
    {
        proof {
            lemma_flatten_step(all, i as int);
            assert(all[i as int] == chunks@[i as int]@);
        }
        let ghost pre = t;
        match t.on_chunk(&chunks[i]) {
            ChunkAction::Buffered => {},
            ChunkAction::Write(bytes, ev) => {
                append_bytes(&mut appended, &bytes);
                progress.push(ev.downloaded_bytes);
                proof {
                    assert(appended@ =~= t.written@);
                }
            },
            ChunkAction::Mismatch => {
                proof {
                    lemma_flatten_split(all, i as int + 1);
                    let w = plan.window_bytes as int;
                    assert(data.take(w) =~= t.received@.take(w));
                    assert(validation_fails(plan, tail, data));
                }
                return TransferRun {
                    outcome: DownloadOutcome::ChecksumMismatch,
                    appended,
                    progress,
                };
            },
            ChunkAction::Overflow => {
                proof {
                    lemma_flatten_split(all, i as int + 1);
                    let w = plan.window_bytes as int;
                    assert(data.len() >= t.received@.len());
                    if pre.validating {
                        assert(data.take(w) =~= t.received@.take(w));
                        assert(validation_passes(plan, tail, data));
                        assert(!counter_fits(plan, tail, data));
                    } else if plan.use_range {
                        assert(pre.received@.len() > w);
                        assert(data.take(w) =~= pre.received@.take(w));
                        assert(validation_passes(plan, tail, data));
                        assert(spec_appended(plan, tail, data).len() == data.len() - w);
                        assert(!counter_fits(plan, tail, data));
                    } else {
                        assert(!counter_fits(plan, tail, data));
                    }
                }
                return TransferRun {
                    outcome: DownloadOutcome::TransportError(
                        String::from_str("downloaded size exceeds the supported maximum"),
                    ),
                    appended,
                    progress,
                };
            },
        }
        i = i + 1;
    }
    proof {
        assert(all.take(chunks@.len() as int) =~= all);
        let w = plan.window_bytes as int;
        if t.validating {
            assert(!validation_fails(plan, tail, data));
            assert(spec_appended(plan, tail, data) =~= Seq::<u8>::empty());
        } else if plan.use_range {
            assert(validation_passes(plan, tail, data));
            assert(t.written@ == data.skip(w));
        } else {
            assert(t.written@ == data);
        }
    }
    let outcome = t.on_end();
    TransferRun { outcome, appended, progress }
}

/// Law: when the received bytes complete the tail-overlap comparison and
/// differ from the local tail, the transfer ends in `ChecksumMismatch` and
/// the local file is left exactly as it was: nothing is appended, and the
/// range path never truncates.
pub proof fn lemma_mismatch_detection(plan: NegotiationPlan, tail: Seq<u8>, data: Seq<u8>)
    requires
        plan_wf(plan),
        plan.use_range,
        data.len() > plan.window_bytes,
        data.take(plan.window_bytes as int) != tail,
    ensures
        validation_fails(plan, tail, data),
        spec_appended(plan, tail, data) == Seq::<u8>::empty(),
        !plan.truncate,
{
}

/// Law: for a local file that is a true prefix of a larger remote resource,
/// negotiation proceeds; when it resumes, it requests nothing before
/// `local.len() - window`; validation passes; and the bytes appended over
/// the returned range extend the local file to exactly the remote content,
/// with the final size equal to the remote size.
pub proof fn lemma_resume_correctness(remote: Seq<u8>, local: Seq<u8>, supports_ranges: bool)
    requires
        local.len() < remote.len(),
        remote.len() <= u64::MAX,
        local == remote.take(local.len() as int),
    ensures
        spec_negotiate(local.len() as u64, supports_ranges, Some(remote.len() as u64))
            is Proceed,
        ({
            let neg = spec_negotiate(
                local.len() as u64,
                supports_ranges,
                Some(remote.len() as u64),
            );
            neg matches Negotiation::Proceed(plan) ==> {
                let w = plan.window_bytes as int;
                let data = remote.skip(plan.range_start as int);
                let tail = local.skip(local.len() - w);
                &&& plan.use_range ==> plan.range_start == local.len() - w
                &&& !plan.use_range ==> plan.range_start == 0
                &&& !validation_fails(plan, tail, data)
                &&& counter_fits(plan, tail, data)
                &&& (if plan.truncate {
                    spec_appended(plan, tail, data)
                } else {
                    local + spec_appended(plan, tail, data)
                }) == remote
                &&& start_offset(plan) + spec_appended(plan, tail, data).len() == remote.len()
            }
        }),
{
    let m = local.len() as int;
    let n = remote.len() as int;
    let neg = spec_negotiate(local.len() as u64, supports_ranges, Some(remote.len() as u64));
    if let Negotiation::Proceed(plan) = neg {
        let w = plan.window_bytes as int;
        let data = remote.skip(plan.range_start as int);
        let tail = local.skip(m - w);
        if plan.use_range {
            assert(data.take(w) =~= tail);
            assert(validation_passes(plan, tail, data));
            assert(spec_appended(plan, tail, data) =~= remote.skip(m));
            assert(local + remote.skip(m) =~= remote);
        } else {
            assert(data =~= remote);
            assert(spec_appended(plan, tail, data) == remote);
            if !plan.truncate {
                assert(local.len() == 0);
                assert(local + remote =~= remote);
            }
        }
    }
}

} // verus!
