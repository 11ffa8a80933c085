//! Resume negotiation: classify the local/remote size relation and build the
//! parameters of the range request for a resumable transfer.

use vstd::prelude::*;

use crate::outcome::DownloadOutcome;

verus! {

/// Upper bound on the tail-overlap validation window, in bytes.
pub const WINDOW_CAP: u64 = 65535;

/// The validation window used for a local file of the given size: the whole
/// file when it is small, capped at [`WINDOW_CAP`], and zero when there are
/// no local bytes to compare against.
pub open spec fn spec_window(local_size: u64) -> u64 {
    if local_size == 0 {
        0
    } else if local_size > 65535 {
        65535
    } else {
        local_size
    }
}

/// Compute the validation window for a local file of the given size.
pub fn validation_window(local_size: u64) -> (w: u64)
    ensures
        w == spec_window(local_size),
{
    if local_size == 0 {
        0
    } else if local_size > WINDOW_CAP {
        WINDOW_CAP
    } else {
        local_size
    }
}

/// Parameters of a transfer that negotiation decided to carry out.
#[derive(Clone, Copy, Debug)]
pub struct NegotiationPlan {
    /// Size of the local file before the transfer, read once.
    pub local_size: u64,
    /// Remote size from the probe's `Content-Length` header.
    pub content_length: u64,
    /// Whether the probe carried an `Accept-Ranges` header.
    pub ranges_supported: bool,
    /// Size of the tail-overlap validation window.
    pub window_bytes: u64,
    /// First byte offset of the range to request.
    pub range_start: u64,
    /// Whether a `Range` request is issued (ranges supported and a nonzero
    /// window exists); otherwise the whole resource is requested from zero.
    pub use_range: bool,
    /// Whether the local file must be truncated before writing (the server
    /// cannot serve ranges, so the transfer restarts from scratch).
    pub truncate: bool,
}

/// Internal consistency of a plan, as negotiation builds it.
pub open spec fn plan_wf(plan: NegotiationPlan) -> bool {
    &&& plan.local_size < plan.content_length
    &&& plan.window_bytes == spec_window(plan.local_size)
    &&& plan.use_range == (plan.ranges_supported && plan.window_bytes > 0)
    &&& plan.range_start == if plan.use_range {
        (plan.local_size - plan.window_bytes) as u64
    } else {
        0u64
    }
    &&& plan.truncate == !plan.ranges_supported
}

/// The byte offset at which appended bytes will extend the local file, and
/// the starting value of the progress counter: the local size when resuming,
/// zero when the transfer restarts from the beginning.
pub open spec fn start_offset(plan: NegotiationPlan) -> u64 {
    if plan.use_range {
        plan.local_size
    } else {
        0
    }
}

/// What negotiation decided: stop with a terminal outcome, or carry out a
/// transfer with the given parameters.
pub enum Negotiation {
    Terminal(DownloadOutcome),
    Proceed(NegotiationPlan),
}

/// The negotiation decision as a function of the probe results.
pub open spec fn spec_negotiate(
    local_size: u64,
    supports_ranges: bool,
    content_length: Option<u64>,
) -> Negotiation {
    match content_length {
        None => Negotiation::Terminal(DownloadOutcome::RangesUnsupported),
        Some(cl) => if local_size == cl {
            Negotiation::Terminal(DownloadOutcome::AlreadyComplete)
        } else if local_size > cl {
            Negotiation::Terminal(DownloadOutcome::ChecksumMismatch)
        } else {
            Negotiation::Proceed(
                NegotiationPlan {
                    local_size,
                    content_length: cl,
                    ranges_supported: supports_ranges,
                    window_bytes: spec_window(local_size),
                    range_start: if supports_ranges && spec_window(local_size) > 0 {
                        (local_size - spec_window(local_size)) as u64
                    } else {
                        0u64
                    },
                    use_range: supports_ranges && spec_window(local_size) > 0,
                    truncate: !supports_ranges,
                },
            )
        },
    }
}

/// Classify the transfer from the local size and the probe headers.
///
/// A missing `Content-Length` is terminal (`RangesUnsupported`): without it
/// neither a resume point nor completion can be determined. A local file of
/// exactly the remote size is terminal (`AlreadyComplete`). A local file
/// larger than the remote resource cannot be a prefix of it and is terminal
/// (`ChecksumMismatch`). Otherwise a plan is built: a `Range` request
/// starting `window_bytes` before the end of the local file when the server
/// supports ranges and local bytes exist, and a full restart otherwise.
pub fn negotiate(
    local_size: u64,
    supports_ranges: bool,
    content_length: Option<u64>,
) -> (r: Negotiation)
    ensures
        r == spec_negotiate(local_size, supports_ranges, content_length),
{
    match content_length {
        None => Negotiation::Terminal(DownloadOutcome::RangesUnsupported),
        Some(cl) => {
            if local_size == cl {
                Negotiation::Terminal(DownloadOutcome::AlreadyComplete)
            } else if local_size > cl {
                Negotiation::Terminal(DownloadOutcome::ChecksumMismatch)
            } else {
                let window = validation_window(local_size);
                let use_range = supports_ranges && window > 0;
                Negotiation::Proceed(
                    NegotiationPlan {
                        local_size,
                        content_length: cl,
                        ranges_supported: supports_ranges,
                        window_bytes: window,
                        range_start: if use_range {
                            local_size - window
                        } else {
                            0
                        },
                        use_range,
                        truncate: !supports_ranges,
                    },
                )
            }
        },
    }
}

/// Law: when the local file already has exactly the remote length, the
/// negotiation is terminal with `AlreadyComplete`; no plan exists, so no
/// range request is issued and no byte is written.
pub proof fn lemma_completeness_idempotence(local_size: u64, supports_ranges: bool, cl: u64)
    requires
        local_size == cl,
    ensures
        spec_negotiate(local_size, supports_ranges, Some(cl)) == Negotiation::Terminal(
            DownloadOutcome::AlreadyComplete,
        ),
{
}

/// Law: a local file larger than the remote resource is terminal with
/// `ChecksumMismatch`; no plan exists, so nothing beyond the probe is
/// requested and the file is not touched.
pub proof fn lemma_oversized_local_file(local_size: u64, supports_ranges: bool, cl: u64)
    requires
        local_size > cl,
    ensures
        spec_negotiate(local_size, supports_ranges, Some(cl)) == Negotiation::Terminal(
            DownloadOutcome::ChecksumMismatch,
        ),
{
}

/// Law: a probe response without `Content-Length` is terminal with
/// `RangesUnsupported`; no plan exists, so the local file is not mutated.
pub proof fn lemma_missing_length_header(local_size: u64, supports_ranges: bool)
    ensures
        spec_negotiate(local_size, supports_ranges, None) == Negotiation::Terminal(
            DownloadOutcome::RangesUnsupported,
        ),
{
}

} // verus!
