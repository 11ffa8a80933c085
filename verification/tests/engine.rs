use refetch::driver::{run_transfer, TransferRun};
use refetch::negotiate::{negotiate, validation_window, Negotiation, NegotiationPlan};
use refetch::outcome::{status_is_blocked, DownloadOutcome, ECode};
use refetch::text::range_header_value;
use refetch::transfer::{ChunkAction, Transfer};

fn remote_bytes(n: usize) -> Vec<u8> {
    let mut v = Vec::with_capacity(n);
    for i in 0..n {
        v.push(((i * 31 + 7) % 256) as u8);
    }
    v
}

fn proceed(local_size: u64, ranges: bool, content_length: u64) -> NegotiationPlan {
    match negotiate(local_size, ranges, Some(content_length)) {
        Negotiation::Proceed(plan) => plan,
        Negotiation::Terminal(_) => panic!("expected a plan"),
    }
}

fn chunked(data: &[u8], step: usize) -> Vec<Vec<u8>> {
    let mut chunks = Vec::new();
    let mut i = 0;
    while i < data.len() {
        let end = usize::min(i + step, data.len());
        chunks.push(data[i..end].to_vec());
        i = end;
    }
    chunks
}

#[test]
fn already_complete_when_sizes_match() {
    let n = negotiate(100_000, true, Some(100_000));
    assert!(matches!(
        n,
        Negotiation::Terminal(DownloadOutcome::AlreadyComplete)
    ));
}

#[test]
fn oversized_local_file_is_mismatch() {
    let n = negotiate(100_001, true, Some(100_000));
    assert!(matches!(
        n,
        Negotiation::Terminal(DownloadOutcome::ChecksumMismatch)
    ));
    let n = negotiate(1, false, Some(0));
    assert!(matches!(
        n,
        Negotiation::Terminal(DownloadOutcome::ChecksumMismatch)
    ));
}

#[test]
fn missing_content_length_is_ranges_unsupported() {
    let n = negotiate(100_000, true, None);
    assert!(matches!(
        n,
        Negotiation::Terminal(DownloadOutcome::RangesUnsupported)
    ));
    let n = negotiate(0, false, None);
    assert!(matches!(
        n,
        Negotiation::Terminal(DownloadOutcome::RangesUnsupported)
    ));
}

#[test]
fn validation_window_policy() {
    assert_eq!(validation_window(0), 0);
    assert_eq!(validation_window(1), 1);
    assert_eq!(validation_window(40_000), 40_000);
    assert_eq!(validation_window(65_535), 65_535);
    assert_eq!(validation_window(65_536), 65_535);
    assert_eq!(validation_window(u64::MAX), 65_535);
}

#[test]
fn plan_shape_for_resume() {
    let plan = proceed(40_000, true, 100_000);
    assert!(plan.ranges_supported);
    assert!(plan.use_range);
    assert!(!plan.truncate);
    assert_eq!(plan.window_bytes, 40_000);
    assert_eq!(plan.range_start, 0);
    assert_eq!(plan.content_length, 100_000);
    let plan = proceed(90_000, true, 100_000);
    assert_eq!(plan.window_bytes, 65_535);
    assert_eq!(plan.range_start, 90_000 - 65_535);
}

#[test]
fn plan_shape_without_ranges() {
    let plan = proceed(40_000, false, 100_000);
    assert!(!plan.ranges_supported);
    assert!(!plan.use_range);
    assert!(plan.truncate);
    assert_eq!(plan.range_start, 0);
}

#[test]
fn plan_shape_for_empty_local_file() {
    let plan = proceed(0, true, 100_000);
    assert!(plan.ranges_supported);
    assert!(!plan.use_range);
    assert!(!plan.truncate);
    assert_eq!(plan.window_bytes, 0);
    assert_eq!(plan.range_start, 0);
}

#[test]
fn concrete_resume_scenario() {
    // Remote resource of 100,000 bytes; local file holds its first 40,000
    // bytes, so the whole local file is the validation window.
    let remote = remote_bytes(100_000);
    let local = remote[..40_000].to_vec();
    let plan = proceed(40_000, true, 100_000);
    assert_eq!(plan.window_bytes, 40_000);
    assert_eq!(plan.range_start, 0);
    let header = range_header_value(plan.range_start, plan.content_length);
    assert_eq!(header, "bytes=0-100000");

    // The server returns the requested range: here the whole resource.
    let tail = local.clone();
    let chunks = chunked(&remote, 4_096);
    let run: TransferRun = run_transfer(plan, &tail, &chunks);
    match run.outcome {
        DownloadOutcome::Success(total) => assert_eq!(total, 100_000),
        _ => panic!("expected success"),
    }
    assert_eq!(run.appended, remote[40_000..].to_vec());
    // The local file plus the appended bytes is the remote resource.
    let mut rebuilt = local.clone();
    rebuilt.extend_from_slice(&run.appended);
    assert_eq!(rebuilt, remote);
}

#[test]
fn resume_result_does_not_depend_on_chunking() {
    let remote = remote_bytes(10_000);
    let local = remote[..2_000].to_vec();
    let plan = proceed(2_000, true, 10_000);
    for step in [1usize, 7, 1_999, 2_000, 2_001, 9_999, 10_000] {
        let chunks = chunked(&remote, step);
        let run = run_transfer(plan, &local, &chunks);
        match run.outcome {
            DownloadOutcome::Success(total) => assert_eq!(total, 10_000),
            _ => panic!("expected success"),
        }
        assert_eq!(run.appended, remote[2_000..].to_vec());
    }
}

#[test]
fn resume_with_capped_window() {
    // A local file larger than the window cap: only the last 65,535 bytes
    // are compared, and the range starts that far before the local end.
    let remote = remote_bytes(100_000);
    let plan = proceed(70_000, true, 100_000);
    assert_eq!(plan.window_bytes, 65_535);
    assert_eq!(plan.range_start, 70_000 - 65_535);
    let start = plan.range_start as usize;
    let tail = remote[start..70_000].to_vec();
    let chunks = chunked(&remote[start..], 8_192);
    let run = run_transfer(plan, &tail, &chunks);
    match run.outcome {
        DownloadOutcome::Success(total) => assert_eq!(total, 100_000),
        _ => panic!("expected success"),
    }
    assert_eq!(run.appended, remote[70_000..].to_vec());
}

#[test]
fn mismatch_leaves_nothing_written() {
    let remote = remote_bytes(10_000);
    let mut tail = remote[..2_000].to_vec();
    tail[1_234] ^= 0xff; // the local tail differs from the remote range
    let plan = proceed(2_000, true, 10_000);
    let chunks = chunked(&remote, 512);
    let run = run_transfer(plan, &tail, &chunks);
    assert!(matches!(run.outcome, DownloadOutcome::ChecksumMismatch));
    assert!(run.appended.is_empty());
    assert_eq!(run.progress, vec![2_000]);
}

#[test]
fn restart_without_ranges_appends_everything() {
    let remote = remote_bytes(5_000);
    let plan = proceed(3_000, false, 5_000);
    assert!(plan.truncate);
    let chunks = chunked(&remote, 777);
    let run = run_transfer(plan, &Vec::new(), &chunks);
    match run.outcome {
        DownloadOutcome::Success(total) => assert_eq!(total, 5_000),
        _ => panic!("expected success"),
    }
    assert_eq!(run.appended, remote);
    assert_eq!(run.progress.first(), Some(&0));
}

#[test]
fn short_stream_during_validation_appends_nothing() {
    // The stream ends before more than window_bytes bytes arrived: the
    // comparison never completes and nothing is written.
    let remote = remote_bytes(10_000);
    let local = remote[..2_000].to_vec();
    let plan = proceed(2_000, true, 10_000);
    let chunks = chunked(&remote[..2_000], 500);
    let run = run_transfer(plan, &local, &chunks);
    match run.outcome {
        DownloadOutcome::Success(total) => assert_eq!(total, 2_000),
        _ => panic!("expected success"),
    }
    assert!(run.appended.is_empty());
}

#[test]
fn progress_is_monotone_and_ends_at_final_size() {
    let remote = remote_bytes(50_000);
    let local = remote[..10_000].to_vec();
    let plan = proceed(10_000, true, 50_000);
    let chunks = chunked(&remote, 3_000);
    let run = run_transfer(plan, &local, &chunks);
    assert!(!run.progress.is_empty());
    assert_eq!(run.progress[0], 10_000);
    for pair in run.progress.windows(2) {
        assert!(pair[0] <= pair[1]);
    }
    match run.outcome {
        DownloadOutcome::Success(total) => {
            assert_eq!(*run.progress.last().unwrap(), total);
            assert_eq!(total, 50_000);
        }
        _ => panic!("expected success"),
    }
}

#[test]
fn machine_buffers_then_writes_past_window() {
    let plan = proceed(4, true, 10);
    assert_eq!(plan.window_bytes, 4);
    let tail = vec![1u8, 2, 3, 4];
    let (mut t, first) = Transfer::begin(plan, tail);
    assert_eq!(first.downloaded_bytes, 4);
    assert_eq!(first.total_bytes, Some(10));
    match t.on_chunk(&vec![1u8, 2]) {
        ChunkAction::Buffered => {}
        _ => panic!("expected buffering"),
    }
    match t.on_chunk(&vec![3u8, 4, 5, 6]) {
        ChunkAction::Write(bytes, ev) => {
            assert_eq!(bytes, vec![5u8, 6]);
            assert_eq!(ev.downloaded_bytes, 6);
            assert_eq!(ev.total_bytes, Some(10));
        }
        _ => panic!("expected a write"),
    }
    match t.on_chunk(&vec![7u8, 8, 9, 10]) {
        ChunkAction::Write(bytes, ev) => {
            assert_eq!(bytes, vec![7u8, 8, 9, 10]);
            assert_eq!(ev.downloaded_bytes, 10);
        }
        _ => panic!("expected a write"),
    }
    match t.on_end() {
        DownloadOutcome::Success(total) => assert_eq!(total, 10),
        _ => panic!("expected success"),
    }
}

#[test]
fn machine_rejects_differing_window() {
    let plan = proceed(4, true, 10);
    let tail = vec![1u8, 2, 3, 4];
    let (mut t, _) = Transfer::begin(plan, tail);
    match t.on_chunk(&vec![1u8, 2, 9, 4, 5]) {
        ChunkAction::Mismatch => {}
        _ => panic!("expected a mismatch"),
    }
}

#[test]
fn response_triples_are_stable() {
    let r = DownloadOutcome::AlreadyComplete.response();
    assert!(r.status);
    assert_eq!(r.ecode, 0);
    assert_eq!(r.message, "File size equals content-length");

    let r = DownloadOutcome::RangesUnsupported.response();
    assert!(!r.status);
    assert_eq!(r.ecode, 1);
    assert_eq!(r.message, "Server does not support Content-Length");

    let r = DownloadOutcome::ChecksumMismatch.response();
    assert!(!r.status);
    assert_eq!(r.ecode, 2);
    assert_eq!(
        r.message,
        "Unable to verify checksum. File on server is changed"
    );

    let r = DownloadOutcome::Success(42).response();
    assert!(r.status);
    assert_eq!(r.ecode, 3);
    assert_eq!(r.message, "OK");

    let r = DownloadOutcome::TransportError("connection reset".to_string()).response();
    assert!(!r.status);
    assert_eq!(r.ecode, 3);
    assert_eq!(r.message, "connection reset");
}

#[test]
fn ecode_values() {
    assert_eq!(ECode::ContentLengthMatchFileSize.value(), 0);
    assert_eq!(ECode::ContentLengthIsNotSupported.value(), 1);
    assert_eq!(ECode::ChecksumVerificationFailed.value(), 2);
    assert_eq!(ECode::Unknown.value(), 3);
}

#[test]
fn blocked_statuses() {
    assert!(status_is_blocked(404));
    assert!(status_is_blocked(403));
    assert!(!status_is_blocked(200));
    assert!(!status_is_blocked(206));
    assert!(!status_is_blocked(500));
}
