use bilidown::merge::{merge_finish, merge_start, mux_args, MergeStart};
use bilidown::progress::{compute_sample, ProgressTracker};

#[test]
fn downloaded_never_decreases_and_ends_at_total() {
    let chunks: [(u64, u64); 6] = [(100, 10), (0, 20), (250, 150), (50, 160), (600, 400), (0, 401)];
    let total: u64 = chunks.iter().map(|c| c.0).sum();
    let mut t = ProgressTracker::new(total, 0, 2, 100);
    let mut seen = Vec::new();
    for (len, ms) in chunks {
        if let Some(s) = t.record_chunk(len, ms) {
            seen.push(s.downloaded);
        }
    }
    for w in seen.windows(2) {
        assert!(w[0] <= w[1]);
    }
    assert_eq!(seen, vec![100, 350, 1000]);
    let last = t.finish(500);
    assert_eq!(last.downloaded, total);
    assert_eq!(last.percent, 100);
    assert_eq!(last.eta_secs, 0);
}

#[test]
fn sample_formulas() {
    let mut t = ProgressTracker::new(1000, 1, 2, 0);
    let s = t.record_chunk(250, 500).unwrap();
    assert_eq!(s.downloaded, 250);
    assert_eq!(s.total, 1000);
    assert_eq!(s.percent, 25);
    assert_eq!(s.speed, 500);
    assert_eq!(s.eta_secs, 1);
    assert_eq!(s.file_index, 1);
    assert_eq!(s.file_count, 2);
}

#[test]
fn unknown_total_reports_zero_percent_and_eta() {
    let mut t = ProgressTracker::new(0, 0, 2, 0);
    let s = t.record_chunk(4096, 1000).unwrap();
    assert_eq!(s.percent, 0);
    assert_eq!(s.eta_secs, 0);
    assert_eq!(s.speed, 4096);
}

#[test]
fn zero_elapsed_time_has_zero_speed() {
    let t = ProgressTracker::new(100, 0, 1, 0);
    let s = compute_sample(&t, 0);
    assert_eq!(s.speed, 0);
    assert_eq!(s.eta_secs, 0);
}

#[test]
fn muxer_arguments() {
    let args = mux_args("d/n_video.m4s", "d/n_audio.m4s", "d/n.mp4");
    let expected = [
        "-i", "d/n_video.m4s", "-i", "d/n_audio.m4s", "-c:v", "copy", "-c:a", "copy", "-shortest",
        "-map", "0:v", "-map", "1:a", "-y", "-movflags", "+faststart", "d/n.mp4", "-hide_banner",
        "-stats", "-loglevel", "error",
    ];
    assert_eq!(args, expected);
}

#[test]
fn existing_output_skips_the_muxer() {
    assert!(matches!(merge_start(true, "v", "a", "o"), MergeStart::AlreadyDone));
    match merge_start(false, "v", "a", "o") {
        MergeStart::RunMuxer(args) => assert_eq!(args[16], "o"),
        MergeStart::AlreadyDone => panic!("muxer skipped"),
    }
}

#[test]
fn merge_twice_leaves_the_output_alone() {
    let first = merge_start(false, "v", "a", "o");
    assert!(matches!(first, MergeStart::RunMuxer(_)));
    assert!(merge_finish(Ok(true)).is_ok());
    let second = merge_start(true, "v", "a", "o");
    assert!(matches!(second, MergeStart::AlreadyDone));
}

#[test]
fn failed_muxer_is_a_merge_error() {
    let e = merge_finish(Ok(false)).unwrap_err();
    assert!(matches!(e, bilidown::error::TaskError::Merge(_)));
    let e = merge_finish(Err("spawn failed".to_string())).unwrap_err();
    assert_eq!(e.message(), "merge failed: spawn failed");
}
