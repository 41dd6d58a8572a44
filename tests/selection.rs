use bilidown::error::TaskError;
use bilidown::resolution::{label_for_code, parse_code, qn};
use bilidown::selector::{select_audio, select_tracks, select_video, AudioRendition, Manifest, VideoRendition};

fn v(id: i64, bandwidth: u64, url: &str) -> VideoRendition {
    VideoRendition { id, bandwidth, base_url: url.to_string() }
}

fn a(capacity: i64, url: &str) -> AudioRendition {
    AudioRendition { capacity, base_url: url.to_string() }
}

#[test]
fn matching_renditions_win_over_faster_others() {
    let vs = vec![v(80, 900, "a"), v(116, 300, "b"), v(116, 500, "c"), v(64, 2000, "d")];
    assert_eq!(select_video(&vs, Some(116)), Some(2));
}

#[test]
fn no_match_picks_fastest_overall() {
    let vs = vec![v(80, 900, "a"), v(64, 2000, "b"), v(32, 100, "c")];
    assert_eq!(select_video(&vs, Some(125)), Some(1));
}

#[test]
fn video_ties_go_to_the_first() {
    let vs = vec![v(80, 500, "a"), v(80, 500, "b")];
    assert_eq!(select_video(&vs, Some(80)), Some(0));
    assert_eq!(select_video(&vs, None), Some(0));
}

#[test]
fn empty_video_list_selects_nothing() {
    assert_eq!(select_video(&vec![], Some(80)), None);
}

#[test]
fn audio_largest_wins_in_every_order() {
    let orders = [[10, 50, 30], [50, 10, 30], [10, 30, 50], [30, 50, 10], [50, 30, 10], [30, 10, 50]];
    for order in orders {
        let aus: Vec<AudioRendition> = order.iter().map(|&c| a(c, &format!("u{}", c))).collect();
        let i = select_audio(&aus).unwrap();
        assert_eq!(aus[i].capacity, 50);
    }
}

#[test]
fn audio_ties_go_to_the_last() {
    let aus = vec![a(50, "x"), a(50, "y"), a(10, "z")];
    assert_eq!(select_audio(&aus), Some(1));
}

#[test]
fn fallback_to_1080p_when_1080p60_is_missing() {
    let m = Manifest { video: vec![v(80, 100, "v1"), v(80, 300, "v2")], audio: vec![a(5, "au")] };
    let code = parse_code(qn("1080P60"));
    assert_eq!(code, Some(116));
    let t = select_tracks(&m, code).unwrap();
    assert_eq!(t.quality, 80);
    assert_eq!(label_for_code(t.quality), "1080P");
    assert!(t.fallback);
    assert_eq!(t.video_url, "v2");
    assert_eq!(t.audio_url, "au");
}

#[test]
fn exact_quality_is_no_fallback() {
    let m = Manifest { video: vec![v(80, 100, "v1"), v(116, 50, "v2")], audio: vec![a(5, "au")] };
    let t = select_tracks(&m, Some(116)).unwrap();
    assert_eq!(t.quality, 116);
    assert!(!t.fallback);
    assert_eq!(t.video_url, "v2");
}

#[test]
fn unknown_label_degrades_to_fastest_overall() {
    let code = parse_code(qn("potato"));
    assert_eq!(code, None);
    let m = Manifest { video: vec![v(16, 100, "slow"), v(120, 900, "fast")], audio: vec![a(1, "au")] };
    let t = select_tracks(&m, code).unwrap();
    assert_eq!(t.video_url, "fast");
    assert_eq!(t.quality, 120);
    assert!(t.fallback);
}

#[test]
fn empty_lists_are_errors() {
    let m = Manifest { video: vec![], audio: vec![a(1, "au")] };
    assert_eq!(select_tracks(&m, Some(80)).unwrap_err(), TaskError::NoVideoStream);
    let m = Manifest { video: vec![v(80, 1, "v")], audio: vec![] };
    assert_eq!(select_tracks(&m, Some(80)).unwrap_err(), TaskError::NoAudioStream);
}

#[test]
fn manifest_names_the_missing_list() {
    let e = Manifest::from_parts(None, Some(vec![])).unwrap_err();
    assert_eq!(e, TaskError::ManifestParse("video".to_string()));
    let e = Manifest::from_parts(Some(vec![]), None).unwrap_err();
    assert_eq!(e, TaskError::ManifestParse("audio".to_string()));
    let m = Manifest::from_parts(Some(vec![v(1, 2, "x")]), Some(vec![])).unwrap();
    assert_eq!(m.video.len(), 1);
    assert_eq!(m.video[0].base_url, "x");
}
