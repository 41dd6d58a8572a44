use bilidown::batch::{effective_label, Batch, TaskResult};
use bilidown::error::TaskError;
use bilidown::info::Episode;
use bilidown::pipeline::{Action, Event, Stage, TaskPipeline};
use bilidown::selector::{AudioRendition, Manifest, VideoRendition};
use bilidown::video_id::{get_epid_season, Route};

fn manifest(id: i64) -> Manifest {
    Manifest {
        video: vec![VideoRendition { id, bandwidth: 10, base_url: "http://v".to_string() }],
        audio: vec![AudioRendition { capacity: 3, base_url: "http://a".to_string() }],
    }
}

fn feed(p: &mut TaskPipeline, ev: Event) -> Action {
    assert!(p.accepts(&ev));
    p.step(ev)
}

#[test]
fn short_video_runs_every_stage_in_order() {
    let video = get_epid_season("https://www.bilibili.com/video/BV1U3EtzWERY/?spm=1").unwrap();
    let (mut p, a) = TaskPipeline::start(video, "1080P60", "out");
    match a {
        Action::FetchShortInfo { bv_id } => assert_eq!(bv_id, "BV1U3EtzWERY"),
        other => panic!("{:?}", other),
    }
    let a = feed(&mut p, Event::ShortInfo { cid: "42".to_string(), title: Some("A<b>c".to_string()) });
    match a {
        Action::FetchManifest { route, id, cid } => {
            assert_eq!(route, Route::ShortVideo);
            assert_eq!(id, "BV1U3EtzWERY");
            assert_eq!(cid, "42");
        }
        other => panic!("{:?}", other),
    }
    match feed(&mut p, Event::Manifest(manifest(80))) {
        Action::CheckOutput { path } => assert_eq!(path, "out/Abc 1080P.mp4"),
        other => panic!("{:?}", other),
    }
    assert!(p.tracks.as_ref().unwrap().fallback);
    assert_eq!(p.name, "Abc 1080P");
    match feed(&mut p, Event::OutputExists(false)) {
        Action::Download { url, path, file_index, file_count } => {
            assert_eq!((url.as_str(), path.as_str(), file_index, file_count), ("http://v", "out/Abc 1080P_video.m4s", 0, 2));
        }
        other => panic!("{:?}", other),
    }
    match feed(&mut p, Event::Downloaded) {
        Action::Download { url, path, file_index, .. } => {
            assert_eq!((url.as_str(), path.as_str(), file_index), ("http://a", "out/Abc 1080P_audio.m4s", 1));
        }
        other => panic!("{:?}", other),
    }
    match feed(&mut p, Event::Downloaded) {
        Action::Merge { video, audio, output } => {
            assert_eq!(video, "out/Abc 1080P_video.m4s");
            assert_eq!(audio, "out/Abc 1080P_audio.m4s");
            assert_eq!(output, "out/Abc 1080P.mp4");
        }
        other => panic!("{:?}", other),
    }
    match feed(&mut p, Event::Merged) {
        Action::AppendHistory { id, name } => {
            assert_eq!(id, "BV1U3EtzWERY");
            assert_eq!(name, "Abc 1080P");
        }
        other => panic!("{:?}", other),
    }
    match feed(&mut p, Event::HistoryAppended) {
        Action::Finish(Ok(title)) => assert_eq!(title, "Abc"),
        other => panic!("{:?}", other),
    }
    assert_eq!(p.stage, Stage::Done);
}

#[test]
fn existing_output_skips_downloads() {
    let video = get_epid_season("bv1xyz").unwrap();
    let (mut p, _) = TaskPipeline::start(video, "1080P", "d");
    feed(&mut p, Event::ShortInfo { cid: "1".to_string(), title: None });
    feed(&mut p, Event::Manifest(manifest(80)));
    match feed(&mut p, Event::OutputExists(true)) {
        Action::AppendHistory { id, name } => {
            assert_eq!(id, "BV1xyz");
            assert_eq!(name, "no title 1080P");
        }
        other => panic!("{:?}", other),
    }
    match feed(&mut p, Event::HistoryAppended) {
        Action::Finish(Ok(title)) => assert_eq!(title, "no title"),
        other => panic!("{:?}", other),
    }
}

#[test]
fn season_downloads_each_episode() {
    let video = get_epid_season("https://www.bilibili.com/bangumi/play/ss77").unwrap();
    let (mut p, a) = TaskPipeline::start(video, "", "d");
    match a {
        Action::FetchEpisodes { ep_id, season_id } => {
            assert_eq!(ep_id, "");
            assert_eq!(season_id, "77");
        }
        other => panic!("{:?}", other),
    }
    let eps = vec![
        Episode { ep_id: 11, share_copy: "One?".to_string(), cover: String::new() },
        Episode { ep_id: 12, share_copy: "Two".to_string(), cover: String::new() },
    ];
    match feed(&mut p, Event::Episodes(Some(eps))) {
        Action::FetchManifest { id, route, .. } => {
            assert_eq!(id, "11");
            assert_eq!(route, Route::Episodic);
        }
        other => panic!("{:?}", other),
    }
    feed(&mut p, Event::Manifest(manifest(64)));
    match feed(&mut p, Event::OutputExists(true)) {
        Action::AppendHistory { id, name } => {
            assert_eq!(id, "ep11");
            assert_eq!(name, "One 720P");
        }
        other => panic!("{:?}", other),
    }
    match feed(&mut p, Event::HistoryAppended) {
        Action::FetchManifest { id, .. } => assert_eq!(id, "12"),
        other => panic!("{:?}", other),
    }
    feed(&mut p, Event::Manifest(manifest(64)));
    feed(&mut p, Event::OutputExists(true));
    match feed(&mut p, Event::HistoryAppended) {
        Action::Finish(Ok(title)) => assert_eq!(title, "Two"),
        other => panic!("{:?}", other),
    }
}

#[test]
fn single_episode_is_titled_from_its_entry() {
    let video = get_epid_season("https://www.bilibili.com/bangumi/play/ep12").unwrap();
    let (mut p, _) = TaskPipeline::start(video, "4K", "d");
    let eps = vec![
        Episode { ep_id: 11, share_copy: "One".to_string(), cover: String::new() },
        Episode { ep_id: 12, share_copy: "Two: end".to_string(), cover: String::new() },
    ];
    feed(&mut p, Event::Episodes(Some(eps)));
    feed(&mut p, Event::Manifest(manifest(120)));
    match feed(&mut p, Event::OutputExists(false)) {
        Action::Download { path, .. } => assert_eq!(path, "d/Two end 4K_video.m4s"),
        other => panic!("{:?}", other),
    }
    feed(&mut p, Event::Downloaded);
    feed(&mut p, Event::Downloaded);
    match feed(&mut p, Event::Merged) {
        Action::AppendHistory { id, name } => {
            assert_eq!(id, "ep12");
            assert_eq!(name, "Two end 4K");
        }
        other => panic!("{:?}", other),
    }
}

#[test]
fn season_without_episode_list_is_a_manifest_error() {
    let video = get_epid_season("ss9").unwrap();
    let (mut p, _) = TaskPipeline::start(video, "4K", "d");
    match feed(&mut p, Event::Episodes(None)) {
        Action::Finish(Err(e)) => assert_eq!(e, TaskError::ManifestParse("episodes".to_string())),
        other => panic!("{:?}", other),
    }
}

#[test]
fn failure_ends_the_task_with_its_error() {
    let video = get_epid_season("BV1abc").unwrap();
    let (mut p, _) = TaskPipeline::start(video, "1080P", "d");
    let a = feed(&mut p, Event::Failed(TaskError::Fetch("timeout".to_string())));
    match a {
        Action::Finish(Err(e)) => assert_eq!(e, TaskError::Fetch("timeout".to_string())),
        other => panic!("{:?}", other),
    }
    assert_eq!(p.stage, Stage::Failed);
    assert!(!p.accepts(&Event::Downloaded));
}

#[test]
fn empty_manifest_fails_with_no_video_stream() {
    let video = get_epid_season("BV1abc").unwrap();
    let (mut p, _) = TaskPipeline::start(video, "1080P", "d");
    feed(&mut p, Event::ShortInfo { cid: "1".to_string(), title: None });
    let a = feed(&mut p, Event::Manifest(Manifest { video: vec![], audio: vec![] }));
    assert!(matches!(a, Action::Finish(Err(TaskError::NoVideoStream))));
}

#[test]
fn batch_keeps_input_order_when_the_second_fails() {
    let mut b = Batch::new(3, 3);
    assert_eq!(b.start_next(), Some(0));
    assert_eq!(b.start_next(), Some(1));
    assert_eq!(b.start_next(), Some(2));
    assert_eq!(b.start_next(), None);
    b.complete(2, Ok("third".to_string()));
    b.complete(1, Err(TaskError::Fetch("refused".to_string())));
    assert!(!b.is_done());
    b.complete(0, Ok("first".to_string()));
    assert!(b.is_done());
    let r = b.into_results();
    assert_eq!(r.len(), 3);
    assert!(r[0].success && r[0].title.as_deref() == Some("first"));
    assert!(!r[1].success && r[1].title.is_none());
    assert_eq!(r[1].message, "下载失败: fetch failed: refused");
    assert!(r[2].success && r[2].title.as_deref() == Some("third"));
    assert_eq!(r[2].message, "下载完成: third");
}

#[test]
fn batch_respects_the_concurrency_bound() {
    let mut b = Batch::new(3, 1);
    assert_eq!(b.start_next(), Some(0));
    assert_eq!(b.start_next(), None);
    b.complete(0, Ok("a".to_string()));
    assert_eq!(b.start_next(), Some(1));
    b.complete(1, Ok("b".to_string()));
    assert_eq!(b.start_next(), Some(2));
    b.complete(2, Ok("c".to_string()));
    assert_eq!(b.start_next(), None);
    assert!(b.is_done());
}

#[test]
fn result_texts() {
    let r = TaskResult::from_outcome(Err(TaskError::NoAudioStream));
    assert_eq!(r.message, "下载失败: no audio stream");
    assert_eq!(effective_label(""), "4K");
    assert_eq!(effective_label("720P"), "720P");
}
