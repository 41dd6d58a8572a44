use bilidown::config::{referer, user_agent, AppConfig, ConfigState, Cookies};
use bilidown::error::TaskError;
use bilidown::info::{episode_cover, episode_title, episodic_title_pic, short_video_title_pic, Episode, SeasonInfo};
use bilidown::naming::{audio_path, display_name, history_line, output_path, remove_punctuation, video_path};
use bilidown::resolution::parse_int;
use bilidown::text::{int_to_text, str_eq};
use bilidown::video_id::{get_epid_season, trim_str, video_from_trimmed, Route};

#[test]
fn episode_link() {
    let v = get_epid_season("https://www.bilibili.com/bangumi/play/ep733316?spm_id_from=333").unwrap();
    assert_eq!((v.ep_id.as_str(), v.season_id.as_str(), v.bv_id.as_str()), ("733316", "", ""));
    assert_eq!(v.route().unwrap(), Route::Episodic);
}

#[test]
fn season_link_with_trailing_slash_and_spaces() {
    let v = get_epid_season("  https://www.bilibili.com/bangumi/play/ss45969/  ").unwrap();
    assert_eq!(v.season_id, "45969");
    assert_eq!(v.ep_id, "");
}

#[test]
fn short_video_links() {
    let v = get_epid_season("https://www.bilibili.com/video/BV1U3EtzWERY/").unwrap();
    assert_eq!(v.bv_id, "BV1U3EtzWERY");
    let v = get_epid_season("https://b23.tv/bv1abc?x=/y").unwrap();
    assert_eq!(v.bv_id, "BV1abc");
    assert_eq!(v.route().unwrap(), Route::ShortVideo);
}

#[test]
fn repeated_prefix_is_stripped() {
    let v = video_from_trimmed("epep12").unwrap();
    assert_eq!(v.ep_id, "12");
}

#[test]
fn bad_links_are_rejected() {
    assert!(matches!(get_epid_season("https://x.com/av170001"), Err(TaskError::InvalidUrl(_))));
    assert!(matches!(get_epid_season("///"), Err(TaskError::InvalidUrl(_))));
    assert!(matches!(get_epid_season(""), Err(TaskError::InvalidUrl(_))));
}

#[test]
fn bare_prefix_leaves_no_identifier() {
    assert!(matches!(video_from_trimmed("ep"), Err(TaskError::InvalidUrl(_))));
    assert!(matches!(get_epid_season("https://x.com/play/ssss/"), Err(TaskError::InvalidUrl(_))));
    assert_eq!(get_epid_season("bv").unwrap().bv_id, "BV");
}

#[test]
fn unicode_white_space_is_trimmed() {
    let v = get_epid_season("\u{3000}\t https://x.com/play/ss12 \u{a0}\n").unwrap();
    assert_eq!(v.season_id, "12");
}

#[test]
fn signed_episode_ids_are_matched() {
    let eps = vec![
        Episode { ep_id: 1, share_copy: "One".to_string(), cover: String::new() },
        Episode { ep_id: 5, share_copy: "Five".to_string(), cover: String::new() },
        Episode { ep_id: -3, share_copy: "Minus".to_string(), cover: String::new() },
    ];
    assert_eq!(episode_title(&eps, "+5"), "Five");
    assert_eq!(episode_title(&eps, "-3"), "Minus");
    assert_eq!(episode_title(&eps, "+-5"), "One");
}

#[test]
fn signed_integers_parse_as_i64() {
    assert_eq!(parse_int("-9223372036854775808"), Some(i64::MIN));
    assert_eq!(parse_int("+9223372036854775807"), Some(i64::MAX));
    assert_eq!(parse_int("9223372036854775808"), None);
    assert_eq!(parse_int("-"), None);
    assert_eq!(parse_int(""), None);
    assert_eq!(parse_int("007"), Some(7));
}

#[test]
fn punctuation_is_removed() {
    assert_eq!(remove_punctuation("a<b>c:d\"e/f\\g|h?i*j"), "abcdefghij");
    assert_eq!(remove_punctuation("第1话 你好"), "第1话 你好");
    assert_eq!(remove_punctuation(""), "");
}

#[test]
fn file_names() {
    let name = display_name("Show", "720P");
    assert_eq!(name, "Show 720P");
    assert_eq!(video_path("dl", &name), "dl/Show 720P_video.m4s");
    assert_eq!(audio_path("dl", &name), "dl/Show 720P_audio.m4s");
    assert_eq!(output_path("dl", &name), "dl/Show 720P.mp4");
    assert_eq!(history_line("2024-01-01 08:00:00", "ep1", "Show 720P"), "2024-01-01 08:00:00\tep1\tShow 720P\t\n");
}

#[test]
fn episode_lookup() {
    let eps = vec![
        Episode { ep_id: 5, share_copy: "Five".to_string(), cover: "c5".to_string() },
        Episode { ep_id: 6, share_copy: "Six".to_string(), cover: "c6".to_string() },
    ];
    assert_eq!(episode_title(&eps, "6"), "Six");
    assert_eq!(episode_cover(&eps, "6"), "c6");
    assert_eq!(episode_title(&eps, "7"), "Five");
    assert_eq!(episode_title(&vec![], "7"), "");
    let info = SeasonInfo { title: "Show: S1".to_string(), cover: "sc".to_string(), episodes: eps };
    assert_eq!(episodic_title_pic(&info, ""), ("Show S1".to_string(), "sc".to_string()));
    assert_eq!(episodic_title_pic(&info, "5"), ("Five".to_string(), "c5".to_string()));
    assert_eq!(short_video_title_pic(&None, &None), ("no title".to_string(), "no pic".to_string()));
}

#[test]
fn config_defaults_and_updates() {
    let c = ConfigState::new(None);
    assert_eq!(c.save_path(), "./download");
    let mut c = ConfigState::new(Some(AppConfig { save_path: "/tmp/x".to_string() }));
    assert_eq!(c.save_path(), "/tmp/x");
    c.set_save_path("/data".to_string());
    assert_eq!(c.config.save_path, "/data");
    assert_eq!(AppConfig::default().save_path, "./download");
}

#[test]
fn session_headers() {
    let mut k = Cookies::empty();
    assert_eq!(k.cookie_header(), "SESSDATA=");
    k.SESSDATA = "abc".to_string();
    assert_eq!(k.cookie_header(), "SESSDATA=abc");
    assert!(user_agent().starts_with("Mozilla/5.0"));
    assert_eq!(referer(), "https://www.bilibili.com");
}

#[test]
fn small_text_helpers() {
    assert_eq!(int_to_text(0), "0");
    assert_eq!(int_to_text(-42), "-42");
    assert_eq!(int_to_text(i64::MIN), "-9223372036854775808");
    assert!(str_eq("ab", "ab"));
    assert!(!str_eq("ab", "abc"));
}

#[test]
fn error_messages() {
    assert_eq!(TaskError::NoVideoStream.message(), "no video stream");
    assert_eq!(TaskError::ManifestParse("audio".to_string()).message(), "manifest field missing: audio");
    assert_eq!(TaskError::Download("reset".to_string()).message(), "download failed: reset");
}

#[test]
fn trimming_matches_std() {
    for t in ["", "   ", " a b ", "\u{2000}x\u{200a}", "\u{200b}y\u{200b}", "\r\nz\u{85}"] {
        assert_eq!(trim_str(t), t.trim());
    }
}
