use shellcaster::downloads::{
    file_name, file_stem, get_file_ext, persist_outcome, resolve_ext, DownloadJob, DownloadMsg, EpData,
    RetryBudget,
};

fn episode(title: &str, url: &str, pubdate: Option<i64>) -> EpData {
    EpData {
        id: 7,
        pod_id: 3,
        title: title.to_string(),
        url: url.to_string(),
        pubdate,
        file_path: None,
    }
}

/// Runs the retry decisions against a transport that fails every time and
/// counts the attempts it sees.
fn attempts_against_failing_transport(budget: usize) -> usize {
    let mut retries = RetryBudget::new(budget);
    let mut attempts = 0;
    loop {
        attempts += 1;
        if retries.record_failure() {
            return attempts;
        }
    }
}

#[test]
fn failing_transport_uses_whole_budget() {
    for budget in 1..=12 {
        assert_eq!(attempts_against_failing_transport(budget), budget);
    }
}

#[test]
fn retry_budget_counts_down() {
    let mut retries = RetryBudget::new(3);
    assert_eq!(retries.remaining(), 3);
    assert!(!retries.record_failure());
    assert_eq!(retries.remaining(), 2);
    assert!(!retries.record_failure());
    assert!(retries.record_failure());
    assert_eq!(retries.remaining(), 0);
}

#[test]
fn mime_table_is_used() {
    let url = "https://example.com/feed/episode.xyz";
    let table = [
        ("audio/3gpp", "3gp"),
        ("audio/aac", "aac"),
        ("audio/x-m4a", "m4a"),
        ("audio/midi", "mid"),
        ("audio/x-midi", "mid"),
        ("audio/mpeg", "mp3"),
        ("audio/ogg", "oga"),
        ("audio/opus", "opus"),
        ("audio/wav", "wav"),
        ("audio/webm", "weba"),
        ("video/quicktime", "mov"),
        ("video/mp4", "mp4"),
        ("video/x-m4v", "m4v"),
    ];
    for (mime, ext) in table {
        assert_eq!(get_file_ext(Some(mime), url), Some(ext));
        assert_eq!(resolve_ext(Some(mime), url), ext);
    }
}

#[test]
fn unknown_mime_falls_back_to_url() {
    assert_eq!(get_file_ext(Some("text/html"), "https://a.b/c/show.ep1.m4a"), Some("m4a"));
    assert_eq!(get_file_ext(None, "https://a.b/c/file.ogg"), Some("ogg"));
    assert_eq!(get_file_ext(None, "https://a.b.c/dir.x/file"), None);
    assert_eq!(resolve_ext(None, "https://a.b.c/dir.x/file"), "mp3");
    assert_eq!(resolve_ext(Some("audio/unknown"), "noslash"), "mp3");
    assert_eq!(resolve_ext(None, ""), "mp3");
    assert_eq!(get_file_ext(None, "plain.wav"), Some("wav"));
}

#[test]
fn scenario_title_with_illegal_characters() {
    let ep = episode("Ep: One/Two", "https://example.com/media/file.mp3", None);
    let name = file_name(&ep.title, &ep.url, Some("audio/mpeg"), ep.pubdate, "", "");
    // ':' and '/' are removed outright, not replaced by anything
    assert_eq!(name.as_deref(), Some("Ep OneTwo.mp3"));
}

#[test]
fn scenario_extension_from_url() {
    let ep = episode("Ep: One/Two", "https://example.com/media/file.m4a", None);
    let name = file_name(&ep.title, &ep.url, None, ep.pubdate, "", "").unwrap();
    assert!(name.ends_with(".m4a"));
    assert_eq!(name, "Ep OneTwo.m4a");
}

#[test]
fn scenario_date_prefix() {
    // 2021-03-04T00:00:00Z
    let ep = episode("Ep: One/Two", "https://example.com/media/file.mp3", Some(1614816000));
    let name = file_name(&ep.title, &ep.url, Some("audio/mpeg"), ep.pubdate, "%Y%m%d-", "").unwrap();
    assert_eq!(name, "20210304-Ep OneTwo.mp3");
    assert!(name[..8].chars().all(|c| c.is_ascii_digit()));
    assert_eq!(&name[8..9], "-");
}

#[test]
fn date_suffix_and_prefix() {
    let name = file_stem("Show", Some(1614816000), "[%Y] ", " (%m-%d)").unwrap();
    assert_eq!(name, "[2021] Show (03-04)");
}

#[test]
fn templates_ignored_without_date() {
    assert_eq!(file_stem("Show", None, "%Y-", "-%d").as_deref(), Some("Show"));
}

#[test]
fn unrenderable_template_gives_no_name() {
    assert_eq!(file_stem("Show", Some(1614816000), "%Q", ""), None);
}

#[test]
fn sanitizing_twice_changes_nothing() {
    for title in ["Ep: One/Two", "a*b?c<d>e|f\"g\\h", "plain title", "tab\there"] {
        let once = file_stem(title, None, "", "").unwrap();
        let twice = file_stem(&once, None, "", "").unwrap();
        assert_eq!(once, twice);
        assert!(!once.chars().any(|c| "/?<>\\:*|\"".contains(c) || c.is_control()));
    }
}

#[test]
fn long_titles_are_truncated() {
    let title = "x".repeat(400);
    let stem = file_stem(&title, None, "", "").unwrap();
    assert_eq!(stem.len(), 255);
}

#[test]
fn persist_outcomes_are_classified() {
    let ep = episode("t", "u", None);
    assert!(matches!(persist_outcome(ep.clone(), false, false), DownloadMsg::FileCreateError(_)));
    assert!(matches!(persist_outcome(ep.clone(), false, true), DownloadMsg::FileCreateError(_)));
    assert!(matches!(persist_outcome(ep.clone(), true, false), DownloadMsg::FileWriteError(_)));
    let done = persist_outcome(ep.clone(), true, true);
    assert!(matches!(done, DownloadMsg::Complete(_)));
    assert!(!done.is_failure());
    assert_eq!(done.episode().id, 7);
    assert!(DownloadMsg::ResponseError(ep.clone()).is_failure());
    assert!(persist_outcome(ep, true, false).is_failure());
}

#[test]
fn job_gives_up_after_budget() {
    for budget in 1..=6 {
        let mut job = DownloadJob::new(episode("t", "https://x/y.mp3", None), budget, String::new(), String::new());
        let mut attempts = 0;
        let msg = loop {
            attempts += 1;
            match job.fetch_failed() {
                Ok(next) => job = next,
                Err(msg) => break msg,
            }
        };
        assert_eq!(attempts, budget);
        assert!(matches!(msg, DownloadMsg::ResponseError(ref ep) if ep.id == 7 && ep.file_path.is_none()));
    }
}

#[test]
fn job_names_and_finishes() {
    let job = DownloadJob::new(
        episode("News: Day/Night", "https://x/feed/item.ogg?x", Some(1614816000)),
        2,
        "%Y-".to_string(),
        "".to_string(),
    );
    assert_eq!(job.url(), "https://x/feed/item.ogg?x");
    assert_eq!(job.target_name(Some("audio/ogg")).as_deref(), Some("2021-News DayNight.oga"));
    let msg = job.finish(Some("/tmp/2021-News DayNight.oga".to_string()), true, false);
    assert!(matches!(msg, DownloadMsg::FileWriteError(_)));
    assert_eq!(msg.episode().file_path.as_deref(), Some("/tmp/2021-News DayNight.oga"));

    let job = DownloadJob::new(episode("a", "u", None), 1, String::new(), String::new());
    let msg = job.finish(None, false, false);
    assert!(matches!(msg, DownloadMsg::FileCreateError(_)));
    assert_eq!(msg.episode().file_path, None);

    let job = DownloadJob::new(episode("a", "u", None), 1, String::new(), String::new());
    assert!(matches!(job.finish(Some("p".to_string()), true, true), DownloadMsg::Complete(_)));
}

#[test]
fn reserved_name_left_by_trailing_trim_is_removed_on_second_pass() {
    let once = file_stem("con .", None, "", "").unwrap();
    assert_eq!(once, "con");
    assert_eq!(file_stem(&once, None, "", "").unwrap(), "");
}
