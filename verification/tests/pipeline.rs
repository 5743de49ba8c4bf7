use release_notifier::feed::{feed_decision, feed_step, FeedDoc, FeedEntry, FeedEvent};
use release_notifier::gh::{gh_step, GhEvent, GithubRelease};
use release_notifier::input::Input;
use release_notifier::notify::{notify_step, NotifyEvent};
use release_notifier::outcome::{ErrorKind, Outcome, Step};
use release_notifier::source::RepoSource;

fn repo_source() -> RepoSource {
    RepoSource {
        org: "maheshrayas".to_string(),
        repo: "action-release-notifier".to_string(),
        raw: "https://github.com/maheshrayas/action-release-notifier".to_string(),
    }
}

fn release(published_at: &str) -> GithubRelease {
    GithubRelease {
        tag_name: "v1.2.3".to_string(),
        published_at: published_at.to_string(),
        body: "release notes".to_string(),
        html_url: "https://github.com/maheshrayas/action-release-notifier/releases/tag/v1.2.3"
            .to_string(),
    }
}

fn epoch_of(s: &str) -> i64 {
    s.parse::<chrono::DateTime<chrono::Utc>>().unwrap().timestamp()
}

#[test]
fn is_new_matches_window_formula() {
    // with now at 86500 and a one-day window, the cutoff is exactly 100
    assert!(!release_notifier::time::is_new(100, 1, 86500));
    assert!(release_notifier::time::is_new(101, 1, 86500));
    assert!(release_notifier::time::is_new(-5, 2, 86400));
    assert!(!release_notifier::time::is_new(-86401, 1, 0));
    assert!(release_notifier::time::is_new(i64::MAX, 1, 0));
    assert!(!release_notifier::time::is_new(i64::MIN, 1, 0));
}

#[test]
fn check_new_release_at_requires_parsed_timestamp() {
    assert!(!release_notifier::time::check_new_release_at(None, 1, 86500));
    assert!(release_notifier::time::check_new_release_at(Some(101), 1, 86500));
    assert!(!release_notifier::time::check_new_release_at(Some(100), 1, 86500));
}

#[test]
fn check_new_release_invalid_timestamp_is_never_new() {
    let input = Input::new(
        "Github".to_string(),
        "token t".to_string(),
        "r".to_string(),
        1,
        None,
    );
    assert!(!input.check_new_release("not a timestamp".to_string()));
    assert!(!input.check_new_release("".to_string()));
    assert!(!input.check_new_release("2026-13-45T99:99:99Z".to_string()));
}

#[test]
fn check_new_release_accepts_parsed_date_inside_wide_window() {
    let input = Input::new(
        "Github".to_string(),
        "token t".to_string(),
        "r".to_string(),
        100000,
        None,
    );
    // a window of 100000 days reaches back past 1970, so any parseable
    // modern date is new; an unparseable one still is not
    assert!(input.check_new_release("2020-01-01T00:00:00Z".to_string()));
    assert!(!input.check_new_release("garbage".to_string()));
}

#[test]
fn gh_step_release_published_now_is_created() {
    let ts = "2026-10-12T00:00:00Z";
    let now = epoch_of(ts);
    let ev = GhEvent::Response {
        status: 200,
        release: Some(release(ts)),
    };
    let step = gh_step(&repo_source(), ev, 1, now);
    match step {
        Step::Notify(task) => {
            assert_eq!(task.record.title, "action-release-notifier v1.2.3");
            assert_eq!(task.record.body, "release notes");
            assert_eq!(
                task.record.link,
                "https://github.com/maheshrayas/action-release-notifier/releases/tag/v1.2.3"
            );
            assert_eq!(task.record.published_at, now);
            assert_eq!(task.display_name, "action-release-notifier");
            assert_eq!(task.version, "v1.2.3");
            let outcome = notify_step(NotifyEvent::Status(201), task.record);
            match outcome {
                Outcome::Created(rec) => {
                    assert_eq!(rec.title, "action-release-notifier v1.2.3")
                }
                other => panic!("expected Created, got {:?}", other),
            }
        }
        other => panic!("expected Notify, got {:?}", other),
    }
}

#[test]
fn gh_step_release_ten_days_old_is_no_new_release() {
    let ts = "2026-10-12T00:00:00Z";
    let now = epoch_of(ts) + 10 * 86400;
    let ev = GhEvent::Response {
        status: 200,
        release: Some(release(ts)),
    };
    let step = gh_step(&repo_source(), ev, 1, now);
    assert!(matches!(step, Step::Done(Outcome::NoNewRelease)));
}

#[test]
fn gh_step_unparseable_timestamp_fails_open() {
    let ev = GhEvent::Response {
        status: 200,
        release: Some(release("not a timestamp")),
    };
    let step = gh_step(&repo_source(), ev, 1, 0);
    assert!(matches!(step, Step::Done(Outcome::NoNewRelease)));
}

#[test]
fn gh_step_payload_too_large_is_no_new_release() {
    let ev = GhEvent::Response {
        status: 413,
        release: None,
    };
    let step = gh_step(&repo_source(), ev, 1, 0);
    assert!(matches!(step, Step::Done(Outcome::NoNewRelease)));
}

#[test]
fn gh_step_other_status_is_fetch_error() {
    let ev = GhEvent::Response {
        status: 404,
        release: None,
    };
    let step = gh_step(&repo_source(), ev, 1, 0);
    match step {
        Step::Done(Outcome::Failed(kind, detail)) => {
            assert_eq!(kind, ErrorKind::FetchError);
            assert_eq!(detail, "404");
        }
        other => panic!("expected Failed, got {:?}", other),
    }
}

#[test]
fn gh_step_unreadable_body_is_deserialization_error() {
    let ev = GhEvent::Response {
        status: 200,
        release: None,
    };
    let step = gh_step(&repo_source(), ev, 1, 0);
    match step {
        Step::Done(Outcome::Failed(kind, detail)) => {
            assert_eq!(kind, ErrorKind::DeserializationError);
            assert_eq!(detail, "invalid release response");
        }
        other => panic!("expected Failed, got {:?}", other),
    }
}

#[test]
fn gh_step_transport_failure_is_fetch_error() {
    let ev = GhEvent::Transport("connection refused".to_string());
    let step = gh_step(&repo_source(), ev, 1, 0);
    match step {
        Step::Done(Outcome::Failed(kind, detail)) => {
            assert_eq!(kind, ErrorKind::FetchError);
            assert_eq!(detail, "connection refused");
        }
        other => panic!("expected Failed, got {:?}", other),
    }
}

fn entry(updated: Option<i64>, link: &str) -> FeedEntry {
    FeedEntry {
        updated,
        content_body: Some("<p>notes</p>".to_string()),
        links: vec![link.to_string()],
    }
}

#[test]
fn feed_decision_picks_first_of_tied_entries() {
    let t = 1000000;
    let doc = FeedDoc {
        title: Some("Release notes".to_string()),
        updated: Some(t),
        entries: vec![
            entry(Some(t), "https://example.com/e1"),
            entry(Some(t), "https://example.com/e2"),
            entry(Some(t - 1), "https://example.com/e3"),
        ],
    };
    let step = feed_decision(&doc, 1, t);
    match step {
        Step::Notify(task) => {
            assert_eq!(task.record.link, "https://example.com/e1");
            assert_eq!(task.record.title, "Release notes");
            assert_eq!(task.record.published_at, t);
            assert_eq!(task.display_name, "Release notes");
            assert_eq!(task.version, "");
        }
        other => panic!("expected Notify, got {:?}", other),
    }
}

#[test]
fn feed_decision_no_tied_entry_is_no_new_release() {
    let t = 1000000;
    let doc = FeedDoc {
        title: Some("Release notes".to_string()),
        updated: Some(t),
        entries: vec![entry(Some(t - 1), "https://example.com/e1")],
    };
    let step = feed_decision(&doc, 1, t);
    assert!(matches!(step, Step::Done(Outcome::NoNewRelease)));
}

#[test]
fn feed_decision_missing_updated_is_no_new_release() {
    let doc = FeedDoc {
        title: Some("Release notes".to_string()),
        updated: None,
        entries: vec![entry(Some(5), "https://example.com/e1")],
    };
    let step = feed_decision(&doc, 1, 0);
    assert!(matches!(step, Step::Done(Outcome::NoNewRelease)));
}

#[test]
fn feed_step_document_without_updated_is_no_new_release() {
    let xml = b"<rss version=\"2.0\"><channel>\
        <title>Example</title>\
        <link>https://example.com</link>\
        <description>an example feed</description>\
        <item><title>one</title><link>https://example.com/one</link></item>\
        </channel></rss>";
    let step = feed_step(FeedEvent::Body(xml.to_vec()), 1, 0);
    assert!(matches!(step, Step::Done(Outcome::NoNewRelease)));
}

#[test]
fn feed_step_atom_document_selects_entry_and_renders_markdown() {
    let updated = "2026-10-12T00:00:00Z";
    let now = epoch_of(updated);
    let xml = format!(
        "<?xml version=\"1.0\" encoding=\"utf-8\"?>\
        <feed xmlns=\"http://www.w3.org/2005/Atom\">\
        <title>Example Feed</title>\
        <id>urn:example:feed</id>\
        <updated>{u}</updated>\
        <entry>\
        <title>release one</title>\
        <id>urn:example:e1</id>\
        <updated>{u}</updated>\
        <link href=\"https://example.com/one\"/>\
        <content type=\"html\">&lt;b&gt;hello&lt;/b&gt;</content>\
        </entry>\
        </feed>",
        u = updated
    );
    let step = feed_step(FeedEvent::Body(xml.into_bytes()), 1, now);
    match step {
        Step::Notify(task) => {
            assert_eq!(task.record.title, "Example Feed");
            assert_eq!(task.record.link, "https://example.com/one");
            assert_eq!(task.record.published_at, now);
            assert_eq!(task.record.body, "**hello**");
            assert_eq!(task.version, "");
        }
        other => panic!("expected Notify, got {:?}", other),
    }
}

#[test]
fn feed_step_unparseable_document_is_deserialization_error() {
    let step = feed_step(FeedEvent::Body(b"this is not xml".to_vec()), 1, 0);
    match step {
        Step::Done(Outcome::Failed(kind, detail)) => {
            assert_eq!(kind, ErrorKind::DeserializationError);
            assert_eq!(detail, "invalid feed document");
        }
        other => panic!("expected Failed, got {:?}", other),
    }
}

#[test]
fn feed_step_transport_failure_is_fetch_error() {
    let step = feed_step(FeedEvent::Transport("timed out".to_string()), 1, 0);
    match step {
        Step::Done(Outcome::Failed(kind, detail)) => {
            assert_eq!(kind, ErrorKind::FetchError);
            assert_eq!(detail, "timed out");
        }
        other => panic!("expected Failed, got {:?}", other),
    }
}

fn record() -> release_notifier::outcome::ReleaseRecord {
    release_notifier::outcome::ReleaseRecord {
        title: "x v1".to_string(),
        body: "b".to_string(),
        link: "https://example.com".to_string(),
        published_at: 7,
    }
}

#[test]
fn notify_step_created_on_201() {
    match notify_step(NotifyEvent::Status(201), record()) {
        Outcome::Created(rec) => assert_eq!(rec.title, "x v1"),
        other => panic!("expected Created, got {:?}", other),
    }
}

#[test]
fn notify_step_500_is_notify_error() {
    match notify_step(NotifyEvent::Status(500), record()) {
        Outcome::Failed(kind, detail) => {
            assert_eq!(kind, ErrorKind::NotifyError);
            assert_eq!(detail, "500");
        }
        other => panic!("expected Failed, got {:?}", other),
    }
}

#[test]
fn notify_step_transport_failure_is_notify_error() {
    match notify_step(NotifyEvent::Transport("broken pipe".to_string()), record()) {
        Outcome::Failed(kind, detail) => {
            assert_eq!(kind, ErrorKind::NotifyError);
            assert_eq!(detail, "broken pipe");
        }
        other => panic!("expected Failed, got {:?}", other),
    }
}
