use mpd_webext::config::{download_dir_name, RESCAN_TIME};
use mpd_webext::orchestrator::{import_plan, Action, DownloadError, ImportStep, Orchestration, Phase};
use mpd_webext::uri::{contains_str, is_listed, library_uri};

const URL: &str = "https://example/watch?v=abc";
const FILE: &str = "artist - title [ex-abc].flac";

fn strings(v: &[&str]) -> Vec<String> {
    v.iter().map(|s| s.to_string()).collect()
}

/// Runs a job whose commands all succeed and returns the commands issued.
fn run_to_end(snapshot: Option<Vec<String>>, files: Vec<String>) -> Vec<ImportStep> {
    let (mut o, a) = Orchestration::start(URL.to_string());
    assert!(matches!(a, Action::FetchPlaylist));
    match o.on_playlist(snapshot) {
        Action::RunDownload { url, dir } => {
            assert_eq!(url, URL);
            assert_eq!(dir, download_dir_name());
        }
        other => panic!("unexpected {:?}", other),
    }
    match o.on_download(Some(files)) {
        Action::Rescan { uri } => assert_eq!(uri, download_dir_name()),
        other => panic!("unexpected {:?}", other),
    }
    match o.on_rescan(true) {
        Action::Settle { secs } => assert_eq!(secs, RESCAN_TIME),
        other => panic!("unexpected {:?}", other),
    }
    let mut issued = Vec::new();
    let mut a = o.on_settled();
    loop {
        match a {
            Action::Import(c) => {
                issued.push(c);
                a = o.on_command(true);
            }
            Action::Finished(r) => {
                assert_eq!(r, Ok(()));
                break;
            }
            other => panic!("unexpected {:?}", other),
        }
    }
    assert_eq!(o.phase(), Phase::Done);
    issued
}

fn uri_of(file: &str) -> String {
    format!("{}/{}", download_dir_name(), file)
}

#[test]
fn download_dir_is_playlist_name() {
    assert_eq!(download_dir_name(), "mpd-webext Downloads");
}

#[test]
fn library_uri_joins_with_slash() {
    assert_eq!(library_uri("downloads", "a.flac"), "downloads/a.flac");
    assert_eq!(library_uri("", "a.flac"), "/a.flac");
}

#[test]
fn substring_matching() {
    assert!(contains_str("music/downloads/a.flac", "downloads/a.flac"));
    assert!(contains_str("abc", ""));
    assert!(contains_str("abc", "abc"));
    assert!(!contains_str("abc", "abcd"));
    assert!(!contains_str("downloads/b.flac", "downloads/a.flac"));
    assert!(contains_str("ääb", "äb"));
}

#[test]
fn listed_entries() {
    let entries = strings(&["x/one.flac", "downloads/two.flac"]);
    assert!(is_listed(&entries, "downloads/two.flac"));
    assert!(is_listed(&entries, "one.flac"));
    assert!(!is_listed(&entries, "downloads/three.flac"));
    assert!(!is_listed(&Vec::new(), "a"));
}

#[test]
fn plan_queues_all_and_lists_new() {
    let snapshot = strings(&["d/old.flac"]);
    let plan = import_plan(&snapshot, "d", &strings(&["old.flac", "new.flac"]));
    assert_eq!(plan.len(), 3);
    assert!(matches!(&plan[0], ImportStep::AddToQueue(u) if u == "d/old.flac"));
    assert!(matches!(&plan[1], ImportStep::AddToQueue(u) if u == "d/new.flac"));
    assert!(matches!(&plan[2], ImportStep::AddToPlaylist(u) if u == "d/new.flac"));
}

#[test]
fn end_to_end_new_file() {
    let issued = run_to_end(Some(strings(&["songs/old.flac"])), strings(&[FILE]));
    let uri = uri_of(FILE);
    assert_eq!(issued.len(), 2);
    assert!(matches!(&issued[0], ImportStep::AddToQueue(u) if *u == uri));
    assert!(matches!(&issued[1], ImportStep::AddToPlaylist(u) if *u == uri));
}

#[test]
fn end_to_end_already_present_file() {
    let uri = uri_of(FILE);
    let issued = run_to_end(Some(vec![uri.clone()]), strings(&[FILE]));
    assert_eq!(issued.len(), 1);
    assert!(matches!(&issued[0], ImportStep::AddToQueue(u) if *u == uri));
}

#[test]
fn unavailable_playlist_counts_as_empty() {
    let issued = run_to_end(None, strings(&[FILE]));
    assert_eq!(issued.len(), 2);
}

#[test]
fn no_files_is_success() {
    let issued = run_to_end(Some(Vec::new()), Vec::new());
    assert!(issued.is_empty());
}

#[test]
fn download_failure_issues_no_imports() {
    let (mut o, _) = Orchestration::start(URL.to_string());
    o.on_playlist(Some(Vec::new()));
    let a = o.on_download(None);
    assert!(matches!(a, Action::Finished(Err(DownloadError::Download))));
    assert_eq!(o.phase(), Phase::Done);
}

#[test]
fn rescan_failure_ends_job() {
    let (mut o, _) = Orchestration::start(URL.to_string());
    o.on_playlist(None);
    o.on_download(Some(strings(&[FILE])));
    assert_eq!(o.phase(), Phase::Rescanning);
    let a = o.on_rescan(false);
    assert!(matches!(a, Action::Finished(Err(DownloadError::Server))));
    assert_eq!(o.phase(), Phase::Done);
}

#[test]
fn command_failure_stops_remaining_imports() {
    let (mut o, _) = Orchestration::start(URL.to_string());
    o.on_playlist(None);
    o.on_download(Some(strings(&["a.flac", "b.flac"])));
    o.on_rescan(true);
    assert!(matches!(o.on_settled(), Action::Import(ImportStep::AddToQueue(_))));
    let a = o.on_command(false);
    assert!(matches!(a, Action::Finished(Err(DownloadError::Server))));
    assert_eq!(o.phase(), Phase::Done);
}
