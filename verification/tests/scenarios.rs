use twitter_media_downloader::media::local_media_filename;
use twitter_media_downloader::media::MediaItem;
use twitter_media_downloader::media::MediaKind;
use twitter_media_downloader::media::MediaUrl;
use twitter_media_downloader::orchestrator::apply_download_outcome;
use twitter_media_downloader::orchestrator::checkpoint_check;
use twitter_media_downloader::orchestrator::resolve_user_id;
use twitter_media_downloader::orchestrator::run_after_page;
use twitter_media_downloader::orchestrator::summary_message;
use twitter_media_downloader::orchestrator::until_id_bound;
use twitter_media_downloader::orchestrator::DownloadOutcome;
use twitter_media_downloader::orchestrator::IdentityError;
use twitter_media_downloader::orchestrator::ItemStep;
use twitter_media_downloader::orchestrator::PageMetaInfo;
use twitter_media_downloader::orchestrator::PageResult;
use twitter_media_downloader::orchestrator::PageRun;
use twitter_media_downloader::orchestrator::Post;
use twitter_media_downloader::orchestrator::RunStep;
use twitter_media_downloader::checkpoint::resolve_checkpoint;

fn photo(key: &str, path: &str) -> MediaItem {
    MediaItem {
        media_key: String::from(key),
        kind: MediaKind::Photo,
        url: Some(MediaUrl {
            full: format!("https://media.example{}", path),
            path: String::from(path),
        }),
    }
}

fn post(id: u64, keys: &[&str]) -> Post {
    Post {
        id,
        media_keys: keys.iter().map(|k| String::from(*k)).collect(),
    }
}

/// Processes one fetched page the way the surrounding process would: walk
/// the jobs, "fetch" any target not already present, and report each
/// outcome. Returns the page's conclusion and the filenames fetched.
fn run_one_page(
    download_all: bool,
    posts: &Vec<Post>,
    map: &Vec<MediaItem>,
    existing: &[&str],
    username: &str,
    meta: &Option<PageMetaInfo>,
) -> (PageResult, Vec<String>) {
    let mut run = PageRun::new(download_all, posts, map);
    let mut fetched: Vec<String> = Vec::new();
    loop {
        let job = match run.current_job() {
            Some(j) => (j.post_id, j.media.clone()),
            None => break,
        };
        let outcome = match &job.1.url {
            None => DownloadOutcome::Failed,
            Some(u) => {
                let name = local_media_filename(&job.1.media_key, username, &u.path);
                if existing.iter().any(|e| *e == name) || fetched.iter().any(|f| *f == name) {
                    DownloadOutcome::AlreadyPresent
                } else {
                    fetched.push(name);
                    DownloadOutcome::Downloaded
                }
            }
        };
        run.record(outcome);
    }
    (run.conclude(meta), fetched)
}

#[test]
fn positive_cursor_proceeds_zero_terminates() {
    assert!(checkpoint_check(1));
    assert!(checkpoint_check(42));
    assert!(checkpoint_check(u64::MAX));
    assert!(!checkpoint_check(0));
}

#[test]
fn sentinel_cursor_omits_upper_bound() {
    assert_eq!(until_id_bound(u64::MAX), None);
    assert_eq!(until_id_bound(5), Some(5));
}

#[test]
fn identity_resolution() {
    assert_eq!(resolve_user_id("", &Some(7)), Err(IdentityError::EmptyUsername));
    assert_eq!(resolve_user_id("alice", &None), Err(IdentityError::NotFound));
    assert_eq!(resolve_user_id("alice", &Some(0)), Err(IdentityError::NotFound));
    assert_eq!(resolve_user_id("alice", &Some(7)), Ok(7));
}

#[test]
fn failed_download_continues_page() {
    assert_eq!(
        apply_download_outcome(false, 44, DownloadOutcome::Failed, 2),
        ItemStep::Proceed { count: 2 }
    );
}

#[test]
fn existing_file_in_exhaustive_mode_continues() {
    assert_eq!(
        apply_download_outcome(true, 44, DownloadOutcome::AlreadyPresent, 2),
        ItemStep::Proceed { count: 2 }
    );
}

#[test]
fn existing_file_outside_exhaustive_mode_stops_at_post() {
    assert_eq!(
        apply_download_outcome(false, 44, DownloadOutcome::AlreadyPresent, 2),
        ItemStep::StopEarly { cursor: 44 }
    );
}

#[test]
fn three_new_photos_single_page() {
    // Three posts, each with one new photo attachment, page size large
    // enough, non-exhaustive mode: three files are downloaded, the
    // checkpoint advances to the oldest post's id, and the summary reports
    // three files.
    let posts = vec![post(903, &["k1"]), post(902, &["k2"]), post(901, &["k3"])];
    let map = vec![photo("k1", "/a.jpg"), photo("k2", "/b.jpg"), photo("k3", "/c.jpg")];
    let meta = Some(PageMetaInfo { oldest_id: Some(901) });
    let (res, fetched) = run_one_page(false, &posts, &map, &[], "alice", &meta);
    assert_eq!(fetched.len(), 3);
    assert_eq!(res, PageResult::Advance { cursor: 901, downloaded: 3 });
    let step = run_after_page(false, 0, res);
    assert_eq!(step, RunStep::AdvanceAndFinish { cursor: 901, total: 3 });
    assert_eq!(summary_message(3), "Download complete. 3 files downloaded.");
}

#[test]
fn second_posts_photo_already_present_stops_early() {
    // The second post's photo already exists locally; non-exhaustive mode
    // downloads only the first post's media, then stops with the checkpoint
    // at the second post's id and one file reported.
    let posts = vec![post(903, &["k1"]), post(902, &["k2"]), post(901, &["k3"])];
    let map = vec![photo("k1", "/a.jpg"), photo("k2", "/b.jpg"), photo("k3", "/c.jpg")];
    let existing = ["k2_alice_b.jpg"];
    let meta = Some(PageMetaInfo { oldest_id: Some(901) });
    let (res, fetched) = run_one_page(false, &posts, &map, &existing, "alice", &meta);
    assert_eq!(fetched, vec![String::from("k1_alice_a.jpg")]);
    assert_eq!(res, PageResult::EarlyStop { cursor: 902, downloaded: 1 });
    let step = run_after_page(false, 0, res);
    assert_eq!(step, RunStep::AdvanceAndFinish { cursor: 902, total: 1 });
    assert_eq!(summary_message(1), "Download complete. 1 files downloaded.");
}

#[test]
fn checkpoint_zero_reports_success_without_fetching() {
    // The checkpoint is already 0: the run terminates immediately with
    // zero downloads and no fetch.
    let read = resolve_checkpoint(false, &Some(String::from("0")));
    assert_eq!(read.cursor, 0);
    assert!(!checkpoint_check(read.cursor));
    assert_eq!(summary_message(0), "Download complete. 0 files downloaded.");
}

#[test]
fn exhaustive_mode_stops_on_no_more_data() {
    // Exhaustive mode, but the first page's metadata declares no more
    // data after two downloads: the run ends after one page with total 2.
    let posts = vec![post(903, &["k1"]), post(902, &["k2"])];
    let map = vec![photo("k1", "/a.jpg"), photo("k2", "/b.jpg")];
    let meta = Some(PageMetaInfo { oldest_id: None });
    let (res, fetched) = run_one_page(true, &posts, &map, &[], "alice", &meta);
    assert_eq!(fetched.len(), 2);
    assert_eq!(res, PageResult::NoMoreData { downloaded: 2 });
    let step = run_after_page(true, 0, res);
    assert_eq!(step, RunStep::FinishNoMoreData { total: 2 });
    assert_eq!(summary_message(2), "Download complete. 2 files downloaded.");
}

#[test]
fn exhaustive_mode_continues_after_advance() {
    let step = run_after_page(true, 1, PageResult::Advance { cursor: 700, downloaded: 4 });
    assert_eq!(step, RunStep::AdvanceAndContinue { cursor: 700, total: 5 });
}

#[test]
fn missing_metadata_fails_page() {
    let posts = vec![post(903, &["k1"])];
    let map = vec![photo("k1", "/a.jpg")];
    let (res, _) = run_one_page(true, &posts, &map, &[], "alice", &None);
    assert_eq!(res, PageResult::PageFailed);
    let step = run_after_page(true, 6, res);
    assert_eq!(step, RunStep::FinishPageError { total: 6 });
}

#[test]
fn non_photo_and_unknown_keys_are_ignored() {
    let mut map = vec![photo("k1", "/a.jpg")];
    map.push(MediaItem {
        media_key: String::from("k2"),
        kind: MediaKind::NonPhoto,
        url: Some(MediaUrl {
            full: String::from("https://media.example/v.mp4"),
            path: String::from("/v.mp4"),
        }),
    });
    let posts = vec![post(903, &["k1", "k2", "k9"])];
    let meta = Some(PageMetaInfo { oldest_id: Some(903) });
    let (res, fetched) = run_one_page(false, &posts, &map, &[], "alice", &meta);
    assert_eq!(fetched, vec![String::from("k1_alice_a.jpg")]);
    assert_eq!(res, PageResult::Advance { cursor: 903, downloaded: 1 });
}

#[test]
fn item_without_url_is_skipped_not_fatal() {
    let map = vec![
        MediaItem { media_key: String::from("k1"), kind: MediaKind::Photo, url: None },
        photo("k2", "/b.jpg"),
    ];
    let posts = vec![post(903, &["k1"]), post(902, &["k2"])];
    let meta = Some(PageMetaInfo { oldest_id: Some(902) });
    let (res, fetched) = run_one_page(false, &posts, &map, &[], "alice", &meta);
    assert_eq!(fetched, vec![String::from("k2_alice_b.jpg")]);
    assert_eq!(res, PageResult::Advance { cursor: 902, downloaded: 1 });
}
