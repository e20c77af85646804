//! The pagination state machine. Each loop iteration reads the checkpoint,
//! decides whether to fetch, flattens the fetched page into a sequence of
//! photo download jobs, folds each job's outcome into the running count or
//! an early stop, and dispatches on the page's end: advance the checkpoint
//! and maybe continue, finish on end-of-data, or stop on a page failure.
//! The surrounding process performs the fetches and downloads and feeds the
//! outcomes back in.
use crate::checkpoint::dec_digits;
use crate::checkpoint::format_u64;
use crate::media::media_lookup;
use crate::media::MediaItem;
use crate::media::MediaItemView;
use crate::media::MediaKind;
use vstd::prelude::*;
use vstd::string::*;

verus! {

/// One post of a fetched page: its id and the media keys of its
/// attachments (empty where the post has none).
pub struct Post {
    pub id: u64,
    pub media_keys: Vec<String>,
}

/// One download to attempt: a post and the photo media item one of its
/// attachment keys resolved to.
pub struct DownloadJob {
    pub post_id: u64,
    pub media: MediaItem,
}

/// Mathematical model of a `DownloadJob`.
#[verifier::ext_equal]
pub struct DownloadJobView {
    pub post_id: u64,
    pub media: MediaItemView,
}

impl View for DownloadJob {
    type V = DownloadJobView;

    open spec fn view(&self) -> DownloadJobView {
        DownloadJobView { post_id: self.post_id, media: self.media@ }
    }
}

/// The jobs one post contributes: its attachment keys in order, each that
/// resolves to a photo item in the media table.
pub open spec fn post_jobs(post_id: u64, keys: Seq<String>, map: Seq<MediaItem>) -> Seq<
    DownloadJobView,
>
    decreases keys.len(),
{
    if keys.len() == 0 {
        Seq::<DownloadJobView>::empty()
    } else {
        post_jobs(post_id, keys.drop_last(), map) + (match media_lookup(map, keys.last()@) {
            Some(m) => if m.kind is Photo {
                seq![DownloadJobView { post_id, media: m }]
            } else {
                Seq::<DownloadJobView>::empty()
            },
            None => Seq::<DownloadJobView>::empty(),
        })
    }
}

/// The jobs a whole page contributes: each post's jobs, posts in order.
pub open spec fn page_jobs(posts: Seq<Post>, map: Seq<MediaItem>) -> Seq<DownloadJobView>
    decreases posts.len(),
{
    if posts.len() == 0 {
        Seq::<DownloadJobView>::empty()
    } else {
        page_jobs(posts.drop_last(), map) + post_jobs(
            posts.last().id,
            posts.last().media_keys@,
            map,
        )
    }
}

/// Flattens a page to its download jobs: for every post in order, for every
/// attachment key in order, the media item the key resolves to, kept
/// exactly when it is a photo.
pub fn extract_photo_jobs(posts: &Vec<Post>, map: &Vec<MediaItem>) -> (jobs: Vec<DownloadJob>)
    ensures
        jobs@.map_values(|j: DownloadJob| j@) == page_jobs(posts@, map@),
{
    let mut jobs: Vec<DownloadJob> = Vec::new();
    let mut p: usize = 0;
    while p < posts.len()
        invariant
            p <= posts@.len(),
            jobs@.map_values(|j: DownloadJob| j@) == page_jobs(posts@.subrange(0, p as int), map@),
        decreases posts@.len() - p,
    {
        let post = &posts[p];
        let mut k: usize = 0;
        while k < post.media_keys.len()
            invariant
                p < posts@.len(),
                k <= post.media_keys@.len(),
                post == posts@[p as int],
                jobs@.map_values(|j: DownloadJob| j@) == page_jobs(posts@.subrange(0, p as int), map@)
                    + post_jobs(post.id, post.media_keys@.subrange(0, k as int), map@),
            decreases post.media_keys@.len() - k,
        {
            proof {
                assert(post.media_keys@.subrange(0, k + 1).drop_last() =~= post.media_keys@.subrange(
                    0,
                    k as int,
                ));
                assert(post.media_keys@.subrange(0, k + 1).last() == post.media_keys@[k as int]);
            }
            let ghost jobs_before = jobs@.map_values(|j: DownloadJob| j@);
            match crate::media::find_media(map, &post.media_keys[k]) {
                Some(m) => {
                    if m.kind == MediaKind::Photo {
                        let job = DownloadJob { post_id: post.id, media: m.clone() };
                        proof {
                            assert(job@ == DownloadJobView { post_id: post.id, media: m@ });
                        }
                        jobs.push(job);
                        proof {
                            assert(jobs@.map_values(|j: DownloadJob| j@) =~= jobs_before + seq![
                                DownloadJobView { post_id: post.id, media: m@ },
                            ]);
                        }
                    } else {
                        proof {
                            assert(post_jobs(post.id, post.media_keys@.subrange(0, k + 1), map@)
                                =~= post_jobs(post.id, post.media_keys@.subrange(0, k as int), map@));
                        }
                    }
                },
                None => {
                    proof {
                        assert(post_jobs(post.id, post.media_keys@.subrange(0, k + 1), map@)
                            =~= post_jobs(post.id, post.media_keys@.subrange(0, k as int), map@));
                    }
                },
            }
            proof {
                assert(jobs@.map_values(|j: DownloadJob| j@) =~= page_jobs(
                    posts@.subrange(0, p as int),
                    map@,
                ) + post_jobs(post.id, post.media_keys@.subrange(0, k + 1), map@));
            }
            k = k + 1;
        }
        proof {
            assert(post.media_keys@.subrange(0, post.media_keys@.len() as int)
                =~= post.media_keys@);
            assert(posts@.subrange(0, p + 1).drop_last() =~= posts@.subrange(0, p as int));
            assert(posts@.subrange(0, p + 1).last() == posts@[p as int]);
        }
        p = p + 1;
    }
    proof {
        assert(posts@.subrange(0, posts@.len() as int) =~= posts@);
    }
    jobs
}

/// The outcome the environment reports for one attempted download.
#[derive(Clone, Copy, Debug, PartialEq, Eq, Structural)]
pub enum DownloadOutcome {
    /// The file was fetched and written.
    Downloaded,
    /// The target file already existed; nothing was fetched.
    AlreadyPresent,
    /// The fetch or write failed, or the item had no URL: a recoverable
    /// per-item error.
    Failed,
}

/// What processing one job decided: go on with an updated count, or stop
/// the whole run early at a cursor.
#[derive(Clone, Copy, Debug, PartialEq, Eq, Structural)]
pub enum ItemStep {
    Proceed { count: u32 },
    StopEarly { cursor: u64 },
}

/// The per-item policy as a function of the mode and the outcome.
pub open spec fn spec_apply_outcome(
    download_all: bool,
    post_id: u64,
    outcome: DownloadOutcome,
    count: u32,
) -> ItemStep {
    match outcome {
        DownloadOutcome::Downloaded => ItemStep::Proceed { count: (count + 1) as u32 },
        DownloadOutcome::AlreadyPresent => if download_all {
            ItemStep::Proceed { count }
        } else {
            ItemStep::StopEarly { cursor: post_id }
        },
        DownloadOutcome::Failed => ItemStep::Proceed { count },
    }
}

/// Folds one download outcome into the page's state: a success counts, a
/// failure is skipped, and a file found already present stops the run early
/// at the owning post's id unless the run is exhaustive. Reaching an
/// already-downloaded file outside exhaustive mode means all older content
/// is taken to be synchronized already.
pub fn apply_download_outcome(
    download_all: bool,
    post_id: u64,
    outcome: DownloadOutcome,
    count: u32,
) -> (r: ItemStep)
    requires
        count < u32::MAX,
    ensures
        r == spec_apply_outcome(download_all, post_id, outcome, count),
{
    match outcome {
        DownloadOutcome::Downloaded => ItemStep::Proceed { count: count + 1 },
        DownloadOutcome::AlreadyPresent => if download_all {
            ItemStep::Proceed { count }
        } else {
            ItemStep::StopEarly { cursor: post_id }
        },
        DownloadOutcome::Failed => ItemStep::Proceed { count },
    }
}

/// The metadata of a fetched page, when the provider made it available.
#[derive(Clone, Copy, Debug, PartialEq, Eq, Structural)]
pub struct PageMetaInfo {
    /// The id of the oldest post in the batch, absent when there is no
    /// further data.
    pub oldest_id: Option<u64>,
}

/// How a fully processed page ends.
#[derive(Clone, Copy, Debug, PartialEq, Eq, Structural)]
pub enum PageEnd {
    /// The page declared an oldest id: it becomes the next checkpoint.
    Advance { cursor: u64 },
    /// The metadata lacks an oldest id: no more data, a normal stop.
    NoMoreData,
    /// The metadata is absent entirely: a fatal page-fetch error.
    MetaInaccessible,
}

/// Reads a page's end from its metadata: an oldest id advances the
/// checkpoint, metadata without one signals end of data, and missing
/// metadata is a fatal page-fetch error.
pub fn resolve_page_end(meta: &Option<PageMetaInfo>) -> (r: PageEnd)
    ensures
        r == (match meta {
            Some(info) => match info.oldest_id {
                Some(id) => PageEnd::Advance { cursor: id },
                None => PageEnd::NoMoreData,
            },
            None => PageEnd::MetaInaccessible,
        }),
{
    match meta {
        Some(info) => match info.oldest_id {
            Some(id) => PageEnd::Advance { cursor: id },
            None => PageEnd::NoMoreData,
        },
        None => PageEnd::MetaInaccessible,
    }
}

/// A run proceeds to fetch a page exactly when the cursor is nonzero; a
/// cursor of zero means all available history has been consumed, and the
/// run terminates successfully without fetching.
pub fn checkpoint_check(cursor: u64) -> (proceed: bool)
    ensures
        proceed <==> cursor > 0,
{
    cursor > 0
}

/// The upper-bound constraint a page fetch should carry: none at all when
/// the cursor is the sentinel, otherwise the cursor itself.
pub fn until_id_bound(cursor: u64) -> (r: Option<u64>)
    ensures
        cursor == u64::MAX ==> r is None,
        cursor != u64::MAX ==> r == Some(cursor),
{
    if cursor == u64::MAX {
        None
    } else {
        Some(cursor)
    }
}

/// How one processed page concluded, as handed to the run dispatcher.
#[derive(Clone, Copy, Debug, PartialEq, Eq, Structural)]
pub enum PageResult {
    /// The full page was processed and declared an oldest id.
    Advance { cursor: u64, downloaded: u32 },
    /// An already-present file stopped the run at a post's id.
    EarlyStop { cursor: u64, downloaded: u32 },
    /// The provider signaled end of data: a normal stop.
    NoMoreData { downloaded: u32 },
    /// The page fetch failed or its metadata was inaccessible.
    PageFailed,
}

/// What the run does after a page.
#[derive(Clone, Copy, Debug, PartialEq, Eq, Structural)]
pub enum RunStep {
    /// Persist the cursor, pause briefly, and fetch the next page.
    AdvanceAndContinue { cursor: u64, total: u32 },
    /// Persist the cursor and finish successfully.
    AdvanceAndFinish { cursor: u64, total: u32 },
    /// Finish successfully without touching the checkpoint.
    FinishNoMoreData { total: u32 },
    /// Stop the account's loop on a page failure, reporting the total so
    /// far.
    FinishPageError { total: u32 },
}

/// How many files the page reports downloaded.
pub open spec fn page_downloaded(page: PageResult) -> u32 {
    match page {
        PageResult::Advance { downloaded, .. } => downloaded,
        PageResult::EarlyStop { downloaded, .. } => downloaded,
        PageResult::NoMoreData { downloaded } => downloaded,
        PageResult::PageFailed => 0,
    }
}

/// The run-level dispatch as a function of the mode, the total so far, and
/// the page's conclusion.
pub open spec fn spec_run_after_page(download_all: bool, total: u32, page: PageResult) -> RunStep {
    match page {
        PageResult::Advance { cursor, downloaded } => if download_all {
            RunStep::AdvanceAndContinue { cursor, total: (total + downloaded) as u32 }
        } else {
            RunStep::AdvanceAndFinish { cursor, total: (total + downloaded) as u32 }
        },
        PageResult::EarlyStop { cursor, downloaded } => RunStep::AdvanceAndFinish {
            cursor,
            total: (total + downloaded) as u32,
        },
        PageResult::NoMoreData { downloaded } => RunStep::FinishNoMoreData {
            total: (total + downloaded) as u32,
        },
        PageResult::PageFailed => RunStep::FinishPageError { total },
    }
}

/// Dispatches on a page's conclusion: a declared oldest id is persisted as
/// the new cursor, and the loop repeats only in exhaustive mode; an early
/// stop persists the stopping post's id and finishes; end of data finishes
/// with the page's downloads counted; a page failure stops the loop with
/// the total so far.
pub fn run_after_page(download_all: bool, total: u32, page: PageResult) -> (r: RunStep)
    requires
        total + page_downloaded(page) <= u32::MAX,
    ensures
        r == spec_run_after_page(download_all, total, page),
{
    match page {
        PageResult::Advance { cursor, downloaded } => if download_all {
            RunStep::AdvanceAndContinue { cursor, total: total + downloaded }
        } else {
            RunStep::AdvanceAndFinish { cursor, total: total + downloaded }
        },
        PageResult::EarlyStop { cursor, downloaded } => RunStep::AdvanceAndFinish {
            cursor,
            total: total + downloaded,
        },
        PageResult::NoMoreData { downloaded } => RunStep::FinishNoMoreData {
            total: total + downloaded,
        },
        PageResult::PageFailed => RunStep::FinishPageError { total },
    }
}

/// One page being processed: the flattened download jobs, how far the run
/// has got through them, the page's running download count, and the early
/// stop once one is decided. The environment asks for the current job,
/// attempts it, and reports the outcome; the page concludes when no job is
/// current.
pub struct PageRun {
    pub download_all: bool,
    pub jobs: Vec<DownloadJob>,
    pub idx: usize,
    pub count: u32,
    pub early: Option<u64>,
}

impl PageRun {
    /// A job is still to be attempted: nothing stopped the run early and
    /// jobs remain.
    pub open spec fn active(self) -> bool {
        self.early is None && self.idx < self.jobs@.len()
    }

    /// Starts processing a fetched page: flattens it to its photo download
    /// jobs, with nothing attempted yet.
    pub fn new(download_all: bool, posts: &Vec<Post>, map: &Vec<MediaItem>) -> (r: PageRun)
        ensures
            r.jobs@.map_values(|j: DownloadJob| j@) == page_jobs(posts@, map@),
            r.download_all == download_all,
            r.idx == 0,
            r.count == 0,
            r.early is None,
    {
        PageRun {
            download_all,
            jobs: extract_photo_jobs(posts, map),
            idx: 0,
            count: 0,
            early: None,
        }
    }

    /// The job to attempt next, or nothing when the page is done or the
    /// run stopped early.
    pub fn current_job(&self) -> (r: Option<&DownloadJob>)
        ensures
            match r {
                Some(j) => self.active() && *j == self.jobs@[self.idx as int],
                None => !self.active(),
            },
    {
        match self.early {
            Some(_) => None,
            None => if self.idx < self.jobs.len() {
                Some(&self.jobs[self.idx])
            } else {
                None
            },
        }
    }

    /// Folds the outcome of the current job in, by the per-item policy:
    /// advance past the job, counting a success, or stop the run early at
    /// the job's post.
    pub fn record(&mut self, outcome: DownloadOutcome)
        requires
            old(self).active(),
            old(self).count < u32::MAX,
        ensures
            final(self).download_all == old(self).download_all,
            final(self).jobs@ == old(self).jobs@,
            match spec_apply_outcome(
                old(self).download_all,
                old(self).jobs@[old(self).idx as int]@.post_id,
                outcome,
                old(self).count,
            ) {
                ItemStep::Proceed { count } => final(self).count == count && final(self).early
                    == old(self).early && final(self).idx == old(self).idx + 1,
                ItemStep::StopEarly { cursor } => final(self).early == Some(cursor)
                    && final(self).count == old(self).count && final(self).idx == old(self).idx,
            },
    {
        let n = self.jobs.len();
        assert(self.idx < n);
        let post_id = self.jobs[self.idx].post_id;
        match apply_download_outcome(self.download_all, post_id, outcome, self.count) {
            ItemStep::Proceed { count } => {
                self.count = count;
                self.idx = self.idx + 1;
            },
            ItemStep::StopEarly { cursor } => {
                self.early = Some(cursor);
            },
        }
    }

    /// Concludes the page once no job is current: an early stop carries the
    /// stopping post's id, otherwise the page's metadata decides between
    /// advancing, end of data, and a page failure.
    pub fn conclude(&self, meta: &Option<PageMetaInfo>) -> (r: PageResult)
        requires
            !self.active(),
        ensures
            r == (match self.early {
                Some(c) => PageResult::EarlyStop { cursor: c, downloaded: self.count },
                None => match meta {
                    Some(info) => match info.oldest_id {
                        Some(id) => PageResult::Advance { cursor: id, downloaded: self.count },
                        None => PageResult::NoMoreData { downloaded: self.count },
                    },
                    None => PageResult::PageFailed,
                },
            }),
    {
        match self.early {
            Some(c) => PageResult::EarlyStop { cursor: c, downloaded: self.count },
            None => match resolve_page_end(meta) {
                PageEnd::Advance { cursor } => PageResult::Advance {
                    cursor,
                    downloaded: self.count,
                },
                PageEnd::NoMoreData => PageResult::NoMoreData { downloaded: self.count },
                PageEnd::MetaInaccessible => PageResult::PageFailed,
            },
        }
    }
}

/// Why resolving the account identity failed. Either way the run is over
/// before it starts.
#[derive(Clone, Copy, Debug, PartialEq, Eq, Structural)]
pub enum IdentityError {
    /// No username was supplied.
    EmptyUsername,
    /// The provider returned no usable id for the username.
    NotFound,
}

/// Resolves the account identity from the provider's lookup answer: an
/// empty username never resolves, a present positive id resolves to itself,
/// and anything else is a failed lookup.
pub fn resolve_user_id(username: &str, lookup: &Option<u64>) -> (r: Result<u64, IdentityError>)
    ensures
        username@.len() == 0 ==> r == Err::<u64, IdentityError>(IdentityError::EmptyUsername),
        username@.len() > 0 ==> r == (match lookup {
            Some(id) => if *id > 0 {
                Ok::<u64, IdentityError>(*id)
            } else {
                Err::<u64, IdentityError>(IdentityError::NotFound)
            },
            None => Err::<u64, IdentityError>(IdentityError::NotFound),
        }),
{
    if username.unicode_len() == 0 {
        return Err(IdentityError::EmptyUsername);
    }
    match lookup {
        Some(id) => if *id > 0 {
            Ok(*id)
        } else {
            Err(IdentityError::NotFound)
        },
        None => Err(IdentityError::NotFound),
    }
}

/// The final human-readable summary of a successful run.
pub fn summary_message(total: u32) -> (r: String)
    ensures
        r@ == "Download complete. "@ + dec_digits(total as nat) + " files downloaded."@,
{
    let mut s = String::from_str("Download complete. ");
    let digits = format_u64(total as u64);
    s.append(digits.as_str());
    s.append(" files downloaded.");
    s
}

} // verus!
