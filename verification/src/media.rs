//! Media descriptors and the per-item download decision. A media item is a
//! stable key, a kind, and an optional remote URL; only photo items with a
//! URL are ever fetched. The local filename is deterministic in the media
//! key, the account name, and the basename of the remote URL's path, and the
//! existence of that file is the sole de-duplication signal.
use vstd::prelude::*;
use vstd::string::*;

verus! {

/// The kind of a media item. Only photos are downloaded.
#[derive(Clone, Copy, Debug, PartialEq, Eq, Structural)]
pub enum MediaKind {
    Photo,
    NonPhoto,
}

/// A remote URL, carried as its full text (what a fetch uses) together with
/// its path component (what the local filename is derived from).
pub struct MediaUrl {
    pub full: String,
    pub path: String,
}

/// Mathematical model of a `MediaUrl`.
#[verifier::ext_equal]
pub struct MediaUrlView {
    pub full: Seq<char>,
    pub path: Seq<char>,
}

impl View for MediaUrl {
    type V = MediaUrlView;

    open spec fn view(&self) -> MediaUrlView {
        MediaUrlView { full: self.full@, path: self.path@ }
    }
}

impl Clone for MediaUrl {
    fn clone(&self) -> (r: Self)
        ensures
            r@ == self@,
    {
        let r = MediaUrl { full: self.full.clone(), path: self.path.clone() };
        proof {
            assert(r@ =~= self@);
        }
        r
    }
}

/// One media descriptor from a page's expansion payload.
pub struct MediaItem {
    pub media_key: String,
    pub kind: MediaKind,
    pub url: Option<MediaUrl>,
}

/// Mathematical model of a `MediaItem`.
#[verifier::ext_equal]
pub struct MediaItemView {
    pub media_key: Seq<char>,
    pub kind: MediaKind,
    pub url: Option<MediaUrlView>,
}

impl View for MediaItem {
    type V = MediaItemView;

    open spec fn view(&self) -> MediaItemView {
        MediaItemView {
            media_key: self.media_key@,
            kind: self.kind,
            url: match self.url {
                Some(u) => Some(u@),
                None => None,
            },
        }
    }
}

impl Clone for MediaItem {
    fn clone(&self) -> (r: Self)
        ensures
            r@ == self@,
    {
        let r = MediaItem {
            media_key: self.media_key.clone(),
            kind: self.kind,
            url: match &self.url {
                Some(u) => Some(u.clone()),
                None => None,
            },
        };
        proof {
            assert(r@ =~= self@);
        }
        r
    }
}

/// The media table is a sequence of items looked up by key; a later item
/// with the same key shadows an earlier one, as building a keyed table by
/// repeated insertion would have it.
pub open spec fn media_lookup(map: Seq<MediaItem>, key: Seq<char>) -> Option<MediaItemView>
    decreases map.len(),
{
    if map.len() == 0 {
        None
    } else if map.last()@.media_key == key {
        Some(map.last()@)
    } else {
        media_lookup(map.drop_last(), key)
    }
}

/// Builds the media table for a page from the optional expansion payload;
/// an absent payload yields an empty table.
pub fn generate_media_map(expansions: Option<Vec<MediaItem>>) -> (r: Vec<MediaItem>)
    ensures
        r@ == (match expansions {
            Some(media) => media@,
            None => Seq::<MediaItem>::empty(),
        }),
{
    match expansions {
        Some(media) => media,
        None => Vec::new(),
    }
}

/// Looks a key up in the media table, honoring `media_lookup`'s shadowing.
pub fn find_media<'a>(map: &'a Vec<MediaItem>, key: &String) -> (r: Option<&'a MediaItem>)
    ensures
        match r {
            Some(m) => media_lookup(map@, key@) == Some(m@),
            None => media_lookup(map@, key@) is None,
        },
{
    let mut i = map.len();
    proof {
        assert(map@.subrange(0, map@.len() as int) =~= map@);
    }
    while i > 0
        invariant
            i <= map@.len(),
            media_lookup(map@, key@) == media_lookup(map@.subrange(0, i as int), key@),
        decreases i,
    {
        i = i - 1;
        proof {
            assert(map@.subrange(0, i + 1).drop_last() =~= map@.subrange(0, i as int));
            assert(map@.subrange(0, i + 1).last() == map@[i as int]);
        }
        if map[i].media_key == *key {
            return Some(&map[i]);
        }
    }
    None
}

/// The basename of a path: what follows the last separator, or the whole
/// path if it has none.
pub open spec fn basename(s: Seq<char>) -> Seq<char>
    decreases s.len(),
{
    if s.len() == 0 {
        s
    } else if s.last() == '/' {
        Seq::<char>::empty()
    } else {
        basename(s.drop_last()).push(s.last())
    }
}

/// The basename of a tail with no separators, cut just after the last
/// separator (or at the start), is exactly that tail.
proof fn lemma_basename_subrange(s: Seq<char>, cut: int)
    requires
        0 <= cut <= s.len(),
        forall|k: int| cut <= k < s.len() ==> s[k] != '/',
        cut == 0 || s[cut - 1] == '/',
    ensures
        basename(s) == s.subrange(cut, s.len() as int),
    decreases s.len(),
{
    if s.len() == 0 {
        assert(s.subrange(0, 0) =~= s);
    } else if cut == s.len() {
        assert(s.last() == '/');
        assert(s.subrange(cut, s.len() as int) =~= Seq::<char>::empty());
    } else {
        assert(s.last() == s[s.len() - 1]);
        assert(s.last() != '/');
        lemma_basename_subrange(s.drop_last(), cut);
        assert(s.drop_last().subrange(cut, s.len() - 1) =~= s.subrange(cut, s.len() - 1));
        assert(s.subrange(cut, s.len() - 1).push(s.last()) =~= s.subrange(cut, s.len() as int));
    }
}

/// Returns the basename of a path slice.
pub fn basename_of(path: &str) -> (r: &str)
    ensures
        r@ == basename(path@),
{
    let n = path.unicode_len();
    let mut cut = n;
    let mut found = false;
    while !found && cut > 0
        invariant
            cut <= n,
            n == path@.len(),
            forall|k: int| cut <= k < n ==> path@[k] != '/',
            found ==> cut > 0 && path@[cut - 1] == '/',
        decreases cut + (if found { 0int } else { 1 }),
    {
        if path.get_char(cut - 1) == '/' {
            found = true;
        } else {
            cut = cut - 1;
        }
    }
    proof {
        lemma_basename_subrange(path@, cut as int);
    }
    path.substring_char(cut, n)
}

/// The deterministic local filename for a media item:
/// `<media_key>_<username>_<basename of the URL path>`.
pub open spec fn spec_local_filename(
    media_key: Seq<char>,
    username: Seq<char>,
    url_path: Seq<char>,
) -> Seq<char> {
    media_key + "_"@ + username + "_"@ + basename(url_path)
}

/// Computes the local filename a media item is stored under.
pub fn local_media_filename(media_key: &str, username: &str, url_path: &str) -> (r: String)
    ensures
        r@ == spec_local_filename(media_key@, username@, url_path@),
{
    let mut s = String::from_str(media_key);
    s.append("_");
    s.append(username);
    s.append("_");
    s.append(basename_of(url_path));
    proof {
        assert(s@ =~= spec_local_filename(media_key@, username@, url_path@));
    }
    s
}

/// What one download attempt should do, given whether the target file
/// already exists.
#[derive(Clone, Copy, Debug, PartialEq, Eq, Structural)]
pub enum DownloadPlan {
    /// The item carries no URL: a recoverable per-item error.
    NoUrl,
    /// The target exists already: report nothing downloaded, fetch nothing.
    SkipExisting,
    /// Fetch the URL and write the body to the target.
    Fetch,
}

/// The download decision as a function of the item and the filesystem state.
pub open spec fn spec_download_decision(m: MediaItemView, file_exists: bool) -> DownloadPlan {
    match m.url {
        None => DownloadPlan::NoUrl,
        Some(_) => if file_exists {
            DownloadPlan::SkipExisting
        } else {
            DownloadPlan::Fetch
        },
    }
}

/// Decides one download attempt: no URL is a per-item error, an existing
/// target is skipped without network access, anything else is fetched.
pub fn download_decision(media: &MediaItem, file_exists: bool) -> (r: DownloadPlan)
    ensures
        r == spec_download_decision(media@, file_exists),
{
    match &media.url {
        None => DownloadPlan::NoUrl,
        Some(_) => if file_exists {
            DownloadPlan::SkipExisting
        } else {
            DownloadPlan::Fetch
        },
    }
}

/// Law: downloading the same media item into the same directory twice
/// fetches at most once. The local filename is a function of the item and
/// the account name alone, so after a first call fetched and wrote the
/// target, a second call sees the file present, fetches nothing, and
/// reports nothing downloaded.
pub proof fn lemma_download_if_absent_idempotent(m: MediaItemView)
    ensures
        spec_download_decision(m, true) != DownloadPlan::Fetch,
        m.url is Some ==> spec_download_decision(m, true) == DownloadPlan::SkipExisting,
        spec_download_decision(m, false) == DownloadPlan::Fetch <==> m.url is Some,
{
}

} // verus!
