use vstd::prelude::*;
use crate::error::PipedPlaylistImporterError;
use crate::playlist::Playlist;
use vstd::string::*;
use crate::url::{extract_video_id, video_id_of};

verus! {

/// A playlist of the remote account.
#[derive(Debug, Clone)]
pub struct PipedGetPlaylistResponse {
    pub id: String,
    pub name: String,
}

/// What became of one local video url.
#[derive(Debug, Clone)]
pub enum SyncResult {
    /// Added as the first video of a playlist created in this run.
    Created,
    /// Added to a playlist.
    Appended,
    /// Not sent: the playlist already exists remotely and append mode is off.
    SkippedExisting,
    /// Not sent: the remote playlist already holds the video.
    SkippedDuplicate,
    /// Not added, for the reason given.
    Failed(String),
}

/// The next thing the caller has to do for the run.
#[derive(Debug)]
pub enum Action {
    /// Fetch the remote playlists.
    ListPlaylists,
    /// Fetch the video ids of the remote playlist with this id.
    ListVideos(String),
    /// Create a remote playlist with this name.
    CreatePlaylist(String),
    /// Add the video (first) to the playlist (second).
    AddVideo(String, String),
    /// The run is over.
    Finished,
    /// The run stops on this error.
    Aborted(PipedPlaylistImporterError),
}

/// Where the engine stands.
#[derive(Debug, Clone, Copy, PartialEq, Eq, Structural)]
pub enum Phase {
    Start,
    ListingPlaylists,
    ListingVideos,
    Creating,
    Adding,
    Done,
}

/// `k` is the first remote playlist named `name`.
pub open spec fn is_first_match(remote: Seq<PipedGetPlaylistResponse>, name: Seq<char>, k: int) -> bool {
    &&& 0 <= k < remote.len()
    &&& remote[k].name@ == name
    &&& forall|j: int| 0 <= j < k ==> remote[j].name@ != name
}

/// The first remote playlist named `name`, if any.
pub open spec fn remote_match(remote: Seq<PipedGetPlaylistResponse>, name: Seq<char>) -> Option<int> {
    if exists|k: int| is_first_match(remote, name, k) {
        Some(choose|k: int| is_first_match(remote, name, k))
    } else {
        None
    }
}

/// Some string of `v` reads `s`.
pub open spec fn holds_text(v: Seq<String>, s: Seq<char>) -> bool {
    exists|i: int| 0 <= i < v.len() && v[i]@ == s
}

/// The url is a duplicate: its video id is in the dedup set.
pub open spec fn is_duplicate(url: Seq<char>, dedup: Option<Vec<String>>) -> bool {
    &&& video_id_of(url) is Some
    &&& dedup is Some
    &&& holds_text(dedup->0@, video_id_of(url)->0)
}

/// The url has to be sent to the remote playlist.
pub open spec fn needs_add(url: Seq<char>, dedup: Option<Vec<String>>) -> bool {
    video_id_of(url) is Some && !is_duplicate(url, dedup)
}

/// The reason recorded for a url that holds no video id.
pub open spec fn invalid_reason() -> Seq<char> {
    "no video id in url"@
}

/// `o` is what a url that is not sent is recorded as.
pub open spec fn skip_recorded(o: SyncResult, url: Seq<char>) -> bool {
    if video_id_of(url) is None {
        o matches SyncResult::Failed(r) && r@ == invalid_reason()
    } else {
        o is SkippedDuplicate
    }
}

/// The number of urls of the playlists `from .. to`.
pub open spec fn url_count(pls: Seq<Playlist>, from: int, to: int) -> int
    decreases to - from,
{
    if to <= from {
        0
    } else {
        url_count(pls, from, to - 1) + pls[to - 1].urls@.len()
    }
}

proof fn lemma_first_match_unique(remote: Seq<PipedGetPlaylistResponse>, name: Seq<char>, k: int)
    requires
        is_first_match(remote, name, k),
    ensures
        remote_match(remote, name) == Some(k),
{
    let c = choose|c: int| is_first_match(remote, name, c);
    assert(is_first_match(remote, name, c));
    if c < k {
        assert(remote[c].name@ != name);
    } else if k < c {
        assert(remote[k].name@ != name);
    }
}

fn find_remote(remote: &Vec<PipedGetPlaylistResponse>, name: &String) -> (r: Option<usize>)
    ensures
        r matches Some(k) ==> remote_match(remote@, name@) == Some(k as int),
        r is None ==> remote_match(remote@, name@) is None,
{
    let mut i: usize = 0;
    while i < remote.len()
        invariant
            i <= remote@.len(),
            forall|j: int| 0 <= j < i ==> remote@[j].name@ != name@,
        decreases remote@.len() - i,
    {
        if remote[i].name == *name {
            proof {
                lemma_first_match_unique(remote@, name@, i as int);
            }
            return Some(i);
        }
        i = i + 1;
    }
    proof {
        if exists|k: int| is_first_match(remote@, name@, k) {
            let k = choose|k: int| is_first_match(remote@, name@, k);
            assert(remote@[k].name@ != name@);
        }
    }
    None
}

fn contains_text(v: &Vec<String>, s: &String) -> (r: bool)
    ensures
        r == holds_text(v@, s@),
{
    let mut i: usize = 0;
    while i < v.len()
        invariant
            i <= v@.len(),
            forall|j: int| 0 <= j < i ==> v@[j]@ != s@,
        decreases v@.len() - i,
    {
        if v[i] == *s {
            return true;
        }
        i = i + 1;
    }
    false
}


/// An add result that stops the run: an error other than a service error.
pub open spec fn is_fatal(r: Result<String, PipedPlaylistImporterError>) -> bool {
    r matches Err(e) && !e.spec_is_recoverable()
}

/// The video was added.
pub open spec fn added_ok(r: Result<String, PipedPlaylistImporterError>) -> bool {
    r matches Ok(m) && m@ == "ok"@
}

/// `o` is what an add result that does not stop the run is recorded as.
pub open spec fn added_recorded(o: SyncResult, r: Result<String, PipedPlaylistImporterError>, fresh: bool) -> bool {
    match r {
        Ok(m) => if m@ == "ok"@ {
            if fresh {
                o is Created
            } else {
                o is Appended
            }
        } else {
            o matches SyncResult::Failed(x) && x@.len() == 0
        },
        Err(PipedPlaylistImporterError::PipedError(m)) => o == SyncResult::Failed(m),
        Err(_) => false,
    }
}

/// The number of urls over all local playlists, for progress display;
/// `usize::MAX` when it does not fit.
pub fn global_count(playlists: &Vec<Playlist>) -> (r: usize)
    ensures
        r as int == if url_count(playlists@, 0, playlists@.len() as int) <= usize::MAX {
            url_count(playlists@, 0, playlists@.len() as int)
        } else {
            usize::MAX as int
        },
{
    let mut total: usize = 0;
    let mut i: usize = 0;
    while i < playlists.len()
        invariant
            i <= playlists@.len(),
            total as int == if url_count(playlists@, 0, i as int) <= usize::MAX {
                url_count(playlists@, 0, i as int)
            } else {
                usize::MAX as int
            },
        decreases playlists@.len() - i,
    {
        let n = playlists[i].urls.len();
        if total > usize::MAX - n {
            total = usize::MAX;
        } else {
            total = total + n;
        }
        i = i + 1;
    }
    total
}

fn is_ok_message(m: &String) -> (r: bool)
    ensures
        r == (m@ == "ok"@),
{
    proof {
        reveal_strlit("ok");
    }
    let s = m.as_str();
    if s.unicode_len() != 2 {
        return false;
    }
    let r = s.get_char(0) == 'o' && s.get_char(1) == 'k';
    assert(r == (m@ =~= "ok"@));
    r
}

/// The state of one run: the local playlists, the remote snapshot, where
/// the run stands, and what it has recorded so far.
#[derive(Debug)]
pub struct SyncEngine {
    pub playlists: Vec<Playlist>,
    pub append: bool,
    pub remote: Vec<PipedGetPlaylistResponse>,
    pub phase: Phase,
    /// Index of the local playlist at hand.
    pub current: usize,
    /// Index of the url at hand in that playlist.
    pub cursor: usize,
    /// Remote id of the playlist at hand.
    pub target: String,
    /// Video ids already in the remote playlist, when append mode fetched them.
    pub dedup: Option<Vec<String>>,
    /// The playlist at hand was created in this run and no video was added yet.
    pub fresh: bool,
    /// One outcome per url handled, in order.
    pub outcomes: Vec<SyncResult>,
    /// Failed urls: playlist id, video id (or url), reason.
    pub failures: Vec<(String, String, String)>,
}

/// The urls of the playlist at hand.
pub open spec fn urls_at(e: SyncEngine) -> Seq<String> {
    e.playlists@[e.current as int].urls@
}

/// `new` keeps the run's inputs and the records of `pre`.
pub open spec fn keeps(pre: SyncEngine, new: SyncEngine) -> bool {
    &&& new.playlists == pre.playlists
    &&& new.remote == pre.remote
    &&& new.append == pre.append
    &&& new.outcomes@.len() >= pre.outcomes@.len()
    &&& forall|k: int| 0 <= k < pre.outcomes@.len() ==> new.outcomes@[k] == pre.outcomes@[k]
    &&& new.failures@.len() >= pre.failures@.len()
    &&& forall|k: int| 0 <= k < pre.failures@.len() ==> new.failures@[k] == pre.failures@[k]
}

/// A failure entry's texts: playlist id, video id (or url), reason.
pub type FailureView = (Seq<char>, Seq<char>, Seq<char>);

/// The texts of a list of failure entries.
pub open spec fn failure_views(f: Seq<(String, String, String)>) -> Seq<FailureView> {
    f.map_values(|e: (String, String, String)| (e.0@, e.1@, e.2@))
}

/// The entries recorded for the urls `from .. to` that are not sent: one
/// `(target, url, invalid_reason())` for each url without a video id, none
/// for a duplicate.
pub open spec fn invalid_entries(target: Seq<char>, urls: Seq<String>, from: int, to: int) -> Seq<FailureView>
    decreases to - from,
{
    if to <= from {
        Seq::empty()
    } else {
        let rest = invalid_entries(target, urls, from, to - 1);
        if video_id_of(urls[to - 1]@) is None {
            rest.push((target, urls[to - 1]@, invalid_reason()))
        } else {
            rest
        }
    }
}

/// The entry an add result that does not stop the run records: none when
/// the video was added, else the target, the video id and the reason (the
/// service's message, or empty for a message other than `ok`).
pub open spec fn added_entries(r: Result<String, PipedPlaylistImporterError>, target: Seq<char>, url: Seq<char>) -> Seq<FailureView> {
    if added_ok(r) {
        Seq::empty()
    } else {
        let reason = match r {
            Err(PipedPlaylistImporterError::PipedError(m)) => m@,
            _ => Seq::empty(),
        };
        seq![(target, video_id_of(url)->0, reason)]
    }
}

/// From playlist `c0` on, with `base` outcomes recorded before: every
/// playlist that already exists remotely is skipped while append mode is
/// off, each of its urls recorded `SkippedExisting`; at the first other
/// playlist the run asks to fetch its videos (it exists, append mode) or to
/// create it (it does not exist); past the last one the run is finished.
/// No failure is recorded: the failure list stays `fails`.
pub open spec fn began(pre: SyncEngine, c0: int, base: int, fails: Seq<FailureView>, new: SyncEngine, a: Action) -> bool {
    let pls = pre.playlists@;
    let n = pls.len();
    let c = new.current as int;
    &&& keeps(pre, new)
    &&& c0 <= c <= n
    &&& failure_views(new.failures@) == fails
    &&& forall|j: int|
        c0 <= j < c ==> remote_match(pre.remote@, (#[trigger] pls[j]).name@) is Some && !pre.append
    &&& new.outcomes@.len() == base + url_count(pls, c0, c)
    &&& forall|k: int| base <= k < new.outcomes@.len() ==> new.outcomes@[k] is SkippedExisting
    &&& c == n ==> a is Finished && new.phase is Done
    &&& c < n && remote_match(pre.remote@, pls[c].name@) is None ==> (a matches Action::CreatePlaylist(
        nm,
    ) && nm@ == pls[c].name@) && new.phase is Creating
    &&& c < n && remote_match(pre.remote@, pls[c].name@) is Some ==> pre.append && (a matches Action::ListVideos(
        id,
    ) && id@ == pre.remote@[remote_match(pre.remote@, pls[c].name@)->0].id@) && new.target@
        == pre.remote@[remote_match(pre.remote@, pls[c].name@)->0].id@ && new.phase is ListingVideos
}

/// From url `c0` of the playlist at hand, with `base` outcomes recorded
/// before: urls that need no add (a duplicate, or no video id) are recorded
/// in order without any call; at the first url that needs one the run asks
/// to add its video to the target playlist; when the playlist is done the
/// run goes on with the next playlist as `began` says. The failure list is
/// `fails` followed by one entry per url without a video id.
pub open spec fn advanced(pre: SyncEngine, c0: int, base: int, fails: Seq<FailureView>, new: SyncEngine, a: Action) -> bool {
    let urls = urls_at(pre);
    let n = urls.len();
    &&& keeps(pre, new)
    &&& base >= pre.outcomes@.len()
    &&& c0 <= n
    &&& ({
        &&& new.current == pre.current
        &&& c0 <= new.cursor < n
        &&& new.phase is Adding
        &&& new.target == pre.target
        &&& new.dedup == pre.dedup
        &&& new.fresh == pre.fresh
        &&& new.outcomes@.len() == base + new.cursor - c0
        &&& failure_views(new.failures@) == fails + invalid_entries(pre.target@, urls, c0, new.cursor as int)
        &&& forall|j: int|
            c0 <= j < new.cursor ==> !needs_add((#[trigger] urls[j])@, pre.dedup) && skip_recorded(
                new.outcomes@[base + j - c0],
                urls[j]@,
            )
        &&& needs_add(urls[new.cursor as int]@, pre.dedup)
        &&& a matches Action::AddVideo(v, p) && video_id_of(urls[new.cursor as int]@) == Some(v@)
            && p@ == pre.target@
    } || {
        &&& forall|j: int|
            c0 <= j < n ==> !needs_add((#[trigger] urls[j])@, pre.dedup) && skip_recorded(
                new.outcomes@[base + j - c0],
                urls[j]@,
            )
        &&& began(pre, pre.current + 1, base + n - c0, fails + invalid_entries(pre.target@, urls, c0, n as int), new, a)
    })
}

impl SyncEngine {
    /// The engine is in a consistent state.
    pub open spec fn wf(&self) -> bool {
        &&& self.current <= self.playlists@.len()
        &&& (self.phase is ListingVideos || self.phase is Creating || self.phase is Adding)
            ==> self.current < self.playlists@.len()
        &&& self.phase is Adding ==> self.cursor < urls_at(*self).len() && needs_add(
            urls_at(*self)[self.cursor as int]@,
            self.dedup,
        )
    }

    /// A run over `playlists`, not started yet.
    pub fn new(playlists: Vec<Playlist>, append: bool) -> (r: Self)
        ensures
            r.wf(),
            r.phase is Start,
            r.playlists == playlists,
            r.append == append,
            r.current == 0,
            r.outcomes@.len() == 0,
            r.failures@.len() == 0,
    {
        SyncEngine {
            playlists,
            append,
            remote: Vec::new(),
            phase: Phase::Start,
            current: 0,
            cursor: 0,
            target: String::new(),
            dedup: None,
            fresh: false,
            outcomes: Vec::new(),
            failures: Vec::new(),
        }
    }

    /// Starts the run: the remote playlists are fetched first.
    pub fn start(&mut self) -> (a: Action)
        requires
            old(self).phase is Start,
        ensures
            a is ListPlaylists,
            *final(self) == (SyncEngine { phase: Phase::ListingPlaylists, ..*old(self) }),
    {
        self.phase = Phase::ListingPlaylists;
        Action::ListPlaylists
    }

    fn begin_playlist(&mut self) -> (a: Action)
        requires
            old(self).current <= old(self).playlists@.len(),
        ensures
            began(
                *old(self),
                old(self).current as int,
                old(self).outcomes@.len() as int,
                failure_views(old(self).failures@),
                *final(self),
                a,
            ),
            final(self).wf(),
    {
        let ghost pre = *self;
        while self.current < self.playlists.len()
            invariant
                pre == *old(self),
                keeps(pre, *self),
                pre.current <= self.current <= pre.playlists@.len(),
                self.failures == pre.failures,
                forall|j: int|
                    pre.current <= j < self.current ==> remote_match(
                        pre.remote@,
                        (#[trigger] pre.playlists@[j]).name@,
                    ) is Some && !pre.append,
                self.outcomes@.len() == pre.outcomes@.len() + url_count(
                    pre.playlists@,
                    pre.current as int,
                    self.current as int,
                ),
                forall|k: int|
                    pre.outcomes@.len() <= k < self.outcomes@.len() ==> self.outcomes@[k] is SkippedExisting,
            decreases pre.playlists@.len() - self.current,
        {
            let c = self.current;
            match find_remote(&self.remote, &self.playlists[c].name) {
                Some(k) => {
                    if self.append {
                        let id = self.remote[k].id.clone();
                        self.target = id.clone();
                        self.phase = Phase::ListingVideos;
                        return Action::ListVideos(id);
                    }
                    let n = self.playlists[c].urls.len();
                    let ghost before = self.outcomes@.len();
                    let mut j: usize = 0;
                    while j < n
                        invariant
                            keeps(pre, *self),
                            self.current == c,
                            self.failures == pre.failures,
                            j <= n,
                            self.outcomes@.len() == before + j,
                            before == pre.outcomes@.len() + url_count(pre.playlists@, pre.current as int, c as int),
                            forall|k: int|
                                pre.outcomes@.len() <= k < self.outcomes@.len() ==> self.outcomes@[k] is SkippedExisting,
                        decreases n - j,
                    {
                        self.outcomes.push(SyncResult::SkippedExisting);
                        j = j + 1;
                    }
                    self.current = c + 1;
                },
                None => {
                    self.phase = Phase::Creating;
                    return Action::CreatePlaylist(self.playlists[c].name.clone());
                },
            }
        }
        self.phase = Phase::Done;
        Action::Finished
    }

    fn next_video(&mut self) -> (a: Action)
        requires
            old(self).current < old(self).playlists@.len(),
            old(self).cursor <= urls_at(*old(self)).len(),
        ensures
            advanced(
                *old(self),
                old(self).cursor as int,
                old(self).outcomes@.len() as int,
                failure_views(old(self).failures@),
                *final(self),
                a,
            ),
            final(self).wf(),
    {
        let ghost pre = *self;
        let c = self.current;
        proof {
            reveal_strlit("no video id in url");
        }
        while self.cursor < self.playlists[c].urls.len()
            invariant
                pre == *old(self),
                keeps(pre, *self),
                c == pre.current,
                c < pre.playlists@.len(),
                self.current == c,
                self.target == pre.target,
                self.dedup == pre.dedup,
                self.fresh == pre.fresh,
                pre.cursor <= self.cursor <= urls_at(pre).len(),
                self.outcomes@.len() == pre.outcomes@.len() + self.cursor - pre.cursor,
                failure_views(self.failures@) == failure_views(pre.failures@) + invalid_entries(
                    pre.target@,
                    urls_at(pre),
                    pre.cursor as int,
                    self.cursor as int,
                ),
                forall|j: int|
                    pre.cursor <= j < self.cursor ==> !needs_add((#[trigger] urls_at(pre)[j])@, pre.dedup)
                        && skip_recorded(
                        self.outcomes@[pre.outcomes@.len() + j - pre.cursor],
                        urls_at(pre)[j]@,
                    ),
            decreases urls_at(pre).len() - self.cursor,
        {
            let i = self.cursor;
            match extract_video_id(self.playlists[c].urls[i].as_str()) {
                None => {
                    self.outcomes.push(SyncResult::Failed(String::from_str("no video id in url")));
                    let entry = (
                        self.target.clone(),
                        self.playlists[c].urls[i].clone(),
                        String::from_str("no video id in url"),
                    );
                    let ghost fs = self.failures@;
                    self.failures.push(entry);
                    assert(failure_views(self.failures@) =~= failure_views(fs).push(
                        (pre.target@, urls_at(pre)[i as int]@, invalid_reason()),
                    ));
                },
                Some(id) => {
                    let duplicate = match &self.dedup {
                        Some(d) => contains_text(d, &id),
                        None => false,
                    };
                    if duplicate {
                        self.outcomes.push(SyncResult::SkippedDuplicate);
                    } else {
                        self.phase = Phase::Adding;
                        return Action::AddVideo(id, self.target.clone());
                    }
                },
            }
            self.cursor = i + 1;
        }
        let n = self.playlists.len();
        assert(c < n);
        self.current = c + 1;
        self.begin_playlist()
    }

    /// Takes the remote playlists: on an error the run aborts with it,
    /// otherwise the snapshot is kept and the first playlist begins.
    pub fn on_playlists(&mut self, r: Result<Vec<PipedGetPlaylistResponse>, PipedPlaylistImporterError>) -> (a: Action)
        requires
            old(self).phase is ListingPlaylists,
            old(self).wf(),
        ensures
            r is Err ==> (a matches Action::Aborted(e) && e == r->Err_0) && final(self).phase is Done
                && final(self).outcomes == old(self).outcomes,
            r is Ok ==> began(
                (SyncEngine { remote: r->Ok_0, current: 0, ..*old(self) }),
                0,
                old(self).outcomes@.len() as int,
                failure_views(old(self).failures@),
                *final(self),
                a,
            ),
            final(self).wf(),
    {
        match r {
            Err(e) => {
                self.phase = Phase::Done;
                Action::Aborted(e)
            },
            Ok(list) => {
                self.remote = list;
                self.current = 0;
                self.begin_playlist()
            },
        }
    }

    /// Takes the video ids of the existing remote playlist at hand: on an
    /// error the run aborts with it, otherwise they become the dedup set and
    /// the playlist's urls are gone through from the first.
    pub fn on_videos(&mut self, r: Result<Vec<String>, PipedPlaylistImporterError>) -> (a: Action)
        requires
            old(self).phase is ListingVideos,
            old(self).wf(),
        ensures
            r is Err ==> (a matches Action::Aborted(e) && e == r->Err_0) && final(self).phase is Done
                && final(self).outcomes == old(self).outcomes,
            r is Ok ==> advanced(
                (SyncEngine { dedup: Some(r->Ok_0), cursor: 0, fresh: false, ..*old(self) }),
                0,
                old(self).outcomes@.len() as int,
                failure_views(old(self).failures@),
                *final(self),
                a,
            ),
            final(self).wf(),
    {
        match r {
            Err(e) => {
                self.phase = Phase::Done;
                Action::Aborted(e)
            },
            Ok(ids) => {
                self.dedup = Some(ids);
                self.cursor = 0;
                self.fresh = false;
                self.next_video()
            },
        }
    }

    /// Takes the id of the playlist just created: on an error the run
    /// aborts with it, otherwise it becomes the target, with no dedup set,
    /// and the playlist's urls are gone through from the first.
    pub fn on_created(&mut self, r: Result<String, PipedPlaylistImporterError>) -> (a: Action)
        requires
            old(self).phase is Creating,
            old(self).wf(),
        ensures
            r is Err ==> (a matches Action::Aborted(e) && e == r->Err_0) && final(self).phase is Done
                && final(self).outcomes == old(self).outcomes,
            r is Ok ==> advanced(
                (SyncEngine { target: r->Ok_0, dedup: None, cursor: 0, fresh: true, ..*old(self) }),
                0,
                old(self).outcomes@.len() as int,
                failure_views(old(self).failures@),
                *final(self),
                a,
            ),
            final(self).wf(),
    {
        match r {
            Err(e) => {
                self.phase = Phase::Done;
                Action::Aborted(e)
            },
            Ok(id) => {
                self.target = id;
                self.dedup = None;
                self.cursor = 0;
                self.fresh = true;
                self.next_video()
            },
        }
    }

    /// Takes the result of adding the video at hand. A service error is
    /// recorded as a failure with its message, a message other than `ok` as
    /// a failure with an empty reason, `ok` as `Created` (first add to a
    /// playlist created in this run) or `Appended`; the run then goes on with
    /// the next url, whatever came back. Any other error aborts the run.
    pub fn on_added(&mut self, r: Result<String, PipedPlaylistImporterError>) -> (a: Action)
        requires
            old(self).phase is Adding,
            old(self).wf(),
        ensures
            is_fatal(r) ==> (a matches Action::Aborted(e) && e == r->Err_0) && final(self).phase is Done
                && final(self).outcomes == old(self).outcomes,
            !is_fatal(r) ==> final(self).outcomes@.len() > old(self).outcomes@.len()
                && added_recorded(final(self).outcomes@[old(self).outcomes@.len() as int], r, old(self).fresh)
                && advanced(
                (SyncEngine {
                    cursor: (old(self).cursor + 1) as usize,
                    fresh: old(self).fresh && !added_ok(r),
                    ..*old(self)
                }),
                old(self).cursor + 1 as int,
                old(self).outcomes@.len() + 1 as int,
                failure_views(old(self).failures@) + added_entries(
                    r,
                    old(self).target@,
                    urls_at(*old(self))[old(self).cursor as int]@,
                ),
                *final(self),
                a,
            ),
            final(self).wf(),
    {
        let c = self.current;
        let i = self.cursor;
        let n = self.playlists[c].urls.len();
        assert(i < n);
        let vid = match extract_video_id(self.playlists[c].urls[i].as_str()) {
            Some(v) => v,
            None => String::new(),
        };
        let ghost expected = failure_views(self.failures@) + added_entries(
            r,
            self.target@,
            urls_at(*self)[i as int]@,
        );
        match r {
            Ok(m) => {
                if is_ok_message(&m) {
                    let o = if self.fresh {
                        SyncResult::Created
                    } else {
                        SyncResult::Appended
                    };
                    self.outcomes.push(o);
                    self.fresh = false;
                } else {
                    self.outcomes.push(SyncResult::Failed(String::new()));
                    self.failures.push((self.target.clone(), vid, String::new()));
                }
            },
            Err(PipedPlaylistImporterError::PipedError(m)) => {
                self.outcomes.push(SyncResult::Failed(m.clone()));
                self.failures.push((self.target.clone(), vid, m));
            },
            Err(e) => {
                self.phase = Phase::Done;
                return Action::Aborted(e);
            },
        }
        assert(failure_views(self.failures@) =~= expected);
        self.cursor = i + 1;
        self.next_video()
    }
}

} // verus!
