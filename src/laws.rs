use vstd::prelude::*;
use crate::sync::{
    Action, FailureView, SyncEngine, advanced, began, failure_views, holds_text, invalid_entries,
    is_duplicate, needs_add, remote_match, urls_at,
};
use crate::url::video_id_of;

verus! {

/// Outside append mode, a local playlist that exists remotely is never the
/// subject of a call: the engine only asks to create playlists that have no
/// remote counterpart, and every url it records while moving past existing
/// playlists is `SkippedExisting`.
pub proof fn existing_playlists_are_skipped(
    pre: SyncEngine,
    c0: int,
    base: int,
    fails: Seq<FailureView>,
    new: SyncEngine,
    a: Action,
)
    requires
        began(pre, c0, base, fails, new, a),
        !pre.append,
    ensures
        forall|j: int|
            c0 <= j < new.current ==> remote_match(pre.remote@, (#[trigger] pre.playlists@[j]).name@)
                is Some,
        new.current < pre.playlists@.len() ==> remote_match(
            pre.remote@,
            pre.playlists@[new.current as int].name@,
        ) is None && a is CreatePlaylist,
        a is Finished || a is CreatePlaylist,
        forall|k: int| base <= k < new.outcomes@.len() ==> new.outcomes@[k] is SkippedExisting,
        failure_views(new.failures@) == fails,
{
}

/// A url whose video id is in the dedup set is never sent: the engine only
/// asks to add a url that is no duplicate, and records every duplicate it
/// moves past as `SkippedDuplicate`.
pub proof fn duplicates_are_not_sent(
    pre: SyncEngine,
    c0: int,
    base: int,
    fails: Seq<FailureView>,
    new: SyncEngine,
    a: Action,
)
    requires
        advanced(pre, c0, base, fails, new, a),
    ensures
        a is AddVideo ==> !is_duplicate(urls_at(pre)[new.cursor as int]@, pre.dedup),
        a is AddVideo ==> forall|j: int|
            c0 <= j < new.cursor && is_duplicate((#[trigger] urls_at(pre)[j])@, pre.dedup)
                ==> new.outcomes@[base + j - c0] is SkippedDuplicate,
{
    assert(a is AddVideo ==> new.current == pre.current) by {
        if a is AddVideo && new.current != pre.current {
            let n = urls_at(pre).len();
            assert(began(pre, pre.current + 1, base + n - c0, fails + invalid_entries(pre.target@, urls_at(pre), c0, n as int), new, a));
        }
    }
}

proof fn lemma_no_invalid_entries(target: Seq<char>, urls: Seq<String>, from: int, to: int)
    requires
        forall|j: int| from <= j < to ==> video_id_of((#[trigger] urls[j])@) is Some,
    ensures
        invalid_entries(target, urls, from, to) == Seq::<FailureView>::empty(),
    decreases to - from,
{
    if to > from {
        lemma_no_invalid_entries(target, urls, from, to - 1);
        assert(video_id_of(urls[to - 1]@) is Some);
    }
}

/// Going through a playlist again whose every video is already in the
/// remote playlist adds nothing: each url is recorded `SkippedDuplicate`
/// and the run moves on to the next playlist without an add.
pub proof fn rerun_adds_nothing(
    pre: SyncEngine,
    c0: int,
    base: int,
    fails: Seq<FailureView>,
    new: SyncEngine,
    a: Action,
)
    requires
        advanced(pre, c0, base, fails, new, a),
        pre.dedup is Some,
        forall|j: int|
            c0 <= j < urls_at(pre).len() ==> video_id_of((#[trigger] urls_at(pre)[j])@) is Some
                && holds_text(pre.dedup->0@, video_id_of(urls_at(pre)[j]@)->0),
    ensures
        began(
            pre,
            pre.current + 1,
            base + urls_at(pre).len() - c0,
            fails + invalid_entries(pre.target@, urls_at(pre), c0, urls_at(pre).len() as int),
            new,
            a,
        ),
        failure_views(new.failures@) == fails,
        forall|k: int|
            base <= k < base + urls_at(pre).len() - c0 ==> (#[trigger] new.outcomes@[k]) is SkippedDuplicate,
        !(a is AddVideo),
{
    let urls = urls_at(pre);
    lemma_no_invalid_entries(pre.target@, urls, c0, urls.len() as int);
    assert(fails + invalid_entries(pre.target@, urls, c0, urls.len() as int) =~= fails);
    if new.current == pre.current && c0 <= new.cursor < urls.len() && needs_add(
        urls[new.cursor as int]@,
        pre.dedup,
    ) {
        assert(video_id_of(urls[new.cursor as int]@) is Some);
    }
    assert forall|k: int| base <= k < base + urls.len() - c0 implies (#[trigger] new.outcomes@[k]) is SkippedDuplicate by {
        let j = k - base + c0;
        assert(video_id_of(urls[j]@) is Some);
        assert(!needs_add(urls[j]@, pre.dedup));
    }
}

/// A playlist with no remote counterpart is created first: when the engine
/// reaches it, the one call it asks for is the creation of that playlist
/// under its name, and it waits for the new id before any add.
pub proof fn missing_playlists_are_created_first(
    pre: SyncEngine,
    c0: int,
    base: int,
    fails: Seq<FailureView>,
    new: SyncEngine,
    a: Action,
)
    requires
        began(pre, c0, base, fails, new, a),
        new.current < pre.playlists@.len(),
        remote_match(pre.remote@, pre.playlists@[new.current as int].name@) is None,
    ensures
        a matches Action::CreatePlaylist(nm) && nm@ == pre.playlists@[new.current as int].name@,
        new.phase is Creating,
        !(a is AddVideo),
{
}

/// Adds go in file order: the url sent is the first one from the cursor on
/// that needs an add, into the playlist at hand; every url before it was
/// recorded without a call.
pub proof fn adds_follow_file_order(
    pre: SyncEngine,
    c0: int,
    base: int,
    fails: Seq<FailureView>,
    new: SyncEngine,
    a: Action,
)
    requires
        advanced(pre, c0, base, fails, new, a),
        a is AddVideo,
    ensures
        new.current == pre.current,
        c0 <= new.cursor < urls_at(pre).len(),
        needs_add(urls_at(pre)[new.cursor as int]@, pre.dedup),
        forall|j: int| c0 <= j < new.cursor ==> !needs_add((#[trigger] urls_at(pre)[j])@, pre.dedup),
        a matches Action::AddVideo(v, p) && video_id_of(urls_at(pre)[new.cursor as int]@) == Some(v@)
            && p@ == pre.target@,
{
    if new.current != pre.current || !(c0 <= new.cursor < urls_at(pre).len()) {
        let n = urls_at(pre).len();
        assert(began(pre, pre.current + 1, base + n - c0, fails + invalid_entries(pre.target@, urls_at(pre), c0, n as int), new, a));
    }
}

/// The engine never returns to a playlist: going through the urls of the
/// playlist at hand either asks for an add into that playlist's target, or
/// moves past it for good with no add asked. So the creation asked for a
/// playlist with no remote counterpart is asked once, and every add of its
/// urls goes to the id that creation returned.
pub proof fn playlists_are_reached_once(
    pre: SyncEngine,
    c0: int,
    base: int,
    fails: Seq<FailureView>,
    new: SyncEngine,
    a: Action,
)
    requires
        advanced(pre, c0, base, fails, new, a),
    ensures
        (a is AddVideo && new.current == pre.current && new.target == pre.target) || (new.current
            > pre.current && !(a is AddVideo)),
{
}

/// In append mode, reaching playlists that all exist remotely creates
/// nothing and records nothing: the engine asks only for the videos of the
/// next playlist, or finishes. With `rerun_adds_nothing` for each playlist,
/// a second run over unchanged playlists makes no create and no add.
pub proof fn append_rerun_only_lists_videos(
    pre: SyncEngine,
    c0: int,
    base: int,
    fails: Seq<FailureView>,
    new: SyncEngine,
    a: Action,
)
    requires
        began(pre, c0, base, fails, new, a),
        pre.append,
        forall|j: int|
            c0 <= j < pre.playlists@.len() ==> remote_match(
                pre.remote@,
                (#[trigger] pre.playlists@[j]).name@,
            ) is Some,
    ensures
        a is ListVideos || a is Finished,
        new.current == c0,
        new.outcomes@.len() == base,
        failure_views(new.failures@) == fails,
{
    if new.current > c0 {
        assert(remote_match(pre.remote@, pre.playlists@[c0].name@) is Some && !pre.append);
    }
}

} // verus!
