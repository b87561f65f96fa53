//! Migrates local playlist files into a remote video platform account.
//!
//! The library holds the logic of a run: parsing local playlists, building
//! requests and classifying responses of the remote gateway, and the
//! synchronisation engine that decides, call by call, what happens next.
mod error;
mod laws;
mod piped;
mod playlist;
mod response;
mod sync;
mod url;

pub use error::PipedPlaylistImporterError;
pub use laws::{
    adds_follow_file_order, append_rerun_only_lists_videos, duplicates_are_not_sent, existing_playlists_are_skipped,
    missing_playlists_are_created_first, playlists_are_reached_once, rerun_adds_nothing,
};
pub use piped::{
    has_prefix, has_scheme, normalized_instance, Cli, PipedAddVideoToPlaylistResponse, PipedClient,
    PipedCreatePlaylistResponse, PipedErrorResponse, PipedGetVideoResponse, DEFAULT_INSTANCE,
    USER_AGENT,
};
pub use playlist::{non_empty_lines, views, Playlist, Playlists};
pub use response::{
    all_have_ids, check_response, classify_response, error_message_of, is_success, video_ids,
};
pub use sync::{
    added_entries, added_ok, added_recorded, advanced, began, failure_views, global_count, invalid_entries, FailureView, holds_text, invalid_reason, is_duplicate,
    is_fatal, is_first_match, keeps, needs_add, remote_match, skip_recorded, url_count, urls_at,
    Action, Phase, PipedGetPlaylistResponse, SyncEngine, SyncResult,
};
pub use url::{extract_video_id, first_eq, is_first_eq, video_id_of};
