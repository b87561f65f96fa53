use vstd::prelude::*;
use crate::error::PipedPlaylistImporterError;
use crate::url::{extract_video_id, video_id_of};

verus! {

/// What `serde_json` reads as the `message` text of a structured error
/// payload `{"message": ...}`, if the body is one.
pub uninterp spec fn error_message_of(body: Seq<char>) -> Option<Seq<char>>;

/// Relies on `serde_json::from_str` into a `serde_json::Value`, and on
/// `Value::get` and `Value::as_str`: the `message` text of the body when it
/// is a JSON object with a string field `message`.
#[verifier::external_body]
fn parse_error_message(body: &str) -> (r: Option<String>)
    ensures
        r is None ==> error_message_of(body@) is None,
        r matches Some(m) ==> error_message_of(body@) == Some(m@),
{
    serde_json::from_str::<serde_json::Value>(body).ok().and_then(
        |v| v.get("message").and_then(|m| m.as_str()).map(|m| m.to_owned()),
    )
}

/// A status in the `2xx` range.
pub open spec fn is_success(status: u16) -> bool {
    200 <= status < 300
}

/// Decides what a response means, given the structured error message that
/// its body holds, if any: a `2xx` response hands its body on; any other
/// response is a service error when its body carries a message, and a
/// failed request otherwise.
pub fn classify_response(status: u16, url: &str, body: String, message: Option<String>) -> (r:
    Result<String, PipedPlaylistImporterError>)
    ensures
        is_success(status) ==> (r matches Ok(b) && b@ == body@),
        !is_success(status) && message is Some ==> (r matches Err(
            PipedPlaylistImporterError::PipedError(m),
        ) && m@ == message->0@),
        !is_success(status) && message is None ==> (r matches Err(
            PipedPlaylistImporterError::Request(s, u, b),
        ) && s == status && u@ == url@ && b@ == body@),
{
    if 200 <= status && status < 300 {
        Ok(body)
    } else {
        match message {
            Some(m) => Err(PipedPlaylistImporterError::PipedError(m)),
            None => Err(PipedPlaylistImporterError::Request(status, url.to_owned(), body)),
        }
    }
}

/// Reads a response: its body on a `2xx` status, otherwise the error that
/// `classify_response` gives for the message `serde_json` finds in the body.
pub fn check_response(status: u16, url: &str, body: String) -> (r: Result<
    String,
    PipedPlaylistImporterError,
>)
    ensures
        is_success(status) ==> (r matches Ok(b) && b@ == body@),
        !is_success(status) && error_message_of(body@) is Some ==> (r matches Err(
            PipedPlaylistImporterError::PipedError(m),
        ) && m@ == error_message_of(body@)->0),
        !is_success(status) && error_message_of(body@) is None ==> (r matches Err(
            PipedPlaylistImporterError::Request(s, u, b),
        ) && s == status && u@ == url@ && b@ == body@),
{
    if 200 <= status && status < 300 {
        Ok(body)
    } else {
        let message = parse_error_message(body.as_str());
        classify_response(status, url, body, message)
    }
}

/// Every stream url of `urls` has a video id.
pub open spec fn all_have_ids(urls: Seq<String>) -> bool {
    forall|i: int| 0 <= i < urls.len() ==> video_id_of(#[trigger] urls[i]@) is Some
}

/// The video ids of the streams of a playlist, in order; a stream url
/// without an id makes the payload malformed.
pub fn video_ids(urls: &Vec<String>) -> (r: Result<Vec<String>, PipedPlaylistImporterError>)
    ensures
        r is Ok <==> all_have_ids(urls@),
        r matches Ok(ids) ==> (ids@.len() == urls@.len() && forall|i: int|
            0 <= i < ids@.len() ==> video_id_of(urls@[i]@) == Some(#[trigger] ids@[i]@)),
{
    let mut ids: Vec<String> = Vec::new();
    let mut i: usize = 0;
    while i < urls.len()
        invariant
            i <= urls@.len(),
            ids@.len() == i,
            forall|j: int| 0 <= j < i ==> video_id_of(urls@[j]@) == Some(#[trigger] ids@[j]@),
        decreases urls@.len() - i,
    {
        match extract_video_id(urls[i].as_str()) {
            Some(id) => ids.push(id),
            None => {
                return Err(PipedPlaylistImporterError::Deserialize(urls[i].clone()));
            },
        }
        i = i + 1;
    }
    proof {
        assert forall|j: int| 0 <= j < urls@.len() implies video_id_of(#[trigger] urls@[j]@) is Some by {
            assert(video_id_of(urls@[j]@) == Some(ids@[j]@));
        }
    }
    Ok(ids)
}

} // verus!
