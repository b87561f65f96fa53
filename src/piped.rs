use vstd::prelude::*;
use vstd::string::*;

verus! {

/// The user agent sent with every request.
pub const USER_AGENT: &'static str = "Mozilla/5.0 (Windows NT 10.0; rv:78.0) Gecko/20100101 Firefox/78.0";

/// `s` begins with `p`.
pub open spec fn has_prefix(s: Seq<char>, p: Seq<char>) -> bool {
    p.len() <= s.len() && s.subrange(0, p.len() as int) == p
}

/// `s` starts with a scheme: `http://` or `https://`.
pub open spec fn has_scheme(s: Seq<char>) -> bool {
    has_prefix(s, "http://"@) || has_prefix(s, "https://"@)
}

/// The base url of an instance: `https://` is put in front when it has no
/// scheme, and one trailing `/` is taken off.
pub open spec fn normalized_instance(s: Seq<char>) -> Seq<char> {
    let u = if has_scheme(s) {
        s
    } else {
        "https://"@ + s
    };
    if u.len() > 0 && u.last() == '/' {
        u.drop_last()
    } else {
        u
    }
}

/// Where the run sends its requests, and with what authorization.
#[derive(Debug, Clone)]
pub struct PipedClient {
    pub instance: String,
    pub authorization: String,
}

fn starts_with(s: &str, p: &str) -> (r: bool)
    ensures
        r == has_prefix(s@, p@),
{
    let n = s.unicode_len();
    let m = p.unicode_len();
    if n < m {
        return false;
    }
    let mut i: usize = 0;
    while i < m
        invariant
            m == p@.len(),
            n == s@.len(),
            m <= n,
            i <= m,
            forall|j: int| 0 <= j < i ==> s@[j] == p@[j],
        decreases m - i,
    {
        if s.get_char(i) != p.get_char(i) {
            assert(s@.subrange(0, m as int)[i as int] != p@[i as int]);
            return false;
        }
        i = i + 1;
    }
    assert(s@.subrange(0, m as int) =~= p@);
    true
}

fn has_scheme_exec(s: &str) -> (r: bool)
    ensures
        r == has_scheme(s@),
{
    starts_with(s, "http://") || starts_with(s, "https://")
}

impl PipedClient {
    /// A client for `instance`, normalised as `normalized_instance` says.
    pub fn new(instance: &str, authorization: &str) -> (r: PipedClient)
        ensures
            r.instance@ == normalized_instance(instance@),
            r.authorization@ == authorization@,
    {
        let url = if has_scheme_exec(instance) {
            String::from_str(instance)
        } else {
            let p = String::from_str("https://");
            proof {
                reveal_strlit("https://");
            }
            p.concat(instance)
        };
        let n = url.as_str().unicode_len();
        let url = if n > 0 && url.as_str().get_char(n - 1) == '/' {
            String::from_str(url.as_str().substring_char(0, n - 1))
        } else {
            url
        };
        proof {
            reveal_strlit("https://");
        }
        PipedClient { instance: url, authorization: String::from_str(authorization) }
    }

    fn endpoint(&self, path: &str) -> (r: String)
        ensures
            r@ == self.instance@ + path@,
    {
        self.instance.clone().concat(path)
    }

    /// The endpoint that lists the user's playlists.
    pub fn playlists_url(&self) -> (r: String)
        ensures
            r@ == self.instance@ + "/user/playlists"@,
    {
        self.endpoint("/user/playlists")
    }

    /// The endpoint that describes one playlist.
    pub fn playlist_url(&self, playlist_id: &str) -> (r: String)
        ensures
            r@ == self.instance@ + "/playlists/"@ + playlist_id@,
    {
        self.endpoint("/playlists/").concat(playlist_id)
    }

    /// The endpoint that creates a playlist.
    pub fn create_playlist_url(&self) -> (r: String)
        ensures
            r@ == self.instance@ + "/user/playlists/create"@,
    {
        self.endpoint("/user/playlists/create")
    }

    /// The endpoint that adds a video to a playlist.
    pub fn add_video_url(&self) -> (r: String)
        ensures
            r@ == self.instance@ + "/user/playlists/add"@,
    {
        self.endpoint("/user/playlists/add")
    }
}

/// The instance used when none is given.
pub const DEFAULT_INSTANCE: &'static str = "https://pipedapi.kavin.rocks";

/// The options of a run.
#[derive(Debug, Clone)]
pub struct Cli {
    /// Directory holding the playlist files; the working directory if absent.
    pub playlists_directory: Option<String>,
    /// Authorization token sent with every request.
    pub authorization: String,
    /// Base url of the instance.
    pub instance: String,
    /// Extend existing remote playlists instead of skipping them.
    pub append: bool,
}

/// One stream of a remote playlist.
#[derive(Debug, Clone)]
pub struct PipedGetVideoResponse {
    pub url: String,
}

/// The answer to a playlist creation.
#[derive(Debug, Clone)]
pub struct PipedCreatePlaylistResponse {
    pub playlist_id: String,
}

/// The answer to a video add: `ok` on success.
#[derive(Debug, Clone)]
pub struct PipedAddVideoToPlaylistResponse {
    pub message: String,
}

/// A structured error payload of the service.
#[derive(Debug, Clone)]
pub struct PipedErrorResponse {
    pub message: String,
}

impl PipedErrorResponse {
    /// The text shown for this error: its message.
    pub fn to_string(&self) -> (r: String)
        ensures
            r@ == self.message@,
    {
        self.message.clone()
    }
}

} // verus!
