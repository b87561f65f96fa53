use vstd::prelude::*;
use vstd::string::*;

verus! {

/// `k` is the position of the first `=` in `s`.
pub open spec fn is_first_eq(s: Seq<char>, k: int) -> bool {
    &&& 0 <= k < s.len()
    &&& s[k] == '='
    &&& forall|j: int| 0 <= j < k ==> s[j] != '='
}

/// The position of the first `=` in `s`, if there is one.
pub open spec fn first_eq(s: Seq<char>) -> Option<int> {
    if exists|k: int| is_first_eq(s, k) {
        Some(choose|k: int| is_first_eq(s, k))
    } else {
        None
    }
}

/// The video id of a url: everything after its first `=`.
pub open spec fn video_id_of(s: Seq<char>) -> Option<Seq<char>> {
    match first_eq(s) {
        Some(k) => Some(s.subrange(k + 1, s.len() as int)),
        None => None,
    }
}

proof fn lemma_first_eq_unique(s: Seq<char>, k: int)
    requires
        is_first_eq(s, k),
    ensures
        first_eq(s) == Some(k),
{
    let c = choose|c: int| is_first_eq(s, c);
    assert(is_first_eq(s, c));
    if c < k {
        assert(s[c] != '=');
    } else if k < c {
        assert(s[k] != '=');
    }
}

/// Extracts the video id of a url, the text after its first `=`; `None`
/// when the url holds no `=`.
pub fn extract_video_id(url: &str) -> (r: Option<String>)
    ensures
        r matches Some(id) ==> video_id_of(url@) == Some(id@),
        r is None ==> video_id_of(url@) is None,
{
    let n = url.unicode_len();
    let mut i: usize = 0;
    while i < n
        invariant
            n == url@.len(),
            i <= n,
            forall|j: int| 0 <= j < i ==> url@[j] != '=',
        decreases n - i,
    {
        if url.get_char(i) == '=' {
            proof {
                lemma_first_eq_unique(url@, i as int);
            }
            let id = String::from_str(url.substring_char(i + 1, n));
            return Some(id);
        }
        i = i + 1;
    }
    proof {
        if exists|k: int| is_first_eq(url@, k) {
            let k = choose|k: int| is_first_eq(url@, k);
            assert(url@[k] != '=');
        }
    }
    None
}

} // verus!
