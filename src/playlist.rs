use vstd::prelude::*;

verus! {

/// The texts of a sequence of strings.
pub open spec fn views(v: Seq<String>) -> Seq<Seq<char>> {
    v.map_values(|s: String| s@)
}

/// The non-empty lines of `lines`, in order.
pub open spec fn non_empty_lines(lines: Seq<Seq<char>>) -> Seq<Seq<char>>
    decreases lines.len(),
{
    if lines.len() == 0 {
        Seq::empty()
    } else {
        let rest = non_empty_lines(lines.drop_last());
        if lines.last().len() > 0 {
            rest.push(lines.last())
        } else {
            rest
        }
    }
}

/// A local playlist: its name and its video urls in file order.
#[derive(Debug, Clone)]
pub struct Playlist {
    pub name: String,
    pub urls: Vec<String>,
}

impl Playlist {
    /// An empty playlist named `name`.
    pub fn new(name: String) -> (r: Self)
        ensures
            r.name@ == name@,
            r.urls@.len() == 0,
    {
        Self { name, urls: Vec::new() }
    }

    /// Appends `url` to the playlist.
    pub fn push(&mut self, url: String)
        ensures
            final(self).name == old(self).name,
            final(self).urls@ == old(self).urls@.push(url),
    {
        self.urls.push(url);
    }
}

/// Builds local playlists out of directory entries.
pub struct Playlists {}

impl Playlists {
    /// One playlist per entry `(base name, lines)`, in the entries' order,
    /// holding the entry's non-empty lines in order.
    pub fn new(entries: Vec<(String, Vec<String>)>) -> (r: Vec<Playlist>)
        ensures
            r@.len() == entries@.len(),
            forall|i: int|
                0 <= i < r@.len() ==> (#[trigger] r@[i]).name@ == entries@[i].0@ && views(
                    r@[i].urls@,
                ) == non_empty_lines(views(entries@[i].1@)),
    {
        Self::convert_to_playlist(&entries)
    }

    fn convert_to_playlist(entries: &Vec<(String, Vec<String>)>) -> (r: Vec<Playlist>)
        ensures
            r@.len() == entries@.len(),
            forall|i: int|
                0 <= i < r@.len() ==> (#[trigger] r@[i]).name@ == entries@[i].0@ && views(
                    r@[i].urls@,
                ) == non_empty_lines(views(entries@[i].1@)),
    {
        let mut out: Vec<Playlist> = Vec::new();
        let mut i: usize = 0;
        while i < entries.len()
            invariant
                i <= entries@.len(),
                out@.len() == i,
                forall|k: int|
                    0 <= k < i ==> (#[trigger] out@[k]).name@ == entries@[k].0@ && views(
                        out@[k].urls@,
                    ) == non_empty_lines(views(entries@[k].1@)),
            decreases entries@.len() - i,
        {
            let mut playlist = Playlist::new(entries[i].0.clone());
            let lines = &entries[i].1;
            let mut j: usize = 0;
            while j < lines.len()
                invariant
                    j <= lines@.len(),
                    lines == entries@[i as int].1,
                    playlist.name@ == entries@[i as int].0@,
                    views(playlist.urls@) == non_empty_lines(views(lines@).take(j as int)),
                decreases lines@.len() - j,
            {
                proof {
                    assert(views(lines@).take(j + 1).drop_last() =~= views(lines@).take(j as int));
                }
                if lines[j].as_str().unicode_len() > 0 {
                    let line = lines[j].clone();
                    playlist.push(line);
                    assert(views(playlist.urls@) =~= non_empty_lines(views(lines@).take(j as int)).push(lines@[j as int]@));
                }
                j = j + 1;
            }
            assert(views(lines@).take(lines@.len() as int) =~= views(lines@));
            out.push(playlist);
            i = i + 1;
        }
        out
    }
}

} // verus!
