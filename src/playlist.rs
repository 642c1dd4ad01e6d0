//! The playlist shown to the user: tracks, the one playing, and whether
//! the names are hidden.

use vstd::prelude::*;

verus! {

/// A row of the playlist: a display name and a "mm:ss" duration label.
#[derive(Clone, Debug)]
pub struct Track {
    pub name: String,
    pub duration: String,
}

impl View for Track {
    type V = (Seq<char>, Seq<char>);

    open spec fn view(&self) -> (Seq<char>, Seq<char>) {
        (self.name@, self.duration@)
    }
}

/// What a hidden name is shown as.
pub open spec fn mask_spec() -> Seq<char> {
    seq!['*'; 22]
}

/// An ordered list of tracks, with the index of the one playing, if any.
pub struct Playlist {
    pub tracks: Vec<Track>,
    pub current_index: Option<usize>,
    pub hidden: bool,
}

impl Playlist {
    /// A playlist of the given tracks, with none playing and names shown.
    pub fn new(tracks: Vec<Track>) -> (r: Playlist)
        ensures
            r.tracks@ == tracks@,
            r.current_index is None,
            !r.hidden,
    {
        Playlist { tracks, current_index: None, hidden: false }
    }

    /// Appends a track at the end.
    pub fn add_track(&mut self, track: Track)
        ensures
            final(self).tracks@ == old(self).tracks@.push(track),
            final(self).current_index == old(self).current_index,
            final(self).hidden == old(self).hidden,
    {
        self.tracks.push(track);
    }

    /// Marks the track at `index` as playing; an index past the end marks none.
    pub fn set_current(&mut self, index: usize)
        ensures
            final(self).current_index == (if index < old(self).tracks@.len() { Some(index) } else { None }),
            final(self).tracks == old(self).tracks,
            final(self).hidden == old(self).hidden,
    {
        if index < self.tracks.len() {
            self.current_index = Some(index);
        } else {
            self.current_index = None;
        }
    }

    /// Shows the names if they were hidden, hides them otherwise.
    pub fn toggle_hidden(&mut self)
        ensures
            final(self).hidden == !old(self).hidden,
            final(self).tracks == old(self).tracks,
            final(self).current_index == old(self).current_index,
    {
        self.hidden = !self.hidden;
    }

    /// Removes every track; the playing index and the hidden flag are kept.
    pub fn clear(&mut self)
        ensures
            final(self).tracks@.len() == 0,
            final(self).current_index == old(self).current_index,
            final(self).hidden == old(self).hidden,
    {
        self.tracks.clear();
    }

    /// The name shown for the track at `i`: its name, or a row of 22 '*'
    /// while names are hidden.
    pub fn shown_name(&self, i: usize) -> (r: String)
        requires
            i < self.tracks@.len(),
        ensures
            r@ == (if self.hidden { mask_spec() } else { self.tracks@[i as int].name@ }),
    {
        if self.hidden {
            proof {
                reveal_strlit("**********************");
            }
            let r = String::from_str("**********************");
            assert(r@ =~= mask_spec());
            r
        } else {
            self.tracks[i].name.clone()
        }
    }

    /// Whether the track at `i` is the one playing.
    pub fn is_current(&self, i: usize) -> (r: bool)
        ensures
            r == (self.current_index == Some(i)),
    {
        match self.current_index {
            Some(c) => c == i,
            None => false,
        }
    }
}

} // verus!
