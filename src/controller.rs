//! The transport controls of the player window: what each button does to
//! the playlist and which command, if any, goes to the playback actor.

use vstd::prelude::*;
use crate::library::{AudioFile, AudioLibrary};
use crate::player::PlayerEvent;
use crate::playlist::{Playlist, Track};
use crate::text::{file_name, file_name_spec, main_separator};

verus! {

/// The row that lists an audio file: its file name, with `sep` as the
/// platform's path separator, and its duration label.
pub open spec fn row_of(f: AudioFile, sep: char) -> (Seq<char>, Seq<char>) {
    (file_name_spec(f.path@, sep), f.duration@)
}

/// `i` is the first position in `files` of a file with path `p`.
pub open spec fn is_first_index(files: Seq<AudioFile>, p: Seq<char>, i: int) -> bool {
    &&& 0 <= i < files.len()
    &&& files[i].path@ == p
    &&& forall|j: int| 0 <= j < i ==> (#[trigger] files[j]).path@ != p
}

/// The position in the playlist of the file playing, if it is there.
pub open spec fn current_position(s: GuiPlayerApp) -> Option<int> {
    match s.current {
        Some(c) => if exists|i: int| is_first_index(s.playlist@, c.path@, i) {
            Some(choose|i: int| is_first_index(s.playlist@, c.path@, i))
        } else {
            None
        },
        None => None,
    }
}

/// The track Next plays: the one after the current, the first after the last.
pub open spec fn next_target(s: GuiPlayerApp) -> Option<int> {
    if !s.is_playing {
        None
    } else {
        match current_position(s) {
            Some(i) => Some((i + 1) % (s.playlist@.len() as int)),
            None => None,
        }
    }
}

/// The track Previous plays: the one before the current, the last before
/// the first.
pub open spec fn previous_target(s: GuiPlayerApp) -> Option<int> {
    if !s.is_playing {
        None
    } else {
        match current_position(s) {
            Some(i) => Some(if i == 0 { s.playlist@.len() - 1 } else { i - 1 }),
            None => None,
        }
    }
}

/// The state once the track at `j` of the playlist has been started.
pub open spec fn playing_track(s: GuiPlayerApp, j: int) -> GuiPlayerApp {
    GuiPlayerApp {
        current: Some(s.playlist@[j]),
        is_playing: true,
        is_paused: false,
        playlist_table: Playlist { current_index: Some(j as usize), ..s.playlist_table },
        ..s
    }
}

/// The state of the player window: the library, the playlist in play
/// order, the track playing, the transport flags and the table shown.
pub struct GuiPlayerApp {
    pub library: AudioLibrary,
    pub playlist: Vec<AudioFile>,
    pub current: Option<AudioFile>,
    pub is_playing: bool,
    pub is_paused: bool,
    pub picked_folder: Option<String>,
    pub folder_loaded: bool,
    pub playlist_table: Playlist,
    /// The platform's path separator, which splits file names off paths.
    pub separator: char,
}

/// The first position of a file with path `path` in `files`.
fn position_of(files: &Vec<AudioFile>, path: &String) -> (r: Option<usize>)
    ensures
        match r {
            Some(i) => is_first_index(files@, path@, i as int),
            None => forall|j: int| 0 <= j < files@.len() ==> (#[trigger] files@[j]).path@ != path@,
        },
{
    let mut i: usize = 0;
    while i < files.len()
        invariant
            i <= files@.len(),
            forall|j: int| 0 <= j < i ==> (#[trigger] files@[j]).path@ != path@,
        decreases files@.len() - i,
    {
        if files[i].path == *path {
            return Some(i);
        }
        i += 1;
    }
    None
}

impl GuiPlayerApp {
    /// The table lists the playlist, one row per file, in the same order;
    /// a track is current exactly while playing, and only a playing track
    /// is paused.
    pub open spec fn wf(&self) -> bool {
        &&& self.playlist_table.tracks@.map_values(|t: Track| t@) == self.playlist@.map_values(
            |f: AudioFile| row_of(f, self.separator),
        )
        &&& self.playlist_table.tracks@.len() == self.playlist@.len()
        &&& (self.is_paused ==> self.is_playing)
        &&& (self.is_playing <==> self.current is Some)
    }

    /// A window with an empty library and playlist, nothing playing and no
    /// folder picked.
    pub fn new() -> (r: GuiPlayerApp)
        ensures
            r.wf(),
            r.library.files@.len() == 0,
            r.playlist@.len() == 0,
            r.current is None,
            !r.is_playing,
            !r.is_paused,
            r.picked_folder is None,
            !r.folder_loaded,
            r.playlist_table.tracks@.len() == 0,
            r.playlist_table.current_index is None,
            !r.playlist_table.hidden,
            r.separator == '/' || r.separator == '\\',
    {
        let r = GuiPlayerApp {
            library: AudioLibrary::new(),
            playlist: Vec::new(),
            current: None,
            is_playing: false,
            is_paused: false,
            picked_folder: None,
            folder_loaded: false,
            playlist_table: Playlist::new(Vec::new()),
            separator: main_separator(),
        };
        assert(r.playlist_table.tracks@.map_values(|t: Track| t@) =~= r.playlist@.map_values(|f: AudioFile| row_of(f, r.separator)));
        r
    }

    /// Fills the table anew from the playlist.
    fn refill_table(&mut self)
        requires
            old(self).is_paused ==> old(self).is_playing,
            old(self).is_playing <==> old(self).current is Some,
        ensures
            final(self).separator == old(self).separator,
            final(self).wf(),
            final(self).playlist_table.current_index == old(self).playlist_table.current_index,
            final(self).playlist_table.hidden == old(self).playlist_table.hidden,
            final(self).library == old(self).library,
            final(self).playlist == old(self).playlist,
            final(self).current == old(self).current,
            final(self).is_playing == old(self).is_playing,
            final(self).is_paused == old(self).is_paused,
            final(self).picked_folder == old(self).picked_folder,
            final(self).folder_loaded == old(self).folder_loaded,
    {
        self.playlist_table.clear();
        let mut i: usize = 0;
        while i < self.playlist.len()
            invariant
                i <= self.playlist@.len(),
                self.playlist@ == old(self).playlist@,
                self.library == old(self).library,
                self.playlist == old(self).playlist,
                self.current == old(self).current,
                self.is_playing == old(self).is_playing,
                self.is_paused == old(self).is_paused,
                self.picked_folder == old(self).picked_folder,
                self.folder_loaded == old(self).folder_loaded,
                self.separator == old(self).separator,
                self.playlist_table.current_index == old(self).playlist_table.current_index,
                self.playlist_table.hidden == old(self).playlist_table.hidden,
                self.playlist_table.tracks@.map_values(|t: Track| t@)
                    == self.playlist@.subrange(0, i as int).map_values(|f: AudioFile| row_of(f, self.separator)),
            decreases self.playlist@.len() - i,
        {
            let track = Track {
                name: file_name(self.playlist[i].path.as_str(), self.separator),
                duration: self.playlist[i].duration.clone(),
            };
            let ghost before = self.playlist_table.tracks@;
            assert(track@ == row_of(self.playlist@[i as int], self.separator));
            self.playlist_table.add_track(track);
            proof {
                assert(self.playlist@.subrange(0, i as int + 1) =~= self.playlist@.subrange(0, i as int).push(
                    self.playlist@[i as int],
                ));
                assert(self.playlist_table.tracks@.map_values(|t: Track| t@) =~= before.map_values(|t: Track| t@).push(
                    track@,
                ));
            }
            i += 1;
            assert(self.playlist_table.tracks@.map_values(|t: Track| t@)
                =~= self.playlist@.subrange(0, i as int).map_values(|f: AudioFile| row_of(f, self.separator)));
        }
        assert(self.playlist@.subrange(0, i as int) =~= self.playlist@);
    }

    /// Takes the library scanned from `folder`: the playlist becomes a
    /// shuffled copy of it, and the table lists that playlist. What is playing
    /// is left alone.
    pub fn open_folder(&mut self, folder: String, library: AudioLibrary)
        requires
            old(self).wf(),
        ensures
            final(self).separator == old(self).separator,
            final(self).wf(),
            final(self).folder_loaded,
            final(self).picked_folder == Some(folder),
            final(self).library == library,
            final(self).playlist@.to_multiset() == library.files@.to_multiset(),
            final(self).playlist@.len() == library.files@.len(),
            final(self).current == old(self).current,
            final(self).is_playing == old(self).is_playing,
            final(self).is_paused == old(self).is_paused,
            final(self).playlist_table.current_index == old(self).playlist_table.current_index,
            final(self).playlist_table.hidden == old(self).playlist_table.hidden,
    {
        self.folder_loaded = true;
        self.picked_folder = Some(folder);
        self.playlist = library.shuffled();
        self.library = library;
        self.refill_table();
    }

    /// Hides the names in the table, or shows them again.
    pub fn toggle_hide(&mut self)
        requires
            old(self).wf(),
        ensures
            final(self).wf(),
            *final(self) == (GuiPlayerApp {
                playlist_table: Playlist { hidden: !old(self).playlist_table.hidden, ..old(self).playlist_table },
                ..*old(self)
            }),
    {
        self.playlist_table.toggle_hidden();
    }

    /// Starts the track at `j`: returns the command that plays it.
    fn start_track(&mut self, j: usize) -> (r: Option<PlayerEvent>)
        requires
            old(self).wf(),
            j < old(self).playlist@.len(),
        ensures
            final(self).wf(),
            *final(self) == playing_track(*old(self), j as int),
            r == Some(PlayerEvent::Play(old(self).playlist@[j as int].path)),
    {
        proof {
            assert(self.playlist_table.tracks@.map_values(|t: Track| t@).len() == self.playlist@.len());
        }
        self.playlist_table.set_current(j);
        let file = self.playlist[j].duplicate();
        let path = file.path.clone();
        self.current = Some(file);
        self.is_playing = true;
        self.is_paused = false;
        Some(PlayerEvent::Play(path))
    }

    /// Play, while nothing plays: starts the first track of the playlist.
    /// Does nothing while a track plays or when the playlist is empty.
    pub fn play(&mut self) -> (r: Option<PlayerEvent>)
        requires
            old(self).wf(),
        ensures
            final(self).wf(),
            if !old(self).is_playing && old(self).playlist@.len() > 0 {
                &&& r == Some(PlayerEvent::Play(old(self).playlist@[0].path))
                &&& *final(self) == playing_track(*old(self), 0)
            } else {
                r is None && *final(self) == *old(self)
            },
    {
        if !self.is_playing && self.playlist.len() > 0 {
            self.start_track(0)
        } else {
            None
        }
    }

    /// The position of the playing track in the playlist.
    fn current_index(&self) -> (r: Option<usize>)
        ensures
            match r {
                Some(i) => current_position(*self) == Some(i as int) && i < self.playlist@.len(),
                None => current_position(*self) is None,
            },
    {
        match &self.current {
            Some(c) => {
                let r = position_of(&self.playlist, &c.path);
                proof {
                    if let Some(i) = r {
                        let k = choose|k: int| is_first_index(self.playlist@, c.path@, k);
                        if k < i {
                            assert(self.playlist@[k].path@ != c.path@);
                        }
                        if i < k {
                            assert(self.playlist@[i as int].path@ != c.path@);
                        }
                    } else {
                        assert(!exists|k: int| is_first_index(self.playlist@, c.path@, k)) by {
                            if exists|k: int| is_first_index(self.playlist@, c.path@, k) {
                                let k = choose|k: int| is_first_index(self.playlist@, c.path@, k);
                                assert(self.playlist@[k].path@ != c.path@);
                            }
                        }
                    }
                }
                r
            },
            None => None,
        }
    }

    /// Next, while a track plays: starts the track after it in the playlist,
    /// or the first after the last. Does nothing otherwise.
    pub fn next(&mut self) -> (r: Option<PlayerEvent>)
        requires
            old(self).wf(),
        ensures
            final(self).wf(),
            match next_target(*old(self)) {
                Some(j) => {
                    &&& r == Some(PlayerEvent::Play(old(self).playlist@[j].path))
                    &&& *final(self) == playing_track(*old(self), j)
                },
                None => r is None && *final(self) == *old(self),
            },
    {
        if !self.is_playing {
            return None;
        }
        match self.current_index() {
            Some(i) => {
                let n = self.playlist.len();
                let j = if i + 1 < n { i + 1 } else { 0 };
                assert(j == (i + 1) % (n as int)) by (nonlinear_arith)
                    requires
                        i < n,
                        j == (if i + 1 < n { i + 1 } else { 0 }),
                ;
                self.start_track(j)
            },
            None => None,
        }
    }

    /// Previous, while a track plays: starts the track before it in the
    /// playlist, or the last before the first. Does nothing otherwise.
    pub fn previous(&mut self) -> (r: Option<PlayerEvent>)
        requires
            old(self).wf(),
        ensures
            final(self).wf(),
            match previous_target(*old(self)) {
                Some(j) => {
                    &&& r == Some(PlayerEvent::Play(old(self).playlist@[j].path))
                    &&& *final(self) == playing_track(*old(self), j)
                },
                None => r is None && *final(self) == *old(self),
            },
    {
        if !self.is_playing {
            return None;
        }
        match self.current_index() {
            Some(i) => {
                let j = if i == 0 { self.playlist.len() - 1 } else { i - 1 };
                self.start_track(j)
            },
            None => None,
        }
    }

    /// Pause, while a track plays and is not paused: pauses it.
    pub fn pause(&mut self) -> (r: Option<PlayerEvent>)
        requires
            old(self).wf(),
        ensures
            final(self).wf(),
            if old(self).is_playing && !old(self).is_paused {
                r == Some(PlayerEvent::Pause) && *final(self) == (GuiPlayerApp { is_paused: true, ..*old(self) })
            } else {
                r is None && *final(self) == *old(self)
            },
    {
        if self.is_playing && !self.is_paused {
            self.is_paused = true;
            Some(PlayerEvent::Pause)
        } else {
            None
        }
    }

    /// Resume, while a track plays and is paused: resumes it.
    pub fn resume(&mut self) -> (r: Option<PlayerEvent>)
        requires
            old(self).wf(),
        ensures
            final(self).wf(),
            if old(self).is_playing && old(self).is_paused {
                r == Some(PlayerEvent::Resume) && *final(self) == (GuiPlayerApp { is_paused: false, ..*old(self) })
            } else {
                r is None && *final(self) == *old(self)
            },
    {
        if self.is_playing && self.is_paused {
            self.is_paused = false;
            Some(PlayerEvent::Resume)
        } else {
            None
        }
    }

    /// Stop, while a track plays: stops it; nothing is playing afterwards.
    pub fn stop(&mut self) -> (r: Option<PlayerEvent>)
        requires
            old(self).wf(),
        ensures
            final(self).wf(),
            if old(self).is_playing {
                r == Some(PlayerEvent::Stop) && *final(self) == (GuiPlayerApp {
                    is_playing: false,
                    is_paused: false,
                    current: None,
                    ..*old(self)
                })
            } else {
                r is None && *final(self) == *old(self)
            },
    {
        if self.is_playing {
            self.is_playing = false;
            self.is_paused = false;
            self.current = None;
            Some(PlayerEvent::Stop)
        } else {
            None
        }
    }

    /// Shuffle, once a folder is loaded: stops playback and makes the
    /// playlist a new shuffled copy of the library.
    pub fn shuffle(&mut self) -> (r: Option<PlayerEvent>)
        requires
            old(self).wf(),
        ensures
            final(self).wf(),
            if old(self).folder_loaded {
                &&& r == Some(PlayerEvent::Stop)
                &&& !final(self).is_playing
                &&& !final(self).is_paused
                &&& final(self).current is None
                &&& final(self).playlist@.to_multiset() == old(self).library.files@.to_multiset()
                &&& final(self).playlist@.len() == old(self).library.files@.len()
                &&& final(self).library == old(self).library
                &&& final(self).folder_loaded
                &&& final(self).picked_folder == old(self).picked_folder
                &&& final(self).separator == old(self).separator
                &&& final(self).playlist_table.current_index == old(self).playlist_table.current_index
                &&& final(self).playlist_table.hidden == old(self).playlist_table.hidden
            } else {
                r is None && *final(self) == *old(self)
            },
    {
        if self.folder_loaded {
            self.is_playing = false;
            self.is_paused = false;
            self.current = None;
            self.playlist = self.library.shuffled();
            self.refill_table();
            Some(PlayerEvent::Stop)
        } else {
            None
        }
    }

    /// Clear Playlist, once a folder is loaded: stops playback and empties
    /// the playlist and the table; the folder counts as not loaded any more.
    pub fn clear_playlist(&mut self) -> (r: Option<PlayerEvent>)
        requires
            old(self).wf(),
        ensures
            final(self).wf(),
            if old(self).folder_loaded {
                &&& r == Some(PlayerEvent::Stop)
                &&& !final(self).is_playing
                &&& !final(self).is_paused
                &&& final(self).current is None
                &&& final(self).playlist@.len() == 0
                &&& final(self).playlist_table.tracks@.len() == 0
                &&& !final(self).folder_loaded
                &&& final(self).library == old(self).library
                &&& final(self).picked_folder == old(self).picked_folder
                &&& final(self).separator == old(self).separator
                &&& final(self).playlist_table.current_index == old(self).playlist_table.current_index
                &&& final(self).playlist_table.hidden == old(self).playlist_table.hidden
            } else {
                r is None && *final(self) == *old(self)
            },
    {
        if self.folder_loaded {
            self.playlist.clear();
            self.playlist_table.clear();
            self.current = None;
            self.is_playing = false;
            self.is_paused = false;
            self.folder_loaded = false;
            assert(self.playlist_table.tracks@.map_values(|t: Track| t@) =~= self.playlist@.map_values(|f: AudioFile| row_of(f, self.separator)));
            Some(PlayerEvent::Stop)
        } else {
            None
        }
    }
}

impl Default for GuiPlayerApp {
    /// The same window as `new`: empty, idle, no folder picked, names shown.
    fn default() -> (r: GuiPlayerApp)
        ensures
            r.wf(),
            r.library.files@.len() == 0,
            r.playlist@.len() == 0,
            r.current is None,
            !r.is_playing,
            !r.is_paused,
            r.picked_folder is None,
            !r.folder_loaded,
            r.playlist_table.tracks@.len() == 0,
            r.playlist_table.current_index is None,
            !r.playlist_table.hidden,
            r.separator == '/' || r.separator == '\\',
    {
        GuiPlayerApp::new()
    }
}

} // verus!
