//! The audio library: the files a folder scan found, and shuffled copies.

use rand::seq::SliceRandom;
use vstd::prelude::*;
use crate::text::{audio_extensions, clock_label, fold_case, same_ignoring_case, format_duration, is_audio_extension, is_audio_extension_spec, is_mp3_extension, is_mp3_spec};

verus! {

/// An audio file: its path and a "mm:ss" duration label ("00:00" when unknown).
#[derive(Clone, Debug)]
pub struct AudioFile {
    pub path: String,
    pub duration: String,
}

impl View for AudioFile {
    type V = (Seq<char>, Seq<char>);

    open spec fn view(&self) -> (Seq<char>, Seq<char>) {
        (self.path@, self.duration@)
    }
}

impl AudioFile {
    /// A copy of this file entry.
    pub fn duplicate(&self) -> (r: AudioFile)
        ensures
            r == *self,
    {
        AudioFile { path: self.path.clone(), duration: self.duration.clone() }
    }
}

/// A regular file met by a directory walk: its path, its extension when it
/// has one in UTF-8, and its length in whole seconds when it was probed.
#[derive(Clone, Debug)]
pub struct ScannedFile {
    pub path: String,
    pub extension: Option<String>,
    pub seconds: Option<u64>,
}

/// A scanned file is kept when its extension names a playable format.
pub open spec fn keeps(e: ScannedFile) -> bool {
    match e.extension {
        Some(x) => is_audio_extension_spec(x@),
        None => false,
    }
}

/// The duration label of a scanned file: its probed length for an mp3 file,
/// "00:00" for other formats and when the probe failed.
pub open spec fn duration_label(e: ScannedFile) -> Seq<char> {
    match (e.extension, e.seconds) {
        (Some(x), Some(s)) => if is_mp3_spec(x@) { clock_label(s as nat) } else { clock_label(0) },
        _ => clock_label(0),
    }
}

/// What a scanned file becomes in the library, if it is kept.
pub open spec fn scan_entry(e: ScannedFile) -> Option<(Seq<char>, Seq<char>)> {
    if keeps(e) { Some((e.path@, duration_label(e))) } else { None }
}

/// The library built from the files of a walk, in the walk's order.
pub open spec fn scan_result(entries: Seq<ScannedFile>) -> Seq<(Seq<char>, Seq<char>)> {
    entries.filter_map(|e: ScannedFile| scan_entry(e))
}

/// A scan keeps exactly the files with a playable extension: one library
/// entry per such file, in the walk's order, with that file's path; files of
/// other extensions, or of none, leave no entry.
pub proof fn scan_keeps_exactly_audio_files(entries: Seq<ScannedFile>)
    ensures
        scan_result(entries).len() == entries.filter(|e: ScannedFile| keeps(e)).len(),
        forall|i: int|
            0 <= i < scan_result(entries).len() ==> (#[trigger] scan_result(entries)[i]).0
                == entries.filter(|e: ScannedFile| keeps(e))[i].path@,
    decreases entries.len(),
{
    reveal(Seq::filter);
    if entries.len() > 0 {
        scan_keeps_exactly_audio_files(entries.drop_last());
    }
}

/// Whether an extension names a playable format does not depend on its
/// letter case: "MP3" is kept as "mp3" is.
pub proof fn extension_case_is_ignored(a: Seq<char>, b: Seq<char>)
    requires
        same_ignoring_case(a, b),
    ensures
        is_audio_extension_spec(a) == is_audio_extension_spec(b),
{
    assert forall|k: int| 0 <= k < audio_extensions().len() implies
        same_ignoring_case(a, #[trigger] audio_extensions()[k]) == same_ignoring_case(b, audio_extensions()[k]) by {
        let t = audio_extensions()[k];
        if same_ignoring_case(a, t) {
            assert forall|i: int| 0 <= i < b.len() implies fold_case(#[trigger] b[i]) == fold_case(t[i]) by {
                assert(fold_case(a[i]) == fold_case(b[i]));
            }
        }
        if same_ignoring_case(b, t) {
            assert forall|i: int| 0 <= i < a.len() implies fold_case(#[trigger] a[i]) == fold_case(t[i]) by {
                assert(fold_case(a[i]) == fold_case(b[i]));
            }
        }
    }
}

/// Two orders of the same elements, mapped element by element, are again
/// two orders of the same elements.
proof fn lemma_permutation_map<A, B>(a: Seq<A>, b: Seq<A>, g: spec_fn(A) -> B)
    requires
        a.to_multiset() == b.to_multiset(),
    ensures
        a.map_values(g).to_multiset() == b.map_values(g).to_multiset(),
    decreases a.len(),
{
    broadcast use vstd::seq_lib::group_to_multiset_ensures, vstd::multiset::group_multiset_axioms;

    a.to_multiset_ensures();
    b.to_multiset_ensures();
    if a.len() == 0 {
        assert(b.len() == 0);
        assert(a.map_values(g) =~= b.map_values(g));
    } else {
        let x = a.last();
        let a1 = a.drop_last();
        assert(a1.push(x) =~= a);
        assert(a[a.len() - 1] == x);
        assert(a.contains(x));
        assert(a.to_multiset().count(x) > 0);
        assert(b.contains(x));
        let k = choose|k: int| 0 <= k < b.len() && b[k] == x;
        let b1 = b.remove(k);
        assert(b1.to_multiset() == b.to_multiset().remove(x));
        assert(a1.to_multiset() =~= b1.to_multiset());
        lemma_permutation_map(a1, b1, g);
        assert(b1.insert(k, x) =~= b);
        assert(a1.map_values(g).push(g(x)) =~= a.map_values(g));
        assert(b1.map_values(g).insert(k, g(x)) =~= b.map_values(g));
    }
}

/// Shuffling keeps the paths: the multiset of paths of a shuffled copy is
/// the multiset of paths of the library (and an empty library shuffles to
/// an empty list).
pub proof fn shuffle_keeps_paths(files: Seq<AudioFile>, shuffled: Seq<AudioFile>)
    requires
        shuffled.to_multiset() == files.to_multiset(),
    ensures
        shuffled.map_values(|f: AudioFile| f.path@).to_multiset() == files.map_values(|f: AudioFile| f.path@).to_multiset(),
        files.len() == 0 ==> shuffled.len() == 0,
{
    broadcast use vstd::seq_lib::group_to_multiset_ensures;

    lemma_permutation_map(shuffled, files, |f: AudioFile| f.path@);
    shuffled.to_multiset_ensures();
    files.to_multiset_ensures();
}

/// Relies on rand's `SliceRandom::shuffle`, with the thread-local generator
/// `rand::rng`: it reorders the elements in place by swaps alone, so what
/// comes out is a permutation of what went in, in an order chance decides.
#[verifier::external_body]
fn shuffle_files(files: &mut Vec<AudioFile>)
    ensures
        final(files)@.to_multiset() == old(files)@.to_multiset(),
{
    files.shuffle(&mut rand::rng());
}

/// A list of audio files.
pub struct AudioLibrary {
    pub files: Vec<AudioFile>,
}

impl AudioLibrary {
    /// An empty library.
    pub fn new() -> (r: AudioLibrary)
        ensures
            r.files@.len() == 0,
    {
        AudioLibrary { files: Vec::new() }
    }

    /// Builds the library from what a recursive directory walk found: the
    /// files whose extension is mp3, flac, wav, ogg or m4a in any letter case,
    /// in the walk's order, each with its duration label.
    pub fn from_scan(entries: &Vec<ScannedFile>) -> (r: AudioLibrary)
        ensures
            r.files@.map_values(|f: AudioFile| f@) == scan_result(entries@),
    {
        let mut files: Vec<AudioFile> = Vec::new();
        let mut i: usize = 0;
        while i < entries.len()
            invariant
                i <= entries@.len(),
                files@.map_values(|f: AudioFile| f@) == scan_result(entries@.subrange(0, i as int)),
            decreases entries@.len() - i,
        {
            let e = &entries[i];
            proof {
                assert(entries@.subrange(0, i as int + 1).drop_last() =~= entries@.subrange(0, i as int));
            }
            match &e.extension {
                Some(ext) => {
                    if is_audio_extension(ext.as_str()) {
                        let duration = match e.seconds {
                            Some(s) => if is_mp3_extension(ext.as_str()) { format_duration(s) } else { format_duration(0) },
                            None => format_duration(0),
                        };
                        let ghost before = files@;
                        files.push(AudioFile { path: e.path.clone(), duration });
                        assert(files@.map_values(|f: AudioFile| f@) =~= before.map_values(|f: AudioFile| f@).push(
                            (e.path@, duration_label(*e)),
                        ));
                    }
                },
                None => {},
            }
            i += 1;
        }
        assert(entries@.subrange(0, entries@.len() as int) =~= entries@);
        AudioLibrary { files }
    }

    /// The files of the library.
    pub fn list(&self) -> (r: &Vec<AudioFile>)
        ensures
            r@ == self.files@,
    {
        &self.files
    }

    /// A copy of the files in random order; the library itself is unchanged.
    pub fn shuffled(&self) -> (r: Vec<AudioFile>)
        ensures
            r@.to_multiset() == self.files@.to_multiset(),
            r@.len() == self.files@.len(),
    {
        let mut copy: Vec<AudioFile> = Vec::new();
        let mut i: usize = 0;
        while i < self.files.len()
            invariant
                i <= self.files@.len(),
                copy@ == self.files@.subrange(0, i as int),
            decreases self.files@.len() - i,
        {
            copy.push(self.files[i].duplicate());
            i += 1;
            assert(copy@ =~= self.files@.subrange(0, i as int));
        }
        assert(copy@ =~= self.files@);
        shuffle_files(&mut copy);
        proof {
            copy@.to_multiset_ensures();
            self.files@.to_multiset_ensures();
        }
        copy
    }
}

} // verus!
