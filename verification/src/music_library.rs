//! The list of tracks that can be played, a selection and a cursor.
//!
//! Durations are whole nanoseconds.

use std::path::PathBuf;
use vstd::prelude::*;
use vstd::seq_lib::to_multiset_insert;
use vstd::utf8::encode_utf8;

verus! {

#[verifier::external_type_specification]
#[verifier::external_body]
pub struct ExPathBuf(PathBuf);

/// `PathBuf::clone` hands back a path equal to the one it was given.
pub assume_specification[ <PathBuf as Clone>::clone ](path: &PathBuf) -> (copy: PathBuf)
    ensures
        copy == *path,
;

/// Nanoseconds in a second.
pub const NANOS_PER_SECOND: u64 = 1_000_000_000;

/// One playable file.
#[derive(Clone, Debug)]
pub struct Track {
    pub title: String,
    pub artist: Option<String>,
    pub path: PathBuf,
    pub duration: Option<u64>,
}

/// The tracks found under a directory, the track picked for playing, and
/// the cursor that moves through the list.
#[derive(Clone, Debug)]
pub struct MusicLibrary {
    pub tracks: Vec<Track>,
    pub selected_index: Option<usize>,
    pub current_index: usize,
    pub current_dir: PathBuf,
}

/// The time that `n_frames` frames take at `sample_rate` frames a second,
/// rounded down to a nanosecond.
pub open spec fn frames_duration(n_frames: nat, sample_rate: nat) -> nat {
    n_frames * NANOS_PER_SECOND as nat / sample_rate
}

/// The time that `n_frames` frames take at `sample_rate` frames a second:
/// none where the rate is zero or the time does not fit.
pub fn duration_from_frames(n_frames: u64, sample_rate: u32) -> (duration: Option<u64>)
    ensures
        duration is Some <==> sample_rate > 0 && frames_duration(
            n_frames as nat,
            sample_rate as nat,
        ) <= u64::MAX,
        duration matches Some(nanos) ==> nanos == frames_duration(
            n_frames as nat,
            sample_rate as nat,
        ),
{
    if sample_rate == 0 {
        return None;
    }
    assert(n_frames * NANOS_PER_SECOND <= u128::MAX) by (nonlinear_arith)
        requires
            n_frames <= u64::MAX,
            NANOS_PER_SECOND == 1_000_000_000,
    ;
    let nanos: u128 = (n_frames as u128) * (NANOS_PER_SECOND as u128) / (sample_rate as u128);
    if nanos > u64::MAX as u128 {
        None
    } else {
        Some(nanos as u64)
    }
}

/// The last component of `path` as text, from `Path::file_name`: none where
/// the path has no such component or it is not valid Unicode. What counts as
/// a component is the platform's business, so nothing is claimed of it.
#[verifier::external_body]
fn file_name_of(path: &PathBuf) -> (name: Option<String>) {
    match path.file_name() {
        Some(name) => match name.to_str() {
            Some(text) => Some(text.to_string()),
            None => None,
        },
        None => None,
    }
}

/// Whether files with this extension are taken for tracks: exactly the
/// lower-case names of the five formats.
pub open spec fn supported_extension(extension: Seq<char>) -> bool {
    ||| extension == "mp3"@
    ||| extension == "wav"@
    ||| extension == "flac"@
    ||| extension == "ogg"@
    ||| extension == "m4a"@
}

/// Whether `extension` reads `name`.
fn extension_is(extension: &String, name: &str) -> (same: bool)
    ensures
        same == (extension@ == name@),
{
    let wanted = name.to_owned();
    *extension == wanted
}

/// Whether files with this extension are taken for tracks.
pub fn is_supported_extension(extension: &str) -> (supported: bool)
    ensures
        supported == supported_extension(extension@),
{
    let given = extension.to_owned();
    extension_is(&given, "mp3") || extension_is(&given, "wav") || extension_is(&given, "flac")
        || extension_is(&given, "ogg") || extension_is(&given, "m4a")
}

/// Whether `left` comes no later than `right` when the two are compared byte
/// by byte, a shorter text before its longer continuations.
pub open spec fn bytes_le(left: Seq<u8>, right: Seq<u8>) -> bool
    decreases left.len(),
{
    if left.len() == 0 {
        true
    } else if right.len() == 0 {
        false
    } else if left[0] != right[0] {
        left[0] < right[0]
    } else {
        bytes_le(left.drop_first(), right.drop_first())
    }
}

/// Whether the title of `left` comes no later than that of `right`: the
/// order of the titles' UTF-8 bytes, which is the order of `String`.
pub open spec fn title_le(left: Track, right: Track) -> bool {
    bytes_le(encode_utf8(left.title@), encode_utf8(right.title@))
}

/// Whether each track's title comes no later than the titles after it.
pub open spec fn ordered_by_title(tracks: Seq<Track>) -> bool {
    forall|i: int, j: int| 0 <= i < j < tracks.len() ==> title_le(tracks[i], tracks[j])
}

/// Where `track` goes into `sorted`: behind the last track whose title comes
/// no later than its own.
pub open spec fn insertion_point(sorted: Seq<Track>, track: Track) -> int
    decreases sorted.len(),
{
    if sorted.len() == 0 {
        0
    } else if title_le(sorted.last(), track) {
        sorted.len() as int
    } else {
        insertion_point(sorted.drop_last(), track)
    }
}

/// The tracks in the order of their titles, tracks of one title in the order
/// in which they came.
pub open spec fn sorted_by_title(tracks: Seq<Track>) -> Seq<Track>
    decreases tracks.len(),
{
    if tracks.len() == 0 {
        Seq::empty()
    } else {
        let sorted = sorted_by_title(tracks.drop_last());
        sorted.insert(insertion_point(sorted, tracks.last()), tracks.last())
    }
}

/// Of two texts one comes no later than the other.
pub proof fn lemma_bytes_le_total(left: Seq<u8>, right: Seq<u8>)
    ensures
        bytes_le(left, right) || bytes_le(right, left),
    decreases left.len(),
{
    if left.len() > 0 && right.len() > 0 && left[0] == right[0] {
        lemma_bytes_le_total(left.drop_first(), right.drop_first());
    }
}

/// What comes no later than a text that comes no later than a third comes no
/// later than the third.
pub proof fn lemma_bytes_le_transitive(first: Seq<u8>, second: Seq<u8>, third: Seq<u8>)
    requires
        bytes_le(first, second),
        bytes_le(second, third),
    ensures
        bytes_le(first, third),
    decreases first.len(),
{
    if first.len() > 0 && second.len() > 0 && third.len() > 0 && first[0] == second[0] && second[0]
        == third[0] {
        lemma_bytes_le_transitive(first.drop_first(), second.drop_first(), third.drop_first());
    }
}

/// The insertion point lies inside the list; every track before it comes no
/// later than the new track, and every track from it on comes later.
proof fn lemma_insertion_point_splits(sorted: Seq<Track>, track: Track)
    requires
        ordered_by_title(sorted),
    ensures
        0 <= insertion_point(sorted, track) <= sorted.len(),
        forall|i: int| 0 <= i < insertion_point(sorted, track) ==> title_le(#[trigger] sorted[i], track),
        forall|i: int|
            insertion_point(sorted, track) <= i < sorted.len() ==> !title_le(
                #[trigger] sorted[i],
                track,
            ),
    decreases sorted.len(),
{
    if sorted.len() == 0 {
    } else if title_le(sorted.last(), track) {
        assert forall|i: int| 0 <= i < sorted.len() implies title_le(#[trigger] sorted[i], track) by {
            if i < sorted.len() - 1 {
                assert(title_le(sorted[i], sorted[sorted.len() - 1]));
                lemma_bytes_le_transitive(
                    encode_utf8(sorted[i].title@),
                    encode_utf8(sorted.last().title@),
                    encode_utf8(track.title@),
                );
            }
        }
    } else {
        let front = sorted.drop_last();
        assert forall|i: int, j: int| 0 <= i < j < front.len() implies title_le(
            front[i],
            front[j],
        ) by {
            assert(front[i] == sorted[i] && front[j] == sorted[j]);
        }
        lemma_insertion_point_splits(front, track);
        assert forall|i: int| 0 <= i < insertion_point(sorted, track) implies title_le(
            #[trigger] sorted[i],
            track,
        ) by {
            assert(sorted[i] == front[i]);
        }
        assert forall|i: int| insertion_point(sorted, track) <= i < sorted.len() implies !title_le(
            #[trigger] sorted[i],
            track,
        ) by {
            if i < front.len() {
                assert(sorted[i] == front[i]);
            }
        }
    }
}

/// A track put at its insertion point leaves an ordered list ordered.
proof fn lemma_insertion_keeps_order(sorted: Seq<Track>, track: Track)
    requires
        ordered_by_title(sorted),
    ensures
        ordered_by_title(sorted.insert(insertion_point(sorted, track), track)),
{
    let point = insertion_point(sorted, track);
    let grown = sorted.insert(point, track);
    lemma_insertion_point_splits(sorted, track);
    assert forall|i: int, j: int| 0 <= i < j < grown.len() implies title_le(grown[i], grown[j]) by {
        if j < point {
            assert(grown[i] == sorted[i] && grown[j] == sorted[j]);
        } else if j == point {
            assert(grown[i] == sorted[i]);
        } else if i < point {
            assert(grown[i] == sorted[i] && grown[j] == sorted[j - 1]);
            if i == j - 1 {
            }
        } else if i == point {
            assert(grown[j] == sorted[j - 1]);
            lemma_bytes_le_total(encode_utf8(sorted[j - 1].title@), encode_utf8(track.title@));
        } else {
            assert(grown[i] == sorted[i - 1] && grown[j] == sorted[j - 1]);
        }
    }
}

/// Sorting by title gives a list in the order of its titles.
pub proof fn lemma_sorted_is_ordered(tracks: Seq<Track>)
    ensures
        ordered_by_title(sorted_by_title(tracks)),
    decreases tracks.len(),
{
    if tracks.len() > 0 {
        lemma_sorted_is_ordered(tracks.drop_last());
        lemma_insertion_keeps_order(sorted_by_title(tracks.drop_last()), tracks.last());
    }
}

/// Sorting by title keeps every track, as often as it was there.
pub proof fn lemma_sorted_is_permutation(tracks: Seq<Track>)
    ensures
        sorted_by_title(tracks).to_multiset() == tracks.to_multiset(),
        sorted_by_title(tracks).len() == tracks.len(),
    decreases tracks.len(),
{
    if tracks.len() == 0 {
        assert(sorted_by_title(tracks) =~= tracks);
    } else {
        let front = tracks.drop_last();
        let sorted = sorted_by_title(front);
        lemma_sorted_is_permutation(front);
        lemma_sorted_is_ordered(front);
        lemma_insertion_point_splits(sorted, tracks.last());
        to_multiset_insert(sorted, insertion_point(sorted, tracks.last()), tracks.last());
        vstd::seq_lib::to_multiset_build(front, tracks.last());
        assert(front.push(tracks.last()) =~= tracks);
    }
}

/// Whether `left` comes no later than `right`, byte by byte.
fn bytes_no_later(left: &[u8], right: &[u8]) -> (le: bool)
    ensures
        le == bytes_le(left@, right@),
{
    let mut i: usize = 0;
    assert(left@.skip(0) =~= left@ && right@.skip(0) =~= right@);
    while i < left.len() && i < right.len()
        invariant
            i <= left@.len(),
            i <= right@.len(),
            bytes_le(left@, right@) == bytes_le(left@.skip(i as int), right@.skip(i as int)),
        decreases left@.len() - i,
    {
        assert(left@.skip(i as int)[0] == left@[i as int]);
        assert(right@.skip(i as int)[0] == right@[i as int]);
        if left[i] != right[i] {
            return left[i] < right[i];
        }
        assert(left@.skip(i as int).drop_first() =~= left@.skip(i + 1));
        assert(right@.skip(i as int).drop_first() =~= right@.skip(i + 1));
        i += 1;
    }
    i == left.len()
}

/// Whether the title of `left` comes no later than that of `right`.
pub fn title_no_later(left: &Track, right: &Track) -> (le: bool)
    ensures
        le == title_le(*left, *right),
{
    bytes_no_later(left.title.as_str().as_bytes(), right.title.as_str().as_bytes())
}

/// Puts `track` into `sorted` behind the last track whose title comes no
/// later than its own.
fn insert_by_title(sorted: &mut Vec<Track>, track: Track)
    ensures
        final(sorted)@ == old(sorted)@.insert(insertion_point(old(sorted)@, track), track),
{
    let mut point = sorted.len();
    assert(sorted@.subrange(0, point as int) =~= sorted@);
    while point > 0 && !title_no_later(&sorted[point - 1], &track)
        invariant
            point <= sorted@.len(),
            sorted@ == old(sorted)@,
            insertion_point(sorted@, track) == insertion_point(
                sorted@.subrange(0, point as int),
                track,
            ),
        decreases point,
    {
        assert(sorted@.subrange(0, point as int).drop_last() =~= sorted@.subrange(
            0,
            point - 1,
        ));
        point -= 1;
    }
    sorted.insert(point, track);
}

impl Track {
    /// A track with everything given.
    pub fn with_metadata(
        path: PathBuf,
        title: String,
        artist: Option<String>,
        duration: Option<u64>,
    ) -> (track: Self)
        ensures
            track == (Track { title, artist, path, duration }),
    {
        Track { title, artist, path, duration }
    }

    /// A track named after its file: `file_name`, or "Unknown" where there
    /// is none.
    pub fn with_file_name(path: PathBuf, file_name: Option<String>, duration: Option<u64>) -> (track:
        Self)
        ensures
            track.path == path,
            track.artist is None,
            track.duration == duration,
            track.title@ == match file_name {
                Some(name) => name@,
                None => "Unknown"@,
            },
    {
        let title = match file_name {
            Some(name) => name,
            None => "Unknown".to_owned(),
        };
        Track { title, artist: None, path, duration }
    }

    /// A track of unknown length, named after the last component of `path`.
    pub fn new(path: PathBuf) -> (track: Self)
        ensures
            track.path == path,
            track.artist is None,
            track.duration is None,
    {
        let file_name = file_name_of(&path);
        Track::with_file_name(path, file_name, None)
    }

    /// A track named after the last component of `path`, with the length
    /// that `n_frames` frames take at `sample_rate` frames a second. The
    /// length is unknown where the number of frames is, where the rate is
    /// zero and where the time does not fit.
    pub fn from_file(path: PathBuf, sample_rate: u32, n_frames: Option<u64>) -> (track: Self)
        ensures
            track.path == path,
            track.artist is None,
            track.duration is Some <==> n_frames is Some && sample_rate > 0 && frames_duration(
                n_frames.unwrap() as nat,
                sample_rate as nat,
            ) <= u64::MAX,
            track.duration matches Some(nanos) ==> nanos == frames_duration(
                n_frames.unwrap() as nat,
                sample_rate as nat,
            ),
    {
        let duration = match n_frames {
            Some(frames) => duration_from_frames(frames, sample_rate),
            None => None,
        };
        let file_name = file_name_of(&path);
        Track::with_file_name(path, file_name, duration)
    }
}

impl MusicLibrary {
    /// The cursor one step up, wrapping to the last track from the first.
    pub open spec fn previous_index(self) -> usize {
        if self.current_index > 0 {
            (self.current_index - 1) as usize
        } else if self.tracks@.len() > 0 {
            (self.tracks@.len() - 1) as usize
        } else {
            self.current_index
        }
    }

    /// The cursor one step down, wrapping to the first track from the last.
    pub open spec fn next_index(self) -> usize {
        if self.current_index + 1 < self.tracks@.len() {
            (self.current_index + 1) as usize
        } else if self.tracks@.len() > 0 {
            0
        } else {
            self.current_index
        }
    }

    /// The length of track `index`; zero where there is no such track or its
    /// length is unknown.
    pub open spec fn duration_at(self, index: int) -> nat {
        if 0 <= index < self.tracks@.len() {
            match self.tracks@[index].duration {
                Some(nanos) => nanos as nat,
                None => 0,
            }
        } else {
            0
        }
    }

    /// A library for the directory `path`, with no tracks yet.
    pub fn new(path: PathBuf) -> (library: Self)
        ensures
            library.tracks@.len() == 0,
            library.selected_index is None,
            library.current_index == 0,
            library.current_dir == path,
    {
        MusicLibrary { tracks: Vec::new(), selected_index: None, current_index: 0, current_dir: path }
    }

    /// Takes `found` for the tracks of the library, in the order of their
    /// titles, and picks the first one for playing if there is one.
    pub fn load_tracks(&mut self, found: Vec<Track>)
        ensures
            final(self).tracks@ == sorted_by_title(found@),
            final(self).selected_index == if found@.len() > 0 {
                Some(0usize)
            } else {
                old(self).selected_index
            },
            final(self).current_index == old(self).current_index,
            final(self).current_dir == old(self).current_dir,
    {
        let mut rest = found;
        let mut sorted: Vec<Track> = Vec::new();
        let ghost mut taken: int = 0;
        assert(found@.subrange(0, 0) =~= Seq::<Track>::empty());
        assert(found@.subrange(0, found@.len() as int) =~= found@);
        while rest.len() > 0
            invariant
                0 <= taken <= found@.len(),
                rest@ == found@.subrange(taken, found@.len() as int),
                sorted@ == sorted_by_title(found@.subrange(0, taken)),
            decreases rest@.len(),
        {
            let track = rest.remove(0);
            proof {
                assert(track == found@[taken]);
                assert(found@.subrange(0, taken + 1).drop_last() =~= found@.subrange(0, taken));
                assert(found@.subrange(0, taken + 1).last() == found@[taken]);
                assert(rest@ =~= found@.subrange(taken + 1, found@.len() as int));
                taken = taken + 1;
            }
            insert_by_title(&mut sorted, track);
        }
        assert(found@.subrange(0, taken) =~= found@);
        if sorted.len() > 0 {
            self.selected_index = Some(0);
        }
        proof {
            lemma_sorted_is_permutation(found@);
        }
        self.tracks = sorted;
    }

    /// Appends `track`.
    pub fn add_track(&mut self, track: Track)
        ensures
            final(self).tracks@ == old(self).tracks@.push(track),
            final(self).selected_index == old(self).selected_index,
            final(self).current_index == old(self).current_index,
            final(self).current_dir == old(self).current_dir,
    {
        self.tracks.push(track);
    }

    /// Picks track `index` for playing and hands it out; leaves the
    /// selection alone where there is no such track.
    pub fn select_track(&mut self, index: usize) -> (track: Option<&Track>)
        ensures
            final(self).tracks == old(self).tracks,
            final(self).current_index == old(self).current_index,
            final(self).current_dir == old(self).current_dir,
            index < old(self).tracks@.len() ==> final(self).selected_index == Some(index)
                && track == Some(&old(self).tracks@[index as int]),
            index >= old(self).tracks@.len() ==> final(self).selected_index == old(
                self,
            ).selected_index && track is None,
    {
        if index < self.tracks.len() {
            self.selected_index = Some(index);
            Some(&self.tracks[index])
        } else {
            None
        }
    }

    /// Moves the cursor one track up, from the first track to the last.
    pub fn select_previous(&mut self)
        ensures
            final(self).current_index == old(self).previous_index(),
            final(self).tracks == old(self).tracks,
            final(self).selected_index == old(self).selected_index,
            final(self).current_dir == old(self).current_dir,
    {
        if self.current_index > 0 {
            self.current_index -= 1;
        } else if self.tracks.len() > 0 {
            self.current_index = self.tracks.len() - 1;
        }
    }

    /// Moves the cursor one track down, from the last track to the first.
    pub fn select_next(&mut self)
        ensures
            final(self).current_index == old(self).next_index(),
            final(self).tracks == old(self).tracks,
            final(self).selected_index == old(self).selected_index,
            final(self).current_dir == old(self).current_dir,
    {
        let len = self.tracks.len();
        if len > 0 && self.current_index < len - 1 {
            self.current_index += 1;
        } else if len > 0 {
            self.current_index = 0;
        }
    }

    /// The number of tracks.
    pub fn len(&self) -> (len: usize)
        ensures
            len == self.tracks@.len(),
    {
        self.tracks.len()
    }

    /// Whether there is no track.
    pub fn is_empty(&self) -> (empty: bool)
        ensures
            empty == (self.tracks@.len() == 0),
    {
        self.tracks.len() == 0
    }

    /// The length of track `index`; zero where there is no such track or its
    /// length is unknown.
    pub fn track_duration(&self, index: usize) -> (nanos: u64)
        ensures
            nanos == self.duration_at(index as int),
    {
        if index < self.tracks.len() {
            match self.tracks[index].duration {
                Some(nanos) => nanos,
                None => 0,
            }
        } else {
            0
        }
    }
}

} // verus!
