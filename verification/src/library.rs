//! The library index: every artist with the tracks that name them.
//!
//! The index is built once, from what a scan of the music directory found,
//! and never changed. Artists are listed in the order of strings, each
//! once. The tracks of an artist are listed by title, those of one title by
//! location.

use crate::text::ends_with;
use crate::text::lemma_str_lt_total;
use crate::text::lemma_str_lt_transitive;
use crate::text::rank_of;
use crate::text::str_ends_with;
use crate::text::str_le;
use crate::text::str_lt;
use crate::text::Rank;
use crate::track::track_le;
use crate::track::Track;
use crate::track::TrackView;
use vstd::multiset::Multiset;
use vstd::prelude::*;
use vstd::relations::antisymmetric;
use vstd::relations::reflexive;
use vstd::relations::sorted_by;
use vstd::relations::strongly_connected;
use vstd::relations::total_ordering;
use vstd::relations::transitive;
use vstd::seq_lib::lemma_sorted_unique;

verus! {

/// What a scan found of one file: where it lies, and the artist and title
/// that its tag names, as far as it names them.
#[derive(Debug, PartialEq, Eq)]
pub struct ScannedFile {
    pub path: String,
    pub artist: Option<String>,
    pub title: Option<String>,
}

/// A scanned file as contracts speak of it.
pub struct ScannedFileView {
    pub path: Seq<char>,
    pub artist: Option<Seq<char>>,
    pub title: Option<Seq<char>>,
}

impl View for ScannedFile {
    type V = ScannedFileView;

    open spec fn view(&self) -> ScannedFileView {
        ScannedFileView {
            path: self.path@,
            artist: match self.artist {
                Some(artist) => Some(artist@),
                None => None,
            },
            title: match self.title {
                Some(title) => Some(title@),
                None => None,
            },
        }
    }
}

/// The views of a list of scanned files.
pub open spec fn scan_view(files: Seq<ScannedFile>) -> Seq<ScannedFileView> {
    files.map_values(|file: ScannedFile| file@)
}

/// The path names a file with the extension `mp3`: it ends with `.mp3`, and
/// before that stands at least one character of the file's own name.
pub open spec fn has_mp3_extension(path: Seq<char>) -> bool {
    &&& ends_with(path, ".mp3"@)
    &&& path.len() > 4
    &&& path[path.len() - 5] != '/'
}

/// The artist and the track that a scanned file adds to the index. A file
/// adds something if it has the extension `mp3` and its tag names both an
/// artist and a title.
pub open spec fn entry_of(file: ScannedFileView) -> Option<(Seq<char>, TrackView)> {
    if has_mp3_extension(file.path) && file.artist is Some && file.title is Some {
        Some((file.artist->0, TrackView { title: file.title->0, location: file.path }))
    } else {
        None
    }
}

/// The tracks that the files add for `artist`, each as often as it was
/// found.
pub open spec fn tracks_by(files: Seq<ScannedFileView>, artist: Seq<char>) -> Multiset<TrackView>
    decreases files.len(),
{
    if files.len() == 0 {
        Multiset::empty()
    } else {
        let before = tracks_by(files.drop_last(), artist);
        match entry_of(files.last()) {
            Some((name, track)) if name == artist => before.insert(track),
            _ => before,
        }
    }
}

/// The views of a list of names.
pub open spec fn name_views(names: Seq<String>) -> Seq<Seq<char>> {
    names.map_values(|name: String| name@)
}

/// The views of a list of tracks.
pub open spec fn track_views(tracks: Seq<Track>) -> Seq<TrackView> {
    tracks.map_values(|track: Track| track@)
}

/// The names stand in the order of strings, none twice.
pub open spec fn names_ascend(names: Seq<Seq<char>>) -> bool {
    forall|i: int, j: int| 0 <= i < j < names.len() ==> str_lt(names[i], names[j])
}

/// The tracks stand as they are listed: by title, then by location.
pub open spec fn tracks_ascend(tracks: Seq<TrackView>) -> bool {
    forall|i: int, j: int| 0 <= i < j < tracks.len() ==> track_le(tracks[i], tracks[j])
}

/// Every one of the tracks lies in a file with the extension `mp3`.
pub open spec fn tracks_lie_in_mp3_files(tracks: Seq<TrackView>) -> bool {
    forall|i: int| 0 <= i < tracks.len() ==> has_mp3_extension((#[trigger] tracks[i]).location)
}

/// A library index as contracts speak of it: the artists, and for each of
/// them, at the same place, their tracks.
pub struct LibraryView {
    pub artists: Seq<Seq<char>>,
    pub tracks: Seq<Seq<TrackView>>,
}

impl LibraryView {
    /// What holds of every index: each artist has a list of tracks and at
    /// least one track in it, artists and tracks are in order, and every
    /// track lies in a file with the extension `mp3`.
    pub open spec fn valid(self) -> bool {
        &&& self.artists.len() == self.tracks.len()
        &&& names_ascend(self.artists)
        &&& forall|i: int|
            0 <= i < self.tracks.len() ==> {
                &&& (#[trigger] self.tracks[i]).len() > 0
                &&& tracks_ascend(self.tracks[i])
                &&& tracks_lie_in_mp3_files(self.tracks[i])
            }
    }

    /// The index holds what the files add, all of it and nothing else: an
    /// artist is listed exactly if some file adds a track for them, and
    /// their list holds each of those tracks as often as it was found.
    pub open spec fn indexes(self, files: Seq<ScannedFileView>) -> bool {
        &&& self.artists.len() == self.tracks.len()
        &&& forall|name: Seq<char>|
            self.artists.contains(name) <==> (#[trigger] tracks_by(files, name)).len() > 0
        &&& forall|i: int|
            0 <= i < self.artists.len() ==> (#[trigger] self.tracks[i]).to_multiset() == tracks_by(
                files,
                self.artists[i],
            )
    }

    /// The index as a mapping from artist to tracks.
    pub open spec fn as_map(self) -> Map<Seq<char>, Seq<TrackView>> {
        Map::new(
            |name: Seq<char>| self.artists.contains(name),
            |name: Seq<char>| self.tracks[self.artists.index_of(name)],
        )
    }
}

/// The order in which tracks are listed is total.
pub proof fn lemma_track_le_total(a: TrackView, b: TrackView)
    ensures
        track_le(a, b) || track_le(b, a),
        track_le(a, b) && track_le(b, a) ==> a == b,
{
    lemma_str_lt_total(a.title, b.title);
    lemma_str_lt_total(a.location, b.location);
}

/// The order in which tracks are listed is transitive.
pub proof fn lemma_track_le_transitive(a: TrackView, b: TrackView, c: TrackView)
    requires
        track_le(a, b),
        track_le(b, c),
    ensures
        track_le(a, c),
{
    lemma_str_lt_total(a.title, b.title);
    lemma_str_lt_total(b.title, c.title);
    lemma_str_lt_total(a.location, b.location);
    lemma_str_lt_total(b.location, c.location);
    if str_lt(a.title, b.title) && str_lt(b.title, c.title) {
        lemma_str_lt_transitive(a.title, b.title, c.title);
    }
    if a.title == b.title && b.title == c.title && str_lt(a.location, b.location) && str_lt(
        b.location,
        c.location,
    ) {
        lemma_str_lt_transitive(a.location, b.location, c.location);
    }
}

/// A sequence with one more element holds that element once more and
/// everything else as before.
pub proof fn lemma_insert_to_multiset<A>(s: Seq<A>, at: int, a: A)
    requires
        0 <= at <= s.len(),
    ensures
        s.insert(at, a).to_multiset() == s.to_multiset().insert(a),
{
    broadcast use vstd::seq_lib::group_to_multiset_ensures;

    let longer = s.insert(at, a);
    assert(longer.remove(at) =~= s);
    assert(longer[at] == a);
    vstd::seq_lib::to_multiset_remove(longer, at);
    assert(longer.contains(a));
    assert(longer.to_multiset().count(a) > 0);
    assert(longer.to_multiset() =~= s.to_multiset().insert(a));
}

/// Whether the path names a file with the extension `mp3`.
pub fn is_mp3_path(path: &str) -> (yes: bool)
    ensures
        yes == has_mp3_extension(path@),
{
    if !str_ends_with(path, ".mp3") {
        return false;
    }
    proof {
        reveal_strlit(".mp3");
    }
    let n = path.unicode_len();
    n > 4 && path.get_char(n - 5) != '/'
}

/// The views of the track lists of an index.
pub open spec fn list_views(lists: Seq<Vec<Track>>) -> Seq<Seq<TrackView>> {
    lists.map_values(|list: Vec<Track>| track_views(list@))
}

/// What the files add for an artist once one more file was scanned.
pub proof fn lemma_tracks_by_push(files: Seq<ScannedFileView>, file: ScannedFileView, artist: Seq<char>)
    ensures
        tracks_by(files.push(file), artist) == match entry_of(file) {
            Some((name, track)) if name == artist => tracks_by(files, artist).insert(track),
            _ => tracks_by(files, artist),
        },
{
    assert(files.push(file).drop_last() =~= files);
    assert(files.push(file).last() == file);
}

/// Where `name` stands among `names`, or would stand: the number of names
/// before it, and whether it is there.
fn place_of_name(names: &Vec<String>, name: &str) -> (place: (usize, bool))
    requires
        names_ascend(name_views(names@)),
    ensures
        place.0 <= names.len(),
        forall|i: int| 0 <= i < place.0 ==> str_lt(#[trigger] names[i]@, name@),
        place.1 ==> place.0 < names.len() && names[place.0 as int]@ == name@,
        !place.1 ==> forall|i: int| place.0 <= i < names.len() ==> str_lt(name@, #[trigger] names[i]@),
{
    let mut at: usize = 0;
    while at < names.len()
        invariant
            at <= names.len(),
            names_ascend(name_views(names@)),
            forall|i: int| 0 <= i < at ==> str_lt(#[trigger] names[i]@, name@),
        decreases names.len() - at,
    {
        match rank_of(names[at].as_str(), name) {
            Rank::Before => {
                proof {
                    lemma_str_lt_total(names[at as int]@, name@);
                }
            },
            Rank::Same => {
                return (at, true);
            },
            Rank::After => {
                proof {
                    lemma_str_lt_total(names[at as int]@, name@);
                    assert forall|i: int| at <= i < names.len() implies str_lt(
                        name@,
                        #[trigger] names[i]@,
                    ) by {
                        if i > at {
                            assert(name_views(names@)[at as int] == names[at as int]@);
                            assert(name_views(names@)[i] == names[i]@);
                            lemma_str_lt_transitive(name@, names[at as int]@, names[i]@);
                        }
                    }
                }
                return (at, false);
            },
        }
        at += 1;
    }
    (at, false)
}

/// Where `track` is to stand among `tracks`: behind every track that is
/// listed before it or like it.
fn place_of_track(tracks: &Vec<Track>, track: &Track) -> (place: usize)
    requires
        tracks_ascend(track_views(tracks@)),
    ensures
        place <= tracks.len(),
        forall|i: int| 0 <= i < place ==> track_le(#[trigger] tracks[i]@, track@),
        forall|i: int| place <= i < tracks.len() ==> track_le(track@, #[trigger] tracks[i]@),
{
    let mut at: usize = 0;
    while at < tracks.len()
        invariant
            at <= tracks.len(),
            tracks_ascend(track_views(tracks@)),
            forall|i: int| 0 <= i < at ==> track_le(#[trigger] tracks[i]@, track@),
        decreases tracks.len() - at,
    {
        if !tracks[at].listed_before(track) {
            proof {
                lemma_track_le_total(tracks[at as int]@, track@);
                assert forall|i: int| at <= i < tracks.len() implies track_le(
                    track@,
                    #[trigger] tracks[i]@,
                ) by {
                    if i > at {
                        assert(track_views(tracks@)[at as int] == tracks[at as int]@);
                        assert(track_views(tracks@)[i] == tracks[i]@);
                        lemma_track_le_transitive(track@, tracks[at as int]@, tracks[i]@);
                    }
                }
            }
            return at;
        }
        at += 1;
    }
    at
}

/// Puts `track` into the list where it belongs.
fn list_track(tracks: &mut Vec<Track>, track: Track)
    requires
        tracks_ascend(track_views(old(tracks)@)),
        tracks_lie_in_mp3_files(track_views(old(tracks)@)),
        has_mp3_extension(track@.location),
    ensures
        tracks_ascend(track_views(final(tracks)@)),
        tracks_lie_in_mp3_files(track_views(final(tracks)@)),
        track_views(final(tracks)@).to_multiset() == track_views(old(tracks)@).to_multiset().insert(
            track@,
        ),
        final(tracks).len() == old(tracks).len() + 1,
{
    let at = place_of_track(tracks, &track);
    let ghost before = track_views(tracks@);
    let ghost added = track@;
    tracks.insert(at, track);
    proof {
        let after = track_views(tracks@);
        assert(after =~= before.insert(at as int, added));
        lemma_insert_to_multiset(before, at as int, added);
        assert forall|i: int| 0 <= i < after.len() implies has_mp3_extension(
            (#[trigger] after[i]).location,
        ) by {
            if i < at {
                assert(after[i] == before[i]);
            } else if i > at {
                assert(after[i] == before[i - 1]);
            }
        }
        assert forall|i: int, j: int| 0 <= i < j < after.len() implies track_le(
            after[i],
            after[j],
        ) by {
            if j < at {
                assert(after[i] == before[i] && after[j] == before[j]);
            } else if j == at {
                assert(after[i] == before[i]);
            } else if i < at {
                assert(after[i] == before[i] && after[j] == before[j - 1]);
            } else if i == at {
                assert(after[j] == before[j - 1]);
            } else {
                assert(after[i] == before[i - 1] && after[j] == before[j - 1]);
            }
        }
    }
}

/// A library index: every artist with their tracks.
#[derive(Debug)]
pub struct Library {
    artists: Vec<String>,
    tracks: Vec<Vec<Track>>,
}

impl View for Library {
    type V = LibraryView;

    closed spec fn view(&self) -> LibraryView {
        LibraryView { artists: name_views(self.artists@), tracks: list_views(self.tracks@) }
    }
}

/// Takes the track of one more scanned file into an index under
/// construction.
fn add_track(
    artists: &mut Vec<String>,
    tracks: &mut Vec<Vec<Track>>,
    name: String,
    track: Track,
    Ghost(files): Ghost<Seq<ScannedFileView>>,
    Ghost(file): Ghost<ScannedFileView>,
)
    requires
        (LibraryView {
            artists: name_views(old(artists)@),
            tracks: list_views(old(tracks)@),
        }).valid(),
        (LibraryView {
            artists: name_views(old(artists)@),
            tracks: list_views(old(tracks)@),
        }).indexes(files),
        entry_of(file) == Some((name@, track@)),
    ensures
        (LibraryView {
            artists: name_views(final(artists)@),
            tracks: list_views(final(tracks)@),
        }).valid(),
        (LibraryView {
            artists: name_views(final(artists)@),
            tracks: list_views(final(tracks)@),
        }).indexes(files.push(file)),
{
    let ghost before = LibraryView {
        artists: name_views(artists@),
        tracks: list_views(tracks@),
    };
    let ghost a = name@;
    let ghost t = track@;
    let (at, found) = place_of_name(artists, name.as_str());
    proof {
        assert forall|i: int| 0 <= i < before.artists.len() implies (i < at ==> str_lt(
            #[trigger] before.artists[i],
            a,
        )) && (!found && i >= at ==> str_lt(a, before.artists[i])) by {
            assert(before.artists[i] == artists[i]@);
        }
        assert forall|x: Seq<char>|
            tracks_by(files.push(file), x) == if x == a {
                tracks_by(files, x).insert(t)
            } else {
                tracks_by(files, x)
            } by {
            lemma_tracks_by_push(files, file, x);
        }
    }
    if found {
        let mut list = tracks.remove(at);
        let ghost old_list = track_views(list@);
        proof {
            assert(old_list == before.tracks[at as int]);
        }
        list_track(&mut list, track);
        let ghost new_list = track_views(list@);
        tracks.insert(at, list);
        proof {
            let after = LibraryView {
                artists: name_views(artists@),
                tracks: list_views(tracks@),
            };
            assert(after.artists == before.artists);
            assert(after.tracks =~= before.tracks.update(at as int, new_list));
            assert(before.artists[at as int] == a);
            assert forall|i: int| 0 <= i < after.artists.len() && i != at implies after.artists[i]
                != a by {
                lemma_str_lt_total(after.artists[i], a);
                if i < at {
                    assert(str_lt(before.artists[i], before.artists[at as int]));
                } else {
                    assert(str_lt(before.artists[at as int], before.artists[i]));
                }
            }
            assert forall|i: int| 0 <= i < after.artists.len() implies (
            #[trigger] after.tracks[i]).to_multiset() == tracks_by(
                files.push(file),
                after.artists[i],
            ) by {
                assert(before.tracks[i].to_multiset() == tracks_by(files, before.artists[i]));
            }
            assert forall|x: Seq<char>|
                after.artists.contains(x) <==> (#[trigger] tracks_by(files.push(file), x)).len()
                    > 0 by {
                assert(before.artists.contains(x) <==> tracks_by(files, x).len() > 0);
                if x == a {
                    assert(before.artists.contains(a));
                }
            }
            assert forall|i: int| 0 <= i < after.tracks.len() implies (
            #[trigger] after.tracks[i]).len() > 0 && tracks_ascend(after.tracks[i])
                && tracks_lie_in_mp3_files(after.tracks[i]) by {
                if i != at {
                    assert(after.tracks[i] == before.tracks[i]);
                }
            }
        }
    } else {
        let mut list: Vec<Track> = Vec::new();
        list.push(track);
        let ghost new_list = track_views(list@);
        artists.insert(at, name);
        tracks.insert(at, list);
        proof {
            broadcast use vstd::seq_lib::group_to_multiset_ensures;

            let after = LibraryView {
                artists: name_views(artists@),
                tracks: list_views(tracks@),
            };
            assert(new_list =~= Seq::<TrackView>::empty().push(t));
            assert(Seq::<TrackView>::empty().to_multiset() =~= Multiset::<TrackView>::empty());
            assert(new_list.to_multiset() =~= Multiset::<TrackView>::empty().insert(t));
            assert(after.artists =~= before.artists.insert(at as int, a));
            assert(after.tracks =~= before.tracks.insert(at as int, new_list));
            assert(!before.artists.contains(a)) by {
                if before.artists.contains(a) {
                    let i = choose|i: int| 0 <= i < before.artists.len() && before.artists[i] == a;
                    lemma_str_lt_total(before.artists[i], a);
                }
            }
            assert(tracks_by(files, a).len() == 0);
            vstd::multiset::lemma_multiset_empty_len(tracks_by(files, a));
            assert(tracks_by(files, a) =~= Multiset::<TrackView>::empty());
            assert forall|i: int, j: int| 0 <= i < j < after.artists.len() implies str_lt(
                after.artists[i],
                after.artists[j],
            ) by {
                if j < at {
                    assert(after.artists[i] == before.artists[i]);
                    assert(after.artists[j] == before.artists[j]);
                } else if j == at {
                    assert(after.artists[i] == before.artists[i]);
                } else if i < at {
                    assert(after.artists[i] == before.artists[i]);
                    assert(after.artists[j] == before.artists[j - 1]);
                } else if i == at {
                    assert(after.artists[j] == before.artists[j - 1]);
                } else {
                    assert(after.artists[i] == before.artists[i - 1]);
                    assert(after.artists[j] == before.artists[j - 1]);
                }
            }
            assert forall|i: int| 0 <= i < after.tracks.len() implies (
            #[trigger] after.tracks[i]).len() > 0 && tracks_ascend(after.tracks[i])
                && tracks_lie_in_mp3_files(after.tracks[i]) by {
                if i < at {
                    assert(after.tracks[i] == before.tracks[i]);
                } else if i > at {
                    assert(after.tracks[i] == before.tracks[i - 1]);
                }
            }
            assert forall|i: int| 0 <= i < after.artists.len() implies (
            #[trigger] after.tracks[i]).to_multiset() == tracks_by(
                files.push(file),
                after.artists[i],
            ) by {
                if i < at {
                    assert(after.tracks[i] == before.tracks[i]);
                    assert(after.artists[i] == before.artists[i]);
                    lemma_str_lt_total(before.artists[i], a);
                    assert(before.tracks[i].to_multiset() == tracks_by(files, before.artists[i]));
                } else if i > at {
                    assert(after.tracks[i] == before.tracks[i - 1]);
                    assert(after.artists[i] == before.artists[i - 1]);
                    lemma_str_lt_total(before.artists[i - 1], a);
                    assert(before.tracks[i - 1].to_multiset() == tracks_by(
                        files,
                        before.artists[i - 1],
                    ));
                }
            }
            assert forall|x: Seq<char>|
                after.artists.contains(x) <==> (#[trigger] tracks_by(files.push(file), x)).len()
                    > 0 by {
                assert(before.artists.contains(x) <==> tracks_by(files, x).len() > 0);
                assert(after.artists[at as int] == a);
                if before.artists.contains(x) {
                    let i = choose|i: int| 0 <= i < before.artists.len() && before.artists[i] == x;
                    if i < at {
                        assert(after.artists[i] == x);
                    } else {
                        assert(after.artists[i + 1] == x);
                    }
                }
                if after.artists.contains(x) && x != a {
                    let i = choose|i: int| 0 <= i < after.artists.len() && after.artists[i] == x;
                    if i < at {
                        assert(before.artists[i] == x);
                    } else {
                        assert(before.artists[i - 1] == x);
                    }
                }
            }
        }
    }
}

impl Library {
    #[verifier::type_invariant]
    pub(crate) open spec fn well_formed(self) -> bool {
        self@.valid()
    }

    /// The index of what a scan found.
    ///
    /// A file is taken in if it has the extension `mp3` and its tag names
    /// an artist and a title; every other file is passed over.
    pub fn build(files: &Vec<ScannedFile>) -> (library: Library)
        ensures
            library@.valid(),
            library@.indexes(scan_view(files@)),
    {
        let mut artists: Vec<String> = Vec::new();
        let mut tracks: Vec<Vec<Track>> = Vec::new();
        let ghost scanned = scan_view(files@);
        let mut next: usize = 0;
        proof {
            assert(scanned.take(0) =~= Seq::<ScannedFileView>::empty());
            assert(name_views(artists@) =~= Seq::<Seq<char>>::empty());
            assert(list_views(tracks@) =~= Seq::<Seq<TrackView>>::empty());
        }
        while next < files.len()
            invariant
                next <= files.len(),
                scanned == scan_view(files@),
                (LibraryView {
                    artists: name_views(artists@),
                    tracks: list_views(tracks@),
                }).valid(),
                (LibraryView {
                    artists: name_views(artists@),
                    tracks: list_views(tracks@),
                }).indexes(scanned.take(next as int)),
            decreases files.len() - next,
        {
            let file = &files[next];
            let ghost seen = scanned.take(next as int);
            proof {
                assert(scanned[next as int] == file@);
                assert(scanned.take(next + 1) =~= seen.push(file@));
            }
            let mut taken = false;
            if is_mp3_path(file.path.as_str()) {
                if let Some(artist) = &file.artist {
                    if let Some(title) = &file.title {
                        let track = Track::new(title.clone(), file.path.clone());
                        add_track(
                            &mut artists,
                            &mut tracks,
                            artist.clone(),
                            track,
                            Ghost(seen),
                            Ghost(file@),
                        );
                        taken = true;
                    }
                }
            }
            proof {
                if !taken {
                    let index = LibraryView {
                        artists: name_views(artists@),
                        tracks: list_views(tracks@),
                    };
                    assert(entry_of(file@) is None);
                    assert forall|x: Seq<char>| #[trigger]
                        tracks_by(seen.push(file@), x) == tracks_by(seen, x) by {
                        lemma_tracks_by_push(seen, file@, x);
                    }
                    assert forall|i: int| 0 <= i < index.artists.len() implies (
                    #[trigger] index.tracks[i]).to_multiset() == tracks_by(
                        seen.push(file@),
                        index.artists[i],
                    ) by {
                        assert(index.tracks[i].to_multiset() == tracks_by(seen, index.artists[i]));
                    }
                    assert forall|x: Seq<char>|
                        index.artists.contains(x) <==> (#[trigger] tracks_by(
                            seen.push(file@),
                            x,
                        )).len() > 0 by {
                        assert(index.artists.contains(x) <==> tracks_by(seen, x).len() > 0);
                    }
                    assert(index.indexes(seen.push(file@)));
                }
                assert((LibraryView {
                    artists: name_views(artists@),
                    tracks: list_views(tracks@),
                }).indexes(seen.push(file@)));
            }
            next += 1;
        }
        proof {
            assert(scanned.take(next as int) =~= scanned);
        }
        Library { artists, tracks }
    }

    /// The number of artists.
    pub fn artist_count(&self) -> (count: usize)
        ensures
            count == self@.artists.len(),
            self@.valid(),
    {
        proof {
            use_type_invariant(self);
        }
        self.artists.len()
    }

    /// Whether the index holds no artist at all.
    pub fn is_empty(&self) -> (empty: bool)
        ensures
            empty == (self@.artists.len() == 0),
            self@.valid(),
    {
        proof {
            use_type_invariant(self);
        }
        self.artists.len() == 0
    }

    /// The artists, in order.
    pub fn artists(&self) -> (artists: &Vec<String>)
        ensures
            name_views(artists@) == self@.artists,
            self@.valid(),
    {
        proof {
            use_type_invariant(self);
        }
        &self.artists
    }

    /// The name of the artist at `place`, if there is one.
    pub fn artist(&self, place: usize) -> (name: Option<&String>)
        ensures
            name is Some <==> place < self@.artists.len(),
            name is Some ==> name->0@ == self@.artists[place as int],
            self@.valid(),
    {
        proof {
            use_type_invariant(self);
        }
        if place < self.artists.len() {
            Some(&self.artists[place])
        } else {
            None
        }
    }

    /// The tracks of the artist at `place`, in order, if there is such an
    /// artist.
    pub fn tracks(&self, place: usize) -> (tracks: Option<&Vec<Track>>)
        ensures
            tracks is Some <==> place < self@.artists.len(),
            tracks is Some ==> track_views(tracks->0@) == self@.tracks[place as int],
            self@.valid(),
    {
        proof {
            use_type_invariant(self);
        }
        if place < self.tracks.len() {
            Some(&self.tracks[place])
        } else {
            None
        }
    }

    /// The number of tracks of the artist at `place`; none if there is no
    /// such artist.
    pub fn track_count(&self, place: usize) -> (count: usize)
        ensures
            place < self@.artists.len() ==> count == self@.tracks[place as int].len() && count > 0,
            place >= self@.artists.len() ==> count == 0,
            self@.valid(),
    {
        proof {
            use_type_invariant(self);
        }
        if place < self.tracks.len() {
            proof {
                assert(self@.tracks[place as int] == track_views(self.tracks[place as int]@));
            }
            self.tracks[place].len()
        } else {
            0
        }
    }

    /// The track at `row` in the list of the artist at `place`, if there is
    /// one.
    pub fn track(&self, place: usize, row: usize) -> (track: Option<&Track>)
        ensures
            track is Some <==> place < self@.artists.len() && row < self@.tracks[place as int].len(),
            track is Some ==> track->0@ == self@.tracks[place as int][row as int],
            self@.valid(),
    {
        proof {
            use_type_invariant(self);
        }
        if place < self.tracks.len() && row < self.tracks[place].len() {
            Some(&self.tracks[place][row])
        } else {
            None
        }
    }
}

/// The order of strings, as a relation, is a total order.
proof fn lemma_str_le_is_total_order()
    ensures
        total_ordering(|a: Seq<char>, b: Seq<char>| str_le(a, b)),
{
    let leq = |a: Seq<char>, b: Seq<char>| str_le(a, b);
    assert forall|a: Seq<char>, b: Seq<char>| #[trigger] leq(a, b) && #[trigger] leq(b, a) implies a
        == b by {
        lemma_str_lt_total(a, b);
    }
    assert forall|a: Seq<char>, b: Seq<char>, c: Seq<char>| #[trigger]
        leq(a, b) && #[trigger] leq(b, c) implies leq(a, c) by {
        if a != b && b != c {
            lemma_str_lt_transitive(a, b, c);
        }
    }
    assert forall|a: Seq<char>, b: Seq<char>| #[trigger] leq(a, b) || #[trigger] leq(b, a) by {
        lemma_str_lt_total(a, b);
    }
    assert(reflexive(leq));
    assert(antisymmetric(leq));
    assert(transitive(leq));
    assert(strongly_connected(leq));
}

/// The order in which tracks are listed, as a relation, is a total order.
proof fn lemma_track_le_is_total_order()
    ensures
        total_ordering(|a: TrackView, b: TrackView| track_le(a, b)),
{
    let leq = |a: TrackView, b: TrackView| track_le(a, b);
    assert forall|a: TrackView| #[trigger] leq(a, a) by {
        lemma_track_le_total(a, a);
    }
    assert forall|a: TrackView, b: TrackView| #[trigger] leq(a, b) && #[trigger] leq(b, a) implies a
        == b by {
        lemma_track_le_total(a, b);
    }
    assert forall|a: TrackView, b: TrackView, c: TrackView| #[trigger]
        leq(a, b) && #[trigger] leq(b, c) implies leq(a, c) by {
        lemma_track_le_transitive(a, b, c);
    }
    assert forall|a: TrackView, b: TrackView| #[trigger] leq(a, b) || #[trigger] leq(b, a) by {
        lemma_track_le_total(a, b);
    }
    assert(reflexive(leq));
    assert(antisymmetric(leq));
    assert(transitive(leq));
    assert(strongly_connected(leq));
}

/// Names in ascending order differ from each other.
proof fn lemma_ascending_names_differ(names: Seq<Seq<char>>)
    requires
        names_ascend(names),
    ensures
        names.no_duplicates(),
{
    assert forall|i: int, j: int| 0 <= i < names.len() && 0 <= j < names.len() && i != j implies names[i]
        != names[j] by {
        lemma_str_lt_total(names[i], names[j]);
        if i < j {
            assert(str_lt(names[i], names[j]));
        } else {
            assert(str_lt(names[j], names[i]));
        }
    }
}

/// Names in ascending order hold each of their names once.
proof fn lemma_ascending_names_count_once(names: Seq<Seq<char>>, name: Seq<char>)
    requires
        names_ascend(names),
    ensures
        names.to_multiset().count(name) == if names.contains(name) {
            1nat
        } else {
            0nat
        },
{
    broadcast use vstd::seq_lib::group_to_multiset_ensures;

    lemma_ascending_names_differ(names);
    names.lemma_multiset_has_no_duplicates();
    assert(names.contains(name) <==> names.to_multiset().count(name) > 0);
    if names.contains(name) {
        assert(names.to_multiset().contains(name));
    }
}

/// What the files add determines the index: two valid indexes of files
/// that add the same tracks for every artist are the same index. So the
/// index of a scan depends neither on the order in which the files were
/// found nor on the files that were passed over.
pub proof fn law_index_is_determined(
    one: LibraryView,
    files_of_one: Seq<ScannedFileView>,
    other: LibraryView,
    files_of_other: Seq<ScannedFileView>,
)
    requires
        one.valid(),
        one.indexes(files_of_one),
        other.valid(),
        other.indexes(files_of_other),
        forall|name: Seq<char>| #[trigger]
            tracks_by(files_of_one, name) == tracks_by(files_of_other, name),
    ensures
        one == other,
{
    let by_name = |a: Seq<char>, b: Seq<char>| str_le(a, b);
    let by_listing = |a: TrackView, b: TrackView| track_le(a, b);
    lemma_str_le_is_total_order();
    lemma_track_le_is_total_order();
    assert forall|name: Seq<char>|
        one.artists.to_multiset().count(name) == other.artists.to_multiset().count(name) by {
        lemma_ascending_names_count_once(one.artists, name);
        lemma_ascending_names_count_once(other.artists, name);
        assert(one.artists.contains(name) <==> tracks_by(files_of_one, name).len() > 0);
        assert(other.artists.contains(name) <==> tracks_by(files_of_other, name).len() > 0);
    }
    assert(one.artists.to_multiset() =~= other.artists.to_multiset());
    assert(sorted_by(one.artists, by_name)) by {
        assert forall|i: int, j: int| 0 <= i < j < one.artists.len() implies #[trigger] by_name(
            one.artists[i],
            one.artists[j],
        ) by {
            assert(str_lt(one.artists[i], one.artists[j]));
        }
    }
    assert(sorted_by(other.artists, by_name)) by {
        assert forall|i: int, j: int| 0 <= i < j < other.artists.len() implies #[trigger] by_name(
            other.artists[i],
            other.artists[j],
        ) by {
            assert(str_lt(other.artists[i], other.artists[j]));
        }
    }
    lemma_sorted_unique(one.artists, other.artists, by_name);
    assert(one.artists == other.artists);
    assert forall|i: int| 0 <= i < one.tracks.len() implies one.tracks[i] == other.tracks[i] by {
        let a = one.tracks[i];
        let b = other.tracks[i];
        assert(a.to_multiset() == tracks_by(files_of_one, one.artists[i]));
        assert(b.to_multiset() == tracks_by(files_of_other, other.artists[i]));
        assert(tracks_ascend(a) && tracks_ascend(b));
        assert(sorted_by(a, by_listing)) by {
            assert forall|m: int, n: int| 0 <= m < n < a.len() implies #[trigger] by_listing(
                a[m],
                a[n],
            ) by {
                assert(track_le(a[m], a[n]));
            }
        }
        assert(sorted_by(b, by_listing)) by {
            assert forall|m: int, n: int| 0 <= m < n < b.len() implies #[trigger] by_listing(
                b[m],
                b[n],
            ) by {
                assert(track_le(b[m], b[n]));
            }
        }
        lemma_sorted_unique(a, b, by_listing);
    }
    assert(one.tracks =~= other.tracks);
}

/// What one file adds for an artist: its track, or nothing.
pub open spec fn added_by(file: ScannedFileView, artist: Seq<char>) -> Multiset<TrackView> {
    match entry_of(file) {
        Some((name, track)) if name == artist => Multiset::singleton(track),
        _ => Multiset::empty(),
    }
}

/// What the files add for an artist is what one of them adds and what the
/// others add.
proof fn lemma_tracks_by_without(files: Seq<ScannedFileView>, at: int, artist: Seq<char>)
    requires
        0 <= at < files.len(),
    ensures
        tracks_by(files, artist) == tracks_by(files.remove(at), artist).add(
            added_by(files[at], artist),
        ),
    decreases files.len(),
{
    let rest = files.drop_last();
    if at == files.len() - 1 {
        assert(files.remove(at) =~= rest);
        assert(tracks_by(files, artist) =~= tracks_by(rest, artist).add(
            added_by(files[at], artist),
        ));
    } else {
        lemma_tracks_by_without(rest, at, artist);
        assert(files.remove(at).drop_last() =~= rest.remove(at));
        assert(files.remove(at).last() == files.last());
        assert(rest[at] == files[at]);
        assert(tracks_by(files, artist) =~= tracks_by(files.remove(at), artist).add(
            added_by(files[at], artist),
        ));
    }
}

/// What the files add for an artist does not depend on their order.
pub proof fn lemma_tracks_by_ignores_order(
    files: Seq<ScannedFileView>,
    shuffled: Seq<ScannedFileView>,
    artist: Seq<char>,
)
    requires
        files.to_multiset() == shuffled.to_multiset(),
    ensures
        tracks_by(files, artist) == tracks_by(shuffled, artist),
    decreases files.len(),
{
    broadcast use vstd::seq_lib::group_to_multiset_ensures;

    files.to_multiset_ensures();
    shuffled.to_multiset_ensures();
    assert(files.len() == shuffled.len());
    if files.len() > 0 {
        let last = files.last();
        assert(files.contains(last));
        assert(shuffled.to_multiset().count(last) > 0);
        assert(shuffled.contains(last));
        let at = choose|at: int| 0 <= at < shuffled.len() && shuffled[at] == last;
        let rest = files.drop_last();
        assert(rest =~= files.remove(files.len() - 1));
        assert(rest.to_multiset() =~= shuffled.remove(at).to_multiset());
        lemma_tracks_by_ignores_order(rest, shuffled.remove(at), artist);
        lemma_tracks_by_without(files, files.len() - 1, artist);
        lemma_tracks_by_without(shuffled, at, artist);
    }
}

/// The index does not depend on the order in which the files were found:
/// two valid indexes of the same files, found in whatever order, are the
/// same index.
pub proof fn law_index_ignores_scan_order(
    one: LibraryView,
    files: Seq<ScannedFileView>,
    other: LibraryView,
    shuffled: Seq<ScannedFileView>,
)
    requires
        one.valid(),
        one.indexes(files),
        other.valid(),
        other.indexes(shuffled),
        files.to_multiset() == shuffled.to_multiset(),
    ensures
        one == other,
{
    assert forall|name: Seq<char>| #[trigger]
        tracks_by(files, name) == tracks_by(shuffled, name) by {
        lemma_tracks_by_ignores_order(files, shuffled, name);
    }
    law_index_is_determined(one, files, other, shuffled);
}

/// A valid index is a mapping: no artist is listed twice, so each listed
/// artist is mapped to the tracks at their own place.
pub proof fn law_index_is_a_mapping(index: LibraryView, place: int)
    requires
        index.valid(),
        0 <= place < index.artists.len(),
    ensures
        index.artists.no_duplicates(),
        index.as_map().dom().contains(index.artists[place]),
        index.as_map()[index.artists[place]] == index.tracks[place],
{
    lemma_ascending_names_differ(index.artists);
    let name = index.artists[place];
    assert(index.artists.contains(name));
    let found = index.artists.index_of(name);
    assert(index.artists[found] == name);
}

/// Where the files add nothing, the index is empty: no artist is listed.
pub proof fn law_nothing_found_nothing_listed(index: LibraryView, files: Seq<ScannedFileView>)
    requires
        index.indexes(files),
        forall|name: Seq<char>| (#[trigger] tracks_by(files, name)).len() == 0,
    ensures
        index.artists.len() == 0,
        index.tracks.len() == 0,
{
    if index.artists.len() > 0 {
        let name = index.artists[0];
        assert(index.artists.contains(name));
        assert(tracks_by(files, name).len() > 0);
    }
}

/// An empty scan adds nothing.
pub proof fn law_empty_scan_adds_nothing(name: Seq<char>)
    ensures
        tracks_by(Seq::empty(), name).len() == 0,
{
}

} // verus!
