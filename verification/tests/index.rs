use music_player::library::{is_mp3_path, Library, ScannedFile};
use music_player::track::Track;

fn found(path: &str, artist: Option<&str>, title: Option<&str>) -> ScannedFile {
    ScannedFile {
        path: path.to_string(),
        artist: artist.map(|text| text.to_string()),
        title: title.map(|text| text.to_string()),
    }
}

fn song(title: &str, location: &str) -> Track {
    Track::new(title.to_string(), location.to_string())
}

#[test]
fn empty_scan_gives_an_empty_index() {
    let library = Library::build(&Vec::new());
    assert!(library.is_empty());
    assert_eq!(library.artist_count(), 0);
    assert!(library.artists().is_empty());
    assert_eq!(library.artist(0), None);
    assert_eq!(library.tracks(0), None);
    assert_eq!(library.track(0, 0), None);
    assert_eq!(library.track_count(0), 0);
}

#[test]
fn artists_are_listed_in_order_and_once() {
    let files = vec![
        found("/m/3.mp3", Some("Nina Simone"), Some("Sinnerman")),
        found("/m/1.mp3", Some("Can"), Some("Vitamin C")),
        found("/m/2.mp3", Some("Nina Simone"), Some("Feeling Good")),
        found("/m/4.mp3", Some("Air"), Some("La femme d'argent")),
        found("/m/5.mp3", Some("Can"), Some("Halleluhwah")),
    ];
    let library = Library::build(&files);
    assert_eq!(
        library.artists(),
        &vec!["Air".to_string(), "Can".to_string(), "Nina Simone".to_string()]
    );
    assert_eq!(library.artist_count(), 3);
    assert!(!library.is_empty());
    assert_eq!(library.artist(1), Some(&"Can".to_string()));
    assert_eq!(library.artist(3), None);
}

#[test]
fn index_lists_tracks_by_title_then_location() {
    let files = vec![
        found("/m/b/so_what.mp3", Some("Miles Davis"), Some("So What")),
        found("/m/a/freddie.mp3", Some("Miles Davis"), Some("Freddie Freeloader")),
        found("/m/a/so_what.mp3", Some("Miles Davis"), Some("So What")),
        found("/m/a/all_blues.mp3", Some("Miles Davis"), Some("All Blues")),
    ];
    let library = Library::build(&files);
    assert_eq!(
        library.tracks(0),
        Some(&vec![
            song("All Blues", "/m/a/all_blues.mp3"),
            song("Freddie Freeloader", "/m/a/freddie.mp3"),
            song("So What", "/m/a/so_what.mp3"),
            song("So What", "/m/b/so_what.mp3"),
        ])
    );
    assert_eq!(library.track_count(0), 4);
    assert_eq!(library.track(0, 2), Some(&song("So What", "/m/a/so_what.mp3")));
    assert_eq!(library.track(0, 4), None);
    assert_eq!(library.track(1, 0), None);
}

#[test]
fn a_file_found_twice_is_listed_twice() {
    let files = vec![
        found("/m/x.mp3", Some("X"), Some("One")),
        found("/m/x.mp3", Some("X"), Some("One")),
    ];
    let library = Library::build(&files);
    assert_eq!(library.tracks(0), Some(&vec![song("One", "/m/x.mp3"), song("One", "/m/x.mp3")]));
}

#[test]
fn files_without_artist_or_title_are_passed_over() {
    let files = vec![
        found("/m/no_artist.mp3", None, Some("Untitled")),
        found("/m/no_title.mp3", Some("Anonymous"), None),
        found("/m/no_tag.mp3", None, None),
        found("/m/full.mp3", Some("Known"), Some("Named")),
    ];
    let library = Library::build(&files);
    assert_eq!(library.artists(), &vec!["Known".to_string()]);
    assert_eq!(library.tracks(0), Some(&vec![song("Named", "/m/full.mp3")]));
}

#[test]
fn files_of_another_kind_are_passed_over() {
    let files = vec![
        found("/m/cover.jpg", Some("Painter"), Some("Cover")),
        found("/m/song.flac", Some("Singer"), Some("Song")),
        found("/m/.mp3", Some("Hidden"), Some("Nameless")),
        found("/m/song.MP3", Some("Shouter"), Some("Loud")),
        found("/m/mp3", Some("Dotless"), Some("Bare")),
    ];
    let library = Library::build(&files);
    assert!(library.is_empty());
}

#[test]
fn the_index_does_not_depend_on_the_order_of_the_scan() {
    let mut files = vec![
        found("/m/1.mp3", Some("B"), Some("y")),
        found("/m/2.mp3", Some("A"), Some("z")),
        found("/m/3.mp3", Some("B"), Some("x")),
        found("/m/4.mp3", Some("A"), Some("z")),
    ];
    let forward = Library::build(&files);
    files.reverse();
    let backward = Library::build(&files);
    assert_eq!(forward.artists(), backward.artists());
    assert_eq!(forward.tracks(0), backward.tracks(0));
    assert_eq!(forward.tracks(1), backward.tracks(1));
    assert_eq!(forward.tracks(0), Some(&vec![song("z", "/m/2.mp3"), song("z", "/m/4.mp3")]));
    assert_eq!(forward.tracks(1), Some(&vec![song("x", "/m/3.mp3"), song("y", "/m/1.mp3")]));
}

#[test]
fn artists_are_ordered_as_strings_are() {
    let names = ["zebra", "Zebra", "Émile", "emile", "10cc", "日本", "abc", "ab"];
    let files: Vec<ScannedFile> = names
        .iter()
        .map(|name| found("/m/t.mp3", Some(name), Some("t")))
        .collect();
    let library = Library::build(&files);
    let mut expected: Vec<String> = names.iter().map(|name| name.to_string()).collect();
    expected.sort();
    assert_eq!(library.artists(), &expected);
}

#[test]
fn mp3_extension_as_paths_have_it() {
    assert!(is_mp3_path("/music/song.mp3"));
    assert!(is_mp3_path("song.mp3"));
    assert!(is_mp3_path("a.mp3"));
    assert!(is_mp3_path("/music/..mp3"));
    assert!(is_mp3_path("/music/song.tar.mp3"));
    assert!(!is_mp3_path(".mp3"));
    assert!(!is_mp3_path("/music/.mp3"));
    assert!(!is_mp3_path("/music/song.mp4"));
    assert!(!is_mp3_path("/music/song.MP3"));
    assert!(!is_mp3_path("/music/mp3"));
    assert!(!is_mp3_path("/music/song.mp3/"));
    assert!(!is_mp3_path(""));
}

#[test]
fn mp3_extension_agrees_with_std_paths() {
    let paths = [
        "/music/song.mp3", "song.mp3", ".mp3", "/music/.mp3", "/music/..mp3", "a/b.c/d.mp3",
        "a/b.mp3/d", "x.mp3.bak", "/m/日本.mp3", "mp3", "/.mp3", "/a.mp3",
    ];
    for path in paths {
        let expected = std::path::Path::new(path).extension().map_or(false, |e| e == "mp3");
        assert_eq!(is_mp3_path(path), expected, "{:?}", path);
    }
}
