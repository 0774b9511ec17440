use music_player::text::{decimal_text, rank_of, str_ends_with, Rank};
use music_player::track::Track;

fn agrees_with_std(a: &str, b: &str) {
    let expected = if a < b {
        Rank::Before
    } else if a == b {
        Rank::Same
    } else {
        Rank::After
    };
    assert_eq!(rank_of(a, b), expected, "{:?} against {:?}", a, b);
}

#[test]
fn rank_of_plain_words() {
    assert_eq!(rank_of("abba", "beatles"), Rank::Before);
    assert_eq!(rank_of("beatles", "abba"), Rank::After);
    assert_eq!(rank_of("abba", "abba"), Rank::Same);
}

#[test]
fn rank_of_prefixes() {
    assert_eq!(rank_of("", ""), Rank::Same);
    assert_eq!(rank_of("", "a"), Rank::Before);
    assert_eq!(rank_of("a", ""), Rank::After);
    assert_eq!(rank_of("abc", "abcd"), Rank::Before);
    assert_eq!(rank_of("abcd", "abc"), Rank::After);
}

#[test]
fn rank_of_goes_by_bytes() {
    assert_eq!(rank_of("Zappa", "abba"), Rank::Before);
    assert_eq!(rank_of("z", "é"), Rank::Before);
    assert_eq!(rank_of("é", "z"), Rank::After);
}

#[test]
fn rank_of_agrees_with_the_order_of_strings() {
    let words = ["", "a", "A", "ab", "abc", "b", "Björk", "Bjork", "é", "e", "日本", "~", "zz", "\u{10FFFF}"];
    for a in words {
        for b in words {
            agrees_with_std(a, b);
        }
    }
}

#[test]
fn ends_with_cases() {
    assert!(str_ends_with("song.mp3", ".mp3"));
    assert!(str_ends_with(".mp3", ".mp3"));
    assert!(!str_ends_with("mp3", ".mp3"));
    assert!(!str_ends_with("song.mp4", ".mp3"));
    assert!(!str_ends_with("song.mp3 ", ".mp3"));
    assert!(str_ends_with("anything", ""));
    assert!(str_ends_with("", ""));
    assert!(str_ends_with("日本語.mp3", ".mp3"));
    assert!(str_ends_with("caf\u{e9}", "\u{e9}"));
    assert!(!str_ends_with("cafe", "\u{e9}"));
}

#[test]
fn playable_is_a_matter_of_the_ending() {
    assert!(Track::new("a".to_string(), "/m/a.mp3".to_string()).is_playable());
    assert!(Track::new("a".to_string(), ".mp3".to_string()).is_playable());
    assert!(!Track::new("a".to_string(), "/m/a.MP3".to_string()).is_playable());
    assert!(!Track::new("a".to_string(), "/m/a.flac".to_string()).is_playable());
    assert!(!Track::new("a.mp3".to_string(), "/m/a".to_string()).is_playable());
    assert!(!Track::new("a".to_string(), "".to_string()).is_playable());
}

#[test]
fn a_track_is_its_location() {
    let a = Track::new("One".to_string(), "/m/x.mp3".to_string());
    let b = Track::new("Two".to_string(), "/m/x.mp3".to_string());
    let c = Track::new("One".to_string(), "/m/y.mp3".to_string());
    assert!(a.is_same_track(&b));
    assert!(!a.is_same_track(&c));
}

#[test]
fn tracks_are_listed_by_title_then_location() {
    let a = Track::new("Alpha".to_string(), "/z.mp3".to_string());
    let b = Track::new("Beta".to_string(), "/a.mp3".to_string());
    let b2 = Track::new("Beta".to_string(), "/b.mp3".to_string());
    assert!(a.listed_before(&b));
    assert!(!b.listed_before(&a));
    assert!(b.listed_before(&b2));
    assert!(!b2.listed_before(&b));
    assert!(b.listed_before(&b));
}

#[test]
fn clone_keeps_title_and_location() {
    let a = Track::new("Alpha".to_string(), "/z.mp3".to_string());
    assert_eq!(a.clone(), a);
}

#[test]
fn numbers_are_written_in_decimal() {
    assert_eq!(decimal_text(0), "0");
    assert_eq!(decimal_text(7), "7");
    assert_eq!(decimal_text(10), "10");
    assert_eq!(decimal_text(100), "100");
    assert_eq!(decimal_text(9_876_543_210), "9876543210");
    assert_eq!(decimal_text(usize::MAX), usize::MAX.to_string());
}
