use termusic_daemon::config::{Loop, Settings};
use termusic_daemon::playlist::Playlist;
use termusic_daemon::textfmt::{fmt_usize, parse_usize, split_str_lines};
use termusic_daemon::track::Track;

fn playlist_of(uris: &[&str], current: Option<usize>) -> Playlist {
    let mut config = Settings::new();
    config.player_loop_mode = Loop::Playlist;
    let tracks: Vec<Track> =
        uris.iter().map(|u| Track::new_music(u.to_string(), 60)).collect();
    Playlist::new(&config, current, tracks)
}

#[test]
fn fmt_usize_exact() {
    assert_eq!(fmt_usize(0), "0");
    assert_eq!(fmt_usize(7), "7");
    assert_eq!(fmt_usize(907), "907");
    assert_eq!(fmt_usize(1000000), "1000000");
}

#[test]
fn parse_usize_exact() {
    assert_eq!(parse_usize("0"), Some(0));
    assert_eq!(parse_usize("907"), Some(907));
    assert_eq!(parse_usize("0010"), Some(10));
    assert_eq!(parse_usize(""), None);
    assert_eq!(parse_usize("12a"), None);
    assert_eq!(parse_usize("-3"), None);
    assert_eq!(parse_usize("99999999999999999999999999"), None);
}

#[test]
fn split_lines_exact() {
    let lines = split_str_lines("1\n/a.mp3\n/b.mp3\n");
    assert_eq!(lines, vec!["1".to_string(), "/a.mp3".to_string(), "/b.mp3".to_string()]);
    let no_trailing = split_str_lines("a\nb");
    assert_eq!(no_trailing, vec!["a".to_string(), "b".to_string()]);
    assert_eq!(split_str_lines(""), Vec::<String>::new());
}

#[test]
fn save_renders_index_and_uris() {
    let p = playlist_of(&["/a.mp3", "/b.mp3"], Some(1));
    assert_eq!(p.save(), "1\n/a.mp3\n/b.mp3\n");
}

#[test]
fn save_without_current_renders_empty_first_line() {
    let p = playlist_of(&["/a.mp3"], None);
    assert_eq!(p.save(), "\n/a.mp3\n");
}

#[test]
fn save_then_load_round_trips() {
    let p = playlist_of(&["/a.mp3", "/b.mp3", "/c.mp3"], Some(2));
    let content = p.save();
    let (index, uris) = Playlist::load(&content);
    assert_eq!(index, Some(2));
    assert_eq!(
        uris,
        vec!["/a.mp3".to_string(), "/b.mp3".to_string(), "/c.mp3".to_string()]
    );
}

#[test]
fn save_then_load_round_trips_without_index() {
    let p = playlist_of(&["/x.ogg"], None);
    let (index, uris) = Playlist::load(&p.save());
    assert_eq!(index, None);
    assert_eq!(uris, vec!["/x.ogg".to_string()]);
}

#[test]
fn load_skips_empty_lines_and_bad_index() {
    let (index, uris) = Playlist::load("oops\n/a.mp3\n\n/b.mp3\n");
    assert_eq!(index, None);
    assert_eq!(uris, vec!["/a.mp3".to_string(), "/b.mp3".to_string()]);
}

#[test]
fn load_of_empty_content_is_empty() {
    let (index, uris) = Playlist::load("");
    assert_eq!(index, None);
    assert!(uris.is_empty());
}
