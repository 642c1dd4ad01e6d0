use audio_arena::playlist::{Playlist, Track};

fn t(name: &str) -> Track {
    Track { name: name.to_string(), duration: "01:00".to_string() }
}

#[test]
fn new_playlist_defaults() {
    let p = Playlist::new(vec![t("a"), t("b")]);
    assert_eq!(p.tracks.len(), 2);
    assert_eq!(p.current_index, None);
    assert!(!p.hidden);
}

#[test]
fn add_track_appends() {
    let mut p = Playlist::new(Vec::new());
    p.add_track(t("a"));
    p.add_track(t("b"));
    assert_eq!(p.tracks[1].name, "b");
}

#[test]
fn set_current_in_and_out_of_range() {
    let mut p = Playlist::new(vec![t("a"), t("b")]);
    p.set_current(1);
    assert_eq!(p.current_index, Some(1));
    assert!(p.is_current(1));
    assert!(!p.is_current(0));
    p.set_current(2);
    assert_eq!(p.current_index, None);
}

#[test]
fn toggle_and_shown_name() {
    let mut p = Playlist::new(vec![t("song")]);
    assert_eq!(p.shown_name(0), "song");
    p.toggle_hidden();
    assert!(p.hidden);
    assert_eq!(p.shown_name(0), "**********************");
    p.toggle_hidden();
    assert_eq!(p.shown_name(0), "song");
}

#[test]
fn clear_empties_tracks() {
    let mut p = Playlist::new(vec![t("a")]);
    p.set_current(0);
    p.clear();
    assert!(p.tracks.is_empty());
    assert_eq!(p.current_index, Some(0));
}
