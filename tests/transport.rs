use audio_arena::controller::GuiPlayerApp;
use audio_arena::library::{AudioFile, AudioLibrary};
use audio_arena::player::PlayerEvent;

fn library(n: usize) -> AudioLibrary {
    let mut lib = AudioLibrary::new();
    for i in 0..n {
        lib.files.push(AudioFile { path: format!("music/t{}.mp3", i), duration: format!("0{}:00", i) });
    }
    lib
}

fn played(e: Option<PlayerEvent>) -> String {
    match e {
        Some(PlayerEvent::Play(p)) => p,
        _ => panic!("expected a Play command"),
    }
}

#[test]
fn default_window_is_empty_and_idle() {
    let app = GuiPlayerApp::default();
    assert!(app.library.files.is_empty());
    assert!(app.playlist.is_empty());
    assert!(app.playlist_table.tracks.is_empty());
    assert!(app.current.is_none());
    assert_eq!(app.playlist_table.current_index, None);
    assert!(!app.is_playing);
    assert!(!app.is_paused);
    assert!(!app.folder_loaded);
    assert!(!app.playlist_table.hidden);
    assert!(app.picked_folder.is_none());
    assert_eq!(app.separator, std::path::MAIN_SEPARATOR);
}

#[test]
fn play_with_empty_playlist_does_nothing() {
    let mut app = GuiPlayerApp::default();
    assert!(app.play().is_none());
    assert!(!app.is_playing);
}

#[test]
fn open_folder_fills_table() {
    let mut app = GuiPlayerApp::new();
    app.open_folder("music".to_string(), library(3));
    assert!(app.folder_loaded);
    assert_eq!(app.picked_folder.as_deref(), Some("music"));
    assert_eq!(app.playlist.len(), 3);
    assert_eq!(app.playlist_table.tracks.len(), 3);
    for (f, t) in app.playlist.iter().zip(app.playlist_table.tracks.iter()) {
        assert_eq!(format!("music/{}", t.name), f.path);
        assert_eq!(t.duration, f.duration);
    }
}

#[test]
fn play_starts_first_track() {
    let mut app = GuiPlayerApp::new();
    app.open_folder("music".to_string(), library(3));
    let first = app.playlist[0].path.clone();
    assert_eq!(played(app.play()), first);
    assert!(app.is_playing);
    assert_eq!(app.playlist_table.current_index, Some(0));
    assert!(app.play().is_none());
}

#[test]
fn next_and_previous_wrap() {
    let mut app = GuiPlayerApp::new();
    app.open_folder("music".to_string(), library(3));
    let order: Vec<String> = app.playlist.iter().map(|f| f.path.clone()).collect();
    app.play();
    assert_eq!(played(app.previous()), order[2]);
    assert_eq!(app.playlist_table.current_index, Some(2));
    assert_eq!(played(app.next()), order[0]);
    assert_eq!(played(app.next()), order[1]);
    assert_eq!(played(app.next()), order[2]);
    assert_eq!(played(app.next()), order[0]);
    assert_eq!(app.current.as_ref().map(|f| f.path.clone()), Some(order[0].clone()));
}

#[test]
fn next_without_playing_does_nothing() {
    let mut app = GuiPlayerApp::new();
    app.open_folder("music".to_string(), library(2));
    assert!(app.next().is_none());
    assert!(app.previous().is_none());
}

#[test]
fn pause_resume_stop() {
    let mut app = GuiPlayerApp::new();
    app.open_folder("music".to_string(), library(2));
    assert!(app.pause().is_none());
    app.play();
    assert!(matches!(app.pause(), Some(PlayerEvent::Pause)));
    assert!(app.is_paused);
    assert!(app.pause().is_none());
    assert!(matches!(app.resume(), Some(PlayerEvent::Resume)));
    assert!(!app.is_paused);
    assert!(app.resume().is_none());
    assert!(matches!(app.stop(), Some(PlayerEvent::Stop)));
    assert!(!app.is_playing);
    assert!(app.current.is_none());
    assert!(app.stop().is_none());
}

#[test]
fn shuffle_stops_and_keeps_files() {
    let mut app = GuiPlayerApp::new();
    assert!(app.shuffle().is_none());
    app.open_folder("music".to_string(), library(4));
    app.play();
    assert!(matches!(app.shuffle(), Some(PlayerEvent::Stop)));
    assert!(!app.is_playing);
    let mut paths: Vec<String> = app.playlist.iter().map(|f| f.path.clone()).collect();
    paths.sort();
    assert_eq!(paths, vec!["music/t0.mp3", "music/t1.mp3", "music/t2.mp3", "music/t3.mp3"]);
    assert_eq!(app.playlist_table.tracks.len(), 4);
}

#[test]
fn clear_playlist_empties_everything() {
    let mut app = GuiPlayerApp::new();
    assert!(app.clear_playlist().is_none());
    app.open_folder("music".to_string(), library(2));
    app.play();
    assert!(matches!(app.clear_playlist(), Some(PlayerEvent::Stop)));
    assert!(app.playlist.is_empty());
    assert!(app.playlist_table.tracks.is_empty());
    assert!(!app.folder_loaded);
    assert!(!app.is_playing);
}

#[test]
fn toggle_hide_flips_table() {
    let mut app = GuiPlayerApp::new();
    app.toggle_hide();
    assert!(app.playlist_table.hidden);
    app.toggle_hide();
    assert!(!app.playlist_table.hidden);
}
