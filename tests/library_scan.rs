use audio_arena::library::{AudioFile, AudioLibrary, ScannedFile};

fn entry(path: &str, ext: Option<&str>, seconds: Option<u64>) -> ScannedFile {
    ScannedFile { path: path.to_string(), extension: ext.map(|e| e.to_string()), seconds }
}

fn file(path: &str) -> AudioFile {
    AudioFile { path: path.to_string(), duration: "00:00".to_string() }
}

#[test]
fn new_library_is_empty() {
    assert!(AudioLibrary::new().list().is_empty());
}

#[test]
fn scan_keeps_matching_extensions_only() {
    let entries = vec![
        entry("d/a.mp3", Some("mp3"), Some(61)),
        entry("d/b.txt", Some("txt"), None),
        entry("d/c.MP3", Some("MP3"), None),
        entry("d/sub/d.flac", Some("flac"), None),
        entry("d/e.jpg", Some("jpg"), None),
        entry("d/README", None, None),
        entry("d/f.Wav", Some("Wav"), None),
        entry("d/g.ogg", Some("ogg"), None),
        entry("d/h.m4a", Some("m4a"), None),
    ];
    let lib = AudioLibrary::from_scan(&entries);
    let paths: Vec<&str> = lib.list().iter().map(|f| f.path.as_str()).collect();
    assert_eq!(paths, vec!["d/a.mp3", "d/c.MP3", "d/sub/d.flac", "d/f.Wav", "d/g.ogg", "d/h.m4a"]);
}

#[test]
fn scan_of_nothing_is_empty() {
    let lib = AudioLibrary::from_scan(&Vec::new());
    assert_eq!(lib.list().len(), 0);
    let only_others = vec![entry("x.txt", Some("txt"), None), entry("y", None, None)];
    assert_eq!(AudioLibrary::from_scan(&only_others).list().len(), 0);
}

#[test]
fn scan_duration_labels() {
    let entries = vec![
        entry("a.mp3", Some("mp3"), Some(125)),
        entry("b.MP3", Some("MP3"), Some(3599)),
        entry("c.mp3", Some("mp3"), None),
        entry("d.wav", Some("wav"), Some(42)),
    ];
    let lib = AudioLibrary::from_scan(&entries);
    let labels: Vec<&str> = lib.list().iter().map(|f| f.duration.as_str()).collect();
    assert_eq!(labels, vec!["02:05", "59:59", "00:00", "00:00"]);
}

#[test]
fn shuffled_is_a_permutation() {
    let mut lib = AudioLibrary::new();
    for i in 0..20 {
        lib.files.push(file(&format!("t{}.mp3", i)));
    }
    let before: Vec<String> = lib.list().iter().map(|f| f.path.clone()).collect();
    let mut after: Vec<String> = lib.shuffled().iter().map(|f| f.path.clone()).collect();
    after.sort();
    let mut sorted_before = before.clone();
    sorted_before.sort();
    assert_eq!(after, sorted_before);
    let still: Vec<String> = lib.list().iter().map(|f| f.path.clone()).collect();
    assert_eq!(still, before);
}

#[test]
fn shuffled_changes_the_order() {
    let mut lib = AudioLibrary::new();
    for i in 0..10 {
        lib.files.push(file(&format!("t{}.mp3", i)));
    }
    let original: Vec<String> = lib.list().iter().map(|f| f.path.clone()).collect();
    let mut moved = false;
    for _ in 0..5 {
        let order: Vec<String> = lib.shuffled().iter().map(|f| f.path.clone()).collect();
        if order != original {
            moved = true;
        }
    }
    assert!(moved);
}

#[test]
fn shuffled_empty_is_empty() {
    assert!(AudioLibrary::new().shuffled().is_empty());
}

#[test]
fn duplicate_copies_fields() {
    let f = AudioFile { path: "x/y.ogg".to_string(), duration: "03:00".to_string() };
    let g = f.duplicate();
    assert_eq!(g.path, "x/y.ogg");
    assert_eq!(g.duration, "03:00");
}
