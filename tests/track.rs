use amberol_song::record::{ExtractionError, SongData};
use amberol_song::song::{PropertyValue, Song, SongProperty};

fn song_of(uri: &str, artist: Option<&str>, duration: u64) -> Song {
    let mut data = SongData::empty();
    data.uri = uri.to_string();
    data.artist = artist.map(|a| a.to_string());
    data.duration = duration;
    Song { data }
}

#[test]
fn empty_track_round_trip() {
    let s = Song::empty();
    assert_eq!(s.uri(), "file:///does-not-exist");
    assert_eq!(s.duration(), 0);
    assert_eq!(s.cover_art(), None);
    assert_eq!(s.artist(), "Unknown artist");
    assert_eq!(s.title(), "Unknown title");
    assert_eq!(s.album(), "Unknown album");
}

#[test]
fn default_track_is_empty() {
    let s = Song::default();
    assert!(s.equals(&Song::empty()));
}

#[test]
fn absent_fields_fall_back() {
    let s = song_of("file:///a", None, 3);
    assert_eq!(s.artist(), "Unknown artist");
    let s = song_of("file:///a", Some(""), 3);
    assert_eq!(s.artist(), "");
    let s = song_of("file:///a", Some("Band"), 3);
    assert_eq!(s.artist(), "Band");
}

#[test]
fn equality_goes_by_location() {
    let a = song_of("file:///a.mp3", Some("One"), 10);
    let b = song_of("file:///a.mp3", None, 0);
    let c = song_of("file:///c.mp3", Some("One"), 10);
    assert!(a.equals(&b));
    assert!(b.equals(&a));
    assert!(!a.equals(&c));
}

#[test]
fn failed_reload_keeps_record() {
    let mut s = song_of("file:///a.mp3", Some("One"), 10);
    let r = s.set_uri("file:///b.mp3".to_string(), Some(Vec::new()));
    assert_eq!(r.err(), Some(ExtractionError::UnreadableContainer));
    assert_eq!(s.uri(), "file:///a.mp3");
    assert_eq!(s.artist(), "One");
    let r = s.set_uri("file:///b.mp3".to_string(), None);
    assert_eq!(r.err(), Some(ExtractionError::UnresolvableLocation));
}

#[test]
fn new_fails_on_zero_bytes() {
    assert_eq!(Song::new("file:///e".to_string(), Some(Vec::new())).err(), Some(ExtractionError::UnreadableContainer));
    assert_eq!(Song::new("file:///e".to_string(), None).err(), Some(ExtractionError::UnresolvableLocation));
}

#[test]
fn property_values() {
    let s = song_of("file:///a.mp3", Some("Band"), 42);
    assert_eq!(s.property(SongProperty::Uri), PropertyValue::Text("file:///a.mp3".to_string()));
    assert_eq!(s.property(SongProperty::Artist), PropertyValue::Text("Band".to_string()));
    assert_eq!(s.property(SongProperty::Title), PropertyValue::Text("Unknown title".to_string()));
    assert_eq!(s.property(SongProperty::Album), PropertyValue::Text("Unknown album".to_string()));
    assert_eq!(s.property(SongProperty::Duration), PropertyValue::Seconds(42));
}

#[test]
fn property_list() {
    assert_eq!(
        Song::properties(),
        vec![SongProperty::Uri, SongProperty::Artist, SongProperty::Title, SongProperty::Album, SongProperty::Duration]
    );
}

#[test]
fn property_of_absent_field_falls_back() {
    let s = Song::empty();
    assert_eq!(s.property(SongProperty::Artist), PropertyValue::Text("Unknown artist".to_string()));
    assert_eq!(s.property(SongProperty::Title), PropertyValue::Text("Unknown title".to_string()));
    assert_eq!(s.property(SongProperty::Album), PropertyValue::Text("Unknown album".to_string()));
    assert_eq!(s.property(SongProperty::Uri), PropertyValue::Text("file:///does-not-exist".to_string()));
    assert_eq!(s.property(SongProperty::Duration), PropertyValue::Seconds(0));
}
