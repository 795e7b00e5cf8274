use amberol_song::record::SongData;
use amberol_song::song::{Song, SongProperty};

fn syncsafe(n: usize) -> [u8; 4] {
    [((n >> 21) & 0x7f) as u8, ((n >> 14) & 0x7f) as u8, ((n >> 7) & 0x7f) as u8, (n & 0x7f) as u8]
}

fn frame(id: &[u8; 4], content: &[u8]) -> Vec<u8> {
    let mut f = id.to_vec();
    f.extend_from_slice(&syncsafe(content.len()));
    f.extend_from_slice(&[0, 0]);
    f.extend_from_slice(content);
    f
}

fn text_frame(id: &[u8; 4], text: &str) -> Vec<u8> {
    let mut c = vec![3u8];
    c.extend_from_slice(text.as_bytes());
    frame(id, &c)
}

fn picture_frame(mime: &str, data: &[u8]) -> Vec<u8> {
    let mut c = vec![0u8];
    c.extend_from_slice(mime.as_bytes());
    c.push(0);
    c.push(3);
    c.push(0);
    c.extend_from_slice(data);
    frame(b"APIC", &c)
}

fn id3v24(frames: &[Vec<u8>]) -> Vec<u8> {
    let body: Vec<u8> = frames.concat();
    let mut t = b"ID3".to_vec();
    t.extend_from_slice(&[4, 0, 0]);
    t.extend_from_slice(&syncsafe(body.len()));
    t.extend_from_slice(&body);
    t
}

fn chunk(id: &[u8; 4], content: &[u8]) -> Vec<u8> {
    let mut c = id.to_vec();
    c.extend_from_slice(&(content.len() as u32).to_le_bytes());
    c.extend_from_slice(content);
    if content.len() % 2 == 1 {
        c.push(0);
    }
    c
}

/// An 8 kHz, 8-bit, mono PCM file with `data_len` bytes of silence.
fn wav(data_len: usize, tag: Option<Vec<u8>>) -> Vec<u8> {
    let mut fmt = Vec::new();
    fmt.extend_from_slice(&1u16.to_le_bytes());
    fmt.extend_from_slice(&1u16.to_le_bytes());
    fmt.extend_from_slice(&8000u32.to_le_bytes());
    fmt.extend_from_slice(&8000u32.to_le_bytes());
    fmt.extend_from_slice(&1u16.to_le_bytes());
    fmt.extend_from_slice(&8u16.to_le_bytes());
    let mut body = b"WAVE".to_vec();
    body.extend_from_slice(&chunk(b"fmt ", &fmt));
    body.extend_from_slice(&chunk(b"data", &vec![128u8; data_len]));
    if let Some(t) = tag {
        body.extend_from_slice(&chunk(b"ID3 ", &t));
    }
    let mut f = b"RIFF".to_vec();
    f.extend_from_slice(&(body.len() as u32).to_le_bytes());
    f.extend_from_slice(&body);
    f
}

#[test]
fn untagged_file_keeps_duration() {
    let d = SongData::from_contents("file:///plain.wav".to_string(), &wav(16_000, None)).unwrap();
    assert_eq!(d.duration(), 2);
    assert_eq!(d.artist(), None);
    assert_eq!(d.title(), None);
    assert_eq!(d.album(), None);
    assert_eq!(d.cover_art(), None);
    assert_eq!(d.uri(), "file:///plain.wav");
}

#[test]
fn fractional_stream_length_truncates() {
    let s = Song::new("file:///long.wav".to_string(), Some(wav(1_007_200, None))).unwrap();
    assert_eq!(s.duration(), 125);
}

#[test]
fn tagged_file_fields() {
    let tag = id3v24(&[
        text_frame(b"TPE1", "  The Band  "),
        text_frame(b"TIT2", "Song"),
        text_frame(b"TALB", "Record"),
        picture_frame("image/png", &[1, 2, 3]),
        picture_frame("image/jpeg", &[4, 5]),
    ]);
    let s = Song::new("file:///t.wav".to_string(), Some(wav(8_000, Some(tag)))).unwrap();
    assert_eq!(s.artist(), "The Band");
    assert_eq!(s.title(), "Song");
    assert_eq!(s.album(), "Record");
    assert_eq!(s.cover_art(), Some(vec![4, 5]));
    assert_eq!(s.duration(), 1);
}

#[test]
fn tagged_file_unknown_last_picture_clears_cover() {
    let tag = id3v24(&[
        text_frame(b"TIT2", "Song"),
        picture_frame("image/png", &[1, 2, 3]),
        picture_frame("image/jpeg", &[4, 5]),
        picture_frame("image/x-unknown", &[6]),
    ]);
    let s = Song::new("file:///u.wav".to_string(), Some(wav(8_000, Some(tag)))).unwrap();
    assert_eq!(s.cover_art(), None);
    assert_eq!(s.artist(), "Unknown artist");
    assert_eq!(s.title(), "Song");
}

#[test]
fn reload_replaces_record_and_notifies() {
    let mut s = Song::empty();
    let tag = id3v24(&[text_frame(b"TPE1", "Band")]);
    let n = s.set_uri("file:///r.wav".to_string(), Some(wav(24_000, Some(tag)))).unwrap();
    assert_eq!(n, vec![SongProperty::Artist, SongProperty::Title, SongProperty::Album, SongProperty::Duration]);
    assert_eq!(s.uri(), "file:///r.wav");
    assert_eq!(s.artist(), "Band");
    assert_eq!(s.duration(), 3);
    let other = Song::new("file:///r.wav".to_string(), Some(wav(8_000, None))).unwrap();
    assert!(s.equals(&other));
}
