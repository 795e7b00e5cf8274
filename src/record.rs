//! The metadata record of one audio file and the rules that build it from
//! what the container's tag holds.
use lofty::file::TaggedFile;
use vstd::prelude::*;

use crate::tags::{
    parse_container, picture_data, picture_kind, primary_tag, stream_duration, tag_album,
    tag_artist, tag_pictures, tag_title, trim_text, trimmed,
};

verus! {

/// Why a record could not be extracted.
#[derive(Debug, Clone, Copy, PartialEq, Eq, Structural)]
pub enum ExtractionError {
    /// The location does not lead to a readable local file.
    UnresolvableLocation,
    /// The bytes are not a tagged audio container that can be parsed.
    UnreadableContainer,
}

/// The declared image format of an embedded picture.
#[derive(Debug, Clone, Copy, PartialEq, Eq, Structural)]
pub enum ImageKind {
    Png,
    Jpeg,
    Tiff,
    /// Any other declared type, or none.
    Other,
}

/// An embedded picture: its declared format and its raw bytes.
#[derive(Debug, Clone)]
pub struct EmbeddedPicture {
    pub kind: ImageKind,
    pub data: Vec<u8>,
}

/// Only PNG, JPEG and TIFF pictures count as cover art.
pub open spec fn is_cover_kind(k: ImageKind) -> bool {
    k == ImageKind::Png || k == ImageKind::Jpeg || k == ImageKind::Tiff
}

/// The cover art that a run of pictures yields: each picture overwrites the
/// previous choice, with its bytes when it is a cover format and with
/// nothing otherwise, so the last picture alone decides.
pub open spec fn cover_art_of(pics: Seq<EmbeddedPicture>) -> Option<Seq<u8>> {
    if pics.len() == 0 {
        None
    } else if is_cover_kind(pics.last().kind) {
        Some(pics.last().data@)
    } else {
        None
    }
}

pub open spec fn bytes_view(o: Option<Vec<u8>>) -> Option<Seq<u8>> {
    match o {
        Some(v) => Some(v@),
        None => None,
    }
}

pub open spec fn text_view(o: Option<String>) -> Option<Seq<char>> {
    match o {
        Some(s) => Some(s@),
        None => None,
    }
}

/// Tells whether a picture's format makes it cover art.
pub fn is_cover_image(k: ImageKind) -> (r: bool)
    ensures
        r == is_cover_kind(k),
{
    match k {
        ImageKind::Png => true,
        ImageKind::Jpeg => true,
        ImageKind::Tiff => true,
        ImageKind::Other => false,
    }
}

/// Walks the pictures in tag order; the last one decides the cover art.
pub fn select_cover_art(pics: &Vec<EmbeddedPicture>) -> (r: Option<Vec<u8>>)
    ensures
        bytes_view(r) == cover_art_of(pics@),
{
    let mut cover: Option<Vec<u8>> = None;
    let mut i: usize = 0;
    while i < pics.len()
        invariant
            i <= pics@.len(),
            bytes_view(cover) == cover_art_of(pics@.take(i as int)),
        decreases pics@.len() - i,
    {
        let p = &pics[i];
        if is_cover_image(p.kind) {
            cover = Some(p.data.clone());
        } else {
            cover = None;
        }
        i = i + 1;
        assert(pics@.take(i as int).last() == pics@[i - 1]);
    }
    assert(pics@.take(i as int) == pics@);
    cover
}

/// Nanoseconds in one second.
pub const NANOS_PER_SECOND: u64 = 1_000_000_000;

/// A length of time given in nanoseconds, cut down to whole seconds.
pub open spec fn truncated_seconds(total_nanos: int) -> int {
    total_nanos / (NANOS_PER_SECOND as int)
}

/// The whole seconds of a stream length given as seconds and the
/// nanoseconds beyond them: fractions of a second are dropped, never
/// rounded up.
pub fn whole_seconds(secs: u64, subsec_nanos: u32) -> (r: u64)
    requires
        subsec_nanos < NANOS_PER_SECOND,
    ensures
        r as int == truncated_seconds(secs * NANOS_PER_SECOND + subsec_nanos),
{
    proof {
        let t = secs * NANOS_PER_SECOND + subsec_nanos;
        assert(t / (NANOS_PER_SECOND as int) == secs) by (nonlinear_arith)
            requires
                t == secs * NANOS_PER_SECOND + subsec_nanos,
                0 <= subsec_nanos < NANOS_PER_SECOND,
                NANOS_PER_SECOND == 1_000_000_000,
        ;
    }
    secs
}

/// The location that a record not backed by any file points at.
pub open spec fn sentinel_uri() -> Seq<char> {
    "file:///does-not-exist"@
}

/// A text field as the record keeps it: trimmed of padding, and absent
/// where the tag has none or only blanks.
pub open spec fn tag_text_of(raw: Option<Seq<char>>) -> Option<Seq<char>> {
    match raw {
        Some(s) => if trimmed(s).len() == 0 {
            None
        } else {
            Some(trimmed(s))
        },
        None => None,
    }
}

/// An empty text counts as no text.
pub fn absent_if_empty(t: String) -> (r: Option<String>)
    ensures
        text_view(r) == (if t@.len() == 0 {
            None::<Seq<char>>
        } else {
            Some(t@)
        }),
{
    if t.as_str().is_empty() {
        None
    } else {
        Some(t)
    }
}

/// Normalises one text field of a tag.
pub fn normalize_tag_text(raw: Option<String>) -> (r: Option<String>)
    ensures
        text_view(r) == tag_text_of(text_view(raw)),
{
    match raw {
        Some(s) => absent_if_empty(trim_text(s.as_str())),
        None => None,
    }
}

/// What the primary tag of a container holds, as plain values.
#[derive(Debug, Clone)]
pub struct TagContents {
    pub artist: Option<String>,
    pub title: Option<String>,
    pub album: Option<String>,
    /// The embedded pictures, in tag order.
    pub pictures: Vec<EmbeddedPicture>,
}

/// The metadata of one audio file.
#[derive(Debug, Clone)]
pub struct SongData {
    pub artist: Option<String>,
    pub title: Option<String>,
    pub album: Option<String>,
    /// Raw image bytes of the cover art.
    pub cover_art: Option<Vec<u8>>,
    /// The stream length in whole seconds.
    pub duration: u64,
    /// The normalised location of the file.
    pub uri: String,
}

/// The artist of the record built from a tag, or absent without a tag.
pub open spec fn artist_of(tag: Option<TagContents>) -> Option<Seq<char>> {
    match tag {
        Some(t) => tag_text_of(text_view(t.artist)),
        None => None,
    }
}

/// The title of the record built from a tag, or absent without a tag.
pub open spec fn title_of(tag: Option<TagContents>) -> Option<Seq<char>> {
    match tag {
        Some(t) => tag_text_of(text_view(t.title)),
        None => None,
    }
}

/// The album of the record built from a tag, or absent without a tag.
pub open spec fn album_of(tag: Option<TagContents>) -> Option<Seq<char>> {
    match tag {
        Some(t) => tag_text_of(text_view(t.album)),
        None => None,
    }
}

/// The cover art of the record built from a tag, or absent without a tag.
pub open spec fn cover_of_tag(tag: Option<TagContents>) -> Option<Seq<u8>> {
    match tag {
        Some(t) => cover_art_of(t.pictures@),
        None => None,
    }
}

/// `r` is the record of the file at `uri` whose primary tag holds `tag`
/// (none where the file has no primary tag) and whose stream lasts `secs`
/// seconds and `nanos` nanoseconds: every field of `r` is fixed by these.
pub open spec fn built_from(r: SongData, uri: Seq<char>, tag: Option<TagContents>, secs: u64, nanos: u32) -> bool {
    &&& nanos < NANOS_PER_SECOND
    &&& r.uri@ == uri
    &&& text_view(r.artist) == artist_of(tag)
    &&& text_view(r.title) == title_of(tag)
    &&& text_view(r.album) == album_of(tag)
    &&& bytes_view(r.cover_art) == cover_of_tag(tag)
    &&& r.duration as int == truncated_seconds(secs * NANOS_PER_SECOND + nanos)
}

/// Two records agree on every field.
pub open spec fn same_record(a: SongData, b: SongData) -> bool {
    &&& text_view(a.artist) == text_view(b.artist)
    &&& text_view(a.title) == text_view(b.title)
    &&& text_view(a.album) == text_view(b.album)
    &&& bytes_view(a.cover_art) == bytes_view(b.cover_art)
    &&& a.duration == b.duration
    &&& a.uri@ == b.uri@
}

/// A text field read from a tag is the tag's value trimmed of padding
/// where the trimmed value is non-empty, and absent where the tag has no
/// value or only a blank one.
pub proof fn lemma_tag_text_trimmed(raw: Option<Seq<char>>)
    ensures
        raw.is_some() && trimmed(raw.unwrap()).len() > 0 ==> tag_text_of(raw) == Some(trimmed(raw.unwrap())),
        raw.is_none() || trimmed(raw.unwrap()).len() == 0 ==> tag_text_of(raw).is_none(),
{
}

/// A file without a primary tag gives a record with no text and no cover
/// art, whose duration is still the stream length in whole seconds.
pub proof fn lemma_untagged_record(r: SongData, uri: Seq<char>, secs: u64, nanos: u32)
    requires
        built_from(r, uri, None, secs, nanos),
    ensures
        r.artist.is_none() && r.title.is_none() && r.album.is_none(),
        r.cover_art.is_none(),
        r.duration == secs,
{
    assert((secs * NANOS_PER_SECOND + nanos) / (NANOS_PER_SECOND as int) == secs) by (nonlinear_arith)
        requires
            0 <= nanos < NANOS_PER_SECOND,
            NANOS_PER_SECOND == 1_000_000_000,
    ;
}

/// The same location, tag contents and stream length give the same record:
/// nothing else, and nothing of an earlier record, enters it.
pub proof fn lemma_record_determined(
    a: SongData,
    b: SongData,
    uri: Seq<char>,
    tag: Option<TagContents>,
    secs: u64,
    nanos: u32,
)
    requires
        built_from(a, uri, tag, secs, nanos),
        built_from(b, uri, tag, secs, nanos),
    ensures
        same_record(a, b),
{
}

impl SongData {
    pub fn artist(&self) -> (r: Option<&str>)
        ensures
            r.is_some() == self.artist.is_some(),
            r.is_some() ==> r.unwrap()@ == self.artist.unwrap()@,
    {
        match &self.artist {
            Some(s) => Some(s.as_str()),
            None => None,
        }
    }

    pub fn title(&self) -> (r: Option<&str>)
        ensures
            r.is_some() == self.title.is_some(),
            r.is_some() ==> r.unwrap()@ == self.title.unwrap()@,
    {
        match &self.title {
            Some(s) => Some(s.as_str()),
            None => None,
        }
    }

    pub fn album(&self) -> (r: Option<&str>)
        ensures
            r.is_some() == self.album.is_some(),
            r.is_some() ==> r.unwrap()@ == self.album.unwrap()@,
    {
        match &self.album {
            Some(s) => Some(s.as_str()),
            None => None,
        }
    }

    pub fn duration(&self) -> (r: u64)
        ensures
            r == self.duration,
    {
        self.duration
    }

    pub fn cover_art(&self) -> (r: Option<&Vec<u8>>)
        ensures
            r.is_some() == self.cover_art.is_some(),
            r.is_some() ==> r.unwrap()@ == self.cover_art.unwrap()@,
    {
        match &self.cover_art {
            Some(b) => Some(b),
            None => None,
        }
    }

    pub fn uri(&self) -> (r: String)
        ensures
            r@ == self.uri@,
    {
        self.uri.clone()
    }

    /// Builds the record from what the primary tag holds (if there is one)
    /// and the stream length: text fields are normalised, the last picture
    /// decides the cover art, and the length is cut to whole seconds.
    pub fn assemble(uri: String, tag: Option<TagContents>, secs: u64, subsec_nanos: u32) -> (r: SongData)
        requires
            subsec_nanos < NANOS_PER_SECOND,
        ensures
            built_from(r, uri@, tag, secs, subsec_nanos),
    {
        let duration = whole_seconds(secs, subsec_nanos);
        match tag {
            Some(t) => {
                let cover_art = select_cover_art(&t.pictures);
                SongData {
                    artist: normalize_tag_text(t.artist),
                    title: normalize_tag_text(t.title),
                    album: normalize_tag_text(t.album),
                    cover_art,
                    duration,
                    uri,
                }
            },
            None => SongData { artist: None, title: None, album: None, cover_art: None, duration, uri },
        }
    }

    /// Builds the record of a parsed container from its primary tag, if
    /// it has one, and its stream length.
    pub fn from_tagged(uri: String, file: &TaggedFile) -> (r: SongData)
        ensures
            exists|tag: Option<TagContents>, secs: u64, nanos: u32| built_from(r, uri@, tag, secs, nanos),
    {
        let tag = match primary_tag(file) {
            Some(t) => {
                let pics = tag_pictures(t);
                let mut pictures: Vec<EmbeddedPicture> = Vec::new();
                let mut i: usize = 0;
                while i < pics.len()
                    invariant
                        i <= pics@.len(),
                    decreases pics@.len() - i,
                {
                    pictures.push(EmbeddedPicture { kind: picture_kind(&pics[i]), data: picture_data(&pics[i]) });
                    i = i + 1;
                }
                Some(TagContents { artist: tag_artist(t), title: tag_title(t), album: tag_album(t), pictures })
            },
            None => None,
        };
        let (secs, nanos) = stream_duration(file);
        let ghost g_uri = uri@;
        let ghost g_tag = tag;
        let r = SongData::assemble(uri, tag, secs, nanos);
        assert(built_from(r, g_uri, g_tag, secs, nanos));
        r
    }

    /// Parses the bytes of an audio file found at `uri` and builds its
    /// record; fails when the bytes are empty or are no tagged audio
    /// container.
    pub fn from_contents(uri: String, contents: &[u8]) -> (r: Result<SongData, ExtractionError>)
        ensures
            contents@.len() == 0 ==> r == Err::<SongData, ExtractionError>(ExtractionError::UnreadableContainer),
            r.is_err() ==> r == Err::<SongData, ExtractionError>(ExtractionError::UnreadableContainer),
            r.is_ok() ==> exists|tag: Option<TagContents>, secs: u64, nanos: u32|
                built_from(r.unwrap(), uri@, tag, secs, nanos),
    {
        if contents.len() == 0 {
            return Err(ExtractionError::UnreadableContainer);
        }
        match parse_container(contents) {
            Ok(file) => {
                let d = SongData::from_tagged(uri, &file);
                let r: Result<SongData, ExtractionError> = Ok(d);
                assert(r.unwrap() == d);
                r
            },
            Err(_) => Err(ExtractionError::UnreadableContainer),
        }
    }

    /// Extracts the record of the file at `uri`, whose bytes are given
    /// where the location resolved to a readable local file.
    pub fn from_uri(uri: String, contents: Option<Vec<u8>>) -> (r: Result<SongData, ExtractionError>)
        ensures
            contents.is_none() ==> r == Err::<SongData, ExtractionError>(ExtractionError::UnresolvableLocation),
            contents.is_some() && contents.unwrap()@.len() == 0 ==> r == Err::<SongData, ExtractionError>(
                ExtractionError::UnreadableContainer,
            ),
            contents.is_some() && r.is_err() ==> r == Err::<SongData, ExtractionError>(ExtractionError::UnreadableContainer),
            r.is_ok() ==> exists|tag: Option<TagContents>, secs: u64, nanos: u32|
                built_from(r.unwrap(), uri@, tag, secs, nanos),
    {
        match contents {
            Some(bytes) => SongData::from_contents(uri, bytes.as_slice()),
            None => Err(ExtractionError::UnresolvableLocation),
        }
    }

    /// The record of no file: every field absent, zero length, and the
    /// sentinel location.
    pub fn empty() -> (r: SongData)
        ensures
            r.artist.is_none() && r.title.is_none() && r.album.is_none(),
            r.cover_art.is_none(),
            r.duration == 0,
            r.uri@ == sentinel_uri(),
    {
        SongData {
            artist: None,
            title: None,
            album: None,
            cover_art: None,
            duration: 0,
            uri: "file:///does-not-exist".to_owned(),
        }
    }
}

impl Default for SongData {
    fn default() -> (r: SongData)
        ensures
            r.artist.is_none() && r.title.is_none() && r.album.is_none(),
            r.cover_art.is_none(),
            r.duration == 0,
            r.uri@ == sentinel_uri(),
    {
        SongData::empty()
    }
}

} // verus!
