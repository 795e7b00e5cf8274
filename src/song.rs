//! A track: one metadata record behind an identity that is its location,
//! with accessors that fall back to fixed texts and a list of the fields
//! announced as changed after each reload.
use vstd::prelude::*;

use crate::record::{
    built_from, bytes_view, same_record, sentinel_uri, ExtractionError, SongData, TagContents,
};

verus! {

/// The observable fields of a track.
#[derive(Debug, Clone, Copy, PartialEq, Eq, Structural)]
pub enum SongProperty {
    Uri,
    Artist,
    Title,
    Album,
    Duration,
}

/// The raw value of one observable field.
#[derive(Debug, Clone, PartialEq, Eq)]
pub enum PropertyValue {
    Text(String),
    Seconds(u64),
}

/// The text that a value holds, if it is a text value.
pub open spec fn value_text(v: PropertyValue) -> Option<Seq<char>> {
    match v {
        PropertyValue::Text(t) => Some(t@),
        PropertyValue::Seconds(_) => None,
    }
}

pub open spec fn unknown_artist() -> Seq<char> {
    "Unknown artist"@
}

pub open spec fn unknown_title() -> Seq<char> {
    "Unknown title"@
}

pub open spec fn unknown_album() -> Seq<char> {
    "Unknown album"@
}

/// A stored text, or the fallback where there is none.
pub open spec fn or_fallback(v: Option<String>, fallback: Seq<char>) -> Seq<char> {
    match v {
        Some(s) => s@,
        None => fallback,
    }
}

/// The fields announced after a successful reload, in this order.
pub open spec fn reload_notifications() -> Seq<SongProperty> {
    seq![SongProperty::Artist, SongProperty::Title, SongProperty::Album, SongProperty::Duration]
}

/// Two tracks are the same track when their locations are equal.
pub open spec fn same_track(a: Song, b: Song) -> bool {
    a.data.uri@ == b.data.uri@
}

/// A track: its current metadata record, replaced whole on each reload.
#[derive(Debug, Clone)]
pub struct Song {
    pub data: SongData,
}

impl Song {
    /// Extracts the record of the file at `uri` (its bytes, where the
    /// location resolved to a readable file) into a new track.
    pub fn new(uri: String, contents: Option<Vec<u8>>) -> (r: Result<Song, ExtractionError>)
        ensures
            contents.is_none() ==> r == Err::<Song, ExtractionError>(ExtractionError::UnresolvableLocation),
            contents.is_some() && contents.unwrap()@.len() == 0 ==> r == Err::<Song, ExtractionError>(
                ExtractionError::UnreadableContainer,
            ),
            contents.is_some() && r.is_err() ==> r == Err::<Song, ExtractionError>(ExtractionError::UnreadableContainer),
            r.is_ok() ==> exists|tag: Option<TagContents>, secs: u64, nanos: u32|
                built_from(r.unwrap().data, uri@, tag, secs, nanos),
    {
        match SongData::from_uri(uri, contents) {
            Ok(data) => Ok(Song { data }),
            Err(e) => Err(e),
        }
    }

    /// The track of no file, built without touching storage.
    pub fn empty() -> (r: Song)
        ensures
            r.data.artist.is_none() && r.data.title.is_none() && r.data.album.is_none(),
            r.data.cover_art.is_none(),
            r.data.duration == 0,
            r.data.uri@ == sentinel_uri(),
    {
        Song { data: SongData::empty() }
    }

    /// Reloads the track from the file at `uri`. On success the record is
    /// replaced and the changed fields are returned in announcement order;
    /// on failure the track keeps its previous record.
    pub fn set_uri(&mut self, uri: String, contents: Option<Vec<u8>>) -> (r: Result<Vec<SongProperty>, ExtractionError>)
        ensures
            contents.is_none() ==> r == Err::<Vec<SongProperty>, ExtractionError>(ExtractionError::UnresolvableLocation),
            contents.is_some() && contents.unwrap()@.len() == 0 ==> r == Err::<Vec<SongProperty>, ExtractionError>(
                ExtractionError::UnreadableContainer,
            ),
            contents.is_some() && r.is_err() ==> r == Err::<Vec<SongProperty>, ExtractionError>(ExtractionError::UnreadableContainer),
            r.is_ok() ==> r.unwrap()@ == reload_notifications(),
            r.is_ok() ==> exists|tag: Option<TagContents>, secs: u64, nanos: u32|
                built_from(final(self).data, uri@, tag, secs, nanos),
            r.is_err() ==> *final(self) == *old(self),
    {
        match SongData::from_uri(uri, contents) {
            Ok(data) => {
                self.data = data;
                let notified = vec![SongProperty::Artist, SongProperty::Title, SongProperty::Album, SongProperty::Duration];
                assert(notified@ == reload_notifications());
                Ok(notified)
            },
            Err(e) => Err(e),
        }
    }

    /// The fields that a track exposes, the location first.
    pub fn properties() -> (r: Vec<SongProperty>)
        ensures
            r@ == seq![
                SongProperty::Uri,
                SongProperty::Artist,
                SongProperty::Title,
                SongProperty::Album,
                SongProperty::Duration,
            ],
    {
        vec![SongProperty::Uri, SongProperty::Artist, SongProperty::Title, SongProperty::Album, SongProperty::Duration]
    }

    /// The value of one field, as its typed accessor gives it: text fields
    /// fall back to their fixed texts where the record has none.
    pub fn property(&self, p: SongProperty) -> (r: PropertyValue)
        ensures
            p == SongProperty::Uri ==> value_text(r) == Some(self.data.uri@),
            p == SongProperty::Artist ==> value_text(r) == Some(or_fallback(self.data.artist, unknown_artist())),
            p == SongProperty::Title ==> value_text(r) == Some(or_fallback(self.data.title, unknown_title())),
            p == SongProperty::Album ==> value_text(r) == Some(or_fallback(self.data.album, unknown_album())),
            p == SongProperty::Duration ==> r == PropertyValue::Seconds(self.data.duration),
    {
        match p {
            SongProperty::Uri => PropertyValue::Text(self.uri()),
            SongProperty::Artist => PropertyValue::Text(self.artist()),
            SongProperty::Title => PropertyValue::Text(self.title()),
            SongProperty::Album => PropertyValue::Text(self.album()),
            SongProperty::Duration => PropertyValue::Seconds(self.duration()),
        }
    }

    /// Whether two tracks have the same location, whatever else they hold.
    pub fn equals(&self, other: &Song) -> (r: bool)
        ensures
            r == same_track(*self, *other),
    {
        self.data.uri == other.data.uri
    }

    pub fn uri(&self) -> (r: String)
        ensures
            r@ == self.data.uri@,
    {
        self.data.uri()
    }

    pub fn artist(&self) -> (r: String)
        ensures
            r@ == or_fallback(self.data.artist, unknown_artist()),
    {
        match self.data.artist() {
            Some(a) => a.to_owned(),
            None => "Unknown artist".to_owned(),
        }
    }

    pub fn title(&self) -> (r: String)
        ensures
            r@ == or_fallback(self.data.title, unknown_title()),
    {
        match self.data.title() {
            Some(t) => t.to_owned(),
            None => "Unknown title".to_owned(),
        }
    }

    pub fn album(&self) -> (r: String)
        ensures
            r@ == or_fallback(self.data.album, unknown_album()),
    {
        match self.data.album() {
            Some(a) => a.to_owned(),
            None => "Unknown album".to_owned(),
        }
    }

    pub fn cover_art(&self) -> (r: Option<Vec<u8>>)
        ensures
            bytes_view(r) == bytes_view(self.data.cover_art),
    {
        match self.data.cover_art() {
            Some(b) => Some(b.clone()),
            None => None,
        }
    }

    pub fn duration(&self) -> (r: u64)
        ensures
            r == self.data.duration,
    {
        self.data.duration()
    }
}

/// Identity goes by location alone: two tracks whose locations are the same
/// string are equal, whatever their records hold (one may still carry the
/// record of an earlier file, or none at all), and equality is symmetric.
pub proof fn lemma_same_location_same_track(a: Song, b: Song)
    requires
        a.data.uri@ == b.data.uri@,
    ensures
        same_track(a, b),
        same_track(b, a),
{
}

/// After a successful reload a track holds the extracted record whole:
/// two tracks reloaded from the same location, tag contents and stream
/// length agree on every field, whatever each held before.
pub proof fn lemma_reload_replaces_record(
    a: Song,
    b: Song,
    uri: Seq<char>,
    tag: Option<TagContents>,
    secs: u64,
    nanos: u32,
)
    requires
        built_from(a.data, uri, tag, secs, nanos),
        built_from(b.data, uri, tag, secs, nanos),
    ensures
        same_record(a.data, b.data),
        same_track(a, b),
{
    crate::record::lemma_record_determined(a.data, b.data, uri, tag, secs, nanos);
}

impl Default for Song {
    fn default() -> (r: Song)
        ensures
            r.data.artist.is_none() && r.data.title.is_none() && r.data.album.is_none(),
            r.data.cover_art.is_none(),
            r.data.duration == 0,
            r.data.uri@ == sentinel_uri(),
    {
        Song::empty()
    }
}

} // verus!
