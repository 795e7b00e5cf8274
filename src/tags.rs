//! The calls into lofty (container parsing, the primary tag, embedded
//! pictures, stream length) and into std's `str::trim`, each behind a
//! small trusted item.
use lofty::error::FileParseError;
use lofty::file::{AudioFile, TaggedFile, TaggedFileExt};
use lofty::picture::{MimeType, Picture};
use lofty::probe::Probe;
use lofty::tag::{Accessor, Tag};
use vstd::prelude::*;

use crate::record::ImageKind;

verus! {

#[verifier::external_type_specification]
#[verifier::external_body]
pub struct ExTaggedFile(TaggedFile);

#[verifier::external_type_specification]
#[verifier::external_body]
pub struct ExTag(Tag);

#[verifier::external_type_specification]
#[verifier::external_body]
pub struct ExPicture(Picture);

#[verifier::external_type_specification]
#[verifier::external_body]
pub struct ExFileParseError(FileParseError);

/// The characters that `char::is_whitespace` accepts: those with the
/// Unicode `White_Space` property.
pub open spec fn is_white_space(c: char) -> bool {
    ('\u{9}' <= c && c <= '\u{d}') || c == ' ' || c == '\u{85}' || c == '\u{a0}' || c == '\u{1680}'
        || ('\u{2000}' <= c && c <= '\u{200a}') || c == '\u{2028}' || c == '\u{2029}' || c == '\u{202f}'
        || c == '\u{205f}' || c == '\u{3000}'
}

/// A text without its leading whitespace.
pub open spec fn trim_start(s: Seq<char>) -> Seq<char>
    decreases s.len(),
{
    if s.len() > 0 && is_white_space(s[0]) {
        trim_start(s.drop_first())
    } else {
        s
    }
}

/// A text without its trailing whitespace.
pub open spec fn trim_end(s: Seq<char>) -> Seq<char>
    decreases s.len(),
{
    if s.len() > 0 && is_white_space(s.last()) {
        trim_end(s.drop_last())
    } else {
        s
    }
}

/// A text without its leading and trailing whitespace.
pub open spec fn trimmed(s: Seq<char>) -> Seq<char> {
    trim_end(trim_start(s))
}

/// Relies on lofty's `Probe::guess_file_type` and `Probe::read`: the
/// container type is guessed from the leading bytes, then the file is
/// parsed with its tags and stream properties. The outcome also depends on
/// lofty's process-wide settings, so nothing is promised of it.
#[verifier::external_body]
pub(crate) fn parse_container(bytes: &[u8]) -> (r: Result<TaggedFile, FileParseError>) {
    match Probe::new(std::io::Cursor::new(bytes)).guess_file_type() {
        Ok(probe) => probe.read(),
        Err(e) => Err(FileParseError::from(e)),
    }
}

/// Relies on lofty's `TaggedFileExt::primary_tag`: the tag of the file's
/// primary tag type, if the file holds one.
#[verifier::external_body]
pub(crate) fn primary_tag(f: &TaggedFile) -> (r: Option<&Tag>) {
    f.primary_tag()
}

/// Relies on lofty's `Accessor::artist`: the tag's artist text, if any.
#[verifier::external_body]
pub(crate) fn tag_artist(t: &Tag) -> (r: Option<String>) {
    match t.artist() {
        Some(s) => Some(s.into_owned()),
        None => None,
    }
}

/// Relies on lofty's `Accessor::title`: the tag's title text, if any.
#[verifier::external_body]
pub(crate) fn tag_title(t: &Tag) -> (r: Option<String>) {
    match t.title() {
        Some(s) => Some(s.into_owned()),
        None => None,
    }
}

/// Relies on lofty's `Accessor::album`: the tag's album text, if any.
#[verifier::external_body]
pub(crate) fn tag_album(t: &Tag) -> (r: Option<String>) {
    match t.album() {
        Some(s) => Some(s.into_owned()),
        None => None,
    }
}

/// Relies on lofty's `Tag::pictures`: the embedded pictures in tag order.
#[verifier::external_body]
pub(crate) fn tag_pictures(t: &Tag) -> (r: &[Picture]) {
    t.pictures()
}

/// Relies on lofty's `Picture::mime_type`: the picture's declared MIME
/// type, told apart as PNG, JPEG, TIFF or anything else.
#[verifier::external_body]
pub(crate) fn picture_kind(p: &Picture) -> (r: ImageKind) {
    match p.mime_type() {
        Some(MimeType::Png) => ImageKind::Png,
        Some(MimeType::Jpeg) => ImageKind::Jpeg,
        Some(MimeType::Tiff) => ImageKind::Tiff,
        _ => ImageKind::Other,
    }
}

/// Relies on lofty's `Picture::data`: the picture's raw bytes.
#[verifier::external_body]
pub(crate) fn picture_data(p: &Picture) -> (r: Vec<u8>) {
    p.data().to_vec()
}

/// Relies on lofty's `AudioFile::properties` and its `duration`: the
/// stream's length as a `Duration`, handed on as whole seconds and the
/// nanoseconds beyond them, which `Duration` keeps under one second.
#[verifier::external_body]
pub(crate) fn stream_duration(f: &TaggedFile) -> (r: (u64, u32))
    ensures
        r.1 < 1_000_000_000,
{
    let d = f.properties().duration();
    (d.as_secs(), d.subsec_nanos())
}

/// Relies on std's `str::trim`: the text without leading and trailing
/// whitespace, as `char::is_whitespace` defines it.
#[verifier::external_body]
pub(crate) fn trim_text(s: &str) -> (r: String)
    ensures
        r@ == trimmed(s@),
{
    s.trim().to_string()
}

} // verus!
