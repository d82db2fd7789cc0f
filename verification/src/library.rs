//! What a scan of a music folder has to decide once the files have been
//! read: which files are audio files, how a song is described when its tags
//! are missing, how it is identified, and how its cover is handed to the
//! user interface.

use vstd::prelude::*;
use vstd::string::StringSliceAdditionalSpecFns;
use vstd::utf8::encode_utf8;
use crate::models::{Playlist, Song, SongView};

verus! {

/// The texts that the tags of an audio file give for it. Each may be missing.
#[derive(Debug, PartialEq, Eq)]
pub struct SongTags {
    pub title: Option<String>,
    pub artist: Option<String>,
    pub album: Option<String>,
}

/// A picture embedded in an audio file.
#[derive(Debug, PartialEq, Eq)]
pub struct Picture {
    /// The media type of the picture, such as `image/png`.
    pub mime_type: String,
    /// The bytes of the picture file.
    pub data: Vec<u8>,
}

/// The lower-case form of an upper-case letter of ASCII; every other
/// character as it is.
pub open spec fn ascii_lower(c: char) -> char {
    if 'A' <= c <= 'Z' {
        ((c as u8) + 32) as char
    } else {
        c
    }
}

/// `text` with its upper-case letters of ASCII in lower case.
pub open spec fn ascii_lowercase(text: Seq<char>) -> Seq<char> {
    Seq::new(text.len(), |i: int| ascii_lower(text[i]))
}

/// Whether a file with extension `extension` is taken for an audio file:
/// the extension is one of mp3, flac, wav, m4a and ogg, in any mix of upper
/// and lower case.
pub open spec fn is_supported(extension: Seq<char>) -> bool {
    let lower = ascii_lowercase(extension);
    lower == "mp3"@ || lower == "flac"@ || lower == "wav"@ || lower == "m4a"@ || lower == "ogg"@
}

/// `text`, or `fallback` where it is missing.
pub open spec fn text_or(text: Option<String>, fallback: Seq<char>) -> Seq<char> {
    match text {
        Some(text) => text@,
        None => fallback,
    }
}

/// How a song is described. A file with tags takes each text from them, and
/// where one is missing says that it is unknown. A file without tags is
/// titled by the stem of its file name.
pub open spec fn described(
    id: Seq<char>,
    path: Seq<char>,
    stem: Seq<char>,
    tags: Option<SongTags>,
    duration_ms: u64,
) -> SongView {
    match tags {
        Some(tags) => SongView {
            id,
            path,
            title: text_or(tags.title, "Unknown Title"@),
            artist: text_or(tags.artist, "Unknown Artist"@),
            album: text_or(tags.album, "Unknown Album"@),
            duration_ms,
        },
        None => SongView {
            id,
            path,
            title: stem,
            artist: "Unknown Artist"@,
            album: "Unknown Album"@,
            duration_ms,
        },
    }
}

/// The length in milliseconds of a WAV file of `frames` samples per channel
/// at `sample_rate` samples per second, rounded down. A file that gives no
/// sample rate has no known length, which is written as zero.
pub open spec fn wav_millis(frames: u32, sample_rate: u32) -> u64 {
    if sample_rate == 0 {
        0
    } else {
        (frames * 1000 / (sample_rate as int)) as u64
    }
}

/// The address that carries a picture of media type `mime_type` inline, its
/// bytes given as the text `encoded`.
pub open spec fn data_url(mime_type: Seq<char>, encoded: Seq<char>) -> Seq<char> {
    "data:"@ + mime_type + ";base64,"@ + encoded
}

/// Whether one of `playlists` has the identifier `id`.
pub open spec fn has_playlist(playlists: Seq<Playlist>, id: u32) -> bool {
    exists|i: int| 0 <= i < playlists.len() && playlists[i].id == id
}

/// The BLAKE3 hash of `input`, written as 64 hexadecimal digits in lower
/// case.
pub uninterp spec fn blake3_hex(input: Seq<u8>) -> Seq<char>;

/// The base64 text of `data`, in the standard alphabet with padding.
pub uninterp spec fn base64_text(data: Seq<u8>) -> Seq<char>;

/// The identifier of the audio file at `path`: the hash of the bytes of the
/// path.
pub open spec fn path_digest(path: Seq<char>) -> Seq<char> {
    blake3_hex(encode_utf8(path))
}

/// Calls `blake3::hash` and writes the hash with `blake3::Hash::to_hex`.
/// Trusted: the text that comes back is the hash of exactly these bytes.
#[verifier::external_body]
fn hash_hex(input: &[u8]) -> (hex: String)
    ensures
        hex@ == blake3_hex(input@),
{
    blake3::hash(input).to_hex().to_string()
}

/// Calls `base64::Engine::encode` on the engine
/// `base64::engine::general_purpose::STANDARD`. Trusted: the text that comes
/// back is the encoding of exactly these bytes. The call panics when the
/// length of the text does not fit the machine, which the bound on the
/// input excludes.
#[verifier::external_body]
fn encode_base64(data: &[u8]) -> (text: String)
    requires
        data@.len() < usize::MAX / 4,
    ensures
        text@ == base64_text(data@),
{
    base64::Engine::encode(&base64::engine::general_purpose::STANDARD, data)
}

fn to_ascii_lower(c: char) -> (lower: char)
    ensures
        lower == ascii_lower(c),
{
    if 'A' <= c && c <= 'Z' {
        ((c as u8) + 32) as char
    } else {
        c
    }
}

/// Whether `text` is `lower` but for the case of its letters of ASCII.
fn equals_ignoring_ascii_case(text: &str, lower: &str) -> (equal: bool)
    ensures
        equal == (ascii_lowercase(text@) == lower@),
{
    let len = text.unicode_len();
    if len != lower.unicode_len() {
        return false;
    }
    let mut i: usize = 0;
    while i < len
        invariant
            i <= len,
            len == text@.len(),
            len == lower@.len(),
            forall|k: int| 0 <= k < i ==> ascii_lower(text@[k]) == lower@[k],
        decreases len - i,
    {
        if to_ascii_lower(text.get_char(i)) != lower.get_char(i) {
            return false;
        }
        i += 1;
    }
    assert(ascii_lowercase(text@) =~= lower@);
    true
}

/// Whether a file with this extension is taken for an audio file.
pub fn is_supported_extension(extension: &str) -> (supported: bool)
    ensures
        supported == is_supported(extension@),
{
    equals_ignoring_ascii_case(extension, "mp3") || equals_ignoring_ascii_case(extension, "flac")
        || equals_ignoring_ascii_case(extension, "wav") || equals_ignoring_ascii_case(
        extension,
        "m4a",
    ) || equals_ignoring_ascii_case(extension, "ogg")
}

/// The identifier of the audio file at `path`: the BLAKE3 hash of the path,
/// in hexadecimal digits. The same path always gives the same identifier.
pub fn track_id(path: &str) -> (id: String)
    ensures
        id@ == path_digest(path@),
{
    hash_hex(path.as_bytes())
}

fn text_or_default(text: Option<String>, fallback: &str) -> (chosen: String)
    ensures
        chosen@ == text_or(text, fallback@),
{
    match text {
        Some(text) => text,
        None => String::from_str(fallback),
    }
}

/// Describes the audio file at `path` under the identifier `id`, from what
/// has been read of it: the stem of its file name, its tags if it has any,
/// and its length.
pub fn song_with_id(
    id: String,
    path: String,
    stem: String,
    tags: Option<SongTags>,
    duration_ms: u64,
) -> (song: Song)
    ensures
        song@ == described(id@, path@, stem@, tags, duration_ms),
{
    match tags {
        Some(tags) => Song {
            id,
            path,
            title: text_or_default(tags.title, "Unknown Title"),
            artist: text_or_default(tags.artist, "Unknown Artist"),
            album: text_or_default(tags.album, "Unknown Album"),
            duration_ms,
        },
        None => Song {
            id,
            path,
            title: stem,
            artist: String::from_str("Unknown Artist"),
            album: String::from_str("Unknown Album"),
            duration_ms,
        },
    }
}

/// Describes the audio file at `path`, identified by the hash of its path.
pub fn parse_metadata(
    path: String,
    stem: String,
    tags: Option<SongTags>,
    duration_ms: u64,
) -> (song: Song)
    ensures
        song@ == described(path_digest(path@), path@, stem@, tags, duration_ms),
{
    let id = track_id(path.as_str());
    song_with_id(id, path, stem, tags, duration_ms)
}

/// The length in milliseconds of a WAV file, from its number of samples per
/// channel and its sample rate.
pub fn wav_duration_ms(frames: u32, sample_rate: u32) -> (millis: u64)
    ensures
        millis == wav_millis(frames, sample_rate),
{
    if sample_rate == 0 {
        0
    } else {
        (frames as u64) * 1000 / (sample_rate as u64)
    }
}

/// The address that carries a picture inline, from its media type and the
/// base64 text of its bytes.
pub fn art_data_url(mime_type: &str, encoded: &str) -> (url: String)
    ensures
        url@ == data_url(mime_type@, encoded@),
{
    let mut url = String::from_str("data:");
    url.append(mime_type);
    url.append(";base64,");
    url.append(encoded);
    url
}

/// Whether the bytes of a picture can be written as base64 text on this
/// machine: the text is a third longer than the bytes.
pub open spec fn encodable(data: Seq<u8>) -> bool {
    data.len() < usize::MAX / 4
}

/// The cover of a track as an inline address, from the first picture of its
/// tags. A track without a picture has no cover, and neither has one whose
/// picture is too large to be written as text.
pub fn get_album_art_data(picture: Option<&Picture>) -> (art: Option<String>)
    ensures
        match picture {
            Some(picture) if encodable(picture.data@) => art is Some && art->0@ == data_url(
                picture.mime_type@,
                base64_text(picture.data@),
            ),
            _ => art is None,
        },
{
    match picture {
        Some(picture) => {
            if picture.data.len() < usize::MAX / 4 {
                let encoded = encode_base64(picture.data.as_slice());
                Some(art_data_url(picture.mime_type.as_str(), encoded.as_str()))
            } else {
                None
            }
        },
        None => None,
    }
}

/// The playlist that is active after `id` has been asked for: `id` if there
/// is such a playlist, and the one that was active before if there is not.
pub fn select_playlist(playlists: &Vec<Playlist>, active_playlist_id: u32, id: u32) -> (active: u32)
    ensures
        active == if has_playlist(playlists@, id) {
            id
        } else {
            active_playlist_id
        },
{
    let mut i: usize = 0;
    while i < playlists.len()
        invariant
            i <= playlists@.len(),
            forall|k: int| 0 <= k < i ==> playlists@[k].id != id,
        decreases playlists@.len() - i,
    {
        if playlists[i].id == id {
            return id;
        }
        i += 1;
    }
    active_playlist_id
}

} // verus!
