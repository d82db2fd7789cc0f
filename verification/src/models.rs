//! Value types shared by the catalog and the playback engine.

use vstd::prelude::*;

verus! {

/// Full volume. Volume is kept in thousandths of full scale, so the legal
/// range is `0..=MAX_VOLUME`.
pub const MAX_VOLUME: u16 = 1000;

/// What the player does when a track has played to its end.
#[derive(Clone, Copy, Debug, PartialEq, Eq, Structural)]
pub enum LoopMode {
    /// Stop the transport.
    Off,
    /// Go on with the following track, wrapping at the end of the catalog.
    Playlist,
    /// Start the same track again.
    Single,
}

impl LoopMode {
    /// The mode that follows `self` in the cycle Off, Playlist, Single, Off.
    pub open spec fn successor(self) -> LoopMode {
        match self {
            LoopMode::Off => LoopMode::Playlist,
            LoopMode::Playlist => LoopMode::Single,
            LoopMode::Single => LoopMode::Off,
        }
    }

    /// Steps once through the cycle Off, Playlist, Single, Off.
    pub fn next(self) -> (r: LoopMode)
        ensures
            r == self.successor(),
    {
        match self {
            LoopMode::Off => LoopMode::Playlist,
            LoopMode::Playlist => LoopMode::Single,
            LoopMode::Single => LoopMode::Off,
        }
    }
}

/// One audio file of the catalog. A song is never changed once it has been
/// built; a rescan replaces the whole catalog.
#[derive(Debug, PartialEq, Eq)]
pub struct Song {
    /// Identifier that stays the same across rescans of the same file.
    pub id: String,
    /// Where the audio file lies.
    pub path: String,
    pub title: String,
    pub artist: String,
    pub album: String,
    /// Length of the track; elapsed time is never reported beyond it.
    pub duration_ms: u64,
}

/// A song with its texts as character sequences.
pub struct SongView {
    pub id: Seq<char>,
    pub path: Seq<char>,
    pub title: Seq<char>,
    pub artist: Seq<char>,
    pub album: Seq<char>,
    pub duration_ms: u64,
}

impl View for Song {
    type V = SongView;

    open spec fn view(&self) -> SongView {
        SongView {
            id: self.id@,
            path: self.path@,
            title: self.title@,
            artist: self.artist@,
            album: self.album@,
            duration_ms: self.duration_ms,
        }
    }
}

impl Clone for Song {
    fn clone(&self) -> (s: Song)
        ensures
            s == *self,
    {
        Song {
            id: self.id.clone(),
            path: self.path.clone(),
            title: self.title.clone(),
            artist: self.artist.clone(),
            album: self.album.clone(),
            duration_ms: self.duration_ms,
        }
    }
}

/// A named selection of songs, given by their positions in the catalog.
#[derive(Debug, PartialEq, Eq)]
pub struct Playlist {
    pub id: u32,
    pub name: String,
    pub song_ids: Vec<u32>,
}

/// Why a command could not be carried out.
#[derive(Clone, Copy, Debug, PartialEq, Eq, Structural)]
pub enum PlayerError {
    /// The command named a track that the catalog does not hold.
    NotFound,
    /// The audio device or the decoder refused the track.
    DeviceError,
    /// The audio file could not be opened or read.
    IoError,
    /// The sink cannot seek within the loaded track.
    SeekUnsupported,
}

impl PlayerError {
    /// The text shown to the user for this error.
    pub fn message(&self) -> (text: String)
        ensures
            text@ == match *self {
                PlayerError::NotFound => "Song ID out of bounds"@,
                PlayerError::DeviceError => "Audio device error"@,
                PlayerError::IoError => "Audio file could not be read"@,
                PlayerError::SeekUnsupported => "Seeking is not supported"@,
            },
    {
        match self {
            PlayerError::NotFound => String::from_str("Song ID out of bounds"),
            PlayerError::DeviceError => String::from_str("Audio device error"),
            PlayerError::IoError => String::from_str("Audio file could not be read"),
            PlayerError::SeekUnsupported => String::from_str("Seeking is not supported"),
        }
    }
}

/// The transport: which track is current, whether it plays, and where in the
/// track it is. Time is counted in milliseconds of a monotonic clock.
#[derive(Clone, Copy, Debug, PartialEq, Eq, Structural)]
pub struct PlaybackState {
    /// Position of the current track in the catalog.
    pub current_song_id: Option<usize>,
    pub is_playing: bool,
    pub is_shuffled: bool,
    pub repeat_mode: LoopMode,
    /// Thousandths of full scale, at most `MAX_VOLUME`.
    pub volume: u16,
    /// Time played up to the moment playback last started or resumed.
    pub elapsed_ms: u64,
    /// Clock reading at which playback last started or resumed; set exactly
    /// while the transport is playing.
    pub playback_start_ms: Option<u64>,
}

/// What observers are told after each command and on each heartbeat.
#[derive(Debug, PartialEq, Eq)]
pub struct PlayerStatusUpdate {
    pub songs: Vec<Song>,
    pub current_song_id: Option<usize>,
    pub is_playing: bool,
    pub volume: u16,
    pub is_shuffled: bool,
    pub repeat_mode: LoopMode,
    /// Elapsed time within the current track, never beyond its length.
    pub current_time_ms: u64,
}

/// A status update with its song list as a sequence.
pub struct StatusView {
    pub songs: Seq<Song>,
    pub current_song_id: Option<usize>,
    pub is_playing: bool,
    pub volume: u16,
    pub is_shuffled: bool,
    pub repeat_mode: LoopMode,
    pub current_time_ms: u64,
}

impl View for PlayerStatusUpdate {
    type V = StatusView;

    open spec fn view(&self) -> StatusView {
        StatusView {
            songs: self.songs@,
            current_song_id: self.current_song_id,
            is_playing: self.is_playing,
            volume: self.volume,
            is_shuffled: self.is_shuffled,
            repeat_mode: self.repeat_mode,
            current_time_ms: self.current_time_ms,
        }
    }
}

} // verus!
