//! The player's state: the catalog and the transport, with the invariant
//! that ties the two together.

use vstd::prelude::*;
use crate::models::{LoopMode, PlaybackState, Song, StatusView, MAX_VOLUME};

verus! {

impl PlaybackState {
    /// The transport is consistent with a catalog of `len` songs: the volume
    /// is in range, the current track exists, a transport without a track is
    /// stopped at zero, and a start time is kept exactly while playing.
    pub open spec fn wf(self, len: nat) -> bool {
        &&& self.volume <= MAX_VOLUME
        &&& (self.current_song_id matches Some(id) ==> id < len)
        &&& (self.current_song_id is None ==> !self.is_playing && self.elapsed_ms == 0)
        &&& (self.is_playing <==> self.playback_start_ms is Some)
    }

    /// The transport of a player that has just been created: nothing
    /// selected, stopped, full volume, no shuffle, no repeat.
    pub open spec fn initial() -> PlaybackState {
        PlaybackState {
            current_song_id: None,
            is_playing: false,
            is_shuffled: false,
            repeat_mode: LoopMode::Off,
            volume: MAX_VOLUME,
            elapsed_ms: 0,
            playback_start_ms: None,
        }
    }

    /// Time played at clock reading `now_ms`: what was accumulated before
    /// playback last started, plus the time since then while playing. Both
    /// the difference and the sum saturate.
    pub open spec fn live_elapsed(self, now_ms: u64) -> u64 {
        match self.playback_start_ms {
            Some(start) if self.is_playing => self.elapsed_ms.saturating_add(
                now_ms.saturating_sub(start),
            ),
            _ => self.elapsed_ms,
        }
    }

    /// No track, stopped, at zero; volume, shuffle and repeat are kept.
    pub open spec fn stopped(self) -> PlaybackState {
        PlaybackState {
            current_song_id: None,
            is_playing: false,
            elapsed_ms: 0,
            playback_start_ms: None,
            ..self
        }
    }

    /// Track `id` has been loaded into the sink at `position_ms`, at clock
    /// reading `now_ms`, and was either started or left paused.
    pub open spec fn loaded(
        self,
        id: usize,
        position_ms: u64,
        paused: bool,
        now_ms: u64,
    ) -> PlaybackState {
        PlaybackState {
            current_song_id: Some(id),
            is_playing: !paused,
            elapsed_ms: position_ms,
            playback_start_ms: if paused {
                None
            } else {
                Some(now_ms)
            },
            ..self
        }
    }

    /// Paused at `now_ms`: the time played since the last start is folded
    /// into the accumulated time and the start time is dropped.
    pub open spec fn paused_at(self, now_ms: u64) -> PlaybackState {
        PlaybackState {
            is_playing: false,
            elapsed_ms: self.live_elapsed(now_ms),
            playback_start_ms: None,
            ..self
        }
    }

    /// Resumed at `now_ms`.
    pub open spec fn resumed_at(self, now_ms: u64) -> PlaybackState {
        PlaybackState { is_playing: true, playback_start_ms: Some(now_ms), ..self }
    }

    /// The sink has moved to `position_ms` within the loaded track at clock
    /// reading `now_ms`.
    pub open spec fn sought(self, position_ms: u64, now_ms: u64) -> PlaybackState {
        PlaybackState {
            elapsed_ms: position_ms,
            playback_start_ms: if self.is_playing {
                Some(now_ms)
            } else {
                self.playback_start_ms
            },
            ..self
        }
    }
}

/// The mathematical state of a player: the catalog as a sequence of songs,
/// and the transport.
pub struct PlayerModel {
    pub songs: Seq<Song>,
    pub playback: PlaybackState,
}

impl PlayerModel {
    /// The transport is consistent with the catalog.
    pub open spec fn wf(self) -> bool {
        self.playback.wf(self.songs.len())
    }

    /// An empty catalog with the initial transport.
    pub open spec fn empty() -> PlayerModel {
        PlayerModel { songs: Seq::empty(), playback: PlaybackState::initial() }
    }

    /// The same catalog with another transport.
    pub open spec fn with_playback(self, playback: PlaybackState) -> PlayerModel {
        PlayerModel { playback, ..self }
    }

    /// Elapsed time as it is reported at clock reading `now_ms`: the live
    /// elapsed time, held at the length of the current track.
    pub open spec fn current_time(self, now_ms: u64) -> u64 {
        let live = self.playback.live_elapsed(now_ms);
        match self.playback.current_song_id {
            Some(id) => {
                let duration = self.songs[id as int].duration_ms;
                if live <= duration {
                    live
                } else {
                    duration
                }
            },
            None => live,
        }
    }

    /// The status that observers are given at clock reading `now_ms`.
    pub open spec fn status(self, now_ms: u64) -> StatusView {
        StatusView {
            songs: self.songs,
            current_song_id: self.playback.current_song_id,
            is_playing: self.playback.is_playing,
            volume: self.playback.volume,
            is_shuffled: self.playback.is_shuffled,
            repeat_mode: self.playback.repeat_mode,
            current_time_ms: self.current_time(now_ms),
        }
    }
}

/// The catalog and the transport of one player. The fields are private: the
/// only way to change them is through the commands of the player, which keep
/// the transport consistent with the catalog.
pub struct AppState {
    songs: Vec<Song>,
    playback: PlaybackState,
}

impl View for AppState {
    type V = PlayerModel;

    closed spec fn view(&self) -> PlayerModel {
        PlayerModel { songs: self.songs@, playback: self.playback }
    }
}

impl AppState {
    #[verifier::type_invariant]
    spec fn consistent(self) -> bool {
        self.playback.wf(self.songs@.len())
    }

    /// A player with an empty catalog and the initial transport.
    pub fn new() -> (state: AppState)
        ensures
            state@ == PlayerModel::empty(),
    {
        AppState {
            songs: Vec::new(),
            playback: PlaybackState {
                current_song_id: None,
                is_playing: false,
                is_shuffled: false,
                repeat_mode: LoopMode::Off,
                volume: MAX_VOLUME,
                elapsed_ms: 0,
                playback_start_ms: None,
            },
        }
    }

    /// The catalog.
    pub fn songs(&self) -> (songs: &Vec<Song>)
        ensures
            songs@ == self@.songs,
    {
        &self.songs
    }

    /// The transport. It is always consistent with the catalog.
    pub fn playback(&self) -> (playback: PlaybackState)
        ensures
            playback == self@.playback,
            self@.wf(),
    {
        proof {
            use_type_invariant(self);
        }
        self.playback
    }

    /// The song at position `id` of the catalog, if there is one.
    pub fn song(&self, id: usize) -> (song: Option<&Song>)
        ensures
            id < self@.songs.len() ==> song == Some(&self@.songs[id as int]),
            id >= self@.songs.len() ==> song is None,
    {
        if id < self.songs.len() {
            Some(&self.songs[id])
        } else {
            None
        }
    }

    /// Replaces the transport and keeps the catalog.
    pub(crate) fn set_playback(&mut self, playback: PlaybackState)
        requires
            playback.wf(old(self)@.songs.len()),
        ensures
            final(self)@ == old(self)@.with_playback(playback),
    {
        self.playback = playback;
    }

    /// Replaces the catalog and the transport together.
    pub(crate) fn set_catalog(&mut self, songs: Vec<Song>, playback: PlaybackState)
        requires
            playback.wf(songs@.len()),
        ensures
            final(self)@ == (PlayerModel { songs: songs@, playback }),
    {
        *self = AppState { songs, playback };
    }
}

} // verus!
