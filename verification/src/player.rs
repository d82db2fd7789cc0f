//! The playback engine.
//!
//! The engine decides; it never touches the audio sink itself. Every command
//! returns a [`Step`] that tells the caller what to do with the sink. Where
//! the engine has to know how the sink fared (loading a track, seeking), the
//! step is [`Step::Await`]: the caller performs the command and reports the
//! outcome to [`sink_finished`], which returns the next step. The
//! transport changes only when the sink has done its part, so a command that
//! fails leaves the state as it was.

use vstd::prelude::*;
use crate::models::{LoopMode, PlaybackState, PlayerError, PlayerStatusUpdate, Song, MAX_VOLUME};
use crate::selection::{
    get_next_song_id, get_prev_song_id, is_next_choice, is_prev_choice, lemma_next_choice_exists,
    lemma_next_full_circle, lemma_prev_full_circle, lemma_prev_next_inverse, next_in_order,
    nth_next, nth_prev, prev_in_order,
};
use crate::state::{AppState, PlayerModel};

verus! {

/// An operation on the audio sink.
#[derive(Debug, PartialEq, Eq)]
pub enum PlayerCommand {
    /// Discard the sink and build a fresh one, load the file at `path`
    /// skipping the first `position_ms`, set `volume`, and start it, or
    /// leave it paused if `paused` is set.
    Play { song_id: usize, path: String, position_ms: u64, volume: u16, paused: bool },
    /// Hold the sink where it is.
    Pause,
    /// Let a paused sink go on.
    Resume,
    /// Discard what the sink holds.
    Stop,
    /// Set the volume, in thousandths of full scale.
    SetVolume(u16),
    /// Move to this position within the loaded track, without reloading it.
    Seek(u64),
}

/// What observers are to be told about the album art.
#[derive(Debug, PartialEq, Eq)]
pub enum AlbumArt {
    /// The current track has not changed.
    Keep,
    /// There is no current track any more.
    Clear,
    /// A track has been loaded: look up the art of the file at this path.
    Load(String),
}

/// What the caller does next.
#[derive(Debug, PartialEq, Eq)]
pub enum Step {
    /// Perform the command on the sink and report its outcome to
    /// [`sink_finished`].
    Await(PlayerCommand),
    /// The command is done: perform `sink`, if there is one, without
    /// reporting back, then publish the album art as told and the status.
    Done { sink: Option<PlayerCommand>, album_art: AlbumArt },
    /// The command has failed and the state is as it was before.
    Failed(PlayerError),
}

/// The volume that is stored for a requested `volume`: the nearest one
/// within `0..=MAX_VOLUME`.
pub open spec fn clamp_volume(volume: i64) -> u16 {
    if volume < 0 {
        0
    } else if volume > MAX_VOLUME {
        MAX_VOLUME
    } else {
        volume as u16
    }
}

/// A step that asks nothing of the sink and leaves the album art alone.
pub open spec fn idle_step() -> Step {
    Step::Done { sink: None, album_art: AlbumArt::Keep }
}

/// Position `i` holds the first song of `songs` whose identifier is `id`.
pub open spec fn is_first_with_id(songs: Seq<Song>, id: Seq<char>, i: int) -> bool {
    &&& 0 <= i < songs.len()
    &&& songs[i].id@ == id
    &&& forall|k: int| 0 <= k < i ==> songs[k].id@ != id
}

/// The position of the first song of `songs` whose identifier is `id`, if
/// there is one.
pub open spec fn position_of(songs: Seq<Song>, id: Seq<char>) -> Option<usize> {
    if exists|i: int| is_first_with_id(songs, id, i) {
        Some((choose|i: int| is_first_with_id(songs, id, i)) as usize)
    } else {
        None
    }
}

impl PlayerModel {
    /// The first step of playing the track with identifier `id`: as for its
    /// position in the catalog, and a failure if no song has this
    /// identifier.
    pub open spec fn track_step(self, id: Seq<char>) -> Step {
        match position_of(self.songs, id) {
            Some(position) => self.start_step(position, 0),
            None => Step::Failed(PlayerError::NotFound),
        }
    }

    /// The command that loads track `id` into a fresh sink at `position_ms`,
    /// at the current volume.
    pub open spec fn play_command(
        self,
        id: usize,
        position_ms: u64,
        paused: bool,
    ) -> PlayerCommand {
        PlayerCommand::Play {
            song_id: id,
            path: self.songs[id as int].path,
            position_ms,
            volume: self.playback.volume,
            paused,
        }
    }

    /// The first step of playing track `id` from `position_ms`: await the
    /// load, or fail at once if the catalog has no such track.
    pub open spec fn start_step(self, id: usize, position_ms: u64) -> Step {
        if id < self.songs.len() {
            Step::Await(self.play_command(id, position_ms, false))
        } else {
            Step::Failed(PlayerError::NotFound)
        }
    }

    /// The state after the transport has been stopped.
    pub open spec fn stop(self) -> PlayerModel {
        self.with_playback(self.playback.stopped())
    }

    /// The step that goes with stopping the transport: the sink is stopped,
    /// and the album art is cleared if there was a current track.
    pub open spec fn stop_step(self) -> Step {
        Step::Done {
            sink: Some(PlayerCommand::Stop),
            album_art: if self.playback.current_song_id is Some {
                AlbumArt::Clear
            } else {
                AlbumArt::Keep
            },
        }
    }

    /// The state after a request to pause, given whether the sink reports
    /// that it is paused already.
    pub open spec fn pause(self, sink_paused: bool, now_ms: u64) -> PlayerModel {
        if self.playback.current_song_id is Some && !sink_paused {
            self.with_playback(self.playback.paused_at(now_ms))
        } else {
            self
        }
    }

    /// The step that goes with a request to pause.
    pub open spec fn pause_step(self, sink_paused: bool) -> Step {
        if self.playback.current_song_id is Some && !sink_paused {
            Step::Done { sink: Some(PlayerCommand::Pause), album_art: AlbumArt::Keep }
        } else {
            idle_step()
        }
    }

    /// The state after a request to resume, given whether the sink reports
    /// that it is paused.
    pub open spec fn resume(self, sink_paused: bool, now_ms: u64) -> PlayerModel {
        if self.playback.current_song_id is Some && sink_paused {
            self.with_playback(self.playback.resumed_at(now_ms))
        } else {
            self
        }
    }

    /// The step that goes with a request to resume.
    pub open spec fn resume_step(self, sink_paused: bool) -> Step {
        if self.playback.current_song_id is Some && sink_paused {
            Step::Done { sink: Some(PlayerCommand::Resume), album_art: AlbumArt::Keep }
        } else {
            idle_step()
        }
    }

    /// The state after the play/pause toggle: a paused sink is resumed, any
    /// other is paused. Without a current track nothing changes.
    pub open spec fn toggle(self, sink_paused: bool, now_ms: u64) -> PlayerModel {
        if sink_paused {
            self.resume(sink_paused, now_ms)
        } else {
            self.pause(sink_paused, now_ms)
        }
    }

    /// The step that goes with the play/pause toggle.
    pub open spec fn toggle_step(self, sink_paused: bool) -> Step {
        if sink_paused {
            self.resume_step(sink_paused)
        } else {
            self.pause_step(sink_paused)
        }
    }

    /// The state after moving on to `target`: unchanged while the load of a
    /// track is awaited, stopped when there is no track to move to.
    pub open spec fn advance_to(self, target: Option<usize>) -> PlayerModel {
        match target {
            Some(_) => self,
            None => self.stop(),
        }
    }

    /// The step that goes with moving on to `target`.
    pub open spec fn advance_step(self, target: Option<usize>) -> Step {
        match target {
            Some(id) => self.start_step(id, 0),
            None => self.stop_step(),
        }
    }

    /// The step that goes with moving back to `target`: without a target
    /// nothing happens.
    pub open spec fn retreat_step(self, target: Option<usize>) -> Step {
        match target {
            Some(id) => self.start_step(id, 0),
            None => idle_step(),
        }
    }

    /// The state after the volume has been set.
    pub open spec fn with_volume(self, volume: i64) -> PlayerModel {
        self.with_playback(PlaybackState { volume: clamp_volume(volume), ..self.playback })
    }

    /// The position that a seek to `position_ms` aims at: `position_ms`, held
    /// at the length of the current track.
    pub open spec fn seek_target(self, position_ms: u64) -> u64
        recommends
            self.playback.current_song_id is Some,
    {
        let duration = self.songs[self.playback.current_song_id->0 as int].duration_ms;
        if position_ms <= duration {
            position_ms
        } else {
            duration
        }
    }

    /// The first step of a seek: nothing without a current track, else await
    /// a seek of the sink to the target position.
    pub open spec fn seek_step(self, position_ms: u64) -> Step {
        if self.playback.current_song_id is Some {
            Step::Await(PlayerCommand::Seek(self.seek_target(position_ms)))
        } else {
            idle_step()
        }
    }

    /// The state after shuffle has been switched over.
    pub open spec fn with_shuffle_toggled(self) -> PlayerModel {
        self.with_playback(
            PlaybackState { is_shuffled: !self.playback.is_shuffled, ..self.playback },
        )
    }

    /// The state after the repeat mode has moved on by one.
    pub open spec fn with_repeat_cycled(self) -> PlayerModel {
        self.with_playback(
            PlaybackState { repeat_mode: self.playback.repeat_mode.successor(), ..self.playback },
        )
    }

    /// The state after the current track has played to its end, where
    /// `choice` is the track that a step forward leads to: with repeat off
    /// the transport stops, with repeat of the playlist it moves on to
    /// `choice`, and with repeat of a single track it awaits the reload of
    /// the same track, or stops if there is none.
    pub open spec fn track_finished(self, choice: Option<usize>) -> PlayerModel {
        match self.playback.repeat_mode {
            LoopMode::Off => self.stop(),
            LoopMode::Playlist => self.advance_to(choice),
            LoopMode::Single => self.advance_to(self.playback.current_song_id),
        }
    }

    /// The step that goes with the end of the current track.
    pub open spec fn track_finished_step(self, choice: Option<usize>) -> Step {
        match self.playback.repeat_mode {
            LoopMode::Off => self.stop_step(),
            LoopMode::Playlist => self.advance_step(choice),
            LoopMode::Single => self.advance_step(self.playback.current_song_id),
        }
    }

    /// Whether a poll finds the current track played to its end: the
    /// transport is playing and the sink reports that it is empty.
    pub open spec fn track_has_ended(self, sink_empty: bool) -> bool {
        self.playback.is_playing && sink_empty
    }

    /// The state after a catalog has been put in place of the old one: the
    /// new songs, with the transport stopped.
    pub open spec fn with_catalog(self, songs: Seq<Song>) -> PlayerModel {
        PlayerModel { songs, playback: self.playback.stopped() }
    }

    /// The state after the sink has reported the `outcome` of `command`.
    ///
    /// A track that has been loaded becomes the current one, at the position
    /// it was loaded at. A seek that the sink has carried out moves the
    /// elapsed time. Everything else leaves the state as it is: a failure,
    /// a command that names no track of the catalog, a seek without a
    /// current track, and the commands whose outcome tells nothing.
    pub open spec fn after_sink(
        self,
        command: PlayerCommand,
        outcome: Result<(), PlayerError>,
        now_ms: u64,
    ) -> PlayerModel {
        match command {
            PlayerCommand::Play { song_id, position_ms, paused, .. } => {
                if outcome is Ok && song_id < self.songs.len() {
                    self.with_playback(self.playback.loaded(song_id, position_ms, paused, now_ms))
                } else {
                    self
                }
            },
            PlayerCommand::Seek(position_ms) => {
                if outcome is Ok && self.playback.current_song_id is Some {
                    self.with_playback(self.playback.sought(position_ms, now_ms))
                } else {
                    self
                }
            },
            _ => self,
        }
    }

    /// The step after the sink has reported the `outcome` of `command`.
    ///
    /// A loaded track ends the command and asks for its album art. A failed
    /// load fails the command with the error of the sink. A seek that the
    /// sink has refused falls back to loading the current track afresh at
    /// the position sought, paused if the transport was not playing.
    pub open spec fn sink_step(
        self,
        command: PlayerCommand,
        outcome: Result<(), PlayerError>,
    ) -> Step {
        match command {
            PlayerCommand::Play { song_id, .. } => {
                match outcome {
                    Ok(_) => {
                        if song_id < self.songs.len() {
                            Step::Done {
                                sink: None,
                                album_art: AlbumArt::Load(self.songs[song_id as int].path),
                            }
                        } else {
                            Step::Failed(PlayerError::NotFound)
                        }
                    },
                    Err(error) => Step::Failed(error),
                }
            },
            PlayerCommand::Seek(position_ms) => {
                match self.playback.current_song_id {
                    Some(id) => {
                        if outcome is Ok {
                            idle_step()
                        } else {
                            Step::Await(
                                self.play_command(id, position_ms, !self.playback.is_playing),
                            )
                        }
                    },
                    None => idle_step(),
                }
            },
            _ => idle_step(),
        }
    }

    /// The state after the sink has reported the `outcome` of a command that
    /// a poll has issued: as for any command, but a failure stops the
    /// transport.
    pub open spec fn after_sink_unattended(
        self,
        command: PlayerCommand,
        outcome: Result<(), PlayerError>,
        now_ms: u64,
    ) -> PlayerModel {
        if self.sink_step(command, outcome) is Failed {
            self.stop()
        } else {
            self.after_sink(command, outcome, now_ms)
        }
    }

    /// The step after the sink has reported the `outcome` of a command that
    /// a poll has issued.
    pub open spec fn sink_step_unattended(
        self,
        command: PlayerCommand,
        outcome: Result<(), PlayerError>,
    ) -> Step {
        if self.sink_step(command, outcome) is Failed {
            self.stop_step()
        } else {
            self.sink_step(command, outcome)
        }
    }
}

impl PlayerModel {
    /// The state after a track has been chosen and the sink has loaded it
    /// from its start at clock reading `now_ms`. Without a choice the state
    /// stays as it is.
    pub open spec fn moved_to(self, choice: Option<usize>, now_ms: u64) -> PlayerModel {
        match choice {
            Some(id) => self.after_sink(self.play_command(id, 0, false), Ok(()), now_ms),
            None => self,
        }
    }

    /// The state after a step forward in order whose load has succeeded.
    pub open spec fn stepped_forward(self, now_ms: u64) -> PlayerModel {
        let choice = next_in_order(self.songs.len(), self.playback.current_song_id);
        self.advance_to(choice).moved_to(choice, now_ms)
    }

    /// The state after a step back in order whose load has succeeded.
    pub open spec fn stepped_back(self, now_ms: u64) -> PlayerModel {
        self.moved_to(prev_in_order(self.songs.len(), self.playback.current_song_id), now_ms)
    }

    /// The state after `steps` steps forward in order.
    pub open spec fn walked_forward(self, steps: nat, now_ms: u64) -> PlayerModel
        decreases steps,
    {
        if steps == 0 {
            self
        } else {
            self.walked_forward((steps - 1) as nat, now_ms).stepped_forward(now_ms)
        }
    }

    /// The state after `steps` steps back in order.
    pub open spec fn walked_back(self, steps: nat, now_ms: u64) -> PlayerModel
        decreases steps,
    {
        if steps == 0 {
            self
        } else {
            self.walked_back((steps - 1) as nat, now_ms).stepped_back(now_ms)
        }
    }
}

/// Time played at clock reading `now_ms`, not yet held at the length of the
/// track.
pub fn get_current_time_ms(state: &AppState, now_ms: u64) -> (elapsed: u64)
    ensures
        elapsed == state@.playback.live_elapsed(now_ms),
{
    let playback = state.playback();
    if playback.is_playing {
        match playback.playback_start_ms {
            Some(start) => playback.elapsed_ms.saturating_add(now_ms.saturating_sub(start)),
            None => playback.elapsed_ms,
        }
    } else {
        playback.elapsed_ms
    }
}

/// The status to publish at clock reading `now_ms`: a copy of the catalog
/// and of the transport, with the elapsed time held at the length of the
/// current track.
pub fn status_update(state: &AppState, now_ms: u64) -> (update: PlayerStatusUpdate)
    ensures
        update@ == state@.status(now_ms),
{
    let playback = state.playback();
    let live = get_current_time_ms(state, now_ms);
    let current_time_ms = match playback.current_song_id {
        Some(id) => {
            let duration = state.songs()[id].duration_ms;
            if live <= duration {
                live
            } else {
                duration
            }
        },
        None => live,
    };
    let songs = state.songs().clone();
    PlayerStatusUpdate {
        songs,
        current_song_id: playback.current_song_id,
        is_playing: playback.is_playing,
        volume: playback.volume,
        is_shuffled: playback.is_shuffled,
        repeat_mode: playback.repeat_mode,
        current_time_ms,
    }
}

/// Builds the command that loads track `id` at `position_ms`.
fn play_command(
    state: &AppState,
    id: usize,
    position_ms: u64,
    paused: bool,
) -> (command: PlayerCommand)
    requires
        id < state@.songs.len(),
    ensures
        command == state@.play_command(id, position_ms, paused),
{
    PlayerCommand::Play {
        song_id: id,
        path: state.songs()[id].path.clone(),
        position_ms,
        volume: state.playback().volume,
        paused,
    }
}

/// Stops the transport.
fn stop(state: &mut AppState) -> (step: Step)
    ensures
        final(state)@ == old(state)@.stop(),
        step == old(state)@.stop_step(),
{
    let playback = state.playback();
    let album_art = if playback.current_song_id.is_some() {
        AlbumArt::Clear
    } else {
        AlbumArt::Keep
    };
    state.set_playback(
        PlaybackState {
            current_song_id: None,
            is_playing: false,
            elapsed_ms: 0,
            playback_start_ms: None,
            ..playback
        },
    );
    Step::Done { sink: Some(PlayerCommand::Stop), album_art }
}

/// Begins to play track `id` from `position_ms`. The state does not
/// change until the sink has loaded the track.
pub fn start_playback_from(id: usize, position_ms: u64, state: &AppState) -> (step: Step)
    ensures
        step == state@.start_step(id, position_ms),
{
    if id < state.songs().len() {
        Step::Await(play_command(state, id, position_ms, false))
    } else {
        Step::Failed(PlayerError::NotFound)
    }
}

/// Begins to play track `id` from its start. Fails with `NotFound` if
/// the catalog has no such track.
pub fn play_song(id: usize, state: &AppState) -> (step: Step)
    ensures
        step == state@.start_step(id, 0),
{
    start_playback_from(id, 0, state)
}

/// The position of the first song with identifier `id`.
pub fn find_song(id: &str, state: &AppState) -> (position: Option<usize>)
    ensures
        position == position_of(state@.songs, id@),
{
    let wanted = String::from_str(id);
    let songs = state.songs();
    let mut i: usize = 0;
    while i < songs.len()
        invariant
            i <= songs@.len(),
            songs@ == state@.songs,
            wanted@ == id@,
            forall|k: int| 0 <= k < i ==> songs@[k].id@ != id@,
        decreases songs@.len() - i,
    {
        if songs[i].id == wanted {
            proof {
                assert(is_first_with_id(songs@, id@, i as int));
            }
            return Some(i);
        }
        i += 1;
    }
    None
}

/// Begins to play the track with identifier `track_id` from its start.
/// Fails with `NotFound` if no song of the catalog has this identifier.
pub fn play_track(track_id: &str, state: &AppState) -> (step: Step)
    ensures
        step == state@.track_step(track_id@),
{
    match find_song(track_id, state) {
        Some(position) => play_song(position, state),
        None => Step::Failed(PlayerError::NotFound),
    }
}

/// Pauses the current track, unless the sink reports that it is paused
/// already.
pub fn pause_playback(state: &mut AppState, sink_paused: bool, now_ms: u64) -> (step: Step)
    ensures
        final(state)@ == old(state)@.pause(sink_paused, now_ms),
        step == old(state)@.pause_step(sink_paused),
{
    let playback = state.playback();
    if playback.current_song_id.is_some() && !sink_paused {
        let elapsed_ms = get_current_time_ms(state, now_ms);
        state.set_playback(
            PlaybackState {
                is_playing: false,
                elapsed_ms,
                playback_start_ms: None,
                ..playback
            },
        );
        Step::Done { sink: Some(PlayerCommand::Pause), album_art: AlbumArt::Keep }
    } else {
        Step::Done { sink: None, album_art: AlbumArt::Keep }
    }
}

/// Resumes the current track, if the sink reports that it is paused.
pub fn resume_playback(state: &mut AppState, sink_paused: bool, now_ms: u64) -> (step: Step)
    ensures
        final(state)@ == old(state)@.resume(sink_paused, now_ms),
        step == old(state)@.resume_step(sink_paused),
{
    let playback = state.playback();
    if playback.current_song_id.is_some() && sink_paused {
        state.set_playback(
            PlaybackState { is_playing: true, playback_start_ms: Some(now_ms), ..playback },
        );
        Step::Done { sink: Some(PlayerCommand::Resume), album_art: AlbumArt::Keep }
    } else {
        Step::Done { sink: None, album_art: AlbumArt::Keep }
    }
}

/// Resumes a paused sink and pauses any other. Does nothing without a
/// current track.
pub fn toggle_playback(state: &mut AppState, sink_paused: bool, now_ms: u64) -> (step: Step)
    ensures
        final(state)@ == old(state)@.toggle(sink_paused, now_ms),
        step == old(state)@.toggle_step(sink_paused),
{
    if sink_paused {
        resume_playback(state, sink_paused, now_ms)
    } else {
        pause_playback(state, sink_paused, now_ms)
    }
}

/// Moves on to `target`: begins to play it, or stops the transport if
/// there is none.
pub fn advance_to(state: &mut AppState, target: Option<usize>) -> (step: Step)
    ensures
        final(state)@ == old(state)@.advance_to(target),
        step == old(state)@.advance_step(target),
{
    match target {
        Some(id) => play_song(id, state),
        None => stop(state),
    }
}

/// Moves back to `target`: begins to play it, or does nothing if there
/// is none.
pub fn retreat_to(state: &AppState, target: Option<usize>) -> (step: Step)
    ensures
        step == state@.retreat_step(target),
{
    match target {
        Some(id) => play_song(id, state),
        None => Step::Done { sink: None, album_art: AlbumArt::Keep },
    }
}

/// Steps forward: begins to play the track that follows, or stops the
/// transport if the catalog is empty.
pub fn next_song(state: &mut AppState) -> (step: Step)
    ensures
        exists|choice: Option<usize>|
            {
                &&& #[trigger] is_next_choice(
                    old(state)@.songs.len(),
                    old(state)@.playback.current_song_id,
                    old(state)@.playback.is_shuffled,
                    choice,
                )
                &&& final(state)@ == old(state)@.advance_to(choice)
                &&& step == old(state)@.advance_step(choice)
            },
{
    let choice = get_next_song_id(state);
    advance_to(state, choice)
}

/// Steps back: begins to play the track that precedes, or does nothing
/// if the catalog is empty.
pub fn prev_song(state: &AppState) -> (step: Step)
    ensures
        exists|choice: Option<usize>|
            {
                &&& #[trigger] is_prev_choice(
                    state@.songs.len(),
                    state@.playback.current_song_id,
                    state@.playback.is_shuffled,
                    choice,
                )
                &&& step == state@.retreat_step(choice)
            },
{
    let choice = get_prev_song_id(state);
    retreat_to(state, choice)
}

/// Stores `volume`, brought into `0..=MAX_VOLUME`, and passes it on to
/// the sink.
pub fn set_volume(volume: i64, state: &mut AppState) -> (step: Step)
    ensures
        final(state)@ == old(state)@.with_volume(volume),
        step == (Step::Done {
            sink: Some(PlayerCommand::SetVolume(clamp_volume(volume))),
            album_art: AlbumArt::Keep,
        }),
{
    let clamped: u16 = if volume < 0 {
        0
    } else if volume > MAX_VOLUME as i64 {
        MAX_VOLUME
    } else {
        volume as u16
    };
    let playback = state.playback();
    state.set_playback(PlaybackState { volume: clamped, ..playback });
    Step::Done { sink: Some(PlayerCommand::SetVolume(clamped)), album_art: AlbumArt::Keep }
}

/// Begins a seek to `position_ms`, held at the length of the current
/// track. Does nothing without a current track. The state does not
/// change until the sink has moved.
pub fn seek_to(position_ms: u64, state: &AppState) -> (step: Step)
    ensures
        step == state@.seek_step(position_ms),
{
    let playback = state.playback();
    match playback.current_song_id {
        Some(id) => {
            let duration = state.songs()[id].duration_ms;
            let target = if position_ms <= duration {
                position_ms
            } else {
                duration
            };
            Step::Await(PlayerCommand::Seek(target))
        },
        None => Step::Done { sink: None, album_art: AlbumArt::Keep },
    }
}

/// Switches shuffle over. The current track and its position stay.
pub fn toggle_shuffle(state: &mut AppState) -> (step: Step)
    ensures
        final(state)@ == old(state)@.with_shuffle_toggled(),
        step == idle_step(),
{
    let playback = state.playback();
    state.set_playback(PlaybackState { is_shuffled: !playback.is_shuffled, ..playback });
    Step::Done { sink: None, album_art: AlbumArt::Keep }
}

/// Moves the repeat mode on by one in the cycle Off, Playlist, Single.
pub fn toggle_repeat_mode(state: &mut AppState) -> (step: Step)
    ensures
        final(state)@ == old(state)@.with_repeat_cycled(),
        step == idle_step(),
{
    let playback = state.playback();
    state.set_playback(PlaybackState { repeat_mode: playback.repeat_mode.next(), ..playback });
    Step::Done { sink: None, album_art: AlbumArt::Keep }
}

/// Handles the end of the current track as the repeat mode asks.
pub fn handle_track_finished(state: &mut AppState) -> (step: Step)
    ensures
        exists|choice: Option<usize>|
            {
                &&& #[trigger] is_next_choice(
                    old(state)@.songs.len(),
                    old(state)@.playback.current_song_id,
                    old(state)@.playback.is_shuffled,
                    choice,
                )
                &&& final(state)@ == old(state)@.track_finished(choice)
                &&& step == old(state)@.track_finished_step(choice)
            },
{
    let playback = state.playback();
    proof {
        lemma_next_choice_exists(
            state@.songs.len(),
            playback.current_song_id,
            playback.is_shuffled,
        );
    }
    match playback.repeat_mode {
        LoopMode::Off => stop(state),
        LoopMode::Playlist => next_song(state),
        LoopMode::Single => advance_to(state, playback.current_song_id),
    }
}

/// One poll of the sink. If the transport is playing and the sink
/// reports that it is empty, the current track has played to its end and
/// is handled as the repeat mode asks. Otherwise nothing changes, and
/// the step only asks to publish the status.
pub fn tick(state: &mut AppState, sink_empty: bool) -> (step: Step)
    ensures
        !old(state)@.track_has_ended(sink_empty) ==> final(state)@ == old(state)@ && step
            == idle_step(),
        old(state)@.track_has_ended(sink_empty) ==> exists|choice: Option<usize>|
            {
                &&& #[trigger] is_next_choice(
                    old(state)@.songs.len(),
                    old(state)@.playback.current_song_id,
                    old(state)@.playback.is_shuffled,
                    choice,
                )
                &&& final(state)@ == old(state)@.track_finished(choice)
                &&& step == old(state)@.track_finished_step(choice)
            },
{
    let playback = state.playback();
    if playback.is_playing && sink_empty {
        handle_track_finished(state)
    } else {
        Step::Done { sink: None, album_art: AlbumArt::Keep }
    }
}

/// Puts `songs` in place of the catalog. References into the old catalog
/// mean nothing in the new one, so the transport is stopped.
pub fn replace_catalog(state: &mut AppState, songs: Vec<Song>) -> (step: Step)
    ensures
        final(state)@ == old(state)@.with_catalog(songs@),
        step == old(state)@.stop_step(),
{
    let playback = state.playback();
    let album_art = if playback.current_song_id.is_some() {
        AlbumArt::Clear
    } else {
        AlbumArt::Keep
    };
    state.set_catalog(
        songs,
        PlaybackState {
            current_song_id: None,
            is_playing: false,
            elapsed_ms: 0,
            playback_start_ms: None,
            ..playback
        },
    );
    Step::Done { sink: Some(PlayerCommand::Stop), album_art }
}

/// Takes the `outcome` that the sink has reported for `command` at clock
/// reading `now_ms`, and says how the command that led to it goes on.
pub fn sink_finished(
    state: &mut AppState,
    command: &PlayerCommand,
    outcome: Result<(), PlayerError>,
    now_ms: u64,
) -> (step: Step)
    ensures
        final(state)@ == old(state)@.after_sink(*command, outcome, now_ms),
        step == old(state)@.sink_step(*command, outcome),
{
    let playback = state.playback();
    match command {
        PlayerCommand::Play { song_id, path: _, position_ms, volume: _, paused } => {
            match outcome {
                Ok(_) => {
                    if *song_id < state.songs().len() {
                        let playback_start_ms = if *paused {
                            None
                        } else {
                            Some(now_ms)
                        };
                        state.set_playback(
                            PlaybackState {
                                current_song_id: Some(*song_id),
                                is_playing: !*paused,
                                elapsed_ms: *position_ms,
                                playback_start_ms,
                                ..playback
                            },
                        );
                        Step::Done {
                            sink: None,
                            album_art: AlbumArt::Load(state.songs()[*song_id].path.clone()),
                        }
                    } else {
                        Step::Failed(PlayerError::NotFound)
                    }
                },
                Err(error) => Step::Failed(error),
            }
        },
        PlayerCommand::Seek(position_ms) => {
            match playback.current_song_id {
                Some(id) => {
                    if outcome.is_ok() {
                        let playback_start_ms = if playback.is_playing {
                            Some(now_ms)
                        } else {
                            playback.playback_start_ms
                        };
                        state.set_playback(
                            PlaybackState {
                                elapsed_ms: *position_ms,
                                playback_start_ms,
                                ..playback
                            },
                        );
                        Step::Done { sink: None, album_art: AlbumArt::Keep }
                    } else {
                        Step::Await(play_command(state, id, *position_ms, !playback.is_playing))
                    }
                },
                None => Step::Done { sink: None, album_art: AlbumArt::Keep },
            }
        },
        _ => Step::Done { sink: None, album_art: AlbumArt::Keep },
    }
}

/// As [`sink_finished`], for a command that a poll has issued:
/// there is nobody to report a failure to, so a failure stops the
/// transport.
pub fn sink_finished_unattended(
    state: &mut AppState,
    command: &PlayerCommand,
    outcome: Result<(), PlayerError>,
    now_ms: u64,
) -> (step: Step)
    ensures
        final(state)@ == old(state)@.after_sink_unattended(*command, outcome, now_ms),
        step == old(state)@.sink_step_unattended(*command, outcome),
{
    let step = sink_finished(state, command, outcome, now_ms);
    match step {
        Step::Failed(_) => stop(state),
        _ => step,
    }
}

/// Every command leaves the transport consistent with the catalog: the
/// volume in range, the current track within the catalog, a transport
/// without a track stopped at zero, and a start time kept exactly while
/// playing.
pub proof fn lemma_commands_keep_consistency(
    model: PlayerModel,
    sink_flag: bool,
    volume: i64,
    target: Option<usize>,
    songs: Seq<Song>,
    command: PlayerCommand,
    outcome: Result<(), PlayerError>,
    now_ms: u64,
)
    requires
        model.wf(),
    ensures
        model.stop().wf(),
        model.pause(sink_flag, now_ms).wf(),
        model.resume(sink_flag, now_ms).wf(),
        model.toggle(sink_flag, now_ms).wf(),
        model.advance_to(target).wf(),
        model.with_volume(volume).wf(),
        model.with_shuffle_toggled().wf(),
        model.with_repeat_cycled().wf(),
        model.track_finished(target).wf(),
        model.with_catalog(songs).wf(),
        model.after_sink(command, outcome, now_ms).wf(),
        model.after_sink_unattended(command, outcome, now_ms).wf(),
{
}

/// The elapsed time that is reported never lies beyond the length of the
/// current track.
pub proof fn lemma_reported_time_within_track(model: PlayerModel, now_ms: u64)
    requires
        model.playback.current_song_id is Some,
    ensures
        ({
            let id = model.playback.current_song_id->0;
            model.status(now_ms).current_time_ms <= model.songs[id as int].duration_ms
        }),
{
}

/// With repeat of a single track, the end of the track leads to a reload of
/// the same track from its start; once the sink has loaded it, the track is
/// still the current one, it plays, and the elapsed time is zero.
pub proof fn lemma_single_repeat_replays(model: PlayerModel, choice: Option<usize>, now_ms: u64)
    requires
        model.wf(),
        model.playback.repeat_mode == LoopMode::Single,
        model.playback.current_song_id is Some,
    ensures
        ({
            let id = model.playback.current_song_id->0;
            let reload = model.play_command(id, 0, false);
            let after = model.track_finished(choice).after_sink(reload, Ok(()), now_ms);
            &&& model.track_finished(choice) == model
            &&& model.track_finished_step(choice) == Step::Await(reload)
            &&& after.playback.current_song_id == Some(id)
            &&& after.playback.is_playing
            &&& after.playback.elapsed_ms == 0
            &&& after.status(now_ms).current_time_ms == 0
        }),
{
}

/// With repeat off, the end of the track stops the transport, whatever the
/// catalog holds: no track is current and nothing plays.
pub proof fn lemma_repeat_off_stops(model: PlayerModel, choice: Option<usize>)
    requires
        model.playback.repeat_mode == LoopMode::Off,
    ensures
        model.track_finished(choice).playback.current_song_id is None,
        !model.track_finished(choice).playback.is_playing,
        model.track_finished(choice).playback.elapsed_ms == 0,
        model.track_finished_step(choice) == model.stop_step(),
{
}

/// A seek that completes leaves the elapsed time at the position sought,
/// held at the length of the current track, whether the sink has moved
/// within the loaded track or the track had to be loaded afresh. Either way
/// the current track stays and the transport plays exactly if it did before.
pub proof fn lemma_seek_reaches_target(
    model: PlayerModel,
    position_ms: u64,
    native: Result<(), PlayerError>,
    now_ms: u64,
)
    requires
        model.wf(),
        model.playback.current_song_id is Some,
    ensures
        ({
            let id = model.playback.current_song_id->0;
            let duration = model.songs[id as int].duration_ms;
            let target = if position_ms <= duration {
                position_ms
            } else {
                duration
            };
            let seek = PlayerCommand::Seek(target);
            let reload = model.play_command(id, target, !model.playback.is_playing);
            let after = if native is Ok {
                model.after_sink(seek, native, now_ms)
            } else {
                model.after_sink(seek, native, now_ms).after_sink(reload, Ok(()), now_ms)
            };
            &&& model.seek_step(position_ms) == Step::Await(seek)
            &&& native is Ok ==> model.sink_step(seek, native) == idle_step()
            &&& native is Err ==> model.sink_step(seek, native) == Step::Await(reload)
            &&& native is Err ==> model.after_sink(seek, native, now_ms) == model
            &&& after.playback.elapsed_ms == target
            &&& after.status(now_ms).current_time_ms == target
            &&& after.playback.current_song_id == Some(id)
            &&& after.playback.is_playing == model.playback.is_playing
        }),
{
}

/// Two toggles in a row undo each other. The sink is taken to report that it
/// is paused exactly when the transport does not play, before the first
/// toggle and, turned over by it, before the second. Then the transport
/// plays after the second toggle exactly if it did before the first, and the
/// time played has grown by no more than the time between the two toggles.
pub proof fn lemma_toggle_twice(model: PlayerModel, first_ms: u64, second_ms: u64)
    requires
        model.wf(),
        first_ms <= second_ms,
    ensures
        ({
            let sink_paused = !model.playback.is_playing;
            let once = model.toggle(sink_paused, first_ms);
            let twice = once.toggle(!sink_paused, second_ms);
            let before = model.playback.live_elapsed(first_ms);
            let after = twice.playback.live_elapsed(second_ms);
            &&& twice.playback.is_playing == model.playback.is_playing
            &&& twice.playback.current_song_id == model.playback.current_song_id
            &&& before <= after <= before + (second_ms - first_ms)
            &&& model.playback.is_playing ==> after == before
        }),
{
}

/// Where a walk in order leads: after any number of steps, forward or
/// back, the catalog is the same, the state is consistent, and the current
/// track is the one that the same number of selections in order leads to.
pub proof fn lemma_walk_follows_selection(model: PlayerModel, steps: nat, now_ms: u64)
    requires
        model.wf(),
        model.songs.len() <= usize::MAX,
    ensures
        model.walked_forward(steps, now_ms).wf(),
        model.walked_forward(steps, now_ms).songs == model.songs,
        model.walked_forward(steps, now_ms).playback.current_song_id == nth_next(
            model.songs.len(),
            model.playback.current_song_id,
            steps,
        ),
        model.walked_back(steps, now_ms).wf(),
        model.walked_back(steps, now_ms).songs == model.songs,
        model.walked_back(steps, now_ms).playback.current_song_id == nth_prev(
            model.songs.len(),
            model.playback.current_song_id,
            steps,
        ),
    decreases steps,
{
    if steps > 0 {
        lemma_walk_follows_selection(model, (steps - 1) as nat, now_ms);
    }
}

/// In a catalog that is played in order, as many steps forward as the
/// catalog has songs lead back to the track where the walk began, and so do
/// as many steps back.
pub proof fn lemma_walk_full_circle(model: PlayerModel, now_ms: u64)
    requires
        model.wf(),
        model.songs.len() <= usize::MAX,
        model.playback.current_song_id is Some,
    ensures
        model.walked_forward(model.songs.len(), now_ms).playback.current_song_id
            == model.playback.current_song_id,
        model.walked_back(model.songs.len(), now_ms).playback.current_song_id
            == model.playback.current_song_id,
{
    let len = model.songs.len();
    let start = model.playback.current_song_id->0;
    lemma_walk_follows_selection(model, len, now_ms);
    lemma_next_full_circle(len, start);
    lemma_prev_full_circle(len, start);
}

/// In a catalog that is played in order, a step back followed by a step
/// forward returns to the track that was current, and so does a step
/// forward followed by a step back.
pub proof fn lemma_step_back_and_forth(model: PlayerModel, now_ms: u64)
    requires
        model.wf(),
        model.songs.len() <= usize::MAX,
        model.playback.current_song_id is Some,
    ensures
        model.stepped_back(now_ms).stepped_forward(now_ms).playback.current_song_id
            == model.playback.current_song_id,
        model.stepped_forward(now_ms).stepped_back(now_ms).playback.current_song_id
            == model.playback.current_song_id,
{
    lemma_prev_next_inverse(model.songs.len(), model.playback.current_song_id->0);
}

} // verus!
