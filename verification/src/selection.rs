//! Which track follows the current one, and which precedes it.
//!
//! Without shuffle the catalog is walked as a ring. With shuffle both
//! directions draw a position at random: no history of played tracks is kept.

use vstd::prelude::*;
use vstd::arithmetic::div_mod::{lemma_mod_self_0, lemma_small_mod};
use crate::state::AppState;

verus! {

/// The track after `current` in a catalog of `len` songs that is played in
/// order: the first track when none is current, else the following one,
/// wrapping from the last to the first. An empty catalog has none.
pub open spec fn next_in_order(len: nat, current: Option<usize>) -> Option<usize> {
    if len == 0 {
        None
    } else {
        match current {
            Some(i) => Some(((i + 1) % (len as int)) as usize),
            None => Some(0),
        }
    }
}

/// The track before `current` in a catalog of `len` songs that is played in
/// order: the last track when none is current or the first one is, else the
/// preceding one. An empty catalog has none.
pub open spec fn prev_in_order(len: nat, current: Option<usize>) -> Option<usize> {
    if len == 0 {
        None
    } else {
        match current {
            Some(i) => if i == 0 {
                Some((len - 1) as usize)
            } else {
                Some((i - 1) as usize)
            },
            None => Some((len - 1) as usize),
        }
    }
}

/// `choice` may come out of selecting the next track: none from an empty
/// catalog, any position of the catalog under shuffle, and otherwise exactly
/// the next one in order.
pub open spec fn is_next_choice(
    len: nat,
    current: Option<usize>,
    shuffled: bool,
    choice: Option<usize>,
) -> bool {
    if len == 0 {
        choice is None
    } else if shuffled {
        choice matches Some(i) && i < len
    } else {
        choice == next_in_order(len, current)
    }
}

/// `choice` may come out of selecting the previous track: as for the next
/// track, with the previous one in order when shuffle is off.
pub open spec fn is_prev_choice(
    len: nat,
    current: Option<usize>,
    shuffled: bool,
    choice: Option<usize>,
) -> bool {
    if len == 0 {
        choice is None
    } else if shuffled {
        choice matches Some(i) && i < len
    } else {
        choice == prev_in_order(len, current)
    }
}

/// The track reached from `current` by `steps` times taking the next one in
/// order.
pub open spec fn nth_next(len: nat, current: Option<usize>, steps: nat) -> Option<usize>
    decreases steps,
{
    if steps == 0 {
        current
    } else {
        next_in_order(len, nth_next(len, current, (steps - 1) as nat))
    }
}

/// The track reached from `current` by `steps` times taking the previous one
/// in order.
pub open spec fn nth_prev(len: nat, current: Option<usize>, steps: nat) -> Option<usize>
    decreases steps,
{
    if steps == 0 {
        current
    } else {
        prev_in_order(len, nth_prev(len, current, (steps - 1) as nat))
    }
}

/// Calls `rand::seq::SliceRandom::choose` on the candidates, with the
/// generator of `rand::thread_rng`. Trusted: an empty list gives nothing, and
/// any other list gives one of its elements. Which one is left open.
#[verifier::external_body]
fn choose_index(candidates: &Vec<usize>) -> (chosen: Option<usize>)
    ensures
        candidates@.len() == 0 ==> chosen is None,
        candidates@.len() > 0 ==> chosen is Some && candidates@.contains(chosen->0),
{
    rand::seq::SliceRandom::choose(candidates.as_slice(), &mut rand::thread_rng()).cloned()
}

/// Draws a position of a catalog of `len` songs at random. An empty catalog
/// gives nothing.
pub fn draw_index(len: usize) -> (drawn: Option<usize>)
    ensures
        len == 0 ==> drawn is None,
        len > 0 ==> drawn is Some && drawn->0 < len,
{
    let mut candidates: Vec<usize> = Vec::new();
    let mut i: usize = 0;
    while i < len
        invariant
            i <= len,
            candidates@.len() == i,
            forall|k: int| 0 <= k < i ==> candidates@[k] == k,
        decreases len - i,
    {
        candidates.push(i);
        i += 1;
    }
    choose_index(&candidates)
}

/// Selects the track that a step forward leads to.
pub fn get_next_song_id(state: &AppState) -> (choice: Option<usize>)
    ensures
        is_next_choice(
            state@.songs.len(),
            state@.playback.current_song_id,
            state@.playback.is_shuffled,
            choice,
        ),
{
    let len = state.songs().len();
    let playback = state.playback();
    if len == 0 {
        None
    } else if playback.is_shuffled {
        draw_index(len)
    } else {
        match playback.current_song_id {
            Some(id) => Some((id + 1) % len),
            None => Some(0),
        }
    }
}

/// Selects the track that a step back leads to.
pub fn get_prev_song_id(state: &AppState) -> (choice: Option<usize>)
    ensures
        is_prev_choice(
            state@.songs.len(),
            state@.playback.current_song_id,
            state@.playback.is_shuffled,
            choice,
        ),
{
    let len = state.songs().len();
    let playback = state.playback();
    if len == 0 {
        None
    } else if playback.is_shuffled {
        draw_index(len)
    } else {
        match playback.current_song_id {
            Some(id) => if id == 0 {
                Some(len - 1)
            } else {
                Some(id - 1)
            },
            None => Some(len - 1),
        }
    }
}

/// Whatever the catalog and the transport, selecting the next track has an
/// outcome.
pub proof fn lemma_next_choice_exists(len: nat, current: Option<usize>, shuffled: bool)
    ensures
        exists|choice: Option<usize>| #[trigger] is_next_choice(len, current, shuffled, choice),
{
    let choice = if len == 0 {
        None
    } else if shuffled {
        Some(0usize)
    } else {
        next_in_order(len, current)
    };
    assert(is_next_choice(len, current, shuffled, choice));
}

/// One step forward from position `i` is `i + 1`, or the first position from
/// the last.
pub proof fn lemma_next_step(len: nat, i: usize)
    requires
        i < len,
    ensures
        next_in_order(len, Some(i)) == Some(
            if i + 1 == len {
                0usize
            } else {
                (i + 1) as usize
            },
        ),
{
    if i + 1 == len {
        lemma_mod_self_0(len as int);
    } else {
        lemma_small_mod((i + 1) as nat, len);
    }
}

/// Where `steps` steps forward lead from position `start`, for up to one
/// round through the catalog.
proof fn lemma_nth_next(len: nat, start: usize, steps: nat)
    requires
        start < len <= usize::MAX,
        steps <= len,
    ensures
        nth_next(len, Some(start), steps) == Some(
            if start + steps < len {
                (start + steps) as usize
            } else {
                (start + steps - len) as usize
            },
        ),
    decreases steps,
{
    if steps > 0 {
        lemma_nth_next(len, start, (steps - 1) as nat);
        let before = nth_next(len, Some(start), (steps - 1) as nat)->0;
        lemma_next_step(len, before);
    }
}

/// Where `steps` steps back lead from position `start`, for up to one round
/// through the catalog.
proof fn lemma_nth_prev(len: nat, start: usize, steps: nat)
    requires
        start < len <= usize::MAX,
        steps <= len,
    ensures
        nth_prev(len, Some(start), steps) == Some(
            if steps <= start {
                (start - steps) as usize
            } else {
                (start - steps + len) as usize
            },
        ),
    decreases steps,
{
    if steps > 0 {
        lemma_nth_prev(len, start, (steps - 1) as nat);
    }
}

/// Stepping forward once for every song of the catalog, in order, leads back
/// to the track where the walk began.
pub proof fn lemma_next_full_circle(len: nat, start: usize)
    requires
        start < len <= usize::MAX,
    ensures
        nth_next(len, Some(start), len) == Some(start),
{
    lemma_nth_next(len, start, len);
}

/// Stepping back once for every song of the catalog, in order, leads back to
/// the track where the walk began.
pub proof fn lemma_prev_full_circle(len: nat, start: usize)
    requires
        start < len <= usize::MAX,
    ensures
        nth_prev(len, Some(start), len) == Some(start),
{
    lemma_nth_prev(len, start, len);
}

/// In order, a step back followed by a step forward returns to the track
/// where it began, and so does a step forward followed by a step back. This
/// holds at both ends of the catalog too, since the walk is a ring.
pub proof fn lemma_prev_next_inverse(len: nat, i: usize)
    requires
        i < len <= usize::MAX,
    ensures
        next_in_order(len, prev_in_order(len, Some(i))) == Some(i),
        prev_in_order(len, next_in_order(len, Some(i))) == Some(i),
{
    lemma_next_step(len, i);
    lemma_next_step(len, prev_in_order(len, Some(i))->0);
}

} // verus!
