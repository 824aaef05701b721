//! What holds of the game across its operations, proved over the model of
//! [`crate::state`].

use vstd::prelude::*;
use crate::clock::{lemma_shortened_bounds, MIN_INTERVAL};
use crate::geometry::{lemma_snap_floor, Bounds, Direction, Point, CELL_SIZE};
use crate::projectile::{culled, flown, lemma_culled_poised, Shot};
use crate::state::SimState;
use crate::trail::{lemma_aged_ordered, lemma_ordered_len};

verus! {

/// The state after `n` ticks in a row.
pub open spec fn after_ticks(s: SimState, n: nat) -> SimState
    decreases n,
{
    if n == 0 {
        s
    } else {
        after_ticks(s, (n - 1) as nat).ticked()
    }
}

/// A game starts in a well-formed state, whatever interval at or above the
/// floor its clock starts with.
pub proof fn start_is_wf(hostile: bool, interval: nat)
    requires
        interval >= MIN_INTERVAL,
    ensures
        SimState::starting(hostile, interval).wf(),
        SimState::initial(hostile).wf(),
{
}

/// A request for a heading keeps the state well formed.
pub proof fn request_keeps_wf(s: SimState, direction: Direction)
    requires
        s.wf(),
    ensures
        s.requested(direction).wf(),
{
}

/// Firing keeps the state well formed, given room for the new projectile.
pub proof fn fire_keeps_wf(s: SimState)
    requires
        s.wf(),
        s.can_fire(),
    ensures
        s.fired().wf(),
{
}

/// Offering food keeps the state well formed.
pub proof fn spawn_keeps_wf(s: SimState, raw: Point)
    requires
        s.wf(),
    ensures
        s.spawned_at(raw).wf(),
{
}

/// The movement half of a tick keeps the state well formed.
pub proof fn move_keeps_wf(s: SimState)
    requires
        s.wf(),
    ensures
        s.moved().wf(),
{
    lemma_aged_ordered(s.trail, s.actor.length);
}

/// A food-eaten event keeps the state well formed.
pub proof fn feeding_keeps_wf(s: SimState)
    requires
        s.wf(),
    ensures
        s.fed().wf(),
{
    lemma_shortened_bounds(s.clock.interval);
}

/// A tick keeps the state well formed.
pub proof fn tick_keeps_wf(s: SimState)
    requires
        s.wf(),
    ensures
        s.ticked().wf(),
{
    if !s.halted() {
        move_keeps_wf(s);
        feeding_keeps_wf(s.moved());
    }
}

/// The projectile half of a frame keeps the state well formed.
pub proof fn flight_keeps_wf(s: SimState, bounds: Bounds)
    requires
        s.wf(),
    ensures
        s.flown(bounds).wf(),
{
    lemma_culled_poised(flown(s.shots), bounds);
}

/// A frame keeps the state well formed.
pub proof fn frame_keeps_wf(s: SimState, delta: nat, bounds: Bounds)
    requires
        s.wf(),
    ensures
        s.framed(delta, bounds).wf(),
{
    if !s.halted() {
        flight_keeps_wf(s, bounds);
        let flown = s.flown(bounds);
        feeding_keeps_wf(flown);
        let scored = if flown.food_struck() {
            flown.fed()
        } else {
            flown
        };
        let judged = if flown.shot() {
            scored.stopped()
        } else {
            scored
        };
        let clocked = SimState { clock: judged.clock.ticked(delta), ..judged };
        tick_keeps_wf(clocked);
    }
}

/// In a well-formed state the trail never holds more segments than the
/// actor is long.
pub proof fn trail_within_length(s: SimState)
    requires
        s.wf(),
    ensures
        s.trail.len() <= s.actor.length,
{
    lemma_ordered_len(s.trail, s.actor.length);
}

/// In a well-formed state every segment of the trail is alive: it has at
/// least one tick left, and no more than the actor is long.
pub proof fn every_segment_is_alive(s: SimState, i: int)
    requires
        s.wf(),
        0 <= i < s.trail.len(),
    ensures
        1 <= s.trail[i].ttl <= s.actor.length,
{
}

/// However many ticks are delivered to a well-formed state, the state stays
/// well formed and the trail never holds more segments than the actor is
/// long.
pub proof fn trail_within_length_after_ticks(s: SimState, n: nat)
    requires
        s.wf(),
    ensures
        after_ticks(s, n).wf(),
        after_ticks(s, n).trail.len() <= after_ticks(s, n).actor.length,
    decreases n,
{
    if n > 0 {
        trail_within_length_after_ticks(s, (n - 1) as nat);
        tick_keeps_wf(after_ticks(s, (n - 1) as nat));
    }
    trail_within_length(after_ticks(s, n));
}

/// A food-eaten event raises the score by exactly one and never lengthens
/// the interval of the clock: an interval above the floor becomes strictly
/// shorter without going below the floor, and an interval at the floor
/// stays there.
pub proof fn feeding_scores_and_quickens(s: SimState)
    requires
        s.wf(),
    ensures
        s.fed().score == s.score + 1,
        s.fed().actor.length == s.actor.length + 1,
        s.fed().food is None,
        s.fed().clock.interval >= MIN_INTERVAL,
        s.clock.interval > MIN_INTERVAL ==> s.fed().clock.interval < s.clock.interval,
        s.clock.interval == MIN_INTERVAL ==> s.fed().clock.interval == s.clock.interval,
{
    lemma_shortened_bounds(s.clock.interval);
}

/// A tick of a running game raises the score by exactly one when the head
/// or a projectile overlaps the food after the move, and leaves score and
/// interval alone when neither does.
pub proof fn tick_scores_once(s: SimState)
    requires
        s.wf(),
        !s.halted(),
    ensures
        s.moved().food_reached() || s.moved().food_struck() ==> {
            &&& s.ticked().score == s.score + 1
            &&& s.ticked().actor.length == s.actor.length + 1
            &&& s.ticked().food is None
            &&& s.ticked().clock.interval == s.fed().clock.interval
        },
        !(s.moved().food_reached() || s.moved().food_struck()) ==> {
            &&& s.ticked().score == s.score
            &&& s.ticked().actor.length == s.actor.length
            &&& s.ticked().food == s.food
            &&& s.ticked().clock.interval == s.clock.interval
        },
{
}

/// The score never falls and the clock never slows down: a tick or a frame
/// adds at most one point, and leaves the interval as it was or shorter.
pub proof fn score_only_rises(s: SimState, delta: nat, bounds: Bounds)
    requires
        s.wf(),
    ensures
        s.score <= s.ticked().score <= s.score + 1,
        s.score <= s.framed(delta, bounds).score <= s.score + 1,
        s.ticked().clock.interval <= s.clock.interval,
        s.framed(delta, bounds).clock.interval <= s.clock.interval,
{
    lemma_shortened_bounds(s.clock.interval);
}

/// No tick turns the actor straight round: the heading after a tick is
/// never the reverse of the heading before it.
pub proof fn no_instant_reversal(s: SimState)
    ensures
        s.ticked().actor.facing != s.actor.facing.reversed(),
{
}

/// No frame turns the actor straight round either.
pub proof fn no_instant_reversal_in_frame(s: SimState, delta: nat, bounds: Bounds)
    ensures
        s.framed(delta, bounds).actor.facing != s.actor.facing.reversed(),
{
}

/// A halted game is final: no request, shot, offer of food, tick or frame
/// changes anything of it.
pub proof fn halted_is_final(s: SimState, direction: Direction, raw: Point, delta: nat, bounds: Bounds)
    requires
        s.halted(),
    ensures
        s.requested(direction) == s,
        s.fired() == s,
        s.spawned_at(raw) == s,
        s.ticked() == s,
        s.framed(delta, bounds) == s,
{
}

/// However many ticks are delivered to a halted game, nothing changes.
pub proof fn halted_after_ticks(s: SimState, n: nat)
    requires
        s.halted(),
    ensures
        after_ticks(s, n) == s,
    decreases n,
{
    if n > 0 {
        halted_after_ticks(s, (n - 1) as nat);
    }
}

/// Halting is for good: a tick or a frame of a halted game leaves it
/// halted, and so does every other operation.
pub proof fn halting_is_permanent(s: SimState, delta: nat, bounds: Bounds)
    requires
        s.halted(),
    ensures
        s.ticked().halted(),
        s.framed(delta, bounds).halted(),
{
}

/// Food is offered in vain while food is alive: the state does not change.
/// So a second offer right after a first never creates a second food.
pub proof fn spawning_is_idempotent(s: SimState, first: Point, second: Point)
    ensures
        s.food is Some ==> s.spawned_at(first) == s,
        s.spawned_at(first).spawned_at(second) == s.spawned_at(first),
{
}

/// After a frame of a running game every live projectile is within the
/// play area.
pub proof fn projectiles_stay_in_bounds(s: SimState, delta: nat, bounds: Bounds, i: int)
    requires
        !s.halted(),
        0 <= i < s.framed(delta, bounds).shots.len(),
    ensures
        bounds.contains(s.framed(delta, bounds).shots[i].position),
{
    let kept = culled(flown(s.shots), bounds);
    assert(s.framed(delta, bounds).shots == kept);
    flown(s.shots).lemma_filter_pred(|shot: Shot| bounds.contains(shot.position), i);
}

/// Food that appears in an empty slot of a running game lies on the grid,
/// at or below the drawn point and less than a cell away from it on either
/// axis.  Drawn from a play area, it lies left of the right edge and below
/// the top edge, and less than a cell beyond the left and bottom edges.
pub proof fn spawned_food_is_on_the_grid(s: SimState, raw: Point, bounds: Bounds)
    requires
        !s.halted(),
        s.food is None,
        bounds.draws(raw),
    ensures
        s.spawned_at(raw).food == Some(raw.snapped()),
        raw.snapped().aligned(),
        raw.snapped().x <= raw.x < raw.snapped().x + CELL_SIZE,
        raw.snapped().y <= raw.y < raw.snapped().y + CELL_SIZE,
        -bounds.half_width() - CELL_SIZE < raw.snapped().x < bounds.half_width(),
        -bounds.half_height() - CELL_SIZE < raw.snapped().y < bounds.half_height(),
{
    lemma_snap_floor(raw.x);
    lemma_snap_floor(raw.y);
}

} // verus!
