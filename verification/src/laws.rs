//! Laws of the trigger/release state machine, stated over the spec-level
//! transitions that the engine's contracts use and proved once for all
//! inputs.

use vstd::prelude::*;

use crate::drum::{
    Pad, assigned_pad, implicit_release_fires, poll_pad, release_emit, release_ready_spec,
    released_pad, trigger_emits, trigger_result,
};
use crate::midi_device::{WireMsg, is_note_off, is_note_on, note_off_msg, note_on_msg};

verus! {

/// How many of the messages are Note Ons.
pub open spec fn count_note_ons(s: Seq<WireMsg>) -> nat
    decreases s.len(),
{
    if s.len() == 0 {
        0
    } else {
        count_note_ons(s.drop_last()) + (if is_note_on(s.last()) {
            1nat
        } else {
            0nat
        })
    }
}

/// How many of the messages are Note Offs.
pub open spec fn count_note_offs(s: Seq<WireMsg>) -> nat
    decreases s.len(),
{
    if s.len() == 0 {
        0
    } else {
        count_note_offs(s.drop_last()) + (if is_note_off(s.last()) {
            1nat
        } else {
            0nat
        })
    }
}

/// Assigning a note to any pad and then triggering it leaves the pad active
/// with the note and the given velocity cached for release, and emits
/// exactly one Note On, carrying that note and velocity, as the last
/// message.
pub proof fn lemma_assign_then_trigger(p: Pad, note: u8, velocity: u8, now: u64, channel: u8)
    requires
        note < 128,
        velocity < 128,
        channel < 16,
    ensures
        ({
            let pa = assigned_pad(p, note);
            let pt = trigger_result(pa, velocity, now);
            let emits = trigger_emits(channel, pa, velocity);
            &&& pt.active
            &&& pt.note_release == note
            &&& pt.velocity == velocity
            &&& count_note_ons(emits) == 1
            &&& emits.last() == note_on_msg(channel, note, velocity)
        }),
{
    reveal_with_fuel(count_note_ons, 3);
    let pa = assigned_pad(p, note);
    let emits = trigger_emits(channel, pa, velocity);
    let on = note_on_msg(channel, note, velocity);
    assert(is_note_on(on));
    if implicit_release_fires(pa) {
        let off = release_emit(channel, pa);
        assert(!is_note_on(off));
        assert(emits =~= seq![off, on]);
        assert(emits.drop_last() =~= seq![off]);
        assert(emits.drop_last().drop_last() =~= Seq::<WireMsg>::empty());
        assert(count_note_ons(emits.drop_last()) == 0);
        assert(count_note_ons(emits) == 1);
    } else {
        assert(emits =~= seq![on]);
        assert(emits.drop_last() =~= Seq::<WireMsg>::empty());
        assert(count_note_ons(emits) == 1);
    }
}

/// A trigger on an unassigned pad never emits a Note On, whatever else it
/// does.
pub proof fn lemma_trigger_unassigned_no_note_on(p: Pad, velocity: u8, channel: u8)
    requires
        !p.assigned,
        channel < 16,
    ensures
        count_note_ons(trigger_emits(channel, p, velocity)) == 0,
{
    reveal_with_fuel(count_note_ons, 2);
    let emits = trigger_emits(channel, p, velocity);
    if implicit_release_fires(p) {
        let off = release_emit(channel, p);
        assert(!is_note_on(off));
        assert(emits =~= seq![off]);
        assert(emits.drop_last() =~= Seq::<WireMsg>::empty());
        assert(count_note_ons(emits) == 0);
    } else {
        assert(emits =~= Seq::<WireMsg>::empty());
    }
}

/// A release after a trigger emits a Note Off carrying the note and velocity
/// cached by that trigger — whatever reassignment happened in between — and
/// leaves the pad inactive.
pub proof fn lemma_release_uses_cached_parameters(
    p: Pad,
    note: u8,
    velocity: u8,
    now: u64,
    channel: u8,
    later_note: u8,
)
    requires
        channel < 16,
    ensures
        ({
            // The pad after assign(note), trigger(velocity), assign(later_note).
            let pr = assigned_pad(trigger_result(assigned_pad(p, note), velocity, now), later_note);
            &&& release_emit(channel, pr) == note_off_msg(channel, note, velocity)
            &&& is_note_off(release_emit(channel, pr))
            &&& !released_pad(pr).active
        }),
{
}

/// Retriggering a pad that is still sustaining the very note it is assigned
/// to emits the new Note On alone — no Note Off in between — and resets the
/// deadline to `now + len`.
pub proof fn lemma_retrigger_same_note(p: Pad, velocity: u8, now: u64, channel: u8)
    requires
        p.assigned,
        p.active,
        p.note == p.note_release,
        now + p.len <= u64::MAX,
        channel < 16,
    ensures
        trigger_emits(channel, p, velocity) =~= seq![note_on_msg(channel, p.note, velocity)],
        count_note_offs(trigger_emits(channel, p, velocity)) == 0,
        trigger_result(p, velocity, now).timer == now + p.len,
{
    reveal_with_fuel(count_note_offs, 2);
    let emits = trigger_emits(channel, p, velocity);
    let on = note_on_msg(channel, p.note, velocity);
    assert(!is_note_off(on));
    assert(emits =~= seq![on]);
    assert(emits.drop_last() =~= Seq::<WireMsg>::empty());
    assert(count_note_offs(emits) == 0);
}

/// Reassigning a sustaining pad and then triggering it emits the Note Off of
/// the old sustaining note, with its cached velocity, and then the Note On
/// of the newly assigned note — in that order.
pub proof fn lemma_retrigger_after_reassign(p: Pad, note: u8, velocity: u8, channel: u8)
    requires
        p.active,
        note != p.note_release,
        note < 128,
        channel < 16,
    ensures
        trigger_emits(channel, assigned_pad(p, note), velocity) =~= seq![
            note_off_msg(channel, p.note_release, p.velocity),
            note_on_msg(channel, note, velocity),
        ],
{
}

/// One `poll` scan releases a pad exactly when its deadline has expired
/// while it is active: an expired active pad comes out released, and any
/// other pad is untouched — never released early.
pub proof fn lemma_poll_releases_exactly_expired(p: Pad, now: u64)
    ensures
        release_ready_spec(p, now) ==> poll_pad(p, now) == released_pad(p) && !poll_pad(
            p,
            now,
        ).active,
        !release_ready_spec(p, now) ==> poll_pad(p, now) == p,
        poll_pad(p, now).active <==> (p.active && now < p.timer),
{
}

} // verus!
