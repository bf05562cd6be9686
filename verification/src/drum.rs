//! The pad trigger/release state machine with time-based auto-release.
//!
//! A `DrumController` owns a fixed set of pads and the outbound MIDI device
//! state.  A caller assigns notes to pads, triggers them (which queues a
//! Note On and schedules an auto-release deadline), and calls `poll` every
//! loop iteration with the current clock tick so that expired sustains are
//! released within one iteration.  The surrounding program reads the clock
//! and passes the tick count in; the engine itself never blocks.

use vstd::prelude::*;

use crate::midi_device::{MidiMsg, UsbMidiController, WireMsg, note_off_msg, note_on_msg};

verus! {

/// Number of pads: one per physical trigger zone, fixed by the hardware.
pub const MAX_PADS: usize = 5;

/// Per-pad state: the assigned note, the cached release parameters of the
/// last Note On, the sustain flags and the auto-release deadline.
#[derive(Clone, Copy, PartialEq, Eq, Structural, Debug)]
pub struct Pad {
    /// The note currently assigned to this pad.
    pub note: u8,
    /// The note to use on release: cached at the last successful trigger, so
    /// it may diverge from `note` if the pad is reassigned while sustaining.
    pub note_release: u8,
    /// The velocity cached at the last successful trigger, replayed on
    /// release (some receivers pair Note On/Off velocities).
    pub velocity: u8,
    /// Whether a note is currently bound to this pad.
    pub assigned: bool,
    /// Whether a Note On has been sent without a matching Note Off yet.
    pub active: bool,
    /// Configured sustain duration in clock ticks.
    pub len: u64,
    /// Absolute tick deadline for auto-release; meaningful only while
    /// `active`.
    pub timer: u64,
}

/// The state a fresh pad starts in: unassigned, inactive, note number 81
/// (the A above middle C, with middle C at 72) and a 100-tick sustain.
pub open spec fn default_pad() -> Pad {
    Pad {
        note: 81,
        note_release: 81,
        velocity: 0,
        assigned: false,
        active: false,
        len: 100,
        timer: 0,
    }
}

impl Pad {
    /// Notes and velocities are 7-bit quantities.
    pub open spec fn wf(self) -> bool {
        self.note < 128 && self.note_release < 128 && self.velocity < 128
    }

    pub fn new() -> (r: Self)
        ensures
            r == default_pad(),
    {
        Pad {
            note: 81,
            note_release: 81,
            velocity: 0,
            assigned: false,
            active: false,
            len: 100,
            timer: 0,
        }
    }
}

/// The pad after `assign(note)`: only the binding changes; an active sustain
/// keeps running.
pub open spec fn assigned_pad(p: Pad, note: u8) -> Pad {
    Pad { note, assigned: true, ..p }
}

/// The pad after `unassign`: the binding is dropped; an active sustain keeps
/// running.
pub open spec fn unassigned_pad(p: Pad) -> Pad {
    Pad { assigned: false, ..p }
}

/// The pad after a release: only the sustain flag is cleared.
pub open spec fn released_pad(p: Pad) -> Pad {
    Pad { active: false, ..p }
}

/// The one Note Off a release emits: the cached note and velocity of the
/// last Note On, never the possibly reassigned `note`.
pub open spec fn release_emit(channel: u8, p: Pad) -> WireMsg {
    note_off_msg(channel, p.note_release, p.velocity)
}

/// Whether a trigger on this pad forces an implicit release first: the pad
/// is sustaining a note other than the one now assigned, which would
/// otherwise hang forever.
pub open spec fn implicit_release_fires(p: Pad) -> bool {
    p.active && p.note != p.note_release
}

/// The pad after a successful trigger at tick `now`: the release parameters
/// are cached from the assigned note and the given velocity, the pad becomes
/// active, and the auto-release deadline is `now + len`.
pub open spec fn triggered_pad(p: Pad, velocity: u8, now: u64) -> Pad {
    Pad {
        note_release: p.note,
        velocity,
        active: true,
        timer: (now + p.len) as u64,
        ..p
    }
}

/// The pad after `trigger(velocity)` at tick `now`: a successful trigger if
/// assigned; otherwise only the possible implicit release happens.
pub open spec fn trigger_result(p: Pad, velocity: u8, now: u64) -> Pad {
    if p.assigned {
        triggered_pad(p, velocity, now)
    } else if implicit_release_fires(p) {
        released_pad(p)
    } else {
        p
    }
}

/// Everything `trigger(velocity)` emits, in order: the implicit Note Off if
/// the sustaining note was reassigned, then the Note On if the pad is
/// assigned.
pub open spec fn trigger_emits(channel: u8, p: Pad, velocity: u8) -> Seq<WireMsg> {
    let off = if implicit_release_fires(p) {
        seq![release_emit(channel, p)]
    } else {
        Seq::<WireMsg>::empty()
    };
    let on = if p.assigned {
        seq![note_on_msg(channel, p.note, velocity)]
    } else {
        Seq::<WireMsg>::empty()
    };
    off + on
}

/// The pending device message after `trigger(velocity)`: whatever the last
/// emission of the call left behind.
pub open spec fn trigger_msg(msg: MidiMsg, p: Pad, velocity: u8) -> MidiMsg {
    if p.assigned {
        MidiMsg { channel: msg.channel, note: p.note, velocity }
    } else if implicit_release_fires(p) {
        MidiMsg { channel: msg.channel, note: p.note_release, velocity: p.velocity }
    } else {
        msg
    }
}

/// Whether the pad's auto-release is due at tick `now`.
pub open spec fn release_ready_spec(p: Pad, now: u64) -> bool {
    p.active && now >= p.timer
}

/// The pad after one `poll` at tick `now`: released exactly when its
/// deadline has expired while active, untouched otherwise.
pub open spec fn poll_pad(p: Pad, now: u64) -> Pad {
    if release_ready_spec(p, now) {
        released_pad(p)
    } else {
        p
    }
}

/// The Note Offs one `poll` at tick `now` emits for the pads below index
/// `i`, in pad-index order.
pub open spec fn poll_emits_upto(channel: u8, pads: Seq<Pad>, now: u64, i: int) -> Seq<WireMsg>
    decreases i,
{
    if i <= 0 {
        Seq::<WireMsg>::empty()
    } else {
        poll_emits_upto(channel, pads, now, i - 1) + (if release_ready_spec(pads[i - 1], now) {
            seq![release_emit(channel, pads[i - 1])]
        } else {
            Seq::<WireMsg>::empty()
        })
    }
}

/// Everything one `poll` at tick `now` emits: one Note Off per expired pad,
/// in pad-index order.
pub open spec fn poll_emits(channel: u8, pads: Seq<Pad>, now: u64) -> Seq<WireMsg> {
    poll_emits_upto(channel, pads, now, pads.len() as int)
}

/// The pending device message after `poll` has scanned the pads below index
/// `i`: the cached parameters of the last pad released, or the prior message
/// if none was.
pub open spec fn poll_msg_upto(msg: MidiMsg, pads: Seq<Pad>, now: u64, i: int) -> MidiMsg
    decreases i,
{
    if i <= 0 {
        msg
    } else {
        let m = poll_msg_upto(msg, pads, now, i - 1);
        if release_ready_spec(pads[i - 1], now) {
            MidiMsg { channel: m.channel, note: pads[i - 1].note_release, velocity: pads[i - 1].velocity }
        } else {
            m
        }
    }
}

/// The pending device message after one full `poll` at tick `now`.
pub open spec fn poll_msg(msg: MidiMsg, pads: Seq<Pad>, now: u64) -> MidiMsg {
    poll_msg_upto(msg, pads, now, pads.len() as int)
}

/// The engine: the fixed pad collection and the outbound MIDI device state.
pub struct DrumController {
    pad: Vec<Pad>,
    device: UsbMidiController,
}

impl DrumController {
    /// The pad states.
    pub closed spec fn pads(self) -> Seq<Pad> {
        self.pad@
    }

    /// The queued outbound messages, oldest first.
    pub closed spec fn out(self) -> Seq<WireMsg> {
        self.device.out@
    }

    /// The pending outbound message state.
    pub closed spec fn msg(self) -> MidiMsg {
        self.device.msg
    }

    /// Well-formed: exactly `MAX_PADS` pads, all with 7-bit note and
    /// velocity fields, and a well-formed pending message.
    pub open spec fn wf(self) -> bool {
        &&& self.pads().len() == MAX_PADS
        &&& forall|i: int| 0 <= i < self.pads().len() ==> self.pads()[i].wf()
        &&& self.msg().wf()
    }

    /// Builds an engine whose pads all start in the default state, around
    /// the given device.
    pub fn new(device: UsbMidiController) -> (r: Self)
        requires
            device.wf(),
        ensures
            r.wf(),
            r.pads() =~= Seq::new(MAX_PADS as nat, |i: int| default_pad()),
            r.out() == device.out@,
            r.msg() == device.msg,
    {
        let mut pad: Vec<Pad> = Vec::new();
        let mut i: usize = 0;
        while i < MAX_PADS
            invariant
                i <= MAX_PADS,
                pad@.len() == i,
                forall|j: int| 0 <= j < i ==> pad@[j] == default_pad(),
            decreases MAX_PADS - i,
        {
            pad.push(Pad::new());
            i = i + 1;
        }
        DrumController { pad, device }
    }

    /// A mutable handle on one pad, for configuration such as setting `len`.
    /// A caller that writes through it must keep the pad well formed.
    pub fn pad(&mut self, index: usize) -> (p: &mut Pad)
        requires
            index < MAX_PADS,
            old(self).wf(),
        ensures
            *p == old(self).pads()[index as int],
            final(self).pads() =~= old(self).pads().update(index as int, *final(p)),
            final(self).out() == old(self).out(),
            final(self).msg() == old(self).msg(),
    {
        &mut self.pad[index]
    }

    /// Binds `note` to the pad.  Sustain state is untouched: a pad already
    /// sounding keeps sounding its cached note.
    pub fn assign(&mut self, index: usize, note: u8)
        requires
            index < MAX_PADS,
            note < 128,
            old(self).wf(),
        ensures
            final(self).wf(),
            final(self).pads() =~= old(self).pads().update(
                index as int,
                assigned_pad(old(self).pads()[index as int], note),
            ),
            final(self).out() == old(self).out(),
            final(self).msg() == old(self).msg(),
    {
        let p = &mut self.pad[index];
        p.note = note;
        p.assigned = true;
    }

    /// Drops the pad's binding.  An active sustain keeps running until its
    /// deadline or an explicit release.
    pub fn unassign(&mut self, index: usize)
        requires
            index < MAX_PADS,
            old(self).wf(),
        ensures
            final(self).wf(),
            final(self).pads() =~= old(self).pads().update(
                index as int,
                unassigned_pad(old(self).pads()[index as int]),
            ),
            final(self).out() == old(self).out(),
            final(self).msg() == old(self).msg(),
    {
        let p = &mut self.pad[index];
        p.assigned = false;
    }

    /// Triggers the pad at tick `now`.  If the pad is sustaining a note
    /// other than the one now assigned, an implicit release is emitted
    /// first.  If the pad is assigned, a Note On with the assigned note and
    /// the given velocity is queued, the release parameters are cached, and
    /// the auto-release deadline is set to `now + len`; an unassigned pad is
    /// otherwise left alone.  Retriggering the same note emits no Note Off
    /// in between: the deadline is simply reset.
    pub fn trigger(&mut self, index: usize, velocity: u8, now: u64)
        requires
            index < MAX_PADS,
            velocity < 128,
            now + old(self).pads()[index as int].len <= u64::MAX,
            old(self).wf(),
        ensures
            final(self).wf(),
            final(self).pads() =~= old(self).pads().update(
                index as int,
                trigger_result(old(self).pads()[index as int], velocity, now),
            ),
            final(self).out() =~= old(self).out() + trigger_emits(
                old(self).msg().channel,
                old(self).pads()[index as int],
                velocity,
            ),
            final(self).msg() == trigger_msg(
                old(self).msg(),
                old(self).pads()[index as int],
                velocity,
            ),
    {
        if self.pad[index].active {
            // Prevent the sustaining note from hanging when reassigned.
            if self.pad[index].note != self.pad[index].note_release {
                self.release(index);
            }
        }
        if self.pad[index].assigned {
            let note = self.pad[index].note;
            self.device.set_note(note);
            self.device.set_velocity(velocity);

            // Cache so that the Note Off matches the Note On.
            let p = &mut self.pad[index];
            p.note_release = p.note;
            p.velocity = velocity;

            self.device.note_on();
            let p = &mut self.pad[index];
            p.active = true;

            self.schedule_release(index, now);
        }
    }

    /// Releases the pad: queues one Note Off carrying the cached note and
    /// velocity of the last Note On and clears the sustain flag.  Callable
    /// before the deadline (explicit early release).
    pub fn release(&mut self, index: usize)
        requires
            index < MAX_PADS,
            old(self).wf(),
        ensures
            final(self).wf(),
            final(self).pads() =~= old(self).pads().update(
                index as int,
                released_pad(old(self).pads()[index as int]),
            ),
            final(self).out() =~= old(self).out().push(
                release_emit(old(self).msg().channel, old(self).pads()[index as int]),
            ),
            final(self).msg() == (MidiMsg {
                channel: old(self).msg().channel,
                note: old(self).pads()[index as int].note_release,
                velocity: old(self).pads()[index as int].velocity,
            }),
    {
        let note_release = self.pad[index].note_release;
        let velocity = self.pad[index].velocity;
        self.device.set_note(note_release);
        self.device.set_velocity(velocity);
        self.device.note_off();
        let p = &mut self.pad[index];
        p.active = false;
    }

    /// Sets the pad's auto-release deadline to `now + len`; the last step of
    /// a successful trigger.
    pub fn schedule_release(&mut self, index: usize, now: u64)
        requires
            index < MAX_PADS,
            now + old(self).pads()[index as int].len <= u64::MAX,
            old(self).wf(),
        ensures
            final(self).wf(),
            final(self).pads() =~= old(self).pads().update(
                index as int,
                (Pad {
                    timer: (now + old(self).pads()[index as int].len) as u64,
                    ..old(self).pads()[index as int]
                }),
            ),
            final(self).out() == old(self).out(),
            final(self).msg() == old(self).msg(),
    {
        let p = &mut self.pad[index];
        p.timer = now + p.len;
    }

    /// Removes and returns the oldest queued outbound message, if any.  The
    /// transport drains the queue through this, in emission order, and hands
    /// each message on; pad state is untouched.
    pub fn take_msg(&mut self) -> (r: Option<WireMsg>)
        requires
            old(self).wf(),
        ensures
            final(self).wf(),
            final(self).pads() == old(self).pads(),
            final(self).msg() == old(self).msg(),
            old(self).out().len() == 0 ==> r is None && final(self).out() == old(self).out(),
            old(self).out().len() > 0 ==> r == Some(old(self).out()[0]) && final(self).out()
                =~= old(self).out().subrange(1, old(self).out().len() as int),
    {
        self.device.take_msg()
    }

    /// Whether the pad's auto-release is due at tick `now`.
    fn release_ready(&self, index: usize, now: u64) -> (r: bool)
        requires
            index < MAX_PADS,
            self.wf(),
        ensures
            r == release_ready_spec(self.pads()[index as int], now),
    {
        self.pad[index].active && now >= self.pad[index].timer
    }

    /// Scans every pad in index order at tick `now` and releases exactly
    /// those whose deadline has expired while active: no pad is released
    /// early, and no expired pad is left sustaining past this call.
    pub fn poll(&mut self, now: u64)
        requires
            old(self).wf(),
        ensures
            final(self).wf(),
            final(self).pads().len() == MAX_PADS,
            forall|j: int| 0 <= j < MAX_PADS ==> final(self).pads()[j] == poll_pad(
                old(self).pads()[j],
                now,
            ),
            final(self).out() =~= old(self).out() + poll_emits(
                old(self).msg().channel,
                old(self).pads(),
                now,
            ),
            final(self).msg() == poll_msg(old(self).msg(), old(self).pads(), now),
            final(self).msg().channel == old(self).msg().channel,
    {
        let ghost pads0 = self.pads();
        let ghost msg0 = self.msg();
        let ghost out0 = self.out();
        let mut i: usize = 0;
        while i < MAX_PADS
            invariant
                i <= MAX_PADS,
                self.wf(),
                self.msg().channel == msg0.channel,
                forall|j: int| 0 <= j < i ==> self.pads()[j] == poll_pad(pads0[j], now),
                forall|j: int| i <= j < MAX_PADS ==> self.pads()[j] == pads0[j],
                self.out() =~= out0 + poll_emits_upto(msg0.channel, pads0, now, i as int),
                self.msg() == poll_msg_upto(msg0, pads0, now, i as int),
            decreases MAX_PADS - i,
        {
            if self.release_ready(i, now) {
                self.release(i);
            }
            i = i + 1;
        }
    }
}

} // verus!
