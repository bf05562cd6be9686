use chord_drums::drum::{DrumController, Pad, MAX_PADS};
use chord_drums::midi_device::{MidiMsg, UsbMidiController, WireMsg};

const A4: u8 = 81;
const C4: u8 = 72;

fn fresh_drum() -> DrumController {
    DrumController::new(UsbMidiController::new())
}

fn drain(drum: &mut DrumController) -> Vec<WireMsg> {
    let mut out = Vec::new();
    while let Some(m) = drum.take_msg() {
        out.push(m);
    }
    out
}

fn on(note: u8, velocity: u8) -> WireMsg {
    WireMsg { status: 0x90, data1: note, data2: velocity }
}

fn off(note: u8, velocity: u8) -> WireMsg {
    WireMsg { status: 0x80, data1: note, data2: velocity }
}

#[test]
fn pad_new_defaults() {
    let p = Pad::new();
    assert_eq!(p.note, A4);
    assert_eq!(p.note_release, A4);
    assert_eq!(p.velocity, 0);
    assert!(!p.assigned);
    assert!(!p.active);
    assert_eq!(p.len, 100);
    assert_eq!(p.timer, 0);
}

#[test]
fn midi_msg_default() {
    let m = MidiMsg::default();
    assert_eq!(m.channel, 0);
    assert_eq!(m.note, 60);
    assert_eq!(m.velocity, 100);
}

#[test]
fn controller_new_starts_empty() {
    let mut c = UsbMidiController::new();
    assert_eq!(c.msg, MidiMsg { channel: 0, note: 60, velocity: 100 });
    assert_eq!(c.take_msg(), None);
}

#[test]
fn setters_touch_only_their_field() {
    let mut c = UsbMidiController::new();
    c.set_channel(9);
    assert_eq!(c.msg, MidiMsg { channel: 9, note: 60, velocity: 100 });
    c.set_note(81);
    assert_eq!(c.msg, MidiMsg { channel: 9, note: 81, velocity: 100 });
    c.set_velocity(7);
    assert_eq!(c.msg, MidiMsg { channel: 9, note: 81, velocity: 7 });
    assert_eq!(c.take_msg(), None);
}

#[test]
fn note_on_renders_three_bytes() {
    let mut c = UsbMidiController::new();
    c.set_note(A4);
    c.set_velocity(100);
    c.note_on();
    assert_eq!(c.take_msg(), Some(WireMsg { status: 0x90, data1: A4, data2: 100 }));
    assert_eq!(c.take_msg(), None);
}

#[test]
fn note_off_renders_three_bytes() {
    let mut c = UsbMidiController::new();
    c.set_note(C4);
    c.set_velocity(33);
    c.note_off();
    assert_eq!(c.take_msg(), Some(WireMsg { status: 0x80, data1: C4, data2: 33 }));
}

#[test]
fn status_byte_carries_the_channel() {
    let mut c = UsbMidiController::new();
    c.set_channel(9);
    c.set_note(40);
    c.set_velocity(90);
    c.note_on();
    c.note_off();
    assert_eq!(c.take_msg(), Some(WireMsg { status: 0x99, data1: 40, data2: 90 }));
    assert_eq!(c.take_msg(), Some(WireMsg { status: 0x89, data1: 40, data2: 90 }));
}

#[test]
fn take_msg_is_oldest_first() {
    let mut c = UsbMidiController::new();
    c.set_note(1);
    c.set_velocity(2);
    c.note_on();
    c.set_note(3);
    c.note_on();
    assert_eq!(c.take_msg(), Some(WireMsg { status: 0x90, data1: 1, data2: 2 }));
    assert_eq!(c.take_msg(), Some(WireMsg { status: 0x90, data1: 3, data2: 2 }));
    assert_eq!(c.take_msg(), None);
}

#[test]
fn assign_then_trigger_emits_one_note_on() {
    let mut drum = fresh_drum();
    drum.assign(0, A4);
    drum.trigger(0, 100, 0);
    {
        let p = drum.pad(0);
        assert!(p.active);
        assert_eq!(p.note_release, A4);
        assert_eq!(p.velocity, 100);
    }
    assert_eq!(drain(&mut drum), vec![on(A4, 100)]);
}

#[test]
fn trigger_unassigned_emits_nothing() {
    let mut drum = fresh_drum();
    drum.trigger(1, 100, 0);
    assert!(!drum.pad(1).active);
    assert_eq!(drain(&mut drum), vec![]);
}

#[test]
fn trigger_unassigned_still_sends_implicit_release() {
    let mut drum = fresh_drum();
    drum.assign(0, A4);
    drum.trigger(0, 100, 0);
    drum.assign(0, C4);
    drum.unassign(0);
    // The pad sustains A4 while assigned C4 but unbound: a trigger emits the
    // implicit Note Off and no Note On.
    drum.trigger(0, 90, 10);
    assert!(!drum.pad(0).active);
    assert_eq!(drain(&mut drum), vec![on(A4, 100), off(A4, 100)]);
}

#[test]
fn release_uses_cached_note_and_velocity() {
    let mut drum = fresh_drum();
    drum.assign(0, A4);
    drum.trigger(0, 100, 0);
    drum.assign(0, C4);
    drum.release(0);
    assert!(!drum.pad(0).active);
    assert_eq!(drain(&mut drum), vec![on(A4, 100), off(A4, 100)]);
}

#[test]
fn release_before_any_trigger_replays_pad_defaults() {
    let mut drum = fresh_drum();
    drum.release(2);
    assert_eq!(drain(&mut drum), vec![off(A4, 0)]);
}

#[test]
fn retrigger_same_note_has_no_note_off_between() {
    let mut drum = fresh_drum();
    drum.assign(0, A4);
    drum.pad(0).len = 300;
    drum.trigger(0, 100, 0);
    assert_eq!(drum.pad(0).timer, 300);
    drum.trigger(0, 110, 100);
    assert_eq!(drum.pad(0).timer, 400);
    assert_eq!(drain(&mut drum), vec![on(A4, 100), on(A4, 110)]);
}

#[test]
fn retrigger_after_reassign_releases_old_note_first() {
    let mut drum = fresh_drum();
    drum.assign(0, A4);
    drum.trigger(0, 100, 0);
    drum.assign(0, C4);
    drum.trigger(0, 90, 50);
    let p = *drum.pad(0);
    assert!(p.active);
    assert_eq!(p.note_release, C4);
    assert_eq!(p.velocity, 90);
    assert_eq!(drain(&mut drum), vec![on(A4, 100), off(A4, 100), on(C4, 90)]);
}

#[test]
fn poll_never_releases_early() {
    let mut drum = fresh_drum();
    drum.assign(0, A4);
    drum.trigger(0, 100, 0);
    drum.take_msg();
    drum.poll(99);
    assert!(drum.pad(0).active);
    assert_eq!(drain(&mut drum), vec![]);
}

#[test]
fn poll_releases_every_expired_pad_in_index_order() {
    let mut drum = fresh_drum();
    drum.assign(0, A4);
    drum.assign(1, C4);
    drum.trigger(0, 100, 0);
    drum.trigger(1, 90, 0);
    drum.poll(100);
    assert!(!drum.pad(0).active);
    assert!(!drum.pad(1).active);
    assert_eq!(
        drain(&mut drum),
        vec![on(A4, 100), on(C4, 90), off(A4, 100), off(C4, 90)],
    );
}

#[test]
fn poll_with_nothing_active_emits_nothing() {
    let mut drum = fresh_drum();
    drum.poll(1_000_000);
    assert_eq!(drain(&mut drum), vec![]);
}

#[test]
fn unassign_does_not_force_release() {
    let mut drum = fresh_drum();
    drum.assign(0, A4);
    drum.trigger(0, 100, 0);
    drum.unassign(0);
    assert!(drum.pad(0).active);
    drum.poll(99);
    assert!(drum.pad(0).active);
    drum.poll(100);
    assert!(!drum.pad(0).active);
    assert_eq!(drain(&mut drum), vec![on(A4, 100), off(A4, 100)]);
}

#[test]
fn schedule_release_moves_the_deadline() {
    let mut drum = fresh_drum();
    drum.assign(0, A4);
    drum.trigger(0, 100, 0);
    drum.schedule_release(0, 500);
    assert_eq!(drum.pad(0).timer, 600);
    drum.poll(599);
    assert!(drum.pad(0).active);
    drum.poll(600);
    assert!(!drum.pad(0).active);
}

#[test]
fn end_to_end_scenario() {
    let mut drum = fresh_drum();
    drum.assign(0, A4);
    drum.pad(0).len = 300;
    drum.trigger(0, 100, 1000);
    assert_eq!(drum.take_msg(), Some(on(A4, 100)));
    assert_eq!(drum.pad(0).timer, 1300);
    drum.poll(1299);
    assert_eq!(drum.take_msg(), None);
    assert!(drum.pad(0).active);
    drum.poll(1300);
    assert_eq!(drum.take_msg(), Some(off(A4, 100)));
    assert_eq!(drum.take_msg(), None);
    assert!(!drum.pad(0).active);
}

#[test]
fn every_pad_index_works() {
    let mut drum = fresh_drum();
    for i in 0..MAX_PADS {
        drum.assign(i, 60 + i as u8);
        drum.trigger(i, 100, 0);
    }
    let msgs = drain(&mut drum);
    assert_eq!(msgs.len(), MAX_PADS);
    for (i, m) in msgs.iter().enumerate() {
        assert_eq!(*m, on(60 + i as u8, 100));
    }
}
