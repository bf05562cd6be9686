//! Outbound MIDI message state and rendering.
//!
//! A `UsbMidiController` holds the pending outbound message (channel, note,
//! velocity) and a queue of rendered three-byte messages awaiting
//! transmission.  Rendering a pending message into wire bytes is done by the
//! `midi_convert` crate; the transport that carries the bytes to the host is
//! outside this crate's concern and drains the queue through `take_msg`.

use vstd::prelude::*;

use midi_convert::midi_types::{Channel, MidiMessage, Note, Value7};
use midi_convert::render_slice::MidiRenderSlice;

verus! {

/// A rendered three-byte MIDI channel-voice message: status byte (kind and
/// channel), then two data bytes.
#[derive(Clone, Copy, PartialEq, Eq, Structural, Debug)]
pub struct WireMsg {
    pub status: u8,
    pub data1: u8,
    pub data2: u8,
}

/// The wire form of a Note On for `channel` (below 16): status `0x90 + channel`
/// (equal to `0x90 | channel`), then the note and velocity bytes.
pub open spec fn note_on_msg(channel: u8, note: u8, velocity: u8) -> WireMsg {
    WireMsg { status: (0x90 + channel) as u8, data1: note, data2: velocity }
}

/// The wire form of a Note Off for `channel` (below 16): status `0x80 + channel`
/// (equal to `0x80 | channel`), then the note and velocity bytes.
pub open spec fn note_off_msg(channel: u8, note: u8, velocity: u8) -> WireMsg {
    WireMsg { status: (0x80 + channel) as u8, data1: note, data2: velocity }
}

/// Whether a wire message is a Note On (status in `0x90..=0x9F`).
pub open spec fn is_note_on(m: WireMsg) -> bool {
    0x90 <= m.status < 0xA0
}

/// Whether a wire message is a Note Off (status in `0x80..=0x8F`).
pub open spec fn is_note_off(m: WireMsg) -> bool {
    0x80 <= m.status < 0x90
}

/// Relies on `midi_convert`'s `MidiRenderSlice` impl for `MidiMessage`:
/// `NoteOn(c, n, v)` renders into the three bytes `[0x90 | c, n, v]`, and
/// with the channel below 16 that status byte equals `0x90 + c`.  The
/// `From<u8>` conversions of `Channel`, `Note` and `Value7` keep values in
/// the given ranges unchanged.
#[verifier::external_body]
fn render_note_on(channel: u8, note: u8, velocity: u8) -> (r: WireMsg)
    requires
        channel < 16,
        note < 128,
        velocity < 128,
    ensures
        r == note_on_msg(channel, note, velocity),
{
    let msg = MidiMessage::NoteOn(
        Channel::from(channel),
        Note::from(note),
        Value7::from(velocity),
    );
    let mut buf = [0u8; 3];
    msg.render_slice(&mut buf);
    WireMsg { status: buf[0], data1: buf[1], data2: buf[2] }
}

/// Relies on `midi_convert`'s `MidiRenderSlice` impl for `MidiMessage`:
/// `NoteOff(c, n, v)` renders into the three bytes `[0x80 | c, n, v]`, and
/// with the channel below 16 that status byte equals `0x80 + c`.  The
/// `From<u8>` conversions of `Channel`, `Note` and `Value7` keep values in
/// the given ranges unchanged.
#[verifier::external_body]
fn render_note_off(channel: u8, note: u8, velocity: u8) -> (r: WireMsg)
    requires
        channel < 16,
        note < 128,
        velocity < 128,
    ensures
        r == note_off_msg(channel, note, velocity),
{
    let msg = MidiMessage::NoteOff(
        Channel::from(channel),
        Note::from(note),
        Value7::from(velocity),
    );
    let mut buf = [0u8; 3];
    msg.render_slice(&mut buf);
    WireMsg { status: buf[0], data1: buf[1], data2: buf[2] }
}

/// The pending outbound message state: the channel, note and velocity that
/// the next rendered message will carry.
#[derive(Clone, Copy, PartialEq, Eq, Structural, Debug)]
pub struct MidiMsg {
    pub channel: u8,
    pub note: u8,
    pub velocity: u8,
}

impl MidiMsg {
    /// The channel is a 4-bit and the note and velocity 7-bit quantities.
    pub open spec fn wf(self) -> bool {
        self.channel < 16 && self.note < 128 && self.velocity < 128
    }
}

/// The pending message a fresh controller starts with: channel 1 (encoded 0),
/// middle C at velocity 100.
pub open spec fn initial_msg() -> MidiMsg {
    MidiMsg { channel: 0, note: 60, velocity: 100 }
}

impl Default for MidiMsg {
    fn default() -> (r: Self)
        ensures
            r == initial_msg(),
    {
        MidiMsg { channel: 0, note: 60, velocity: 100 }
    }
}

/// Result of a non-blocking poll for inbound data.
#[derive(Clone, Copy, PartialEq, Eq, Structural, Debug)]
pub enum PollResp {
    Ready,
    Pass,
}

/// A device that inbound MIDI can be read from.  `poll` and `read_data` are
/// for implementors; the provided defaults report no data, so a device that
/// cannot receive needs nothing.
pub trait MidiReadDevice {
    /// Returns `PollResp::Ready` if data is available.
    fn poll(&mut self) -> PollResp {
        PollResp::Pass
    }

    /// Reads data, returning `PollResp::Pass` if data cannot be read.
    fn read_data(&mut self, _buffer: &mut Vec<u8>, _size: &mut usize) -> PollResp {
        PollResp::Pass
    }

    /// Checks whether data is ready and reads it if so.
    fn read(&mut self, buffer: &mut Vec<u8>, size: &mut usize) -> PollResp {
        match self.poll() {
            PollResp::Pass => PollResp::Pass,
            PollResp::Ready => self.read_data(buffer, size),
        }
    }
}

/// The outbound side of the MIDI device: the pending message and the queue of
/// rendered messages that the transport has not yet taken.
pub struct UsbMidiController {
    pub msg: MidiMsg,
    pub out: Vec<WireMsg>,
}

impl UsbMidiController {
    pub open spec fn wf(self) -> bool {
        self.msg.wf()
    }

    pub fn new() -> (r: Self)
        ensures
            r.wf(),
            r.msg == initial_msg(),
            r.out@ =~= Seq::<WireMsg>::empty(),
    {
        UsbMidiController { msg: MidiMsg::default(), out: Vec::new() }
    }

    pub fn set_channel(&mut self, channel: u8)
        requires
            channel < 16,
        ensures
            final(self).msg == (MidiMsg { channel, ..old(self).msg }),
            final(self).out@ == old(self).out@,
    {
        self.msg.channel = channel;
    }

    pub fn set_note(&mut self, note: u8)
        requires
            note < 128,
        ensures
            final(self).msg == (MidiMsg { note, ..old(self).msg }),
            final(self).out@ == old(self).out@,
    {
        self.msg.note = note;
    }

    pub fn set_velocity(&mut self, velocity: u8)
        requires
            velocity < 128,
        ensures
            final(self).msg == (MidiMsg { velocity, ..old(self).msg }),
            final(self).out@ == old(self).out@,
    {
        self.msg.velocity = velocity;
    }

    /// Renders the pending message as a Note On and queues it.
    pub fn note_on(&mut self)
        requires
            old(self).wf(),
        ensures
            final(self).wf(),
            final(self).msg == old(self).msg,
            final(self).out@ =~= old(self).out@.push(
                note_on_msg(old(self).msg.channel, old(self).msg.note, old(self).msg.velocity),
            ),
    {
        let m = render_note_on(self.msg.channel, self.msg.note, self.msg.velocity);
        self.send(m);
    }

    /// Renders the pending message as a Note Off and queues it.
    pub fn note_off(&mut self)
        requires
            old(self).wf(),
        ensures
            final(self).wf(),
            final(self).msg == old(self).msg,
            final(self).out@ =~= old(self).out@.push(
                note_off_msg(old(self).msg.channel, old(self).msg.note, old(self).msg.velocity),
            ),
    {
        let m = render_note_off(self.msg.channel, self.msg.note, self.msg.velocity);
        self.send(m);
    }

    /// Hands a rendered message to the queue that the transport drains.
    fn send(&mut self, msg: WireMsg)
        ensures
            final(self).msg == old(self).msg,
            final(self).out@ =~= old(self).out@.push(msg),
    {
        self.out.push(msg);
    }

    /// Removes and returns the oldest queued message, if any; the transport
    /// calls this to drain the queue in emission order.
    pub fn take_msg(&mut self) -> (r: Option<WireMsg>)
        ensures
            final(self).msg == old(self).msg,
            old(self).out@.len() == 0 ==> r is None && final(self).out@ == old(self).out@,
            old(self).out@.len() > 0 ==> r == Some(old(self).out@[0]) && final(self).out@
                =~= old(self).out@.subrange(1, old(self).out@.len() as int),
    {
        if self.out.len() > 0 {
            Some(self.out.remove(0))
        } else {
            None
        }
    }
}

} // verus!
