//! A verified trigger/release engine for a small fixed set of percussion
//! pads, emitting timed MIDI Note On / Note Off messages.
//!
//! The engine owns the pad state machine and an outbound message queue;
//! the surrounding program reads the clock, drives `poll`, and hands the
//! queued three-byte messages to a transport.

pub mod midi_device;

pub mod drum;

pub mod laws;
