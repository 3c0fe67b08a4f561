//! Keyboard sound simulation: short slices of one recorded waveform, played
//! as keys are pressed.
//!
//! This crate holds the decisions, and none of the input or output:
//!
//! - [`access`] reads, from the flags of a device open, the access to ask
//!   for;
//! - [`keys`] names a key by its code;
//! - [`pack`] is the sound pack, which gives keys their segments of the
//!   waveform;
//! - [`table`] resolves keys to waveform files;
//! - [`event`] says which playback an input event asks for;
//! - [`dispatch`] is the loop that turns batches of events into playback
//!   commands.
pub mod access;
pub mod dispatch;
pub mod event;
pub mod keys;
pub mod pack;
pub mod table;
