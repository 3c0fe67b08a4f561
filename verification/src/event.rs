//! Input events, and the playback that each asks for.
//!
//! Of all the events that the devices of a seat produce, only a key press
//! can ask for a playback, and it does so only when the sound pack gives the
//! pressed key a segment. A release, a press of a key that the pack does not
//! know, a key defined with the wrong count of numbers, and every event of
//! another device class ask for nothing; none of them is an error.
use crate::keys::{decimal, key_identifier};
use crate::pack::{segment_of, SoundPack};
use crate::table::{resolve_in, table_of, SoundFileTable};
use vstd::prelude::*;

verus! {

/// The state of a key after the transition that an event reports.
#[derive(Clone, Copy, Debug, PartialEq, Eq)]
pub enum KeyState {
    Pressed,
    Released,
}

/// An input event, by the class of device that it comes from.
#[derive(Clone, Debug, PartialEq, Eq)]
pub enum Event {
    /// A key changed state. `key` is the key's identifier.
    Keyboard { key: String, state: KeyState },
    Device,
    Pointer,
    Touch,
    Tablet,
    TabletPad,
    Gesture,
    Switch,
}

impl Event {
    /// The event of the key with code `code` going to `state`. The key is
    /// named by the decimal numeral of its code.
    pub fn keyboard(code: u32, state: KeyState) -> (event: Event)
        ensures
            event matches Event::Keyboard { key, state: reported } && key@ == decimal(code as nat)
                && reported == state,
    {
        Event::Keyboard { key: key_identifier(code), state }
    }
}

/// One playback to make: the file, and the slice of it in milliseconds.
#[derive(Clone, Debug, PartialEq, Eq)]
pub struct Playback {
    pub file: String,
    pub start_ms: u32,
    pub duration_ms: u32,
}

/// A playback as mathematical values.
pub ghost struct PlaybackModel {
    pub file: Seq<char>,
    pub start_ms: u32,
    pub duration_ms: u32,
}

impl View for Playback {
    type V = PlaybackModel;

    open spec fn view(&self) -> PlaybackModel {
        PlaybackModel { file: self.file@, start_ms: self.start_ms, duration_ms: self.duration_ms }
    }
}

/// The identifier of the key that `event` reports as pressed, if it reports
/// a key press at all.
pub open spec fn pressed_key(event: Event) -> Option<Seq<char>> {
    match event {
        Event::Keyboard { key, state: KeyState::Pressed } => Some(key@),
        _ => None,
    }
}

/// The playback that a press of `key` asks for: none unless the key has a
/// segment, else that segment of the file that the table resolves the key
/// to.
pub open spec fn playback_for(
    defines: Map<Seq<char>, Seq<u32>>,
    table: Map<Seq<char>, Seq<char>>,
    key: Seq<char>,
) -> Option<PlaybackModel> {
    match segment_of(defines, key) {
        Some(segment) => Some(
            PlaybackModel {
                file: resolve_in(table, key),
                start_ms: segment.start_ms,
                duration_ms: segment.duration_ms,
            },
        ),
        None => None,
    }
}

/// The playback that `event` asks for: that of the pressed key for a key
/// press, none for any other event.
pub open spec fn reaction(
    defines: Map<Seq<char>, Seq<u32>>,
    table: Map<Seq<char>, Seq<char>>,
    event: Event,
) -> Option<PlaybackModel> {
    match pressed_key(event) {
        Some(key) => playback_for(defines, table, key),
        None => None,
    }
}

/// Whether `found` is the playback `expected`, or both are none.
pub open spec fn same_playback(found: Option<Playback>, expected: Option<PlaybackModel>) -> bool {
    match found {
        Some(playback) => expected == Some(playback@),
        None => expected is None,
    }
}

/// The playback that a press of `key` asks for.
pub fn playback_for_key(pack: &SoundPack, table: &SoundFileTable, key: &str) -> (found: Option<
    Playback,
>)
    ensures
        same_playback(found, playback_for(pack@.defines, table@, key@)),
{
    match pack.segment(key) {
        Some(segment) => Some(
            Playback {
                file: table.resolve(key).clone(),
                start_ms: segment.start_ms,
                duration_ms: segment.duration_ms,
            },
        ),
        None => None,
    }
}

/// The playback that `event` asks for.
pub fn react(pack: &SoundPack, table: &SoundFileTable, event: &Event) -> (found: Option<Playback>)
    ensures
        same_playback(found, reaction(pack@.defines, table@, *event)),
{
    match event {
        Event::Keyboard { key, state: KeyState::Pressed } => playback_for_key(
            pack,
            table,
            key.as_str(),
        ),
        _ => None,
    }
}

/// A press of a key that the pack defines with two numbers plays: from the
/// first number, for the second, out of the pack's one waveform file.
pub proof fn lemma_defined_key_plays(
    defines: Map<Seq<char>, Seq<u32>>,
    path: Seq<char>,
    event: Event,
    key: Seq<char>,
)
    requires
        pressed_key(event) == Some(key),
        defines.contains_key(key),
        defines[key].len() == 2,
    ensures
        reaction(defines, table_of(defines.dom(), path), event) == Some(
            PlaybackModel { file: path, start_ms: defines[key][0], duration_ms: defines[key][1] },
        ),
{
}

/// A press of a key that the pack does not define plays nothing, whatever
/// the table holds.
pub proof fn lemma_undefined_key_is_silent(
    defines: Map<Seq<char>, Seq<u32>>,
    table: Map<Seq<char>, Seq<char>>,
    event: Event,
    key: Seq<char>,
)
    requires
        pressed_key(event) == Some(key),
        !defines.contains_key(key),
    ensures
        playback_for(defines, table, key) is None,
        reaction(defines, table, event) is None,
{
}

/// A press of a key that the pack defines with any count of numbers other
/// than two plays nothing, whatever the table holds.
pub proof fn lemma_other_arity_is_silent(
    defines: Map<Seq<char>, Seq<u32>>,
    table: Map<Seq<char>, Seq<char>>,
    event: Event,
    key: Seq<char>,
)
    requires
        pressed_key(event) == Some(key),
        defines.contains_key(key),
        defines[key].len() != 2,
    ensures
        playback_for(defines, table, key) is None,
        reaction(defines, table, event) is None,
{
}

/// Only a key press plays: a release, and an event of any other device
/// class, plays nothing.
pub proof fn lemma_only_presses_play(
    defines: Map<Seq<char>, Seq<u32>>,
    table: Map<Seq<char>, Seq<char>>,
    event: Event,
)
    requires
        reaction(defines, table, event) is Some,
    ensures
        event is Keyboard,
        event->state == KeyState::Pressed,
{
}

} // verus!
