use vstd::prelude::*;

verus! {

/// A note message that the driver sends for a pad, on MIDI channel 0.
#[derive(Clone, Copy, Debug, PartialEq, Eq, Structural)]
pub enum NoteMessage {
    NoteOn { key: u8, vel: u8 },
    NoteOff { key: u8, vel: u8 },
}

/// The bytes of a live MIDI message for `m` on channel 0: the status byte (0x90 for note on,
/// 0x80 for note off), then the key and the velocity, each cut to its low seven bits.
pub open spec fn note_bytes(m: NoteMessage) -> Seq<u8> {
    match m {
        NoteMessage::NoteOn { key, vel } => seq![0x90u8, (key % 128) as u8, (vel % 128) as u8],
        NoteMessage::NoteOff { key, vel } => seq![0x80u8, (key % 128) as u8, (vel % 128) as u8],
    }
}

/// Writes `m` as a live MIDI event on channel 0 into a new buffer with
/// `midly::live::LiveEvent::write`. In midly 0.5 that call writes the status byte (the
/// message's status nibble shifted left by four, or'ed with the channel) and then the key and
/// velocity bytes; `u7::from` keeps the low seven bits of a byte; writing into a `Vec<u8>`
/// extends it and never fails.
#[verifier::external_body]
pub(crate) fn write_live_note(m: NoteMessage) -> (bytes: Vec<u8>)
    ensures
        bytes@ == note_bytes(m),
{
    let message = match m {
        NoteMessage::NoteOn { key, vel } => midly::MidiMessage::NoteOn { key: key.into(), vel: vel.into() },
        NoteMessage::NoteOff { key, vel } => midly::MidiMessage::NoteOff { key: key.into(), vel: vel.into() },
    };
    let mut bytes: Vec<u8> = Vec::new();
    midly::live::LiveEvent::Midi { channel: 0u8.into(), message }.write(&mut bytes).unwrap();
    bytes
}

} // verus!
