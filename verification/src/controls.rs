use vstd::prelude::*;

verus! {

/// The controller's buttons, in the order in which a button report lists their bits
/// (bit `j` of report byte `i + 1` is the button with index `8 * i + j`).
#[derive(Clone, Copy, Debug, PartialEq, Eq, Structural)]
pub enum Buttons {
    Maschine,
    Star,
    Browse,
    Volume,
    Swing,
    Tempo,
    Plugin,
    Sampling,
    Left,
    Right,
    Pitch,
    Mod,
    Perform,
    Notes,
    Group,
    Auto,
    Lock,
    NoteRepeat,
    Restart,
    Erase,
    Tap,
    Follow,
    Play,
    Rec,
    Stop,
    Shift,
    FixedVol,
    PadMode,
    Keyboard,
    Chords,
    Step,
    Scene,
    Pattern,
    Events,
    Variation,
    Duplicate,
    Select,
    Solo,
    Mute,
    EncoderPress,
    EncoderTouch,
}

impl Buttons {
    /// Number of buttons on the controller.
    pub open spec fn count() -> nat {
        41
    }

    /// The button's index in a button report.
    pub open spec fn index(self) -> nat {
        match self {
            Buttons::Maschine => 0,
            Buttons::Star => 1,
            Buttons::Browse => 2,
            Buttons::Volume => 3,
            Buttons::Swing => 4,
            Buttons::Tempo => 5,
            Buttons::Plugin => 6,
            Buttons::Sampling => 7,
            Buttons::Left => 8,
            Buttons::Right => 9,
            Buttons::Pitch => 10,
            Buttons::Mod => 11,
            Buttons::Perform => 12,
            Buttons::Notes => 13,
            Buttons::Group => 14,
            Buttons::Auto => 15,
            Buttons::Lock => 16,
            Buttons::NoteRepeat => 17,
            Buttons::Restart => 18,
            Buttons::Erase => 19,
            Buttons::Tap => 20,
            Buttons::Follow => 21,
            Buttons::Play => 22,
            Buttons::Rec => 23,
            Buttons::Stop => 24,
            Buttons::Shift => 25,
            Buttons::FixedVol => 26,
            Buttons::PadMode => 27,
            Buttons::Keyboard => 28,
            Buttons::Chords => 29,
            Buttons::Step => 30,
            Buttons::Scene => 31,
            Buttons::Pattern => 32,
            Buttons::Events => 33,
            Buttons::Variation => 34,
            Buttons::Duplicate => 35,
            Buttons::Select => 36,
            Buttons::Solo => 37,
            Buttons::Mute => 38,
            Buttons::EncoderPress => 39,
            Buttons::EncoderTouch => 40,
        }
    }

    /// The button whose index is `n`, if there is one.
    pub open spec fn with_index(n: nat) -> Option<Buttons> {
        if n == 0 {
            Some(Buttons::Maschine)
        } else if n == 1 {
            Some(Buttons::Star)
        } else if n == 2 {
            Some(Buttons::Browse)
        } else if n == 3 {
            Some(Buttons::Volume)
        } else if n == 4 {
            Some(Buttons::Swing)
        } else if n == 5 {
            Some(Buttons::Tempo)
        } else if n == 6 {
            Some(Buttons::Plugin)
        } else if n == 7 {
            Some(Buttons::Sampling)
        } else if n == 8 {
            Some(Buttons::Left)
        } else if n == 9 {
            Some(Buttons::Right)
        } else if n == 10 {
            Some(Buttons::Pitch)
        } else if n == 11 {
            Some(Buttons::Mod)
        } else if n == 12 {
            Some(Buttons::Perform)
        } else if n == 13 {
            Some(Buttons::Notes)
        } else if n == 14 {
            Some(Buttons::Group)
        } else if n == 15 {
            Some(Buttons::Auto)
        } else if n == 16 {
            Some(Buttons::Lock)
        } else if n == 17 {
            Some(Buttons::NoteRepeat)
        } else if n == 18 {
            Some(Buttons::Restart)
        } else if n == 19 {
            Some(Buttons::Erase)
        } else if n == 20 {
            Some(Buttons::Tap)
        } else if n == 21 {
            Some(Buttons::Follow)
        } else if n == 22 {
            Some(Buttons::Play)
        } else if n == 23 {
            Some(Buttons::Rec)
        } else if n == 24 {
            Some(Buttons::Stop)
        } else if n == 25 {
            Some(Buttons::Shift)
        } else if n == 26 {
            Some(Buttons::FixedVol)
        } else if n == 27 {
            Some(Buttons::PadMode)
        } else if n == 28 {
            Some(Buttons::Keyboard)
        } else if n == 29 {
            Some(Buttons::Chords)
        } else if n == 30 {
            Some(Buttons::Step)
        } else if n == 31 {
            Some(Buttons::Scene)
        } else if n == 32 {
            Some(Buttons::Pattern)
        } else if n == 33 {
            Some(Buttons::Events)
        } else if n == 34 {
            Some(Buttons::Variation)
        } else if n == 35 {
            Some(Buttons::Duplicate)
        } else if n == 36 {
            Some(Buttons::Select)
        } else if n == 37 {
            Some(Buttons::Solo)
        } else if n == 38 {
            Some(Buttons::Mute)
        } else if n == 39 {
            Some(Buttons::EncoderPress)
        } else if n == 40 {
            Some(Buttons::EncoderTouch)
        } else {
            None
        }
    }

    /// Returns the button's index in a button report.
    pub fn to_usize(self) -> (r: usize)
        ensures
            r == self.index(),
            r < 41,
    {
        match self {
            Buttons::Maschine => 0,
            Buttons::Star => 1,
            Buttons::Browse => 2,
            Buttons::Volume => 3,
            Buttons::Swing => 4,
            Buttons::Tempo => 5,
            Buttons::Plugin => 6,
            Buttons::Sampling => 7,
            Buttons::Left => 8,
            Buttons::Right => 9,
            Buttons::Pitch => 10,
            Buttons::Mod => 11,
            Buttons::Perform => 12,
            Buttons::Notes => 13,
            Buttons::Group => 14,
            Buttons::Auto => 15,
            Buttons::Lock => 16,
            Buttons::NoteRepeat => 17,
            Buttons::Restart => 18,
            Buttons::Erase => 19,
            Buttons::Tap => 20,
            Buttons::Follow => 21,
            Buttons::Play => 22,
            Buttons::Rec => 23,
            Buttons::Stop => 24,
            Buttons::Shift => 25,
            Buttons::FixedVol => 26,
            Buttons::PadMode => 27,
            Buttons::Keyboard => 28,
            Buttons::Chords => 29,
            Buttons::Step => 30,
            Buttons::Scene => 31,
            Buttons::Pattern => 32,
            Buttons::Events => 33,
            Buttons::Variation => 34,
            Buttons::Duplicate => 35,
            Buttons::Select => 36,
            Buttons::Solo => 37,
            Buttons::Mute => 38,
            Buttons::EncoderPress => 39,
            Buttons::EncoderTouch => 40,
        }
    }

    /// Returns the button with index `n`, or `None` where no button has that index.
    pub fn from_usize(n: usize) -> (r: Option<Buttons>)
        ensures
            r == Buttons::with_index(n as nat),
    {
        match n {
            0 => Some(Buttons::Maschine),
            1 => Some(Buttons::Star),
            2 => Some(Buttons::Browse),
            3 => Some(Buttons::Volume),
            4 => Some(Buttons::Swing),
            5 => Some(Buttons::Tempo),
            6 => Some(Buttons::Plugin),
            7 => Some(Buttons::Sampling),
            8 => Some(Buttons::Left),
            9 => Some(Buttons::Right),
            10 => Some(Buttons::Pitch),
            11 => Some(Buttons::Mod),
            12 => Some(Buttons::Perform),
            13 => Some(Buttons::Notes),
            14 => Some(Buttons::Group),
            15 => Some(Buttons::Auto),
            16 => Some(Buttons::Lock),
            17 => Some(Buttons::NoteRepeat),
            18 => Some(Buttons::Restart),
            19 => Some(Buttons::Erase),
            20 => Some(Buttons::Tap),
            21 => Some(Buttons::Follow),
            22 => Some(Buttons::Play),
            23 => Some(Buttons::Rec),
            24 => Some(Buttons::Stop),
            25 => Some(Buttons::Shift),
            26 => Some(Buttons::FixedVol),
            27 => Some(Buttons::PadMode),
            28 => Some(Buttons::Keyboard),
            29 => Some(Buttons::Chords),
            30 => Some(Buttons::Step),
            31 => Some(Buttons::Scene),
            32 => Some(Buttons::Pattern),
            33 => Some(Buttons::Events),
            34 => Some(Buttons::Variation),
            35 => Some(Buttons::Duplicate),
            36 => Some(Buttons::Select),
            37 => Some(Buttons::Solo),
            38 => Some(Buttons::Mute),
            39 => Some(Buttons::EncoderPress),
            40 => Some(Buttons::EncoderTouch),
            _ => None,
        }
    }
}
/// Every button has an index below `Buttons::count()`, and the index names it back.
pub proof fn lemma_button_index_roundtrip(b: Buttons)
    ensures
        b.index() < Buttons::count(),
        Buttons::with_index(b.index()) == Some(b),
{
}

/// Exactly the indices below `Buttons::count()` name a button, and the button so named has
/// that index.
pub proof fn lemma_button_with_index(n: nat)
    ensures
        Buttons::with_index(n) is Some <==> n < Buttons::count(),
        Buttons::with_index(n) matches Some(b) ==> b.index() == n,
{
}

/// The kind of a pad event, as carried in the high nibble of an event's second byte.
#[derive(Clone, Copy, Debug, PartialEq, Eq, Structural)]
pub enum PadEventType {
    NoteOn,
    NoteOff,
    Aftertouch,
    PressOff,
    PressOn,
}

impl PadEventType {
    /// The event's code: the second byte of a pad event with its low nibble cleared.
    pub open spec fn code(self) -> u8 {
        match self {
            PadEventType::NoteOn => 0x10,
            PadEventType::NoteOff => 0x30,
            PadEventType::Aftertouch => 0x40,
            PadEventType::PressOff => 0x20,
            PadEventType::PressOn => 0x00,
        }
    }

    /// The event type whose code is `c`, if there is one.
    pub open spec fn with_code(c: u8) -> Option<PadEventType> {
        if c == 0x10 {
            Some(PadEventType::NoteOn)
        } else if c == 0x30 {
            Some(PadEventType::NoteOff)
        } else if c == 0x40 {
            Some(PadEventType::Aftertouch)
        } else if c == 0x20 {
            Some(PadEventType::PressOff)
        } else if c == 0x00 {
            Some(PadEventType::PressOn)
        } else {
            None
        }
    }

    /// Returns the event's code.
    pub fn to_u8(self) -> (r: u8)
        ensures
            r == self.code(),
    {
        match self {
            PadEventType::NoteOn => 0x10,
            PadEventType::NoteOff => 0x30,
            PadEventType::Aftertouch => 0x40,
            PadEventType::PressOff => 0x20,
            PadEventType::PressOn => 0x00,
        }
    }

    /// Returns the event type with code `c`, or `None` where no event type has that code.
    pub fn from_u8(c: u8) -> (r: Option<PadEventType>)
        ensures
            r == PadEventType::with_code(c),
    {
        match c {
            0x10 => Some(PadEventType::NoteOn),
            0x30 => Some(PadEventType::NoteOff),
            0x40 => Some(PadEventType::Aftertouch),
            0x20 => Some(PadEventType::PressOff),
            0x00 => Some(PadEventType::PressOn),
            _ => None,
        }
    }
}

/// A pad event type's code names it back, and a code names at most one event type.
pub proof fn lemma_pad_event_code_roundtrip(e: PadEventType, c: u8)
    ensures
        PadEventType::with_code(e.code()) == Some(e),
        PadEventType::with_code(c) matches Some(f) ==> f.code() == c,
{
}

} // verus!
