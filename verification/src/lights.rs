use vstd::prelude::*;
use crate::controls::Buttons;

verus! {

/// The four brightness levels of a light, with the byte that the device takes for each.
#[derive(Clone, Copy, Debug, PartialEq, Eq, Structural)]
pub enum Brightness {
    Off,
    Dim,
    Normal,
    Bright,
}

impl Brightness {
    /// The byte that sets a button or slider light to this brightness.
    pub open spec fn code(self) -> u8 {
        match self {
            Brightness::Off => 0x00,
            Brightness::Dim => 0x7c,
            Brightness::Normal => 0x7e,
            Brightness::Bright => 0x7f,
        }
    }

    /// The brightness whose byte is `c`, if there is one.
    pub open spec fn with_code(c: u8) -> Option<Brightness> {
        if c == 0x00 {
            Some(Brightness::Off)
        } else if c == 0x7c {
            Some(Brightness::Dim)
        } else if c == 0x7e {
            Some(Brightness::Normal)
        } else if c == 0x7f {
            Some(Brightness::Bright)
        } else {
            None
        }
    }

    /// Returns the brightness's byte.
    pub fn to_u8(self) -> (r: u8)
        ensures
            r == self.code(),
    {
        match self {
            Brightness::Off => 0x00,
            Brightness::Dim => 0x7c,
            Brightness::Normal => 0x7e,
            Brightness::Bright => 0x7f,
        }
    }

    /// Returns the brightness whose byte is `c`, or `None` where no brightness has that byte.
    pub fn from_u8(c: u8) -> (r: Option<Brightness>)
        ensures
            r == Brightness::with_code(c),
    {
        match c {
            0x00 => Some(Brightness::Off),
            0x7c => Some(Brightness::Dim),
            0x7e => Some(Brightness::Normal),
            0x7f => Some(Brightness::Bright),
            _ => None,
        }
    }
}

/// A brightness's byte names it back, and a byte names at most one brightness.
pub proof fn lemma_brightness_code_roundtrip(b: Brightness, c: u8)
    ensures
        Brightness::with_code(b.code()) == Some(b),
        Brightness::with_code(c) matches Some(d) ==> d.code() == c,
{
}

/// The colours a pad light can show.
#[derive(Clone, Copy, Debug, PartialEq, Eq, Structural)]
pub enum PadColors {
    Off,
    Red,
    Orange,
    LightOrange,
    WarmYellow,
    Yellow,
    Lime,
    Green,
    Mint,
    Cyan,
    Turquoise,
    Blue,
    Plum,
    Violet,
    Purple,
    Magenta,
    Fuchsia,
    White,
}

impl PadColors {
    /// The colour's number, as the upper six bits of a pad's light byte hold it.
    pub open spec fn code(self) -> u8 {
        match self {
            PadColors::Off => 0,
            PadColors::Red => 1,
            PadColors::Orange => 2,
            PadColors::LightOrange => 3,
            PadColors::WarmYellow => 4,
            PadColors::Yellow => 5,
            PadColors::Lime => 6,
            PadColors::Green => 7,
            PadColors::Mint => 8,
            PadColors::Cyan => 9,
            PadColors::Turquoise => 10,
            PadColors::Blue => 11,
            PadColors::Plum => 12,
            PadColors::Violet => 13,
            PadColors::Purple => 14,
            PadColors::Magenta => 15,
            PadColors::Fuchsia => 16,
            PadColors::White => 17,
        }
    }

    /// The colour numbered `n`, if there is one.
    pub open spec fn with_code(n: nat) -> Option<PadColors> {
        if n == 0 {
            Some(PadColors::Off)
        } else if n == 1 {
            Some(PadColors::Red)
        } else if n == 2 {
            Some(PadColors::Orange)
        } else if n == 3 {
            Some(PadColors::LightOrange)
        } else if n == 4 {
            Some(PadColors::WarmYellow)
        } else if n == 5 {
            Some(PadColors::Yellow)
        } else if n == 6 {
            Some(PadColors::Lime)
        } else if n == 7 {
            Some(PadColors::Green)
        } else if n == 8 {
            Some(PadColors::Mint)
        } else if n == 9 {
            Some(PadColors::Cyan)
        } else if n == 10 {
            Some(PadColors::Turquoise)
        } else if n == 11 {
            Some(PadColors::Blue)
        } else if n == 12 {
            Some(PadColors::Plum)
        } else if n == 13 {
            Some(PadColors::Violet)
        } else if n == 14 {
            Some(PadColors::Purple)
        } else if n == 15 {
            Some(PadColors::Magenta)
        } else if n == 16 {
            Some(PadColors::Fuchsia)
        } else if n == 17 {
            Some(PadColors::White)
        } else {
            None
        }
    }

    /// Returns the colour's number.
    pub fn to_u8(self) -> (r: u8)
        ensures
            r == self.code(),
            r < 18,
    {
        match self {
            PadColors::Off => 0,
            PadColors::Red => 1,
            PadColors::Orange => 2,
            PadColors::LightOrange => 3,
            PadColors::WarmYellow => 4,
            PadColors::Yellow => 5,
            PadColors::Lime => 6,
            PadColors::Green => 7,
            PadColors::Mint => 8,
            PadColors::Cyan => 9,
            PadColors::Turquoise => 10,
            PadColors::Blue => 11,
            PadColors::Plum => 12,
            PadColors::Violet => 13,
            PadColors::Purple => 14,
            PadColors::Magenta => 15,
            PadColors::Fuchsia => 16,
            PadColors::White => 17,
        }
    }

    /// Returns the colour numbered `n`, or `None` where no colour has that number.
    pub fn from_usize(n: usize) -> (r: Option<PadColors>)
        ensures
            r == PadColors::with_code(n as nat),
    {
        match n {
            0 => Some(PadColors::Off),
            1 => Some(PadColors::Red),
            2 => Some(PadColors::Orange),
            3 => Some(PadColors::LightOrange),
            4 => Some(PadColors::WarmYellow),
            5 => Some(PadColors::Yellow),
            6 => Some(PadColors::Lime),
            7 => Some(PadColors::Green),
            8 => Some(PadColors::Mint),
            9 => Some(PadColors::Cyan),
            10 => Some(PadColors::Turquoise),
            11 => Some(PadColors::Blue),
            12 => Some(PadColors::Plum),
            13 => Some(PadColors::Violet),
            14 => Some(PadColors::Purple),
            15 => Some(PadColors::Magenta),
            16 => Some(PadColors::Fuchsia),
            17 => Some(PadColors::White),
            _ => None,
        }
    }
}
/// Every colour's number is below 18 and names it back; exactly the numbers below 18 name a
/// colour.
pub proof fn lemma_pad_color_code_roundtrip(c: PadColors, n: nat)
    ensures
        c.code() < 18,
        PadColors::with_code(c.code() as nat) == Some(c),
        PadColors::with_code(n) is Some <==> n < 18,
        PadColors::with_code(n) matches Some(d) ==> d.code() == n,
{
}

/// The state of all of the controller's lights, one byte per light, in the order in which
/// the device takes them.
pub struct Lights {
    status: [u8; 80],
}

impl View for Lights {
    type V = Seq<u8>;

    closed spec fn view(&self) -> Seq<u8> {
        self.status@
    }
}

impl Lights {
    /// All light bytes zero: every light off.
    pub open spec fn all_off() -> Seq<u8> {
        Seq::new(80, |i: int| 0u8)
    }

    /// The byte that a pad light holds for colour `c` at brightness `b`: zero when `b` is
    /// off, else the colour's number in the upper six bits and the low two bits of the
    /// brightness's byte below them.
    pub open spec fn pad_code(c: PadColors, b: Brightness) -> u8 {
        if b == Brightness::Off {
            0
        } else {
            (c.code() * 4 + b.code() % 4) as u8
        }
    }

    /// The colour that a pad light byte `v` shows, if its upper six bits name one.
    pub open spec fn pad_color_of(v: u8) -> Option<PadColors> {
        PadColors::with_code((v / 4) as nat)
    }

    /// The brightness that a pad light byte `v` shows: off below 4, else given by its low
    /// two bits (both 0 and 1 read as dim).
    pub open spec fn pad_brightness_of(v: u8) -> Brightness {
        if v <= 3 {
            Brightness::Off
        } else if v % 4 == 0 || v % 4 == 1 {
            Brightness::Dim
        } else if v % 4 == 2 {
            Brightness::Normal
        } else {
            Brightness::Bright
        }
    }

    /// Whether button `id` has a light: all but the encoder's press and touch.
    pub open spec fn has_light(id: Buttons) -> bool {
        !(id == Buttons::EncoderTouch || id == Buttons::EncoderPress)
    }

    /// The light bytes hold what the report handlers read: a brightness byte for every
    /// button that has a light, and a pad byte that names a colour for every pad.
    pub open spec fn ready(s: Seq<u8>) -> bool {
        &&& s.len() == 80
        &&& forall|k: int| 0 <= k < 39 ==> (#[trigger] Brightness::with_code(s[k])) is Some
        &&& forall|p: int|
            0 <= p < 16 ==> (#[trigger] Lights::pad_color_of(s[39 + p])) is Some
    }

    /// The light state always holds one byte per light.
    pub proof fn lemma_view_len(&self)
        ensures
            self@.len() == 80,
    {
    }

    /// Creates the state with every light off.
    pub fn new() -> (l: Lights)
        ensures
            l@ == Lights::all_off(),
    {
        let l = Lights { status: [0u8; 80] };
        assert(l@ =~= Lights::all_off());
        l
    }

    /// Turns every light off.
    pub fn reset(&mut self)
        ensures
            final(self)@ == Lights::all_off(),
    {
        let mut i: usize = 0;
        while i < 80
            invariant
                i <= 80,
                self@.len() == 80,
                forall|k: int| 0 <= k < i ==> self@[k] == 0,
            decreases 80 - i,
        {
            self.status[i] = 0;
            i = i + 1;
        }
        assert(self@ =~= Lights::all_off());
    }

    /// Returns the brightness of button `id`'s light. The byte there must be a brightness
    /// byte, which holds for every button that has a light in a state that is `ready`.
    pub fn get_button(&self, id: Buttons) -> (r: Brightness)
        requires
            Brightness::with_code(self@[id.index() as int]) is Some,
        ensures
            Some(r) == Brightness::with_code(self@[id.index() as int]),
    {
        let i = id.to_usize();
        Brightness::from_u8(self.status[i]).unwrap()
    }

    /// Whether button `id` has a light: all but the encoder's press and touch.
    pub fn button_has_light(&self, id: Buttons) -> (r: bool)
        ensures
            r == Lights::has_light(id),
    {
        !(id == Buttons::EncoderTouch || id == Buttons::EncoderPress)
    }

    /// Sets button `id`'s light to brightness `b`, leaving every other byte as it was.
    pub fn set_button(&mut self, id: Buttons, b: Brightness)
        ensures
            final(self)@ == old(self)@.update(id.index() as int, b.code()),
    {
        let i = id.to_usize();
        self.status[i] = b.to_u8();
    }

    /// Sets slider segment `id`'s light to brightness `b`, leaving every other byte as it
    /// was. The segment's byte must lie within the light state.
    pub fn set_slider(&mut self, id: usize, b: Brightness)
        requires
            id < 25,
        ensures
            final(self)@ == old(self)@.update(55 + id, b.code()),
    {
        self.status[55 + id] = b.to_u8();
    }

    /// Sets pad `id`'s light to colour `c` at brightness `b` (to zero when `b` is off),
    /// leaving every other byte as it was. The pad's byte must lie within the light state.
    pub fn set_pad(&mut self, id: usize, c: PadColors, b: Brightness)
        requires
            id < 41,
        ensures
            final(self)@ == old(self)@.update(39 + id, Lights::pad_code(c, b)),
    {
        let val: u8 = match b {
            Brightness::Off => 0,
            _ => {
                let c = c.to_u8();
                let b = b.to_u8();
                assert((c << 2u8) == c * 4) by (bit_vector)
                    requires
                        c < 18,
                ;
                assert((b & 3u8) == b % 4) by (bit_vector);
                (c << 2u8) + (b & 0b11u8)
            },
        };
        self.status[39 + id] = val;
    }

    /// Returns the colour and brightness of pad `id`'s light. The pad's byte must lie within
    /// the light state, and its upper six bits must name a colour.
    pub fn get_pad(&self, id: usize) -> (r: (PadColors, Brightness))
        requires
            id < 41,
            Lights::pad_color_of(self@[39 + id]) is Some,
        ensures
            Some(r.0) == Lights::pad_color_of(self@[39 + id]),
            r.1 == Lights::pad_brightness_of(self@[39 + id]),
    {
        let val = self.status[39 + id];
        assert(val >> 2u8 == val / 4) by (bit_vector);
        let color: PadColors = PadColors::from_usize((val >> 2u8) as usize).unwrap();
        let b = match val {
            0..=3 => Brightness::Off,
            _ => match val % 4 {
                0 => Brightness::Dim,
                1 => Brightness::Dim,
                2 => Brightness::Normal,
                3 => Brightness::Bright,
                _ => Brightness::Off,
            },
        };
        (color, b)
    }

    /// The bytes of the report that sets all lights: the report id 0x80, then every light
    /// byte in order.
    pub fn report(&self) -> (r: Vec<u8>)
        ensures
            r@ == seq![0x80u8] + self@,
    {
        let mut r: Vec<u8> = Vec::new();
        r.push(0x80);
        let mut i: usize = 0;
        while i < 80
            invariant
                i <= 80,
                self@.len() == 80,
                r@ == seq![0x80u8] + self@.subrange(0, i as int),
            decreases 80 - i,
        {
            r.push(self.status[i]);
            i = i + 1;
            assert(r@ =~= seq![0x80u8] + self@.subrange(0, i as int));
        }
        assert(self@.subrange(0, 80) =~= self@);
        r
    }
}

/// What a pad light reads back after it was set: the colour and brightness that were
/// written, except that a pad set to brightness off, or to the colour off, reads as off in
/// both.
pub proof fn lemma_pad_set_then_get(c: PadColors, b: Brightness)
    ensures
        Lights::pad_color_of(Lights::pad_code(c, b)) is Some,
        (b != Brightness::Off && c != PadColors::Off) ==> {
            &&& Lights::pad_color_of(Lights::pad_code(c, b)) == Some(c)
            &&& Lights::pad_brightness_of(Lights::pad_code(c, b)) == b
        },
        (b == Brightness::Off || c == PadColors::Off) ==> {
            &&& Lights::pad_color_of(Lights::pad_code(c, b)) == Some(PadColors::Off)
            &&& Lights::pad_brightness_of(Lights::pad_code(c, b)) == Brightness::Off
        },
{
}

/// What a button light reads back after it was set: the brightness that was written;
/// every other light byte is untouched.
pub proof fn lemma_button_set_then_get(s: Seq<u8>, id: Buttons, b: Brightness, other: int)
    requires
        s.len() == 80,
        0 <= other < 80,
        other != id.index(),
    ensures
        Brightness::with_code(s.update(id.index() as int, b.code())[id.index() as int]) == Some(b),
        s.update(id.index() as int, b.code())[other] == s[other],
{
}

/// The state with every light off reads off everywhere: each button reads off, each pad
/// reads colour off at brightness off, and the state is `ready`.
pub proof fn lemma_all_off_reads_off(id: Buttons, p: int)
    requires
        0 <= p < 41,
    ensures
        Brightness::with_code(Lights::all_off()[id.index() as int]) == Some(Brightness::Off),
        Lights::pad_color_of(Lights::all_off()[39 + p]) == Some(PadColors::Off),
        Lights::pad_brightness_of(Lights::all_off()[39 + p]) == Brightness::Off,
        Lights::ready(Lights::all_off()),
{
    crate::controls::lemma_button_index_roundtrip(id);
}

/// Setting a button that has a light, a pad, or a slider segment keeps a `ready` state
/// `ready`.
pub proof fn lemma_ready_preserved(s: Seq<u8>, id: Buttons, b: Brightness, p: int, c: PadColors, q: int)
    requires
        Lights::ready(s),
        0 <= p < 16,
        0 <= q < 25,
    ensures
        Lights::has_light(id) ==> Lights::ready(s.update(id.index() as int, b.code())),
        Lights::ready(s.update(39 + p, Lights::pad_code(c, b))),
        Lights::ready(s.update(55 + q, b.code())),
{
    crate::controls::lemma_button_index_roundtrip(id);
    lemma_pad_set_then_get(c, b);
    if Lights::has_light(id) {
        assert(id.index() < 39);
    }
}

} // verus!
