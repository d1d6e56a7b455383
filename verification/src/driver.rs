use vstd::prelude::*;
use crate::controls::{Buttons, PadEventType};
use crate::lights::{Brightness, Lights, PadColors};
use crate::midi::{NoteMessage, note_bytes, write_live_note};

verus! {

// ---------------------------------------------------------------------------------------
// Button reports
// ---------------------------------------------------------------------------------------

/// Whether a button report `buf` shows the button with index `k` pressed: bit `k % 8` of
/// byte `k / 8 + 1`.
pub open spec fn button_pressed(buf: Seq<u8>, k: int) -> bool {
    buf[k / 8 + 1] & (1u8 << ((k % 8) as u8)) > 0
}

/// The buttons among the first `n` indices that report `buf` shows pressed, by index.
pub open spec fn pressed_buttons(buf: Seq<u8>, n: nat) -> Seq<Buttons>
    decreases n,
{
    if n == 0 {
        Seq::empty()
    } else {
        let earlier = pressed_buttons(buf, (n - 1) as nat);
        if (n - 1) < Buttons::count() && button_pressed(buf, n - 1) {
            earlier.push(Buttons::with_index((n - 1) as nat).unwrap())
        } else {
            earlier
        }
    }
}

/// The byte of a button light that showed byte `old` once the button is seen `pressed`: a
/// pressed button whose light is off turns normal, a released button whose light is on turns
/// off, any other light stays as it was.
pub open spec fn button_light_after(old: u8, pressed: bool) -> u8 {
    let lit = Brightness::with_code(old) != Some(Brightness::Off);
    if pressed && !lit {
        Brightness::Normal.code()
    } else if !pressed && lit {
        Brightness::Off.code()
    } else {
        old
    }
}

/// The light bytes `s` once every button that has a light follows report `buf`.
pub open spec fn buttons_follow(s: Seq<u8>, buf: Seq<u8>) -> Seq<u8> {
    Seq::new(
        s.len(),
        |k: int|
            if k < 39 {
                button_light_after(s[k], button_pressed(buf, k))
            } else {
                s[k]
            },
    )
}

/// The slider position that a slider value in 1..=255 lights up to (from -1 to 31).
pub open spec fn slider_level(slider: u8) -> int {
    (slider as int + 4) * 25 / 200 - 1
}

/// The brightness of slider segment `i` for slider value `slider`: normal at the slider's
/// level, dim below it, off above it.
pub open spec fn slider_segment(slider: u8, i: int) -> Brightness {
    let d = slider_level(slider) - i;
    if d == 0 {
        Brightness::Normal
    } else if 1 <= d <= 25 {
        Brightness::Dim
    } else {
        Brightness::Off
    }
}

/// The light bytes `s` with the slider segments showing slider value `slider`.
pub open spec fn slider_shown(s: Seq<u8>, slider: u8) -> Seq<u8> {
    Seq::new(
        s.len(),
        |k: int|
            if 55 <= k < 80 {
                slider_segment(slider, k - 55).code()
            } else {
                s[k]
            },
    )
}

/// The light bytes `s` after button report `buf`: the buttons follow the report, and a
/// touched slider (a nonzero byte 10) is shown on the slider segments.
pub open spec fn button_report_lights(s: Seq<u8>, buf: Seq<u8>) -> Seq<u8> {
    if buf[10] != 0 {
        slider_shown(buttons_follow(s, buf), buf[10])
    } else {
        buttons_follow(s, buf)
    }
}

/// Whether button report `buf` changes a light of `s` or touches the slider.
pub open spec fn button_report_changes(s: Seq<u8>, buf: Seq<u8>) -> bool {
    buttons_follow(s, buf) != s || buf[10] != 0
}

/// What a button report leaves to be printed and sent.
pub struct ButtonOutcome {
    /// The pressed buttons, by index.
    pub pressed: Vec<Buttons>,
    /// The encoder's position.
    pub encoder: u8,
    /// The slider's value; zero where the slider is not touched.
    pub slider: u8,
    /// Whether a light changed, so that the lights must be sent again.
    pub changed: bool,
}

/// Returns whether report `buf` shows the button with index `k` pressed.
fn read_button(buf: &[u8; 64], k: usize) -> (r: bool)
    requires
        k < 48,
    ensures
        r == button_pressed(buf@, k as int),
{
    let i = k / 8;
    let j = (k % 8) as u8;
    buf[i + 1] & (1u8 << j) > 0
}

/// Returns the brightness of slider segment `i` for slider value `slider`.
pub fn slider_segment_brightness(slider: u8, i: usize) -> (b: Brightness)
    requires
        i < 25,
    ensures
        b == slider_segment(slider, i as int),
{
    let cnt: i32 = (((slider as u32 + 4) * 25 / 200) as i32) - 1;
    let d: i32 = cnt - i as i32;
    match d {
        0 => Brightness::Normal,
        1..=25 => Brightness::Dim,
        _ => Brightness::Off,
    }
}

impl Lights {
    /// Makes the light of button `id` follow whether it is `pressed` (see
    /// `button_light_after`); returns whether the light changed. Buttons without a light are
    /// left alone.
    pub fn follow_button(&mut self, id: Buttons, pressed: bool) -> (changed: bool)
        requires
            Lights::ready(old(self)@),
        ensures
            Lights::ready(final(self)@),
            Lights::has_light(id) ==> final(self)@ == old(self)@.update(
                id.index() as int,
                button_light_after(old(self)@[id.index() as int], pressed),
            ),
            !Lights::has_light(id) ==> final(self)@ == old(self)@,
            changed == (final(self)@ != old(self)@),
    {
        proof {
            self.lemma_view_len();
            crate::controls::lemma_button_index_roundtrip(id);
        }
        if self.button_has_light(id) {
            assert(id.index() < 39);
            let light_status = self.get_button(id) != Brightness::Off;
            if pressed != light_status {
                let b = if pressed {
                    Brightness::Normal
                } else {
                    Brightness::Off
                };
                self.set_button(id, b);
                proof {
                    crate::lights::lemma_ready_preserved(
                        old(self)@,
                        id,
                        b,
                        0,
                        PadColors::Off,
                        0,
                    );
                    assert(old(self)@[id.index() as int] != b.code());
                    assert(self@[id.index() as int] != old(self)@[id.index() as int]);
                }
                return true;
            }
            assert(old(self)@.update(id.index() as int, old(self)@[id.index() as int])
                =~= old(self)@);
        }
        false
    }

    /// Shows slider value `slider` on the slider segments (see `slider_segment`).
    pub fn show_slider(&mut self, slider: u8)
        requires
            Lights::ready(old(self)@),
        ensures
            Lights::ready(final(self)@),
            final(self)@ == slider_shown(old(self)@, slider),
    {
        proof {
            self.lemma_view_len();
        }
        let mut i: usize = 0;
        while i < 25
            invariant
                i <= 25,
                Lights::ready(self@),
                self@.len() == 80,
                forall|k: int|
                    0 <= k < 80 ==> #[trigger] self@[k] == (if 55 <= k < 55 + i {
                        slider_segment(slider, k - 55).code()
                    } else {
                        old(self)@[k]
                    }),
            decreases 25 - i,
        {
            let b = slider_segment_brightness(slider, i);
            proof {
                crate::lights::lemma_ready_preserved(
                    self@,
                    Buttons::Maschine,
                    b,
                    0,
                    PadColors::Off,
                    i as int,
                );
            }
            self.set_slider(i, b);
            i = i + 1;
        }
        assert(self@ =~= slider_shown(old(self)@, slider));
    }

    /// Handles a button report `buf` (one whose first byte is 1): every button that has a
    /// light follows whether the report shows it pressed, and a touched slider (a nonzero
    /// byte 10) is shown on the slider segments. Returns the pressed buttons, the encoder
    /// (byte 7), the slider value (byte 10), and whether a light changed.
    pub fn handle_button_report(&mut self, buf: &[u8; 64]) -> (r: ButtonOutcome)
        requires
            Lights::ready(old(self)@),
        ensures
            Lights::ready(final(self)@),
            r.pressed@ == pressed_buttons(buf@, 48),
            r.encoder == buf@[7],
            r.slider == buf@[10],
            final(self)@ == button_report_lights(old(self)@, buf@),
            r.changed == button_report_changes(old(self)@, buf@),
    {
        proof {
            self.lemma_view_len();
        }
        let mut pressed: Vec<Buttons> = Vec::new();
        let mut changed = false;
        let mut idx: usize = 0;
        while idx < 48
            invariant
                idx <= 48,
                Lights::ready(self@),
                self@.len() == 80,
                pressed@ == pressed_buttons(buf@, idx as nat),
                old(self)@.len() == 80,
                forall|k: int|
                    0 <= k < 80 ==> #[trigger] self@[k] == (if k < 39 && k < idx {
                        button_light_after(old(self)@[k], button_pressed(buf@, k))
                    } else {
                        old(self)@[k]
                    }),
                changed == (exists|k: int|
                    0 <= k < 39 && k < idx && #[trigger] self@[k] != old(self)@[k]),
            decreases 48 - idx,
        {
            let button = Buttons::from_usize(idx);
            proof {
                crate::controls::lemma_button_with_index(idx as nat);
            }
            match button {
                Some(button) => {
                    let status = read_button(buf, idx);
                    if status {
                        pressed.push(button);
                    }
                    let ghost before = self@;
                    let c = self.follow_button(button, status);
                    proof {
                        if !Lights::has_light(button) {
                            assert(self@ == before);
                        }
                        if c {
                            assert(button.index() == idx);
                            assert(idx < 39);
                            if self@[idx as int] == before[idx as int] {
                                assert(self@ =~= before);
                            }
                            assert(before[idx as int] == old(self)@[idx as int]);
                        } else {
                            assert(self@ == before);
                        }
                    }
                    if c {
                        changed = true;
                    }
                },
                None => {},
            }
            idx = idx + 1;
        }
        let ghost followed = self@;
        assert(followed =~= buttons_follow(old(self)@, buf@));
        assert(changed == (followed != old(self)@)) by {
            if changed {
                let k = choose|k: int| 0 <= k < 39 && k < 48 && #[trigger] followed[k] != old(self)@[k];
                assert(followed[k] != old(self)@[k]);
            } else {
                assert(followed =~= old(self)@);
            }
        }
        let encoder = buf[7];
        let slider = buf[10];
        if slider != 0 {
            self.show_slider(slider);
            changed = true;
        }
        ButtonOutcome { pressed, encoder, slider, changed }
    }
}

// ---------------------------------------------------------------------------------------
// Pad reports
// ---------------------------------------------------------------------------------------

/// Number of three-byte pad entries that fit in a 64-byte pad report after its first byte.
pub open spec fn pad_slots() -> nat {
    21
}

/// The pad of entry `k` of pad report `buf`.
pub open spec fn entry_pad(buf: Seq<u8>, k: int) -> u8 {
    buf[1 + 3 * k]
}

/// The event code of entry `k`: the high nibble of its second byte.
pub open spec fn entry_code(buf: Seq<u8>, k: int) -> u8 {
    buf[2 + 3 * k] & 0xf0u8
}

/// The pressure value of entry `k`: the low nibble of its second byte above its third byte.
pub open spec fn entry_value(buf: Seq<u8>, k: int) -> u16 {
    ((buf[2 + 3 * k] % 16) as int * 256 + buf[3 + 3 * k]) as u16
}

/// Whether entry `k` ends the report: an all-zero entry other than the first.
pub open spec fn entry_ends(buf: Seq<u8>, k: int) -> bool {
    k >= 1 && entry_pad(buf, k) == 0 && entry_code(buf, k) == 0 && entry_value(buf, k) == 0
}

/// Number of entries of report `buf` from entry `k` on that come before its end.
pub open spec fn entry_count_from(buf: Seq<u8>, k: nat) -> nat
    decreases pad_slots() - k,
{
    if k >= pad_slots() {
        pad_slots()
    } else if entry_ends(buf, k as int) {
        k
    } else {
        entry_count_from(buf, k + 1)
    }
}

/// Number of entries that pad report `buf` holds: those before its first all-zero entry
/// other than the first, or all 21.
pub open spec fn entry_count(buf: Seq<u8>) -> nat {
    entry_count_from(buf, 0)
}

/// Whether the driver can handle entry `k` with pad notes `notemaps`: its event code names
/// an event type, and its pad is one of the 16 pads.
pub open spec fn entry_supported(buf: Seq<u8>, notemaps: Seq<u8>, k: int) -> bool {
    &&& PadEventType::with_code(entry_code(buf, k)) is Some
    &&& entry_pad(buf, k) < 16
    &&& entry_pad(buf, k) < notemaps.len()
}

/// Whether the driver can handle every entry of report `buf` from entry `k` on.
pub open spec fn supported_from(buf: Seq<u8>, notemaps: Seq<u8>, k: nat) -> bool
    decreases pad_slots() - k,
{
    if k >= pad_slots() {
        true
    } else if entry_ends(buf, k as int) {
        true
    } else {
        entry_supported(buf, notemaps, k as int) && supported_from(buf, notemaps, k + 1)
    }
}

/// Whether the driver can handle every entry of pad report `buf` with pad notes `notemaps`.
pub open spec fn pad_report_supported(buf: Seq<u8>, notemaps: Seq<u8>) -> bool {
    supported_from(buf, notemaps, 0)
}

/// The brightness that a pad's light takes on event `e` with pressure `val`: normal on a
/// note or press, off on a release, and on aftertouch normal while pressure remains.
pub open spec fn pad_target(e: PadEventType, val: u16) -> Brightness {
    match e {
        PadEventType::NoteOn | PadEventType::PressOn => Brightness::Normal,
        PadEventType::NoteOff | PadEventType::PressOff => Brightness::Off,
        PadEventType::Aftertouch => if val > 0 {
            Brightness::Normal
        } else {
            Brightness::Off
        },
    }
}

/// The velocity sent for pressure `val`: its upper seven of twelve bits, but at least 1 where
/// there is any pressure.
pub open spec fn velocity_of(val: u16) -> u8 {
    if val > 0 && val / 32 == 0 {
        1
    } else {
        (val / 32) as u8
    }
}

/// The note message sent on event `e` for `key` at `vel`: note on for a note or press, note
/// off for a release, none for aftertouch.
pub open spec fn pad_note(e: PadEventType, key: u8, vel: u8) -> Option<NoteMessage> {
    match e {
        PadEventType::NoteOn | PadEventType::PressOn => Some(NoteMessage::NoteOn { key, vel }),
        PadEventType::NoteOff | PadEventType::PressOff => Some(NoteMessage::NoteOff { key, vel }),
        PadEventType::Aftertouch => None,
    }
}

/// One entry of a pad report, for printing.
#[derive(Clone, Copy, Debug, PartialEq, Eq, Structural)]
pub struct PadEvent {
    pub pad: u8,
    pub event: PadEventType,
    pub value: u16,
}

/// The entry `k` of report `buf` as a pad event.
pub open spec fn entry_event(buf: Seq<u8>, k: int) -> PadEvent {
    PadEvent {
        pad: entry_pad(buf, k),
        event: PadEventType::with_code(entry_code(buf, k)).unwrap(),
        value: entry_value(buf, k),
    }
}

/// The light bytes, whether a light changed, the events and the MIDI messages after the
/// first `n` entries of report `buf`, starting from light bytes `s`.
pub open spec fn pads_after(s: Seq<u8>, buf: Seq<u8>, notemaps: Seq<u8>, n: nat) -> (
    Seq<u8>,
    bool,
    Seq<PadEvent>,
    Seq<Seq<u8>>,
)
    decreases n,
{
    if n == 0 {
        (s, false, Seq::empty(), Seq::empty())
    } else {
        let (lights, changed, events, midi) = pads_after(s, buf, notemaps, (n - 1) as nat);
        let ev = entry_event(buf, n - 1);
        let prev = Lights::pad_brightness_of(lights[39 + ev.pad]);
        let b = pad_target(ev.event, ev.value);
        let lights2 = if prev != b {
            lights.update(39 + ev.pad, Lights::pad_code(PadColors::Blue, b))
        } else {
            lights
        };
        let midi2 = match pad_note(ev.event, notemaps[ev.pad as int], velocity_of(ev.value)) {
            Some(m) => midi.push(note_bytes(m)),
            None => midi,
        };
        (lights2, changed || prev != b, events.push(ev), midi2)
    }
}

/// What a pad report leaves to be printed and sent.
pub struct PadOutcome {
    /// The report's entries, in order.
    pub events: Vec<PadEvent>,
    /// The MIDI messages to send, in order.
    pub midi: Vec<Vec<u8>>,
    /// Whether a light changed, so that the lights must be sent again.
    pub changed: bool,
}

/// The number of entries of report `buf` from entry `m` on is `k`, where no entry in
/// `m..k` ends the report and `k` is the end or the last slot.
proof fn lemma_entry_count(buf: Seq<u8>, m: nat, k: nat)
    requires
        m <= k <= pad_slots(),
        forall|j: int| m <= j < k ==> !entry_ends(buf, j),
        k == pad_slots() || entry_ends(buf, k as int),
    ensures
        entry_count_from(buf, m) == k,
    decreases k - m,
{
    if m < k {
        lemma_entry_count(buf, m + 1, k);
    }
}

/// Supported entries from `0` on are supported from `k` on, where no entry before `k` ends
/// the report.
proof fn lemma_supported_step(buf: Seq<u8>, notemaps: Seq<u8>, m: nat, k: nat)
    requires
        m <= k < pad_slots(),
        supported_from(buf, notemaps, m),
        forall|j: int| m <= j < k ==> !entry_ends(buf, j),
    ensures
        supported_from(buf, notemaps, k),
    decreases k - m,
{
    if m < k {
        lemma_supported_step(buf, notemaps, m + 1, k);
    }
}

/// Returns whether the driver can handle every entry of pad report `buf` with pad notes
/// `notemaps` (see `pad_report_supported`).
pub fn can_handle_pad_report(buf: &[u8; 64], notemaps: &[u8]) -> (r: bool)
    ensures
        r == pad_report_supported(buf@, notemaps@),
{
    let mut k: usize = 0;
    while k < 21
        invariant
            k <= 21,
            forall|j: int| 0 <= j < k ==> !entry_ends(buf@, j),
            supported_from(buf@, notemaps@, 0) == supported_from(buf@, notemaps@, k as nat),
        decreases 21 - k,
    {
        let e = read_entry(buf, k);
        if k >= 1 && e.0 == 0 && e.1 == 0 && e.2 == 0 {
            return true;
        }
        let ok = PadEventType::from_u8(e.1).is_some() && e.0 < 16 && (e.0 as usize) < notemaps.len();
        if !ok {
            return false;
        }
        k = k + 1;
    }
    true
}

/// Returns the pad, the event code and the pressure value of entry `k` of report `buf`.
fn read_entry(buf: &[u8; 64], k: usize) -> (r: (u8, u8, u16))
    requires
        k < 21,
    ensures
        r.0 == entry_pad(buf@, k as int),
        r.1 == entry_code(buf@, k as int),
        r.2 == entry_value(buf@, k as int),
        r.2 < 4096,
{
    let i = 1 + 3 * k;
    let idx = buf[i];
    let x = buf[i + 1];
    let y = buf[i + 2];
    let evt = x & 0xf0u8;
    let hi: u16 = ((x as u16) & 0x0fu16) << 8u16;
    assert(hi == ((x % 16) as u16) * 256) by (bit_vector)
        requires
            hi == ((x as u16) & 0x0fu16) << 8u16,
    ;
    let val: u16 = hi + y as u16;
    (idx, evt, val)
}

/// Returns the velocity sent for pressure `val`, which is at most 4095.
pub fn velocity(val: u16) -> (v: u8)
    requires
        val < 4096,
    ensures
        v == velocity_of(val),
        v < 128,
{
    assert(val >> 5u16 == val / 32) by (bit_vector);
    let mut v = (val >> 5u16) as u8;
    if val > 0 && v == 0 {
        v = 1;
    }
    v
}

impl Lights {
    /// Handles a pad report `buf` (one whose first byte is 2) with pad notes `notemaps`,
    /// entry by entry up to its end (see `entry_count`): each entry's pad light turns blue at
    /// the brightness that its event calls for (see `pad_target`) where its brightness
    /// differs, and a note or release sends a note message for the pad's note. Every entry
    /// must be one that the driver can handle.
    pub fn handle_pad_report(&mut self, buf: &[u8; 64], notemaps: &[u8]) -> (r: PadOutcome)
        requires
            Lights::ready(old(self)@),
            pad_report_supported(buf@, notemaps@),
        ensures
            Lights::ready(final(self)@),
            ({
                let (lights, changed, events, midi) = pads_after(
                    old(self)@,
                    buf@,
                    notemaps@,
                    entry_count(buf@),
                );
                &&& final(self)@ == lights
                &&& r.changed == changed
                &&& r.events@ == events
                &&& r.midi@.map_values(|m: Vec<u8>| m@) == midi
            }),
    {
        proof {
            self.lemma_view_len();
        }
        let mut events: Vec<PadEvent> = Vec::new();
        let mut midi: Vec<Vec<u8>> = Vec::new();
        let mut changed = false;
        let mut k: usize = 0;
        while k < 21
            invariant
                k <= 21,
                Lights::ready(self@),
                forall|j: int| 0 <= j < k ==> !entry_ends(buf@, j),
                k < 21 ==> supported_from(buf@, notemaps@, k as nat),
                ({
                    let (lights, ch, evs, ms) = pads_after(old(self)@, buf@, notemaps@, k as nat);
                    &&& self@ == lights
                    &&& changed == ch
                    &&& events@ == evs
                    &&& midi@.map_values(|m: Vec<u8>| m@) == ms
                }),
            ensures
                k == 21 || entry_ends(buf@, k as int),
            decreases 21 - k,
        {
            let (idx, evt, val) = read_entry(buf, k);
            if k >= 1 && idx == 0 && evt == 0 && val == 0 {
                assert(entry_ends(buf@, k as int));
                break;
            }
            assert(!entry_ends(buf@, k as int));
            assert(entry_supported(buf@, notemaps@, k as int));
            let pad_evt = PadEventType::from_u8(evt).unwrap();
            let ghost before = self@;
            let (_, prev_b) = self.get_pad(idx as usize);
            let b = match pad_evt {
                PadEventType::NoteOn | PadEventType::PressOn => Brightness::Normal,
                PadEventType::NoteOff | PadEventType::PressOff => Brightness::Off,
                PadEventType::Aftertouch => {
                    if val > 0 {
                        Brightness::Normal
                    } else {
                        Brightness::Off
                    }
                },
            };
            if prev_b != b {
                proof {
                    crate::lights::lemma_ready_preserved(
                        self@,
                        Buttons::Maschine,
                        b,
                        idx as int,
                        PadColors::Blue,
                        0,
                    );
                }
                self.set_pad(idx as usize, PadColors::Blue, b);
                changed = true;
            }
            let note = notemaps[idx as usize];
            let vel = velocity(val);
            let event = match pad_evt {
                PadEventType::NoteOn | PadEventType::PressOn => Some(
                    NoteMessage::NoteOn { key: note, vel },
                ),
                PadEventType::NoteOff | PadEventType::PressOff => Some(
                    NoteMessage::NoteOff { key: note, vel },
                ),
                PadEventType::Aftertouch => None,
            };
            let ghost old_midi = midi@;
            match event {
                Some(m) => {
                    let bytes = write_live_note(m);
                    midi.push(bytes);
                    assert(midi@.map_values(|m: Vec<u8>| m@) =~= old_midi.map_values(
                        |m: Vec<u8>| m@,
                    ).push(note_bytes(m)));
                },
                None => {},
            }
            events.push(PadEvent { pad: idx, event: pad_evt, value: val });
            proof {
                if k + 1 < 21 {
                    lemma_supported_step(buf@, notemaps@, k as nat, (k + 1) as nat);
                }
            }
            k = k + 1;
        }
        proof {
            lemma_entry_count(buf@, 0, k as nat);
        }
        PadOutcome { events, midi, changed }
    }
}

// ---------------------------------------------------------------------------------------
// Any report
// ---------------------------------------------------------------------------------------

/// What an input report leaves to be printed and sent.
pub enum ReportOutcome {
    /// A button report (first byte 1).
    Buttons(ButtonOutcome),
    /// A pad report (first byte 2).
    Pads(PadOutcome),
    /// Any other report, which is ignored.
    Ignored,
}

impl ReportOutcome {
    /// Whether a light changed, so that the lights must be sent again.
    pub open spec fn changes_lights(&self) -> bool {
        match self {
            ReportOutcome::Buttons(o) => o.changed,
            ReportOutcome::Pads(o) => o.changed,
            ReportOutcome::Ignored => false,
        }
    }

    /// Returns whether a light changed, so that the lights must be sent again.
    pub fn lights_changed(&self) -> (r: bool)
        ensures
            r == self.changes_lights(),
    {
        match self {
            ReportOutcome::Buttons(o) => o.changed,
            ReportOutcome::Pads(o) => o.changed,
            ReportOutcome::Ignored => false,
        }
    }
}

impl Lights {
    /// Handles input report `buf` with pad notes `notemaps`: a button report (first byte 1)
    /// as `handle_button_report` does, a pad report (first byte 2) as `handle_pad_report`
    /// does, and any other report not at all. A pad report must hold only entries that the
    /// driver can handle.
    pub fn handle_report(&mut self, buf: &[u8; 64], notemaps: &[u8]) -> (r: ReportOutcome)
        requires
            Lights::ready(old(self)@),
            buf@[0] == 2 ==> pad_report_supported(buf@, notemaps@),
        ensures
            Lights::ready(final(self)@),
            buf@[0] == 1 ==> {
                &&& r matches ReportOutcome::Buttons(o)
                &&& o.pressed@ == pressed_buttons(buf@, 48)
                &&& o.encoder == buf@[7]
                &&& o.slider == buf@[10]
                &&& o.changed == button_report_changes(old(self)@, buf@)
                &&& final(self)@ == button_report_lights(old(self)@, buf@)
            },
            buf@[0] == 2 ==> {
                let (lights, changed, events, midi) = pads_after(
                    old(self)@,
                    buf@,
                    notemaps@,
                    entry_count(buf@),
                );
                &&& r matches ReportOutcome::Pads(o)
                &&& o.changed == changed
                &&& o.events@ == events
                &&& o.midi@.map_values(|m: Vec<u8>| m@) == midi
                &&& final(self)@ == lights
            },
            buf@[0] != 1 && buf@[0] != 2 ==> r is Ignored && final(self)@ == old(self)@,
    {
        if buf[0] == 1 {
            ReportOutcome::Buttons(self.handle_button_report(buf))
        } else if buf[0] == 2 {
            ReportOutcome::Pads(self.handle_pad_report(buf, notemaps))
        } else {
            ReportOutcome::Ignored
        }
    }
}

// ---------------------------------------------------------------------------------------
// Laws
// ---------------------------------------------------------------------------------------

/// After a button report, the light of every button that has one is on exactly where the
/// report shows the button pressed, and the lights stay `ready`.
pub proof fn lemma_lights_mirror_buttons(s: Seq<u8>, buf: Seq<u8>, k: int)
    requires
        Lights::ready(s),
        0 <= k < 39,
    ensures
        Lights::ready(buttons_follow(s, buf)),
        (Brightness::with_code(buttons_follow(s, buf)[k]) != Some(Brightness::Off))
            == button_pressed(buf, k),
{
    let f = buttons_follow(s, buf);
    assert forall|j: int| 0 <= j < 39 implies (#[trigger] Brightness::with_code(f[j])) is Some by {
        assert(Brightness::with_code(s[j]) is Some);
    }
    assert forall|p: int| 0 <= p < 16 implies (#[trigger] Lights::pad_color_of(f[39 + p])) is Some by {
        assert(f[39 + p] == s[39 + p]);
    }
    assert(Brightness::with_code(s[k]) is Some);
}

/// Handling the same button report twice changes no button light the second time.
pub proof fn lemma_button_report_idempotent(s: Seq<u8>, buf: Seq<u8>)
    requires
        Lights::ready(s),
    ensures
        buttons_follow(buttons_follow(s, buf), buf) == buttons_follow(s, buf),
{
    let f = buttons_follow(s, buf);
    assert forall|k: int| 0 <= k < f.len() implies #[trigger] buttons_follow(f, buf)[k] == f[k] by {
        if k < 39 {
            assert(Brightness::with_code(s[k]) is Some);
        }
    }
    assert(buttons_follow(f, buf) =~= f);
}

/// The slider segment at the slider's level is normal, the 25 below it are dim, all others
/// are off; a slider value of 1 to 255 puts the level between -1 and 31, never lower as the
/// value grows.
pub proof fn lemma_slider_segments(slider: u8, other: u8, i: int)
    requires
        1 <= slider,
        slider <= other,
    ensures
        (slider_segment(slider, i) == Brightness::Normal) == (i == slider_level(slider)),
        (slider_segment(slider, i) == Brightness::Dim) == (1 <= slider_level(slider) - i <= 25),
        -1 <= slider_level(slider) <= 31,
        slider_level(slider) <= slider_level(other),
{
    assert((slider as int + 4) * 25 / 200 <= (other as int + 4) * 25 / 200) by (nonlinear_arith)
        requires
            slider <= other,
    ;
    assert(0 <= (slider as int + 4) * 25 / 200 <= 32) by (nonlinear_arith)
        requires
            1 <= slider <= 255,
    ;
}

/// A pad's velocity is a seven-bit value that is zero exactly where there is no pressure.
pub proof fn lemma_velocity(val: u16)
    requires
        val < 4096,
    ensures
        velocity_of(val) < 128,
        (velocity_of(val) == 0) == (val == 0),
{
}

/// After each entry of a pad report, the entry's pad shows the brightness that its event
/// calls for, and where the light changed and is on it is blue.
pub proof fn lemma_pad_follows_event(s: Seq<u8>, buf: Seq<u8>, notemaps: Seq<u8>, n: nat)
    requires
        Lights::ready(s),
        1 <= n <= pad_slots(),
        forall|j: int| 0 <= j < n ==> entry_pad(buf, j) < 16,
    ensures
        ({
            let before = pads_after(s, buf, notemaps, (n - 1) as nat).0;
            let after = pads_after(s, buf, notemaps, n).0;
            let ev = entry_event(buf, n - 1);
            &&& Lights::pad_brightness_of(after[39 + ev.pad]) == pad_target(ev.event, ev.value)
            &&& (after != before && pad_target(ev.event, ev.value) != Brightness::Off)
                ==> Lights::pad_color_of(after[39 + ev.pad]) == Some(PadColors::Blue)
        }),
{
    let ev = entry_event(buf, n - 1);
    let b = pad_target(ev.event, ev.value);
    lemma_pads_after_len(s, buf, notemaps, (n - 1) as nat);
    crate::lights::lemma_pad_set_then_get(PadColors::Blue, b);
    let before = pads_after(s, buf, notemaps, (n - 1) as nat).0;
    let after = pads_after(s, buf, notemaps, n).0;
    let prev = Lights::pad_brightness_of(before[39 + ev.pad]);
    if prev != b {
        assert(after == before.update(39 + ev.pad, Lights::pad_code(PadColors::Blue, b)));
        assert(after[39 + ev.pad] == Lights::pad_code(PadColors::Blue, b));
    } else {
        assert(after == before);
    }
}

/// Pad report handling keeps one byte per light.
proof fn lemma_pads_after_len(s: Seq<u8>, buf: Seq<u8>, notemaps: Seq<u8>, n: nat)
    requires
        s.len() == 80,
        forall|j: int| 0 <= j < n ==> entry_pad(buf, j) < 16,
    ensures
        pads_after(s, buf, notemaps, n).0.len() == 80,
    decreases n,
{
    if n > 0 {
        lemma_pads_after_len(s, buf, notemaps, (n - 1) as nat);
    }
}

/// Whether `c` is one of the five pad event codes: press on 0x00, note on 0x10, press off
/// 0x20, note off 0x30, aftertouch 0x40.
pub open spec fn is_pad_event_code(c: u8) -> bool {
    c == 0x00 || c == 0x10 || c == 0x20 || c == 0x30 || c == 0x40
}

/// What one entry of a pad report does, in terms of its bytes. Where the entry is a release
/// (press off 0x20, note off 0x30, or aftertouch without pressure), its pad's light byte
/// reads off (at most 3) afterwards, and a release sends note off (0x80) for the pad's note.
/// Where it is a press (press on 0x00, note on 0x10, or aftertouch with pressure), the
/// pad's light byte reads normal (at least 4, low bits 2) afterwards, and a press sends note
/// on (0x90). The velocity is the pressure over 32, but 1 for a pressure below 32 other than
/// 0. Aftertouch sends nothing. No other light byte changes, and a light changed exactly
/// where the pad's byte did.
pub proof fn lemma_pad_entry_effect(s: Seq<u8>, buf: Seq<u8>, notemaps: Seq<u8>, n: nat)
    requires
        s.len() == 80,
        1 <= n <= pad_slots(),
        forall|j: int| 0 <= j < n ==> entry_pad(buf, j) < 16,
        forall|j: int| 0 <= j < n ==> is_pad_event_code(#[trigger] entry_code(buf, j)),
    ensures
        ({
            let (l0, c0, e0, m0) = pads_after(s, buf, notemaps, (n - 1) as nat);
            let (l1, c1, e1, m1) = pads_after(s, buf, notemaps, n);
            let p = entry_pad(buf, n - 1) as int;
            let c = entry_code(buf, n - 1);
            let v = entry_value(buf, n - 1);
            let key = (notemaps[p] % 128) as u8;
            let vel = (if 0 < v < 32 {
                1
            } else {
                v / 32
            }) as u8;
            &&& (c == 0x20 || c == 0x30 || (c == 0x40 && v == 0)) ==> l1[39 + p] <= 3
            &&& (c == 0x00 || c == 0x10 || (c == 0x40 && v > 0)) ==> (l1[39 + p] >= 4 && l1[39 + p]
                % 4 == 2)
            &&& forall|k: int| 0 <= k < 80 && k != 39 + p ==> l1[k] == l0[k]
            &&& l1.len() == 80
            &&& c1 == (c0 || l1 != l0)
            &&& (c == 0x00 || c == 0x10) ==> m1 == m0.push(seq![0x90u8, key, vel])
            &&& (c == 0x20 || c == 0x30) ==> m1 == m0.push(seq![0x80u8, key, vel])
            &&& c == 0x40 ==> m1 == m0
            &&& e1 == e0.push(PadEvent { pad: p as u8, event: PadEventType::with_code(c).unwrap(), value: v })
        }),
{
    lemma_pads_after_len(s, buf, notemaps, (n - 1) as nat);
    let l0 = pads_after(s, buf, notemaps, (n - 1) as nat).0;
    let l1 = pads_after(s, buf, notemaps, n).0;
    let p = entry_pad(buf, n - 1) as int;
    let c = entry_code(buf, n - 1);
    assert(is_pad_event_code(entry_code(buf, n - 1)));
    let v = entry_value(buf, n - 1);
    let b = pad_target(PadEventType::with_code(c).unwrap(), v);
    crate::lights::lemma_pad_set_then_get(PadColors::Blue, b);
    if l1 != l0 {
        assert(Lights::pad_brightness_of(l0[39 + p]) != b);
    } else {
        assert(l1 =~= l0);
    }
    if Lights::pad_brightness_of(l0[39 + p]) != b {
        assert(l1[39 + p] != l0[39 + p]);
    }
}

/// What a button report does to the slider, in terms of its bytes: where byte 10 holds a
/// value `v` other than 0, every one of the 25 segments is set: the one at level
/// `(v + 4) * 25 / 200 - 1` to normal (0x7e), the 25 below it to dim (0x7c), every other
/// one to off (0), whatever it held before. Where byte 10 is 0 the slider is left alone.
/// The pad bytes are never touched.
pub proof fn lemma_button_report_slider(s: Seq<u8>, buf: Seq<u8>, i: int, p: int)
    requires
        s.len() == 80,
        0 <= i < 25,
        0 <= p < 16,
    ensures
        ({
            let after = button_report_lights(s, buf);
            let level = (buf[10] as int + 4) * 25 / 200 - 1;
            &&& buf[10] != 0 ==> after[55 + i] == (if i == level {
                0x7eu8
            } else if i < level && level - i <= 25 {
                0x7cu8
            } else {
                0u8
            })
            &&& buf[10] == 0 ==> after[55 + i] == s[55 + i]
            &&& after[39 + p] == s[39 + p]
            &&& after.len() == 80
        }),
{
}

/// Which pad reports the driver handles, in terms of their bytes: exactly those in which
/// every entry before the end (see `entry_count`) has one of the five event codes and a pad
/// below 16 that has a note.
pub proof fn lemma_pad_report_supported(buf: Seq<u8>, notemaps: Seq<u8>)
    ensures
        pad_report_supported(buf, notemaps) <==> (forall|k: int|
            0 <= k < entry_count(buf) ==> {
                &&& is_pad_event_code(#[trigger] entry_code(buf, k))
                &&& entry_pad(buf, k) < 16
                &&& entry_pad(buf, k) < notemaps.len()
            }),
{
    lemma_supported_from(buf, notemaps, 0);
    if forall|k: int|
        0 <= k < entry_count(buf) ==> {
            &&& is_pad_event_code(#[trigger] entry_code(buf, k))
            &&& entry_pad(buf, k) < 16
            &&& entry_pad(buf, k) < notemaps.len()
        } {
        assert forall|k: int| 0nat <= k < entry_count_from(buf, 0nat) implies {
            &&& is_pad_event_code(#[trigger] entry_code(buf, k))
            &&& entry_pad(buf, k) < 16
            &&& entry_pad(buf, k) < notemaps.len()
        } by {
            assert(0 <= k < entry_count(buf));
        }
    }
}

/// Entries from `m` on are supported exactly where each of them before the end is.
proof fn lemma_supported_from(buf: Seq<u8>, notemaps: Seq<u8>, m: nat)
    requires
        m <= pad_slots(),
    ensures
        m <= entry_count_from(buf, m),
        supported_from(buf, notemaps, m) <==> (forall|k: int|
            m <= k < entry_count_from(buf, m) ==> {
                &&& is_pad_event_code(#[trigger] entry_code(buf, k))
                &&& entry_pad(buf, k) < 16
                &&& entry_pad(buf, k) < notemaps.len()
            }),
    decreases pad_slots() - m,
{
    if m < pad_slots() && !entry_ends(buf, m as int) {
        lemma_supported_from(buf, notemaps, m + 1);
        if supported_from(buf, notemaps, m) {
            assert forall|k: int| m <= k < entry_count_from(buf, m) implies {
                &&& is_pad_event_code(#[trigger] entry_code(buf, k))
                &&& entry_pad(buf, k) < 16
                &&& entry_pad(buf, k) < notemaps.len()
            } by {
                if k == m {
                    assert(entry_supported(buf, notemaps, m as int));
                } else {
                    assert(entry_count_from(buf, m) == entry_count_from(buf, m + 1));
                    assert(m + 1 <= k < entry_count_from(buf, m + 1));
                }
            }
        } else {
            if entry_supported(buf, notemaps, m as int) {
                assert(!supported_from(buf, notemaps, m + 1));
            } else {
                assert(!is_pad_event_code(entry_code(buf, m as int)) || entry_pad(buf, m as int)
                    >= 16 || entry_pad(buf, m as int) >= notemaps.len());
            }
        }
    }
}

/// What a button report does to the light of a button that has one, in terms of its bytes:
/// a pressed button whose light was off (0) turns normal (0x7e), a released button's light
/// turns off (0), and a pressed button whose light was on keeps its byte.
pub proof fn lemma_button_report_bytes(s: Seq<u8>, buf: Seq<u8>, k: int)
    requires
        Lights::ready(s),
        0 <= k < 39,
    ensures
        ({
            let after = button_report_lights(s, buf);
            let pressed = buf[k / 8 + 1] & (1u8 << ((k % 8) as u8)) > 0;
            after[k] == (if pressed && s[k] == 0 {
                0x7eu8
            } else if !pressed {
                0u8
            } else {
                s[k]
            })
        }),
{
    assert(Brightness::with_code(s[k]) is Some);
}

} // verus!
