use maschine_driver::controls::{Buttons, PadEventType};
use maschine_driver::driver::{can_handle_pad_report, slider_segment_brightness, velocity, PadEvent, ReportOutcome};
use maschine_driver::lights::{Brightness, Lights, PadColors};
use maschine_driver::settings::Settings;

fn notes() -> Vec<u8> {
    Settings::default().notemaps
}

fn button_report(pressed: &[usize], slider: u8) -> [u8; 64] {
    let mut buf = [0u8; 64];
    buf[0] = 1;
    for &k in pressed {
        buf[k / 8 + 1] |= 1 << (k % 8);
    }
    buf[10] = slider;
    buf
}

fn light_bytes(l: &Lights) -> Vec<u8> {
    l.report()[1..].to_vec()
}

#[test]
fn pressed_button_lights_up_and_released_button_goes_dark() {
    let mut l = Lights::new();
    let out = l.handle_report(&button_report(&[22], 0), &notes());
    assert!(out.lights_changed());
    match out {
        ReportOutcome::Buttons(o) => {
            assert_eq!(o.pressed, vec![Buttons::Play]);
            assert_eq!(o.slider, 0);
            assert!(o.changed);
        }
        _ => panic!("expected a button outcome"),
    }
    assert_eq!(l.get_button(Buttons::Play), Brightness::Normal);
    // The same report again changes nothing.
    let out = l.handle_report(&button_report(&[22], 0), &notes());
    assert!(!out.lights_changed());
    // Releasing turns the light off.
    let out = l.handle_report(&button_report(&[], 0), &notes());
    assert!(out.lights_changed());
    assert_eq!(l.get_button(Buttons::Play), Brightness::Off);
}

#[test]
fn bright_light_of_held_button_stays() {
    let mut l = Lights::new();
    l.set_button(Buttons::Shift, Brightness::Bright);
    let out = l.handle_report(&button_report(&[25], 0), &notes());
    assert!(!out.lights_changed());
    assert_eq!(l.get_button(Buttons::Shift), Brightness::Bright);
}

#[test]
fn encoder_press_is_listed_but_lights_nothing() {
    let mut l = Lights::new();
    let mut buf = button_report(&[39, 40, 0], 0);
    buf[7] = 42;
    let out = l.handle_report(&buf, &notes());
    match out {
        ReportOutcome::Buttons(o) => {
            assert_eq!(o.pressed, vec![Buttons::Maschine, Buttons::EncoderPress, Buttons::EncoderTouch]);
            assert_eq!(o.encoder, 42);
            assert!(o.changed);
        }
        _ => panic!("expected a button outcome"),
    }
    let bytes = light_bytes(&l);
    assert_eq!(bytes[0], 0x7e);
    assert_eq!(bytes[39], 0);
    assert_eq!(bytes[40], 0);
}

#[test]
fn bits_beyond_the_last_button_are_ignored() {
    let mut l = Lights::new();
    let out = l.handle_report(&button_report(&[41, 47], 0), &notes());
    match out {
        ReportOutcome::Buttons(o) => {
            assert!(o.pressed.is_empty());
            assert!(!o.changed);
        }
        _ => panic!("expected a button outcome"),
    }
}

#[test]
fn slider_lights_up_to_its_level() {
    let mut l = Lights::new();
    // (100 + 4) * 25 / 200 - 1 = 12
    let out = l.handle_report(&button_report(&[], 100), &notes());
    assert!(out.lights_changed());
    let bytes = light_bytes(&l);
    for i in 0..12 {
        assert_eq!(bytes[55 + i], 0x7c);
    }
    assert_eq!(bytes[55 + 12], 0x7e);
    for i in 13..25 {
        assert_eq!(bytes[55 + i], 0);
    }
}

#[test]
fn slider_at_its_ends() {
    let mut l = Lights::new();
    let out = l.handle_report(&button_report(&[], 1), &notes());
    assert!(out.lights_changed());
    assert_eq!(light_bytes(&l)[55..80].to_vec(), vec![0u8; 25]);
    // (255 + 4) * 25 / 200 - 1 = 31: the six lowest segments are more than 25 below it.
    l.handle_report(&button_report(&[], 255), &notes());
    let bytes = light_bytes(&l);
    for i in 0..6 {
        assert_eq!(bytes[55 + i], 0);
    }
    for i in 6..25 {
        assert_eq!(bytes[55 + i], 0x7c);
    }
    assert_eq!(slider_segment_brightness(255, 24), Brightness::Dim);
    assert_eq!(slider_segment_brightness(200, 24), Brightness::Normal);
    assert_eq!(slider_segment_brightness(0, 0), Brightness::Off);
}

fn pad_report(entries: &[(u8, u8, u16)]) -> [u8; 64] {
    let mut buf = [0u8; 64];
    buf[0] = 2;
    for (k, &(pad, code, val)) in entries.iter().enumerate() {
        let i = 1 + 3 * k;
        buf[i] = pad;
        buf[i + 1] = code | ((val >> 8) as u8 & 0x0f);
        buf[i + 2] = (val & 0xff) as u8;
    }
    buf
}

#[test]
fn note_on_lights_pad_blue_and_sends_note_on() {
    let mut l = Lights::new();
    let buf = pad_report(&[(5, 0x10, 2047)]);
    assert!(can_handle_pad_report(&buf, &notes()));
    match l.handle_report(&buf, &notes()) {
        ReportOutcome::Pads(o) => {
            assert!(o.changed);
            assert_eq!(o.events, vec![PadEvent { pad: 5, event: PadEventType::NoteOn, value: 2047 }]);
            assert_eq!(o.midi, vec![vec![0x90, 47, 63]]);
        }
        _ => panic!("expected a pad outcome"),
    }
    assert_eq!(l.get_pad(5), (PadColors::Blue, Brightness::Normal));
    assert_eq!(light_bytes(&l)[39 + 5], 11 * 4 + 2);
}

#[test]
fn note_off_darkens_pad_and_sends_note_off() {
    let mut l = Lights::new();
    l.handle_report(&pad_report(&[(0, 0x10, 4095)]), &notes());
    match l.handle_report(&pad_report(&[(0, 0x30, 64)]), &notes()) {
        ReportOutcome::Pads(o) => {
            assert!(o.changed);
            assert_eq!(o.midi, vec![vec![0x80, 49, 2]]);
        }
        _ => panic!("expected a pad outcome"),
    }
    assert_eq!(l.get_pad(0), (PadColors::Off, Brightness::Off));
}

#[test]
fn aftertouch_sends_nothing_and_follows_pressure() {
    let mut l = Lights::new();
    match l.handle_report(&pad_report(&[(3, 0x40, 100), (4, 0x40, 0)]), &notes()) {
        ReportOutcome::Pads(o) => {
            assert!(o.changed);
            assert_eq!(o.events.len(), 2);
            assert!(o.midi.is_empty());
        }
        _ => panic!("expected a pad outcome"),
    }
    assert_eq!(l.get_pad(3), (PadColors::Blue, Brightness::Normal));
    assert_eq!(l.get_pad(4), (PadColors::Off, Brightness::Off));
}

#[test]
fn several_entries_stop_at_the_first_zero_entry() {
    let mut l = Lights::new();
    let mut buf = pad_report(&[(1, 0x10, 300), (2, 0x20, 300), (0, 0x00, 0), (7, 0x10, 300)]);
    buf[0] = 2;
    match l.handle_report(&buf, &notes()) {
        ReportOutcome::Pads(o) => {
            assert_eq!(o.events.len(), 2);
            assert_eq!(o.midi, vec![vec![0x90, 27, 9], vec![0x80, 31, 9]]);
        }
        _ => panic!("expected a pad outcome"),
    }
    assert_eq!(l.get_pad(7), (PadColors::Off, Brightness::Off));
}

#[test]
fn a_first_entry_of_zeros_is_a_press_on_pad_zero() {
    let mut l = Lights::new();
    let buf = pad_report(&[]);
    match l.handle_report(&buf, &notes()) {
        ReportOutcome::Pads(o) => {
            assert_eq!(o.events, vec![PadEvent { pad: 0, event: PadEventType::PressOn, value: 0 }]);
            assert_eq!(o.midi, vec![vec![0x90, 49, 0]]);
            assert!(o.changed);
        }
        _ => panic!("expected a pad outcome"),
    }
}

#[test]
fn low_pressure_still_has_velocity_one() {
    let mut l = Lights::new();
    match l.handle_report(&pad_report(&[(2, 0x00, 10)]), &notes()) {
        ReportOutcome::Pads(o) => assert_eq!(o.midi, vec![vec![0x90, 31, 1]]),
        _ => panic!("expected a pad outcome"),
    }
    assert_eq!(velocity(0), 0);
    assert_eq!(velocity(10), 1);
    assert_eq!(velocity(31), 1);
    assert_eq!(velocity(32), 1);
    assert_eq!(velocity(64), 2);
    assert_eq!(velocity(4095), 127);
}

#[test]
fn notes_keep_their_low_seven_bits() {
    let mut l = Lights::new();
    let mut notemaps = notes();
    notemaps[6] = 200;
    match l.handle_report(&pad_report(&[(6, 0x10, 4095)]), &notemaps) {
        ReportOutcome::Pads(o) => assert_eq!(o.midi, vec![vec![0x90, 72, 127]]),
        _ => panic!("expected a pad outcome"),
    }
}

#[test]
fn unsupported_pad_reports_are_detected() {
    assert!(can_handle_pad_report(&pad_report(&[(1, 0x10, 5)]), &notes()));
    assert!(!can_handle_pad_report(&pad_report(&[(1, 0x50, 5)]), &notes()));
    assert!(!can_handle_pad_report(&pad_report(&[(16, 0x10, 5)]), &notes()));
    assert!(!can_handle_pad_report(&pad_report(&[(3, 0x10, 5)]), &notes()[..3].to_vec()));
    // Entries after the end are not looked at.
    let mut buf = pad_report(&[(1, 0x10, 5)]);
    buf[7] = 99;
    buf[8] = 0x70;
    assert!(can_handle_pad_report(&buf, &notes()));
}

#[test]
fn other_reports_are_ignored() {
    let mut l = Lights::new();
    let mut buf = [0xffu8; 64];
    buf[0] = 3;
    let out = l.handle_report(&buf, &notes());
    assert!(matches!(out, ReportOutcome::Ignored));
    assert!(!out.lights_changed());
    assert_eq!(light_bytes(&l), vec![0u8; 80]);
}
