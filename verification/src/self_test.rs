use vstd::prelude::*;
use crate::controls::Buttons;
use crate::font::Font;
use crate::lights::{Brightness, Lights, PadColors};
use crate::screen::Screen;

verus! {

/// One step of the start-up self test: a change to the screen or the lights, sending the
/// screen or the lights to the device, or a pause.
#[derive(Clone, Copy, Debug, PartialEq, Eq, Structural)]
pub enum SelfTestStep {
    /// Draw digit `num` at `scale` times its size with its top left corner at row `y`,
    /// column `x`.
    Digit { y: usize, x: usize, num: usize, scale: usize },
    /// Set a button light.
    Button { button: Buttons, brightness: Brightness },
    /// Set a pad light.
    Pad { id: usize, color: PadColors, brightness: Brightness },
    /// Set a slider segment light.
    Slider { id: usize, brightness: Brightness },
    /// Turn every light off.
    ResetLights,
    /// Turn every pixel off.
    ResetScreen,
    /// Send the screen to the device.
    SendScreen,
    /// Send the lights to the device.
    SendLights,
    /// Wait `millis` milliseconds.
    Pause { millis: u64 },
}

/// The brightness that the self test gives a light in the `r`-th of its three settings:
/// bright, then normal, then dim.
pub open spec fn test_brightness(r: int) -> Brightness {
    if r == 0 {
        Brightness::Bright
    } else if r == 1 {
        Brightness::Normal
    } else {
        Brightness::Dim
    }
}

/// The screen part of the self test: "1337" drawn digit by digit at four times the font's
/// size, the screen sent after each digit, with a pause of 100 ms between digits.
pub open spec fn screen_steps() -> Seq<SelfTestStep> {
    seq![
        SelfTestStep::Digit { y: 0, x: 0, num: 1, scale: 4 },
        SelfTestStep::SendScreen,
        SelfTestStep::Pause { millis: 100 },
        SelfTestStep::Digit { y: 0, x: 32, num: 3, scale: 4 },
        SelfTestStep::SendScreen,
        SelfTestStep::Pause { millis: 100 },
        SelfTestStep::Digit { y: 0, x: 64, num: 3, scale: 4 },
        SelfTestStep::SendScreen,
        SelfTestStep::Pause { millis: 100 },
        SelfTestStep::Digit { y: 0, x: 96, num: 7, scale: 4 },
        SelfTestStep::SendScreen,
    ]
}

/// Step `k` of the button part: each of the 39 lit buttons in turn set bright, normal and
/// dim, the lights sent after each setting.
pub open spec fn button_step(k: int) -> SelfTestStep {
    if k % 2 == 1 {
        SelfTestStep::SendLights
    } else {
        SelfTestStep::Button {
            button: Buttons::with_index((k / 6) as nat).unwrap(),
            brightness: test_brightness((k % 6) / 2),
        }
    }
}

/// Step `k` of the pad part: each of the 16 pads in turn set bright in the colour numbered
/// two above it, then normal and dim in the colour numbered one above it, the lights sent
/// after each setting.
pub open spec fn pad_step(k: int) -> SelfTestStep {
    if k % 2 == 1 {
        SelfTestStep::SendLights
    } else {
        SelfTestStep::Pad {
            id: (k / 6) as usize,
            color: PadColors::with_code(
                (if k % 6 == 0 {
                    k / 6 + 2
                } else {
                    k / 6 + 1
                }) as nat,
            ).unwrap(),
            brightness: test_brightness((k % 6) / 2),
        }
    }
}

/// Step `k` of the slider part: each of the 25 segments in turn set bright, normal and dim,
/// the lights sent after each setting.
pub open spec fn slider_step(k: int) -> SelfTestStep {
    if k % 2 == 1 {
        SelfTestStep::SendLights
    } else {
        SelfTestStep::Slider { id: (k / 6) as usize, brightness: test_brightness((k % 6) / 2) }
    }
}

/// The closing part: every light off and sent, every pixel off and sent.
pub open spec fn closing_steps() -> Seq<SelfTestStep> {
    seq![
        SelfTestStep::ResetLights,
        SelfTestStep::SendLights,
        SelfTestStep::ResetScreen,
        SelfTestStep::SendScreen,
    ]
}

/// All steps of the self test, in order.
pub open spec fn self_test_steps() -> Seq<SelfTestStep> {
    screen_steps() + Seq::new(234, |k: int| button_step(k)) + Seq::new(96, |k: int| pad_step(k))
        + Seq::new(150, |k: int| slider_step(k)) + closing_steps()
}

/// Whether `step` can be applied: a digit that is a digit and fits on the screen, a pad or
/// slider segment whose light byte lies within the light state.
pub open spec fn step_fits(step: SelfTestStep) -> bool {
    match step {
        SelfTestStep::Digit { y, x, num, scale } => num < 10 && y + 8 * scale <= 32 && x + 8
            * scale <= 128,
        SelfTestStep::Pad { id, .. } => id < 41,
        SelfTestStep::Slider { id, .. } => id < 25,
        _ => true,
    }
}

/// The pixel grid and light bytes after applying `step` to grid `g` and light bytes `l`.
pub open spec fn step_effect(step: SelfTestStep, g: Seq<Seq<bool>>, l: Seq<u8>) -> (
    Seq<Seq<bool>>,
    Seq<u8>,
) {
    match step {
        SelfTestStep::Digit { y, x, num, scale } => (
            Font::drawn(g, y as int, x as int, num as int, scale as int),
            l,
        ),
        SelfTestStep::Button { button, brightness } => (
            g,
            l.update(button.index() as int, brightness.code()),
        ),
        SelfTestStep::Pad { id, color, brightness } => (
            g,
            l.update(39 + id, Lights::pad_code(color, brightness)),
        ),
        SelfTestStep::Slider { id, brightness } => (g, l.update(55 + id, brightness.code())),
        SelfTestStep::ResetLights => (g, Lights::all_off()),
        SelfTestStep::ResetScreen => (Screen::blank(), l),
        _ => (g, l),
    }
}

/// The pixel grid and light bytes after applying the first `n` of `steps` to `g` and `l`.
pub open spec fn run_steps(steps: Seq<SelfTestStep>, g: Seq<Seq<bool>>, l: Seq<u8>, n: nat) -> (
    Seq<Seq<bool>>,
    Seq<u8>,
)
    decreases n,
{
    if n == 0 {
        (g, l)
    } else {
        let (g1, l1) = run_steps(steps, g, l, (n - 1) as nat);
        step_effect(steps[n - 1], g1, l1)
    }
}

/// Returns the brightness of the `r`-th of the three settings: bright, normal, dim.
fn brightness_setting(r: usize) -> (b: Brightness)
    requires
        r < 3,
    ensures
        b == test_brightness(r as int),
{
    if r == 0 {
        Brightness::Bright
    } else if r == 1 {
        Brightness::Normal
    } else {
        Brightness::Dim
    }
}

/// Returns the steps of the self test, in order (see `self_test_steps`).
pub fn self_test_plan() -> (plan: Vec<SelfTestStep>)
    ensures
        plan@ == self_test_steps(),
{
    let mut plan: Vec<SelfTestStep> = Vec::new();
    plan.push(SelfTestStep::Digit { y: 0, x: 0, num: 1, scale: 4 });
    plan.push(SelfTestStep::SendScreen);
    plan.push(SelfTestStep::Pause { millis: 100 });
    plan.push(SelfTestStep::Digit { y: 0, x: 32, num: 3, scale: 4 });
    plan.push(SelfTestStep::SendScreen);
    plan.push(SelfTestStep::Pause { millis: 100 });
    plan.push(SelfTestStep::Digit { y: 0, x: 64, num: 3, scale: 4 });
    plan.push(SelfTestStep::SendScreen);
    plan.push(SelfTestStep::Pause { millis: 100 });
    plan.push(SelfTestStep::Digit { y: 0, x: 96, num: 7, scale: 4 });
    plan.push(SelfTestStep::SendScreen);
    assert(plan@ =~= screen_steps());
    let ghost base = plan@;
    let mut i: usize = 0;
    while i < 39
        invariant
            i <= 39,
            base == screen_steps(),
            plan@ =~= base + Seq::new((6 * i) as nat, |k: int| button_step(k)),
        decreases 39 - i,
    {
        let id = Buttons::from_usize(i).unwrap();
        let mut r: usize = 0;
        while r < 3
            invariant
                i < 39,
                r <= 3,
                id == Buttons::with_index(i as nat).unwrap(),
                base == screen_steps(),
                plan@ =~= base + Seq::new((6 * i + 2 * r) as nat, |k: int| button_step(k)),
            decreases 3 - r,
        {
            let b = brightness_setting(r);
            plan.push(SelfTestStep::Button { button: id, brightness: b });
            plan.push(SelfTestStep::SendLights);
            proof {
                let k = 6 * i + 2 * r;
                assert(k / 6 == i && k % 6 == 2 * r);
                assert((k + 1) % 2 == 1);
            }
            r = r + 1;
        }
        i = i + 1;
    }
    let ghost base = plan@;
    let mut i: usize = 0;
    while i < 16
        invariant
            i <= 16,
            base == screen_steps() + Seq::new(234, |k: int| button_step(k)),
            plan@ =~= base + Seq::new((6 * i) as nat, |k: int| pad_step(k)),
        decreases 16 - i,
    {
        let mut r: usize = 0;
        while r < 3
            invariant
                i < 16,
                r <= 3,
                base == screen_steps() + Seq::new(234, |k: int| button_step(k)),
                plan@ =~= base + Seq::new((6 * i + 2 * r) as nat, |k: int| pad_step(k)),
            decreases 3 - r,
        {
            let color = if r == 0 {
                PadColors::from_usize(i + 2).unwrap()
            } else {
                PadColors::from_usize(i + 1).unwrap()
            };
            let b = brightness_setting(r);
            plan.push(SelfTestStep::Pad { id: i, color, brightness: b });
            plan.push(SelfTestStep::SendLights);
            proof {
                let k = 6 * i + 2 * r;
                assert(k / 6 == i && k % 6 == 2 * r);
                assert((k + 1) % 2 == 1);
            }
            r = r + 1;
        }
        i = i + 1;
    }
    let ghost base = plan@;
    let mut i: usize = 0;
    while i < 25
        invariant
            i <= 25,
            base == screen_steps() + Seq::new(234, |k: int| button_step(k)) + Seq::new(
                96,
                |k: int| pad_step(k),
            ),
            plan@ =~= base + Seq::new((6 * i) as nat, |k: int| slider_step(k)),
        decreases 25 - i,
    {
        let mut r: usize = 0;
        while r < 3
            invariant
                i < 25,
                r <= 3,
                base == screen_steps() + Seq::new(234, |k: int| button_step(k)) + Seq::new(
                    96,
                    |k: int| pad_step(k),
                ),
                plan@ =~= base + Seq::new((6 * i + 2 * r) as nat, |k: int| slider_step(k)),
            decreases 3 - r,
        {
            let b = brightness_setting(r);
            plan.push(SelfTestStep::Slider { id: i, brightness: b });
            plan.push(SelfTestStep::SendLights);
            proof {
                let k = 6 * i + 2 * r;
                assert(k / 6 == i && k % 6 == 2 * r);
                assert((k + 1) % 2 == 1);
            }
            r = r + 1;
        }
        i = i + 1;
    }
    plan.push(SelfTestStep::ResetLights);
    plan.push(SelfTestStep::SendLights);
    plan.push(SelfTestStep::ResetScreen);
    plan.push(SelfTestStep::SendScreen);
    assert(plan@ =~= self_test_steps());
    plan
}

/// Applies `step` to the screen and the lights (see `step_effect`); sending and pausing,
/// which are the caller's to do, change neither.
pub fn apply_step(step: &SelfTestStep, screen: &mut Screen, lights: &mut Lights)
    requires
        step_fits(*step),
    ensures
        (final(screen)@, final(lights)@) == step_effect(*step, old(screen)@, old(lights)@),
{
    match *step {
        SelfTestStep::Digit { y, x, num, scale } => Font::write_digit(screen, y, x, num, scale),
        SelfTestStep::Button { button, brightness } => lights.set_button(button, brightness),
        SelfTestStep::Pad { id, color, brightness } => lights.set_pad(id, color, brightness),
        SelfTestStep::Slider { id, brightness } => lights.set_slider(id, brightness),
        SelfTestStep::ResetLights => lights.reset(),
        SelfTestStep::ResetScreen => screen.reset(),
        _ => {},
    }
}

/// Where each part of the self test lies among its steps.
proof fn lemma_step_at(k: int)
    requires
        0 <= k < 495,
    ensures
        self_test_steps().len() == 495,
        k < 11 ==> self_test_steps()[k] == screen_steps()[k],
        11 <= k < 245 ==> self_test_steps()[k] == button_step(k - 11),
        245 <= k < 341 ==> self_test_steps()[k] == pad_step(k - 245),
        341 <= k < 491 ==> self_test_steps()[k] == slider_step(k - 341),
        491 <= k ==> self_test_steps()[k] == closing_steps()[k - 491],
{
}

/// Every step of the self test can be applied.
pub proof fn lemma_self_test_steps_fit(k: int)
    requires
        0 <= k < self_test_steps().len(),
    ensures
        step_fits(self_test_steps()[k]),
{
    lemma_step_at(k);
    if 245 <= k < 341 {
        assert((k - 245) / 6 < 16);
    }
    if 341 <= k < 491 {
        assert((k - 341) / 6 < 25);
    }
}

/// Every step of the self test keeps the lights `ready`, so the report handlers can run
/// once it is done.
pub proof fn lemma_self_test_keeps_ready(g: Seq<Seq<bool>>, l: Seq<u8>, n: nat)
    requires
        Lights::ready(l),
        n <= self_test_steps().len(),
    ensures
        Lights::ready(run_steps(self_test_steps(), g, l, n).1),
    decreases n,
{
    if n > 0 {
        lemma_self_test_keeps_ready(g, l, (n - 1) as nat);
        let k = n - 1;
        lemma_step_at(k);
        let l1 = run_steps(self_test_steps(), g, l, (n - 1) as nat).1;
        let step = self_test_steps()[k];
        match step {
            SelfTestStep::Button { button, brightness } => {
                let i = (k - 11) / 6;
                assert(0 <= i < 39);
                crate::controls::lemma_button_with_index(i as nat);
                assert(Lights::has_light(button));
                crate::lights::lemma_ready_preserved(l1, button, brightness, 0, PadColors::Off, 0);
            },
            SelfTestStep::Pad { id, color, brightness } => {
                assert(id < 16);
                crate::lights::lemma_ready_preserved(
                    l1,
                    Buttons::Maschine,
                    brightness,
                    id as int,
                    color,
                    0,
                );
            },
            SelfTestStep::Slider { id, brightness } => {
                assert(id < 25);
                crate::lights::lemma_ready_preserved(
                    l1,
                    Buttons::Maschine,
                    brightness,
                    0,
                    PadColors::Off,
                    id as int,
                );
            },
            SelfTestStep::ResetLights => {
                crate::lights::lemma_all_off_reads_off(Buttons::Maschine, 0);
            },
            _ => {},
        }
    }
}

/// Whatever the screen and lights showed before, the self test leaves every pixel and every
/// light off.
pub proof fn lemma_self_test_ends_dark(g: Seq<Seq<bool>>, l: Seq<u8>)
    ensures
        run_steps(self_test_steps(), g, l, self_test_steps().len()) == (
            Screen::blank(),
            Lights::all_off(),
        ),
{
    lemma_step_at(491);
    lemma_step_at(492);
    lemma_step_at(493);
    lemma_step_at(494);
    let steps = self_test_steps();
    let r491 = run_steps(steps, g, l, 491);
    assert(run_steps(steps, g, l, 492) == (r491.0, Lights::all_off()));
    assert(run_steps(steps, g, l, 493) == (r491.0, Lights::all_off()));
    assert(run_steps(steps, g, l, 494) == (Screen::blank(), Lights::all_off()));
    assert(run_steps(steps, g, l, 495) == (Screen::blank(), Lights::all_off()));
}

} // verus!
