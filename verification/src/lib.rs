//! Verified core of a userspace driver for the Native Instruments Maschine Mikro MK3:
//! the controller's buttons and pad events, its light and screen state, the font used on
//! the screen, settings validation, and the decisions taken on each input report.

pub mod controls;
pub mod lights;
pub mod screen;
pub mod font;
pub mod settings;
pub mod midi;
pub mod driver;
pub mod self_test;
