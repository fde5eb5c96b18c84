//! Lamp timer firmware logic: the daily schedule with its manual override,
//! the countdown timer, the time-entry editor, the clock's trust flag, the
//! stored settings, the screens' content and layout, the framebuffer, the
//! touch arithmetic, the main loop's decisions and the backend client's
//! requests. The hardware drivers (SPI panel, ADC touch, relay pin, flash
//! store, HTTP, Wi-Fi) live in the application crate around it.

pub mod schedule;
pub mod timer;
pub mod editor;
pub mod clock;
pub mod store;
pub mod types;
pub mod api;
pub mod ui;
pub mod layout;
pub mod control;
pub mod relay;
pub mod display;
pub mod touch;
