//! Board support for the M5Go development kit: the pure parts of its drivers.
//!
//! The modules here hold what the board's drivers compute and decide: note
//! frequencies for the speaker, the colour buffer of the LED bars, the
//! Bluetooth service bring-up sequence and its read and write handlers.
//! Talking to the hardware is left to the caller.

pub mod ble;
pub mod leds;
pub mod mac;
pub mod tone;

pub use mac::get_mac;
pub use tone::Note;
