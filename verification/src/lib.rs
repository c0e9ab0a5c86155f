//! Driving an Erika 3004 typewriter from a host: the GDR ASCII text codec,
//! the control codes of the device, the commands and input events that are
//! built from them, and the keys that the events stand for when the
//! typewriter serves as a keyboard.
//!
//! The library computes and never transmits: it says which bytes go out
//! and what the bytes that came in mean. `laws` holds what is proved of the
//! two tables, of the codec and of the reading of input beyond what each
//! function promises.

pub mod codec;
pub mod control;
pub mod keyboard;
pub mod laws;
pub mod protocol;
pub mod table;
