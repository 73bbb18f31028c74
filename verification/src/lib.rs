//! DTMF dialling: the keypad's tone table, the shape of one tone, and the
//! sequencing of a string of symbols onto two playback queues.

pub mod keypad;
pub mod tone;
pub mod sequence;
pub mod invocation;
