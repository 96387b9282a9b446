//! Morse code signalling: a fixed table from characters to dot/dash patterns,
//! and the timed on/off plan that drives a binary signal sink (an LED) from text.
pub mod command;
pub mod signal;
pub mod table;
pub mod timing;
