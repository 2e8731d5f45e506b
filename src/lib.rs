//! Single-wire temperature/humidity sensor communication: an emulated
//! open-drain line, pulse-timing decisions, and the frame decoder.
pub mod frame;
pub mod line;
pub mod protocol;
pub mod sim;
pub mod timing;
