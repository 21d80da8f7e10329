//! Signal pipeline for a mecanum-wheeled ground vehicle driven by a FlySky
//! radio: a PPM pulse-train decoder, a stick-position classifier, pulse-width
//! to drive-magnitude mappers, and the mecanum wheel-command mixer.
//!
//! Hardware access (timers, external interrupts, PWM pins, the serial port)
//! lives outside this crate; the decoder here is an owned state machine that
//! is fed one timer reading per signal edge and hands out consistent
//! six-channel snapshots.

pub mod flysky;
pub mod helper;
pub mod mixer;
pub mod ppm;
