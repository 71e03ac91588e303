//! Control core for a theatrical windmill prop: a reversible motor behind a
//! direction relay, a brake relay, and a safety relay, paced by a PWM signal.
//!
//! The library owns the state reconciliation engine: the model of the fixture
//! state, the transition function that eases the motor toward the most recent
//! desired state with a mandatory cool-down around braking and reversal, the
//! mapping from DMX channel bytes to desired states, and the exact byte
//! strings and pin levels the hardware drivers must receive. The surrounding
//! process (GPIO and sysfs writes, the lighting-protocol listener, signal
//! handling) performs the commands this library computes.

pub mod cli;
pub mod dmx;
pub mod fixture;
pub mod gpio;
pub mod ola;
pub mod pwm;
pub mod text;
