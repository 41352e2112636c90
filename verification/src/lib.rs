//! Control core of a single-zone irrigation controller.
//!
//! The crate decides; it performs no input or output. A caller owns the
//! hardware, carries out each [`control::Action`] it is handed and reports
//! what happened as a [`control::Event`].
//!
//! - [`hw`]: from a logical on/off state to a pin level, by polarity.
//! - [`sensor`]: decoding of sensor replies, averaging of moisture samples.
//! - [`policy`]: when a moisture sample starts the pump.
//! - [`control`]: the control loop as a state machine.
//! - [`config`]: build-time settings and the published reading.
//! - [`laws`]: what holds of every run of the control loop.

pub mod config;
pub mod control;
pub mod hw;
pub mod laws;
pub mod policy;
pub mod sensor;
