//! Control core of a pan/tilt camera head: actuator state and bounds
//! checking, software-PWM pulse-train computation, telemetry decoding for
//! a humidity/temperature sensor, and the request-dispatch coordinator
//! that turns inbound HTTP commands into hardware actions.
//!
//! The physical side — GPIO lines, the I2C bus, timed sleeps and the HTTP
//! listener — is owned by the embedding program; this crate holds the
//! logic and its proofs.

pub mod coordinator;
pub mod hyt_221;
pub mod servo_motor;
pub mod text;
