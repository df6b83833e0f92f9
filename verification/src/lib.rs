//! A resilient WebSocket client core, written without I/O.
//!
//! The crate holds the decisions of a reconnecting client: how inbound frames
//! are classified, how caller commands become outbound frames, when a silent
//! peer is given up, and when the retry loop stops. A shell around it owns the
//! socket, the timers and the tasks; it reports what happens and carries out
//! what comes back.
//!
//! - [`supervisor`], [`session`], [`bus`] and [`client`] are the client
//!   itself; [`laws`] states what holds of it as a whole.
//! - [`message`], [`option`], [`transform`] and [`json`] are the values it
//!   works on and their wire forms.
//! - [`admin`] is a typed client on top of it.
//! - [`recorder`], [`adapter`], [`asr`], [`device`] and [`env_util`] hold what
//!   is decided around it: the control state of the audio recorder, the byte
//!   formats of its control channel, the meaning of a speech recognition
//!   answer, the device id, and environment variables in a path.

pub mod adapter;
pub mod admin;
pub mod asr;
pub mod bus;
pub mod client;
pub mod device;
pub mod env_util;
pub mod json;
pub mod laws;
pub mod message;
pub mod option;
pub mod recorder;
pub mod session;
pub mod supervisor;
pub mod transform;
