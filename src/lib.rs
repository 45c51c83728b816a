//! Handle lifecycle and error classification for the RyzenAdj native library.
//!
//! The native library reads and adjusts power, clock, voltage and thermal
//! limits of AMD Ryzen mobile processors. This crate holds the decisions that
//! sit around each native call: whether a read may be issued at all, whether
//! a reported value is usable, how a write status code is classified, and how
//! curve-optimizer offsets are encoded. The native calls themselves are handed
//! in by the caller as closures, so every decision is verified independently
//! of the hardware.

pub mod curve;
pub mod error;
pub mod family;
pub mod reading;
pub mod session;

pub use error::{adj_code, RyzenAdjError, RyzenAdjResult};
pub use family::RyzenFamily;
pub use reading::is_nan;
pub use session::RyzenAdj;
