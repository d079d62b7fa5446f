//! A streaming sample-rate conversion session over the soxr engine.
//!
//! The library describes the engine's configuration (sample encodings,
//! quality, threading) as plain values and drives the state machine of one
//! conversion stream: how much input was taken, how much output was made,
//! and when the stream has been flushed and drained.
pub mod datatype;
pub mod error;
pub mod session;
pub mod spec;

pub use datatype::Datatype;
pub use error::{Error, ErrorKind};
pub use session::{Action, ProcessResult, Session, StreamState};
pub use spec::{IOSpec, QualityFlags, QualityRecipe, QualitySpec, RuntimeSpec};
