//! Resource resolution and invocation planning for an external OCR engine.
//!
//! One recognition request flows through five small components: the
//! request is validated (`request`) from a decoded payload (`decode`); a
//! scratch workspace is created for its staged input and output
//! (`workspace`); the engine binary and the trained-data directory are
//! located by probing ordered candidate lists built from the caller's
//! environment (`candidates`, `probe`, `resolve`); the subprocess's
//! program, environment variable and arguments are laid out (`invoke`);
//! and the finished subprocess's outcome is mapped to text or to a precise
//! error (`extract`, `error`).
//!
//! The engine itself is opaque and filesystem answers change under the
//! library's feet, so every function that consumes such an outside answer
//! takes it as a value and is verified for all values of it, while the
//! functions that fetch the answers state what holds of whatever came
//! back.

pub mod candidates;
pub mod decode;
pub mod error;
pub mod extract;
pub mod invoke;
pub mod mode;
pub mod probe;
pub mod request;
pub mod resolve;
pub mod text;
pub mod workspace;
