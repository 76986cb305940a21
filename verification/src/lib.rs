//! Text recognition around a vision engine: how a request is configured, how
//! the engine's regions become one text with one confidence, and how a
//! recognition task moves from pending to delivered, failed or cancelled.

pub use crate::aggregate::OcrResult;
pub use crate::error::OcrError;
pub use crate::task::recognize;
pub use crate::task::RecognizeTask;
use vstd::prelude::*;

pub mod aggregate;
pub mod engine;
pub mod error;
pub mod fraction;
pub mod region;
pub mod request;
pub mod task;

verus! {

/// How thorough the engine is asked to be.
#[derive(Debug, Clone, Copy, PartialEq, Eq, Structural)]
pub enum OcrAccuracy {
    Fast,
    Accurate,
}

} // verus!
