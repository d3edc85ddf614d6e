//! Runtime adapter for mini-games that live in a sandboxed guest module and
//! are driven by a host through a flat integer boundary with a shared linear
//! memory.
//!
//! The crate turns the host's raw integer calls into a typed callback
//! lifecycle for a single guest-resident [`Game`](game::Game) object. It
//! marshals text and byte buffers across the boundary, manages the one opaque
//! handle that names the game object, decodes the bit-packed video asset used
//! by one of the bundled games, and reports otherwise-fatal failures as
//! values instead of aborting invisibly.

use vstd::prelude::*;

pub mod bad_apple;
pub mod codec;
pub mod counter;
pub mod game;
pub mod host;
pub mod marshal;
pub mod raytracer;
pub mod registry;

pub use game::{ClickType, Game};
pub use host::{Canvas, LogLevel, Screen, SoundCategory};
pub use marshal::{convert_bytes, convert_str};
pub use registry::Registry;

verus! {

/// A failure that is fatal to the current callback invocation.
///
/// Each variant is detected at the point of decode or resolve; the dispatcher
/// aborts the callback and hands the error to its caller, which is expected
/// to report it through the host's log sink at the highest severity.
#[derive(Debug, Clone, Copy, PartialEq, Eq, Structural)]
pub enum MtgError {
    /// An address, length, or dimension does not fit the boundary's 32-bit
    /// signed integer width.
    ConversionOverflow,
    /// A handle that is zero or was never issued was passed to a callback.
    NullHandle,
    /// A small enumerated code (such as a click type) lies outside its
    /// defined set.
    UnknownEnumValue,
    /// A loaded persistent blob's length matches neither the fixed width the
    /// reader expects nor the empty store.
    PersistentDataShapeMismatch,
}

impl MtgError {
    /// A short description of the failure, for the host's log sink.
    pub fn message(&self) -> (r: &'static str)
        ensures
            r@ == match self {
                MtgError::ConversionOverflow => "value does not fit the boundary integer width"@,
                MtgError::NullHandle => "handle is zero or was never issued"@,
                MtgError::UnknownEnumValue => "enumerated code outside its defined set"@,
                MtgError::PersistentDataShapeMismatch => "persistent data has an unexpected length"@,
            },
    {
        match self {
            MtgError::ConversionOverflow => "value does not fit the boundary integer width",
            MtgError::NullHandle => "handle is zero or was never issued",
            MtgError::UnknownEnumValue => "enumerated code outside its defined set",
            MtgError::PersistentDataShapeMismatch => "persistent data has an unexpected length",
        }
    }
}

} // verus!
