//! Verified core of a binding layer for a native computer-vision library.
//!
//! The native library itself does the numeric work; what this crate states
//! and proves is the discipline around it: how build-time configuration is
//! assembled from defaults, feature toggles and environment overrides, how
//! the binding generator picks one header per enabled module, how linker
//! directives are derived from library file names, and how text and opaque
//! handles are marshaled across the boundary without double releases or
//! embedded null bytes.

use vstd::prelude::*;

pub mod bindgen;
pub mod config;
pub mod dnn;
pub mod link;
pub mod text;

verus! {

/// Errors reported by the wrapper layer.
///
/// Every failure that can come from caller input or from the native side is
/// translated into one of these variants at the boundary; code above the
/// boundary never inspects native error representations directly.
#[derive(Debug, Clone, PartialEq)]
pub enum CvError {
    /// The text cannot be marshaled to a null-terminated native string:
    /// it holds an embedded null character.
    InvalidString(String),
    /// The filesystem path is not representable as native text.
    InvalidPath(String),
    /// A cascade model failed to load from the given path.
    InvalidCascadeModel(String),
    /// No entry exists on the given path.
    EntryNotFound(String),
    /// A numeric code from the native side matches no known enumeration
    /// value of the wrapper.
    EnumFromPrimitiveConversionError {
        /// The offending code.
        value: i32,
    },
    /// The native side reported failure through its out-of-band diagnostic
    /// channel; the carried text is that diagnostic.
    UnknownError(String),
    /// The text holds characters outside the ASCII range.
    UnicodeChars(String),
}

} // verus!
