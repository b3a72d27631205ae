//! The error type of this crate.
use vstd::prelude::*;

verus! {

/// Why a set of parameters could not be prepared for the C API.
#[derive(Debug, Clone, Copy, PartialEq, Eq, Structural)]
pub enum ParamError {
    /// A parameter name or an encoded value holds a NUL character, which a
    /// NUL-terminated C string cannot carry.
    InteriorNul,
}

} // verus!
