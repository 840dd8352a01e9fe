//! Safe, verified data layer of a wrapper library around a native compiler
//! infrastructure C API.  The raw handles, and every call that crosses the C
//! boundary, live in the unverified shell around this crate; what stands here
//! is everything the wrapper decides on its own: the scalar argument wrappers,
//! the mirrored enumerations and their numeric codes on the C side, and the
//! version record.

use vstd::prelude::*;

pub mod context;
pub mod ir;
pub mod module;
pub mod types;
pub mod values;

verus! {

/// Get raw references trait.
///
/// The unverified shell implements this for each handle wrapper; the raw
/// reference type is opaque to this crate.
pub trait GetRef {
    /// Raw reference type of the wrapped handle.
    type RawRef;

    /// Get the wrapped raw reference.
    fn get_ref(&self) -> Self::RawRef;
}

/// `c_uint` wrapper (from C-type).  The C `unsigned int` is a 32-bit value on
/// every platform the wrapped library supports, so the wrapper holds a plain
/// `u32`.
#[derive(Debug, Copy, Clone, PartialEq, Eq, Structural)]
pub struct CUint(pub u32);

impl From<u32> for CUint {
    fn from(value: u32) -> (r: Self) {
        Self(value)
    }
}

impl vstd::std_specs::convert::FromSpecImpl<u32> for CUint {
    open spec fn obeys_from_spec() -> bool {
        true
    }

    open spec fn from_spec(value: u32) -> Self {
        CUint(value)
    }
}

impl From<CUint> for u32 {
    fn from(value: CUint) -> (r: Self) {
        value.0
    }
}

impl vstd::std_specs::convert::FromSpecImpl<CUint> for u32 {
    open spec fn obeys_from_spec() -> bool {
        true
    }

    open spec fn from_spec(value: CUint) -> u32 {
        value.0
    }
}

impl CUint {
    /// Wrap a count that arrived as a `usize`.  The C side takes a 32-bit
    /// value, so the count must fit in one.
    pub fn from_usize(value: usize) -> (r: Self)
        requires
            value <= u32::MAX,
        ensures
            r.0 == value,
    {
        Self(value as u32)
    }

    /// The wrapped numeric value.
    pub fn value(self) -> (r: u32)
        ensures
            r == self.0,
    {
        self.0
    }
}

/// `c_int` wrapper (from C-type).  The C `int` is a 32-bit signed value on
/// every platform the wrapped library supports, so the wrapper holds a plain
/// `i32`.
#[derive(Debug, Copy, Clone, PartialEq, Eq, Structural)]
pub struct CInt(pub i32);

impl From<i32> for CInt {
    fn from(value: i32) -> (r: Self) {
        Self(value)
    }
}

impl vstd::std_specs::convert::FromSpecImpl<i32> for CInt {
    open spec fn obeys_from_spec() -> bool {
        true
    }

    open spec fn from_spec(value: i32) -> Self {
        CInt(value)
    }
}

impl From<bool> for CInt {
    fn from(value: bool) -> (r: Self) {
        Self(if value { 1 } else { 0 })
    }
}

impl vstd::std_specs::convert::FromSpecImpl<bool> for CInt {
    open spec fn obeys_from_spec() -> bool {
        true
    }

    open spec fn from_spec(value: bool) -> Self {
        if value {
            CInt(1)
        } else {
            CInt(0)
        }
    }
}

impl CInt {
    /// The wrapped numeric value.
    pub fn value(self) -> (r: i32)
        ensures
            r == self.0,
    {
        self.0
    }
}

/// `size_t` wrapper (from C-type).  The C `size_t` has the width of `usize`
/// on every platform the wrapped library supports.
#[derive(Debug, Copy, Clone, PartialEq, Eq, Structural)]
pub struct SizeT(pub usize);

impl From<usize> for SizeT {
    fn from(value: usize) -> (r: Self) {
        Self(value)
    }
}

impl vstd::std_specs::convert::FromSpecImpl<usize> for SizeT {
    open spec fn obeys_from_spec() -> bool {
        true
    }

    open spec fn from_spec(value: usize) -> Self {
        SizeT(value)
    }
}

impl SizeT {
    /// The wrapped numeric value.
    pub fn value(self) -> (r: usize)
        ensures
            r == self.0,
    {
        self.0
    }
}

} // verus!
