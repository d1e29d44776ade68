//! The library's native string and path values: each holds the code units of
//! the platform's string representation, with no requirement that they form
//! valid Unicode text.
use vstd::prelude::*;

verus! {

/// A native OS string: the code units of the platform's string type, kept
/// exactly as given (any byte pattern, any 16-bit pattern including unpaired
/// surrogates).
#[derive(Debug, Clone, PartialEq, Eq)]
pub struct NativeOsString<U> {
    units: Vec<U>,
}

impl<U> View for NativeOsString<U> {
    type V = Seq<U>;

    closed spec fn view(&self) -> Seq<U> {
        self.units@
    }
}

impl<U> NativeOsString<U> {
    /// The code units of the string.
    pub fn units(&self) -> (r: &[U])
        ensures
            r@ == self@,
    {
        self.units.as_slice()
    }

    /// Gives the code units of the string back, unchanged.
    pub fn into_units(self) -> (r: Vec<U>)
        ensures
            r@ == self@,
    {
        self.units
    }
}

/// Builds the native OS string of a code-unit sequence.
///
/// Both platform families accept every sequence of their code units, so this
/// conversion always succeeds and keeps the units as they are; its result
/// stays fallible so that a stricter string type could reject a sequence.
pub fn osstring_from_bytes<U>(bytes: Vec<U>) -> (r: Result<NativeOsString<U>, ()>)
    ensures
        r is Ok,
        r matches Ok(s) ==> s@ == bytes@,
{
    Ok(NativeOsString { units: bytes })
}

/// A native path value: a path in the host's own representation, over a
/// native OS string.
#[derive(Debug, Clone, PartialEq, Eq)]
pub struct NativePath<U> {
    inner: NativeOsString<U>,
}

impl<U> View for NativePath<U> {
    type V = Seq<U>;

    closed spec fn view(&self) -> Seq<U> {
        self.inner@
    }
}

impl<U> NativePath<U> {
    /// Wraps a native OS string as a path, with no change to its units.
    pub fn from_native_string(s: NativeOsString<U>) -> (r: NativePath<U>)
        ensures
            r@ == s@,
    {
        NativePath { inner: s }
    }

    /// The native OS string that the path wraps.
    pub fn as_native_string(&self) -> (r: &NativeOsString<U>)
        ensures
            r@ == self@,
    {
        &self.inner
    }

    /// The code units of the path.
    pub fn units(&self) -> (r: &[U])
        ensures
            r@ == self@,
    {
        self.inner.units()
    }

    /// The path's code-unit sequence, as it is written on the wire.
    pub fn into_units(self) -> (r: Vec<U>)
        ensures
            r@ == self@,
    {
        self.inner.into_units()
    }
}

} // verus!
