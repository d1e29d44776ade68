//! The path decoder: from the code-unit sequence that an upstream
//! deserializer produced to a native path value, or a decode error.
use vstd::prelude::*;

use crate::native_path::{osstring_from_bytes, NativePath};

verus! {

/// The diagnostic carried by [`DecodeError::InvalidBytes`].
pub const INVALID_BYTES_MESSAGE: &'static str = "invalid bytes for OsString type";

/// Why a path could not be decoded.
#[derive(Debug, Clone, PartialEq, Eq)]
pub enum DecodeError<E> {
    /// The upstream deserializer failed before the code-unit sequence was
    /// complete; its own error, unchanged.
    Upstream(E),
    /// The code units do not form a native OS string.
    InvalidBytes,
}

/// The code-unit sequence held by what the upstream deserializer returned.
pub open spec fn upstream_units<U, E>(upstream: Result<Vec<U>, E>) -> Result<Seq<U>, E> {
    match upstream {
        Ok(v) => Ok(v@),
        Err(e) => Err(e),
    }
}

/// The code-unit sequence of a decoded path, or the decode error.
pub open spec fn decoded_units<U, E>(r: Result<NativePath<U>, DecodeError<E>>) -> Result<
    Seq<U>,
    DecodeError<E>,
> {
    match r {
        Ok(p) => Ok(p@),
        Err(e) => Err(e),
    }
}

/// What decoding makes of an upstream outcome: a complete code-unit sequence
/// becomes the path of exactly those units; an upstream error is passed on
/// unchanged.
pub open spec fn decode_spec<U, E>(upstream: Result<Seq<U>, E>) -> Result<Seq<U>, DecodeError<E>> {
    match upstream {
        Ok(units) => Ok(units),
        Err(e) => Err(DecodeError::Upstream(e)),
    }
}

/// Decodes a native path from the outcome of reading its code-unit sequence.
///
/// `upstream` is what the deserializer returned when asked for a sequence of
/// code units of the platform's width. Its error is returned unchanged, and no
/// path is built. A complete sequence becomes the path whose units are exactly
/// that sequence: no normalization, no separator translation, no check of
/// path syntax or of Unicode validity.
pub fn decode_pathbuf<U, E>(upstream: Result<Vec<U>, E>) -> (r: Result<
    NativePath<U>,
    DecodeError<E>,
>)
    ensures
        decoded_units(r) == decode_spec(upstream_units(upstream)),
        upstream is Ok <==> r is Ok,
        r matches Ok(p) ==> upstream matches Ok(v) && p@ == v@,
        upstream matches Err(e) ==> r == Err::<NativePath<U>, DecodeError<E>>(
            DecodeError::Upstream(e),
        ),
{
    let bytes = match upstream {
        Ok(v) => v,
        Err(e) => {
            return Err(DecodeError::Upstream(e));
        },
    };
    let osstring = match osstring_from_bytes(bytes) {
        Ok(s) => s,
        Err(()) => {
            return Err(DecodeError::InvalidBytes);
        },
    };
    Ok(NativePath::from_native_string(osstring))
}

/// Round trip: a path's own code-unit sequence, as `NativePath::into_units`
/// gives it, decodes back to a path with exactly the same units.
pub proof fn lemma_round_trip<U, E>(path: NativePath<U>, encoded: Vec<U>)
    requires
        encoded@ == path@,
    ensures
        decode_spec(upstream_units(Ok::<Vec<U>, E>(encoded))) == Ok::<Seq<U>, DecodeError<E>>(
            path@,
        ),
{
}

/// Decoding is deterministic: two upstream outcomes that hold the same code
/// units, or the same error, decode to equal results.
pub proof fn lemma_decode_deterministic<U, E>(first: Result<Vec<U>, E>, second: Result<Vec<U>, E>)
    requires
        upstream_units(first) == upstream_units(second),
    ensures
        decode_spec(upstream_units(first)) == decode_spec(upstream_units(second)),
{
}

} // verus!
