//! The decode error kinds shared by all three container decoders.

use vstd::prelude::*;

verus! {

/// Why a decode failed. Every error propagates immediately to the top-level
/// decode call: binary decoding is deterministic, so there is no recovery.
#[derive(Clone, Copy, Debug, PartialEq, Eq, Structural)]
pub enum DecodeError {
    /// A primitive read required more bytes than remain in the buffer.
    Truncated,
    /// A back-referencing index was invalid: a material alias index that
    /// is negative but not the inline sentinel, out of range, or pointing
    /// forward, or a frame's parent index that is neither -1 nor an
    /// earlier frame's position.
    InvalidIndex,
    /// An animation package's leading signature matched no known sub-format.
    UnsupportedFormat,
}

impl DecodeError {
    /// A short human-readable description of the error kind.
    pub fn describe(&self) -> (r: &'static str)
        ensures
            r@ == match *self {
                DecodeError::Truncated => "unexpected end of input"@,
                DecodeError::InvalidIndex => "invalid back-reference index"@,
                DecodeError::UnsupportedFormat => "unsupported animation package format"@,
            },
    {
        match *self {
            DecodeError::Truncated => "unexpected end of input",
            DecodeError::InvalidIndex => "invalid back-reference index",
            DecodeError::UnsupportedFormat => "unsupported animation package format",
        }
    }
}

/// Relates one step of a spec-level decoder to the result of the exec code:
/// on success the exec value and final cursor position are exactly the ones
/// the spec computes, and on failure the error kind is the one the spec gives.
pub open spec fn mirrors<T>(
    sr: Result<(T, int), DecodeError>,
    r: Result<T, DecodeError>,
    end: int,
) -> bool {
    match r {
        Ok(v) => sr == Ok::<(T, int), DecodeError>((v, end)),
        Err(e) => sr == Err::<(T, int), DecodeError>(e),
    }
}

/// Relates a whole-buffer spec decode to the exec result: the exec value's
/// view, or the error, is exactly what the spec computes.
pub open spec fn mirrors_value<T: View>(sr: Result<T::V, DecodeError>, r: Result<T, DecodeError>) -> bool {
    match r {
        Ok(v) => sr == Ok::<T::V, DecodeError>(v@),
        Err(e) => sr == Err::<T::V, DecodeError>(e),
    }
}

/// As `mirrors`, for an exec result whose spec-level value is its view.
pub open spec fn mirrors_view<T: View>(
    sr: Result<(T::V, int), DecodeError>,
    r: Result<T, DecodeError>,
    end: int,
) -> bool {
    match r {
        Ok(v) => sr == Ok::<(T::V, int), DecodeError>((v@, end)),
        Err(e) => sr == Err::<(T::V, int), DecodeError>(e),
    }
}

} // verus!
