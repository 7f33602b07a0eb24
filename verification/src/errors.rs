use vstd::prelude::*;

verus! {

/// Failure conditions reported while decoding a model buffer.
#[derive(Clone, Copy, Debug, PartialEq, Eq, Structural)]
pub enum Error {
    /// Generic catch-all; not produced by the decoding routines themselves.
    Unknown,
    /// The buffer's magic word did not match the fixed model magic.
    InvalidMagic { expected: u32, got: u32 },
    /// A fixed-width read fell outside the buffer.
    BoundsError,
}

} // verus!
