//! Why a snapshot or a recording was refused.

use vstd::prelude::*;
use vstd::string::*;

use crate::round::Side;

verus! {

/// Something that does not belong together.
#[derive(Debug, Clone, Copy, PartialEq, Eq, Structural)]
pub enum Mismatch {
    /// A snapshot was taken from another character.
    Character {
        /// On which side.
        side: Side,
        /// The snapshot's stamp.
        snapshot: u64,
        /// The match's stamp.
        live: u64,
    },
    /// A recording has a version that this build does not know.
    Version {
        /// The version of the recording.
        found: u32,
        /// The version of this build.
        expected: u32,
    },
}

/// Why a snapshot or a recording was refused. The match is as it was.
#[derive(Debug, PartialEq, Eq)]
pub enum FpError {
    /// The bytes could not be read, or hold what stands for nothing.
    Other(String),
    /// The bytes belong to something else.
    Mismatch(Mismatch),
}

/// `prefix` with a codec's message behind it.
pub(crate) fn explain(prefix: &str, message: &String) -> (r: FpError)
    ensures
        r matches FpError::Other(text) && text@ == prefix@ + message@,
{
    let mut text = prefix.to_owned();
    text.append(message.as_str());
    FpError::Other(text)
}

} // verus!
