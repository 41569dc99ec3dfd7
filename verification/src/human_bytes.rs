//! A number of bytes, kept apart from other numbers so that it can be shown
//! in a unit that suits its size.

use crate::context::Context;
use crate::measure::SizeOf;
use vstd::prelude::*;
use vstd::std_specs::convert::FromSpecImpl;

verus! {

/// A number of bytes.
#[derive(Debug, Clone, Copy, PartialEq, Eq, Structural, PartialOrd, Ord, Hash)]
pub struct HumanBytes {
    /// The number of bytes.
    pub bytes: u64,
}

impl HumanBytes {
    /// `bytes` bytes.
    pub fn new(bytes: u64) -> (human: Self)
        ensures
            human.bytes == bytes,
    {
        Self { bytes }
    }

    /// The number of bytes.
    pub fn into_inner(self) -> (bytes: u64)
        ensures
            bytes == self.bytes,
    {
        self.bytes
    }
}

impl core::default::Default for HumanBytes {
    fn default() -> (human: Self)
        ensures
            human.bytes == 0,
    {
        Self { bytes: 0 }
    }
}

impl FromSpecImpl<u64> for HumanBytes {
    open spec fn obeys_from_spec() -> bool {
        true
    }

    open spec fn from_spec(bytes: u64) -> Self {
        HumanBytes { bytes }
    }
}

impl From<u64> for HumanBytes {
    fn from(bytes: u64) -> (human: Self) {
        Self { bytes }
    }
}

impl FromSpecImpl<u32> for HumanBytes {
    open spec fn obeys_from_spec() -> bool {
        true
    }

    open spec fn from_spec(bytes: u32) -> Self {
        HumanBytes { bytes: bytes as u64 }
    }
}

impl From<u32> for HumanBytes {
    fn from(bytes: u32) -> (human: Self) {
        Self { bytes: bytes as u64 }
    }
}

impl FromSpecImpl<usize> for HumanBytes {
    open spec fn obeys_from_spec() -> bool {
        true
    }

    open spec fn from_spec(bytes: usize) -> Self {
        HumanBytes { bytes: bytes as u64 }
    }
}

impl From<usize> for HumanBytes {
    fn from(bytes: usize) -> (human: Self) {
        Self { bytes: bytes as u64 }
    }
}

// A number of bytes owns nothing.
impl SizeOf for HumanBytes {
    fn size_of_children(&self, _context: &mut Context) {
    }
}

} // verus!
