use vstd::prelude::*;

use crate::attribute_value::NtfsAttributeValue;
use crate::error::NtfsError;

verus! {

/// A type that a key of an Index Entry can be decoded into.
///
/// `new` reads `length` bytes from the reader `fs`, starting at the stream
/// position of `value`, and builds the key from them.
pub trait NewNtfsStructuredValue: Sized {
    fn new(fs: &[u8], value: NtfsAttributeValue, length: u64) -> Result<Self, NtfsError>;
}

} // verus!
