use vstd::prelude::*;

use crate::error::NtfsError;

verus! {

/// What an attribute value handle is: the length of its byte range and its
/// current stream position within it.
pub struct AttributeValueModel {
    pub len: u64,
    pub stream_position: u64,
}

/// A handle to the byte range of an attribute value, with a stream position.
///
/// The handle owns no bytes: every read takes a reader whose indices are the
/// offsets of this byte range. Copying it copies the position alone.
#[derive(Clone, Copy, Debug)]
pub struct NtfsAttributeValue {
    len: u64,
    stream_position: u64,
}

impl View for NtfsAttributeValue {
    type V = AttributeValueModel;

    closed spec fn view(&self) -> AttributeValueModel {
        AttributeValueModel { len: self.len, stream_position: self.stream_position }
    }
}

impl NtfsAttributeValue {
    pub fn new(len: u64, stream_position: u64) -> (r: Self)
        ensures
            r@ == (AttributeValueModel { len, stream_position }),
    {
        NtfsAttributeValue { len, stream_position }
    }

    pub fn len(&self) -> (r: u64)
        ensures
            r == self@.len,
    {
        self.len
    }

    pub fn stream_position(&self) -> (r: u64)
        ensures
            r == self@.stream_position,
    {
        self.stream_position
    }

    /// Moves the stream position to `position`.
    pub fn seek_start(&mut self, position: u64)
        ensures
            final(self)@ == (AttributeValueModel { stream_position: position, ..old(self)@ }),
    {
        self.stream_position = position;
    }

    /// Moves the stream position by `delta` bytes. A target outside the range
    /// of `u64` offsets is refused and leaves the position as it was.
    pub fn seek_current(&mut self, delta: i64) -> (r: Result<(), NtfsError>)
        ensures
            ({
                let target = old(self)@.stream_position + delta;
                if 0 <= target <= u64::MAX {
                    &&& r is Ok
                    &&& final(self)@ == (AttributeValueModel {
                        stream_position: target as u64,
                        ..old(self)@
                    })
                } else {
                    &&& r == Err::<(), NtfsError>(
                        NtfsError::InvalidSeek { position: old(self)@.stream_position },
                    )
                    &&& final(self)@ == old(self)@
                }
            }),
    {
        let position = self.stream_position;
        if delta >= 0 {
            let d = delta as u64;
            if d > u64::MAX - position {
                return Err(NtfsError::InvalidSeek { position });
            }
            self.stream_position = position + d;
        } else {
            let d = (0i128 - delta as i128) as u64;
            if d > position {
                return Err(NtfsError::InvalidSeek { position });
            }
            self.stream_position = position - d;
        }
        Ok(())
    }
}

} // verus!
