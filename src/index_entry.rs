use core::marker::PhantomData;
use vstd::prelude::*;

use crate::attribute_value::{AttributeValueModel, NtfsAttributeValue};
use crate::bytes::{can_read, le_u16, le_u64, read_u16_le, read_u64_le, readable};
use crate::error::NtfsError;
use crate::structured_values::NewNtfsStructuredValue;

verus! {

/// Size of the fields of an Index Entry header plus its reserved bytes.
pub const INDEX_ENTRY_HEADER_SIZE: u64 = 16;

/// Flag bit: the entry ends in the VCN of a sub-node.
pub const HAS_SUBNODE_BIT: u8 = 0x01;

/// Flag bit: the entry closes the entry chain of its node.
pub const LAST_ENTRY_BIT: u8 = 0x02;

/// The flags of an Index Entry, with the bits that have no name cleared.
#[derive(Clone, Copy, Debug, PartialEq, Eq)]
pub struct NtfsIndexEntryFlags {
    pub bits: u8,
}

impl NtfsIndexEntryFlags {
    /// The flag of an entry that points to a sub-node.
    pub fn has_subnode() -> (r: Self)
        ensures
            r.bits == HAS_SUBNODE_BIT,
    {
        NtfsIndexEntryFlags { bits: HAS_SUBNODE_BIT }
    }

    /// The flag of the last entry in the list.
    pub fn last_entry() -> (r: Self)
        ensures
            r.bits == LAST_ENTRY_BIT,
    {
        NtfsIndexEntryFlags { bits: LAST_ENTRY_BIT }
    }

    /// Keeps the bits of `bits` that have a name.
    pub fn from_bits_truncate(bits: u8) -> (r: Self)
        ensures
            r.bits == bits & 0x03,
    {
        NtfsIndexEntryFlags { bits: bits & 0x03 }
    }

    pub fn bits(&self) -> (r: u8)
        ensures
            r == self.bits,
    {
        self.bits
    }

    /// Whether every bit of `other` is set in `self`.
    pub fn contains(&self, other: NtfsIndexEntryFlags) -> (r: bool)
        ensures
            r == (self.bits & other.bits == other.bits),
    {
        self.bits & other.bits == other.bits
    }
}

/// The decoded header of an Index Entry together with the offset at which the
/// entry starts and the length of the byte range that holds it.
pub struct IndexEntryModel {
    pub position: u64,
    pub len: u64,
    pub file_ref: u64,
    pub index_entry_length: u16,
    pub key_length: u16,
    pub flags: u8,
}

impl IndexEntryModel {
    pub open spec fn has_subnode(self) -> bool {
        self.flags & HAS_SUBNODE_BIT != 0
    }

    pub open spec fn is_last(self) -> bool {
        self.flags & LAST_ENTRY_BIT != 0
    }
}

/// The entry whose header is the 16 bytes of `fs` at the stream position of
/// the handle `value`, or the error of reading them, which fails where they
/// leave the reader or the handle's byte range.
pub open spec fn decode_index_entry(fs: Seq<u8>, value: AttributeValueModel) -> Result<IndexEntryModel, NtfsError> {
    let position = value.stream_position;
    let p = position as int;
    if readable(fs, value.len, p, INDEX_ENTRY_HEADER_SIZE as int) {
        Ok(
            IndexEntryModel {
                position,
                len: value.len,
                file_ref: le_u64(fs, p) as u64,
                index_entry_length: le_u16(fs, p + 8) as u16,
                key_length: le_u16(fs, p + 10) as u16,
                flags: fs[p + 12],
            },
        )
    } else {
        Err(NtfsError::UnexpectedEof { position })
    }
}

/// What `subnode_vcn` yields for the entry `e` and the reader `fs`: nothing
/// without a sub-node, else the little-endian integer in the last 8 bytes of
/// the entry's declared length.
pub open spec fn subnode_vcn_of(e: IndexEntryModel, fs: Seq<u8>) -> Option<Result<u64, NtfsError>> {
    if !e.has_subnode() {
        None
    } else {
        let target = e.position + e.index_entry_length - 8;
        if !(0 <= target <= u64::MAX) {
            Some(Err(NtfsError::InvalidSeek { position: e.position }))
        } else if !readable(fs, e.len, target, 8) {
            Some(Err(NtfsError::UnexpectedEof { position: target as u64 }))
        } else {
            Some(Ok(le_u64(fs, target) as u64))
        }
    }
}

#[derive(Clone, Copy, Debug)]
struct IndexEntryHeader {
    file_ref: u64,
    index_entry_length: u16,
    key_length: u16,
    flags: u8,
}

/// One entry of an index node: its header and a handle positioned at its start.
/// Its key decodes as a `K`.
#[derive(Debug)]
pub struct NtfsIndexEntry<K: NewNtfsStructuredValue> {
    header: IndexEntryHeader,
    value: NtfsAttributeValue,
    key_type: PhantomData<K>,
}

impl<K: NewNtfsStructuredValue> Clone for NtfsIndexEntry<K> {
    /// A copy of the header and of the handle; no bytes are copied.
    fn clone(&self) -> Self {
        NtfsIndexEntry { header: self.header, value: self.value, key_type: PhantomData }
    }
}

impl<K: NewNtfsStructuredValue> View for NtfsIndexEntry<K> {
    type V = IndexEntryModel;

    closed spec fn view(&self) -> IndexEntryModel {
        IndexEntryModel {
            position: self.value@.stream_position,
            len: self.value@.len,
            file_ref: self.header.file_ref,
            index_entry_length: self.header.index_entry_length,
            key_length: self.header.key_length,
            flags: self.header.flags,
        }
    }
}

/// The model of an entry result, with the entry replaced by its view.
pub open spec fn entry_result_model<K: NewNtfsStructuredValue>(r: Result<NtfsIndexEntry<K>, NtfsError>) -> Result<IndexEntryModel, NtfsError> {
    match r {
        Ok(e) => Ok(e@),
        Err(e) => Err(e),
    }
}

impl<K: NewNtfsStructuredValue> NtfsIndexEntry<K> {
    /// Decodes the header of the entry that starts at the stream position of
    /// `value`; the entry keeps a copy of `value` positioned there.
    pub fn new(fs: &[u8], value: NtfsAttributeValue) -> (r: Result<Self, NtfsError>)
        ensures
            entry_result_model(r) == decode_index_entry(fs@, value@),
    {
        let position = value.stream_position();
        if !can_read(fs, value.len(), position, INDEX_ENTRY_HEADER_SIZE) {
            return Err(NtfsError::UnexpectedEof { position });
        }
        let p = position as usize;
        let header = IndexEntryHeader {
            file_ref: read_u64_le(fs, p),
            index_entry_length: read_u16_le(fs, p + 8),
            key_length: read_u16_le(fs, p + 10),
            flags: fs[p + 12],
        };
        Ok(NtfsIndexEntry { header, value, key_type: PhantomData })
    }

    pub fn flags(&self) -> (r: NtfsIndexEntryFlags)
        ensures
            r.bits == self@.flags & 0x03,
    {
        NtfsIndexEntryFlags::from_bits_truncate(self.header.flags)
    }

    pub fn file_reference(&self) -> (r: u64)
        ensures
            r == self@.file_ref,
    {
        self.header.file_ref
    }

    pub fn index_entry_length(&self) -> (r: u16)
        ensures
            r == self@.index_entry_length,
    {
        self.header.index_entry_length
    }

    pub fn key_length(&self) -> (r: u16)
        ensures
            r == self@.key_length,
    {
        self.header.key_length
    }

    /// The offset at which this entry starts.
    pub fn position(&self) -> (r: u64)
        ensures
            r == self@.position,
    {
        self.value.stream_position()
    }
}

impl<K: NewNtfsStructuredValue> NtfsIndexEntry<K> {
    /// A handle to this entry's key: positioned right after the 16-byte
    /// header, over the same byte range. A position past the range of `u64`
    /// offsets is refused.
    pub fn key_value(&self) -> (r: Result<NtfsAttributeValue, NtfsError>)
        ensures
            self@.position + INDEX_ENTRY_HEADER_SIZE <= u64::MAX ==> (r matches Ok(v) && v@ == (
            AttributeValueModel {
                len: self@.len,
                stream_position: (self@.position + INDEX_ENTRY_HEADER_SIZE) as u64,
            })),
            self@.position + INDEX_ENTRY_HEADER_SIZE > u64::MAX ==> r == Err::<
                NtfsAttributeValue,
                NtfsError,
            >(NtfsError::InvalidSeek { position: self@.position }),
    {
        let mut value = self.value;
        match value.seek_current(INDEX_ENTRY_HEADER_SIZE as i64) {
            Ok(()) => Ok(value),
            Err(e) => Err(e),
        }
    }

    /// Decodes the key of this entry as a `K`, or returns `None` where the
    /// entry has no key. The last entry never has a key, whatever length its
    /// header declares. Otherwise the key is what `K::new` makes of the
    /// handle of `key_value` and `key_length` bytes, errors included.
    pub fn key_structured_value(&self, fs: &[u8]) -> (r: Option<Result<K, NtfsError>>)
        ensures
            r is None <==> (self@.key_length == 0 || self@.is_last()),
            r is Some && self@.position + INDEX_ENTRY_HEADER_SIZE > u64::MAX ==> r == Some(
                Err::<K, NtfsError>(NtfsError::InvalidSeek { position: self@.position }),
            ),
            r is Some && self@.position + INDEX_ENTRY_HEADER_SIZE <= u64::MAX ==> exists|
                v: NtfsAttributeValue,
            |
                {
                    &&& v@ == (AttributeValueModel {
                        len: self@.len,
                        stream_position: (self@.position + INDEX_ENTRY_HEADER_SIZE) as u64,
                    })
                    &&& #[trigger] call_ensures(K::new, (fs, v, self@.key_length as u64), r->Some_0)
                },
    {
        proof {
            let f = self.header.flags;
            assert(f & 0x03 & 0x02 == 0x02 <==> f & 0x02 != 0) by (bit_vector);
        }
        if self.header.key_length == 0 || self.flags().contains(NtfsIndexEntryFlags::last_entry()) {
            return None;
        }
        let value = match self.key_value() {
            Ok(value) => value,
            Err(e) => return Some(Err(e)),
        };
        let length = self.header.key_length as u64;
        let key = K::new(fs, value, length);
        proof {
            // The witness for the decoder call, in the shape the contract names it.
            let r = Some(key);
            assert(call_ensures(K::new, (fs, value, self@.key_length as u64), r->Some_0));
        }
        Some(key)
    }

    /// Reads the Virtual Cluster Number of this entry's sub-node from the last
    /// 8 bytes of the entry's declared length, or returns `None` where the
    /// entry has no sub-node.
    pub fn subnode_vcn(&self, fs: &[u8]) -> (r: Option<Result<u64, NtfsError>>)
        ensures
            r == subnode_vcn_of(self@, fs@),
    {
        proof {
            let f = self.header.flags;
            assert(f & 0x03 & 0x01 == 0x01 <==> f & 0x01 != 0) by (bit_vector);
        }
        if !self.flags().contains(NtfsIndexEntryFlags::has_subnode()) {
            return None;
        }
        let mut value = self.value;
        match value.seek_current(self.header.index_entry_length as i64 - 8) {
            Ok(()) => {},
            Err(e) => return Some(Err(e)),
        }
        let position = value.stream_position();
        if !can_read(fs, value.len(), position, 8) {
            return Some(Err(NtfsError::UnexpectedEof { position }));
        }
        Some(Ok(read_u64_le(fs, position as usize)))
    }
}

/// What a cursor over the entries of a node is: the stream position of its
/// handle, the length of the handle's byte range, the end offset (exclusive)
/// of the entries, and whether an error has closed the traversal.
pub struct IndexEntriesModel {
    pub position: u64,
    pub len: u64,
    pub end: u64,
    pub failed: bool,
}

impl IndexEntriesModel {
    /// The end of the entries lies within the handle's byte range.
    pub open spec fn wf(self) -> bool {
        self.end <= self.len
    }

    /// No entry is left to yield.
    pub open spec fn is_exhausted(self) -> bool {
        self.failed || self.position >= self.end
    }

    pub open spec fn with_position(self, position: u64) -> IndexEntriesModel {
        IndexEntriesModel { position, ..self }
    }

    pub open spec fn with_failure(self) -> IndexEntriesModel {
        IndexEntriesModel { failed: true, ..self }
    }
}

/// One step of a traversal: the cursor after the step and what the step
/// yields, where `fs` is the reader handed to the step.
///
/// An exhausted cursor yields nothing and stays as it is. Otherwise the entry
/// at the current position is decoded. The last entry moves the position to
/// `end`; any other one moves it forward by its declared length, which must
/// cover at least its header. Every error is yielded once and closes the
/// traversal, with the position left where it was.
pub open spec fn next_step(c: IndexEntriesModel, fs: Seq<u8>) -> (
    IndexEntriesModel,
    Option<Result<IndexEntryModel, NtfsError>>,
) {
    if c.is_exhausted() {
        (c, None)
    } else {
        match decode_index_entry(fs, AttributeValueModel { len: c.len, stream_position: c.position }) {
            Err(e) => (c.with_failure(), Some(Err(e))),
            Ok(e) => {
                if e.is_last() {
                    (c.with_position(c.end), Some(Ok(e)))
                } else if e.index_entry_length < INDEX_ENTRY_HEADER_SIZE {
                    (
                        c.with_failure(),
                        Some(
                            Err(
                                NtfsError::InvalidIndexEntryLength {
                                    position: c.position,
                                    length: e.index_entry_length,
                                },
                            ),
                        ),
                    )
                } else if c.position + e.index_entry_length > u64::MAX {
                    (c.with_failure(), Some(Err(NtfsError::InvalidSeek { position: c.position })))
                } else {
                    (c.with_position((c.position + e.index_entry_length) as u64), Some(Ok(e)))
                }
            },
        }
    }
}

/// The model of what a step yields, with each entry replaced by its view.
pub open spec fn step_result_model<K: NewNtfsStructuredValue>(r: Option<Result<NtfsIndexEntry<K>, NtfsError>>) -> Option<
    Result<IndexEntryModel, NtfsError>,
> {
    match r {
        None => None,
        Some(r) => Some(entry_result_model(r)),
    }
}

/// A restartable cursor over the entries of an index node. It owns no reader:
/// each step borrows one. Its entries' keys decode as a `K`.
#[derive(Debug)]
pub struct NtfsIndexEntries<K: NewNtfsStructuredValue> {
    value: NtfsAttributeValue,
    end: u64,
    failed: bool,
    key_type: PhantomData<K>,
}

impl<K: NewNtfsStructuredValue> Clone for NtfsIndexEntries<K> {
    /// A copy of the cursor's state; no bytes are copied.
    fn clone(&self) -> Self {
        NtfsIndexEntries {
            value: self.value,
            end: self.end,
            failed: self.failed,
            key_type: PhantomData,
        }
    }
}

impl<K: NewNtfsStructuredValue> View for NtfsIndexEntries<K> {
    type V = IndexEntriesModel;

    closed spec fn view(&self) -> IndexEntriesModel {
        IndexEntriesModel {
            position: self.value@.stream_position,
            len: self.value@.len,
            end: self.end,
            failed: self.failed,
        }
    }
}

impl<K: NewNtfsStructuredValue> NtfsIndexEntries<K> {
    /// A cursor over the entries from the stream position of `value` up to
    /// `end`, which lies within `value`'s byte range.
    pub fn new(value: NtfsAttributeValue, end: u64) -> (r: Self)
        requires
            end <= value@.len,
        ensures
            r@ == (IndexEntriesModel {
                position: value@.stream_position,
                len: value@.len,
                end,
                failed: false,
            }),
            r@.wf(),
    {
        NtfsIndexEntries { value, end, failed: false, key_type: PhantomData }
    }

    /// Binds this cursor to the reader `fs`.
    pub fn attach<'a>(self, fs: &'a [u8]) -> (r: NtfsIndexEntriesAttached<'a, K>)
        ensures
            r@ == (AttachedModel { entries: self@, reader: fs@ }),
    {
        NtfsIndexEntriesAttached::new(fs, self)
    }

    /// Yields the next entry read from `fs`, the error that ends the
    /// traversal, or `None` once the traversal is over.
    pub fn next(&mut self, fs: &[u8]) -> (r: Option<Result<NtfsIndexEntry<K>, NtfsError>>)
        ensures
            (final(self)@, step_result_model(r)) == next_step(old(self)@, fs@),
    {
        if self.failed || self.value.stream_position() >= self.end {
            return None;
        }
        let entry = match NtfsIndexEntry::new(fs, self.value) {
            Ok(entry) => entry,
            Err(e) => {
                self.failed = true;
                return Some(Err(e));
            },
        };
        proof {
            let f = entry.header.flags;
            assert(f & 0x03 & 0x02 == 0x02 <==> f & 0x02 != 0) by (bit_vector);
        }
        if entry.flags().contains(NtfsIndexEntryFlags::last_entry()) {
            self.value.seek_start(self.end);
        } else {
            let length = entry.index_entry_length();
            if (length as u64) < INDEX_ENTRY_HEADER_SIZE {
                self.failed = true;
                return Some(
                    Err(
                        NtfsError::InvalidIndexEntryLength {
                            position: self.value.stream_position(),
                            length,
                        },
                    ),
                );
            }
            match self.value.seek_current(length as i64) {
                Ok(()) => {},
                Err(e) => {
                    self.failed = true;
                    return Some(Err(e));
                },
            }
        }
        Some(Ok(entry))
    }
}

/// What an attached cursor is: the cursor and the bytes of its reader.
pub struct AttachedModel {
    pub entries: IndexEntriesModel,
    pub reader: Seq<u8>,
}

/// A cursor bound to a reader for the length of a loop. Once it has yielded
/// `None` it yields `None` on every later call.
pub struct NtfsIndexEntriesAttached<'a, K: NewNtfsStructuredValue> {
    fs: &'a [u8],
    index_entries: NtfsIndexEntries<K>,
}

impl<'a, K: NewNtfsStructuredValue> View for NtfsIndexEntriesAttached<'a, K> {
    type V = AttachedModel;

    closed spec fn view(&self) -> AttachedModel {
        AttachedModel { entries: self.index_entries@, reader: self.fs@ }
    }
}

impl<'a, K: NewNtfsStructuredValue> NtfsIndexEntriesAttached<'a, K> {
    fn new(fs: &'a [u8], index_entries: NtfsIndexEntries<K>) -> (r: Self)
        ensures
            r@ == (AttachedModel { entries: index_entries@, reader: fs@ }),
    {
        NtfsIndexEntriesAttached { fs, index_entries }
    }

    /// Gives up the reader and hands back the cursor, at the position reached.
    pub fn detach(self) -> (r: NtfsIndexEntries<K>)
        ensures
            r@ == self@.entries,
    {
        self.index_entries
    }

    /// One step of the cursor on the bound reader.
    pub fn next(&mut self) -> (r: Option<Result<NtfsIndexEntry<K>, NtfsError>>)
        ensures
            final(self)@.reader == old(self)@.reader,
            (final(self)@.entries, step_result_model(r)) == next_step(
                old(self)@.entries,
                old(self)@.reader,
            ),
    {
        self.index_entries.next(self.fs)
    }
}

} // verus!
