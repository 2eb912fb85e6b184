use vstd::prelude::*;

use crate::attribute::{AttributesModel, NtfsAttributes};
use crate::bytes::{has_bytes, le_u16, le_u32, le_u64, read_u16_le, read_u32_le, read_u64_le};
use crate::error::NtfsError;

verus! {

/// The number of bytes of a File Record header that are decoded.
pub const FILE_RECORD_HEADER_SIZE: u64 = 42;

/// Flag bit: the record is in use.
pub const IN_USE_BIT: u16 = 0x0001;

/// Flag bit: the record is a directory.
pub const IS_DIRECTORY_BIT: u16 = 0x0002;

/// The files that NTFS places at fixed record numbers of the Master File Table.
#[derive(Clone, Copy, Debug, PartialEq, Eq)]
pub enum KnownNtfsFile {
    MFT,
    MFTMirr,
    LogFile,
    Volume,
    AttrDef,
    RootDirectory,
    Bitmap,
    Boot,
    BadClus,
    Secure,
    UpCase,
    Extend,
}

impl KnownNtfsFile {
    /// The record number of this file in the Master File Table.
    pub fn record_number(&self) -> (r: u64)
        ensures
            r == match *self {
                KnownNtfsFile::MFT => 0u64,
                KnownNtfsFile::MFTMirr => 1,
                KnownNtfsFile::LogFile => 2,
                KnownNtfsFile::Volume => 3,
                KnownNtfsFile::AttrDef => 4,
                KnownNtfsFile::RootDirectory => 5,
                KnownNtfsFile::Bitmap => 6,
                KnownNtfsFile::Boot => 7,
                KnownNtfsFile::BadClus => 8,
                KnownNtfsFile::Secure => 9,
                KnownNtfsFile::UpCase => 10,
                KnownNtfsFile::Extend => 11,
            },
    {
        match *self {
            KnownNtfsFile::MFT => 0,
            KnownNtfsFile::MFTMirr => 1,
            KnownNtfsFile::LogFile => 2,
            KnownNtfsFile::Volume => 3,
            KnownNtfsFile::AttrDef => 4,
            KnownNtfsFile::RootDirectory => 5,
            KnownNtfsFile::Bitmap => 6,
            KnownNtfsFile::Boot => 7,
            KnownNtfsFile::BadClus => 8,
            KnownNtfsFile::Secure => 9,
            KnownNtfsFile::UpCase => 10,
            KnownNtfsFile::Extend => 11,
        }
    }
}

/// The flags of a File Record. Bits without a name are kept as they were read.
#[derive(Clone, Copy, Debug, PartialEq, Eq)]
pub struct NtfsFileFlags {
    pub bits: u16,
}

impl NtfsFileFlags {
    /// The flag of a record that is in use.
    pub fn in_use() -> (r: Self)
        ensures
            r.bits == IN_USE_BIT,
    {
        NtfsFileFlags { bits: IN_USE_BIT }
    }

    /// The flag of a record that is a directory.
    pub fn is_directory() -> (r: Self)
        ensures
            r.bits == IS_DIRECTORY_BIT,
    {
        NtfsFileFlags { bits: IS_DIRECTORY_BIT }
    }

    pub fn bits(&self) -> (r: u16)
        ensures
            r == self.bits,
    {
        self.bits
    }

    /// Whether every bit of `other` is set in `self`.
    pub fn contains(&self, other: NtfsFileFlags) -> (r: bool)
        ensures
            r == (self.bits & other.bits == other.bits),
    {
        self.bits & other.bits == other.bits
    }
}

/// The bytes `FILE` that open every File Record.
pub open spec fn file_signature() -> Seq<u8> {
    seq![0x46u8, 0x49u8, 0x4cu8, 0x45u8]
}

/// What a File Record is: its absolute position and the fields of its header.
pub struct FileRecordModel {
    pub position: u64,
    pub signature: Seq<u8>,
    pub sequence_number: u16,
    pub hard_link_count: u16,
    pub first_attribute_offset: u16,
    pub flags: u16,
    pub used_size: u32,
    pub allocated_size: u32,
    pub base_file_record: u64,
    pub next_attribute_number: u16,
}

/// The header that the bytes `record`, read at `position`, hold; the caller
/// makes sure that `record` holds a whole header.
pub open spec fn file_record_model(record: Seq<u8>, position: u64) -> FileRecordModel {
    FileRecordModel {
        position,
        signature: record.subrange(0, 4),
        sequence_number: le_u16(record, 16) as u16,
        hard_link_count: le_u16(record, 18) as u16,
        first_attribute_offset: le_u16(record, 20) as u16,
        flags: le_u16(record, 22) as u16,
        used_size: le_u32(record, 24) as u32,
        allocated_size: le_u32(record, 28) as u32,
        base_file_record: le_u64(record, 32) as u64,
        next_attribute_number: le_u16(record, 40) as u16,
    }
}

/// The outcome of checking a signature read at `position`.
pub open spec fn signature_check<T>(signature: Seq<u8>, position: u64, r: Result<T, NtfsError>) -> bool {
    if signature == file_signature() {
        r is Ok
    } else {
        r matches Err(NtfsError::InvalidNtfsFileSignature { position: p, expected, actual })
            && p == position && expected@ == file_signature() && actual@ == signature
    }
}

/// In every File Record header, the in-use and directory flags are the two
/// lowest bits of the byte at offset 22, and the signature is `FILE` exactly
/// when the first four bytes are `F`, `I`, `L`, `E`, byte for byte.
pub proof fn lemma_flags_and_signature_bytes(record: Seq<u8>, position: u64)
    requires
        record.len() >= FILE_RECORD_HEADER_SIZE,
    ensures
        (file_record_model(record, position).flags & IN_USE_BIT == IN_USE_BIT) <==> (record[22]
            & 1 == 1),
        (file_record_model(record, position).flags & IS_DIRECTORY_BIT == IS_DIRECTORY_BIT) <==> (
        record[22] & 2 == 2),
        (file_record_model(record, position).signature == file_signature()) <==> (record[0]
            == 0x46 && record[1] == 0x49 && record[2] == 0x4c && record[3] == 0x45),
{
    let lo = record[22];
    let hi = record[23];
    assert(((lo as u16 + 256 * hi as u16) as u16 & 1u16 == 1u16) <==> (lo & 1u8 == 1u8))
        by (bit_vector);
    assert(((lo as u16 + 256 * hi as u16) as u16 & 2u16 == 2u16) <==> (lo & 2u8 == 2u8))
        by (bit_vector);
    let m = file_record_model(record, position);
    if record[0] == 0x46 && record[1] == 0x49 && record[2] == 0x4c && record[3] == 0x45 {
        assert(m.signature =~= file_signature());
    }
    if m.signature == file_signature() {
        assert(m.signature[0] == record[0]);
        assert(m.signature[1] == record[1]);
        assert(m.signature[2] == record[2]);
        assert(m.signature[3] == record[3]);
    }
}

struct FileRecordHeader {
    signature: [u8; 4],
    sequence_number: u16,
    hard_link_count: u16,
    first_attribute_offset: u16,
    flags: u16,
    used_size: u32,
    allocated_size: u32,
    base_file_record: u64,
    next_attribute_number: u16,
}

/// A File Record of the Master File Table, decoded at an absolute position.
pub struct NtfsFile {
    header: FileRecordHeader,
    position: u64,
}

impl View for NtfsFile {
    type V = FileRecordModel;

    closed spec fn view(&self) -> FileRecordModel {
        FileRecordModel {
            position: self.position,
            signature: self.header.signature@,
            sequence_number: self.header.sequence_number,
            hard_link_count: self.header.hard_link_count,
            first_attribute_offset: self.header.first_attribute_offset,
            flags: self.header.flags,
            used_size: self.header.used_size,
            allocated_size: self.header.allocated_size,
            base_file_record: self.header.base_file_record,
            next_attribute_number: self.header.next_attribute_number,
        }
    }
}

impl NtfsFile {
    /// Decodes the File Record header held by `record`, the bytes read at the
    /// absolute volume offset `position`, and checks its signature.
    pub fn new(record: &[u8], position: u64) -> (r: Result<Self, NtfsError>)
        ensures
            record@.len() < FILE_RECORD_HEADER_SIZE ==> r == Err::<Self, NtfsError>(
                NtfsError::UnexpectedEof { position },
            ),
            record@.len() >= FILE_RECORD_HEADER_SIZE ==> {
                let m = file_record_model(record@, position);
                &&& signature_check(m.signature, position, r)
                &&& r matches Ok(f) ==> f@ == m
            },
    {
        if !has_bytes(record, 0, FILE_RECORD_HEADER_SIZE) {
            return Err(NtfsError::UnexpectedEof { position });
        }
        let signature = [record[0], record[1], record[2], record[3]];
        assert(signature@ =~= record@.subrange(0, 4));
        let header = FileRecordHeader {
            signature,
            sequence_number: read_u16_le(record, 16),
            hard_link_count: read_u16_le(record, 18),
            first_attribute_offset: read_u16_le(record, 20),
            flags: read_u16_le(record, 22),
            used_size: read_u32_le(record, 24),
            allocated_size: read_u32_le(record, 28),
            base_file_record: read_u64_le(record, 32),
            next_attribute_number: read_u16_le(record, 40),
        };
        let file = NtfsFile { header, position };
        match file.validate_signature() {
            Ok(()) => Ok(file),
            Err(e) => Err(e),
        }
    }

    pub fn allocated_size(&self) -> (r: u32)
        ensures
            r == self@.allocated_size,
    {
        self.header.allocated_size
    }

    /// The entry point into this record's attributes.
    pub fn attributes(&self) -> (r: NtfsAttributes)
        ensures
            r@ == (AttributesModel {
                file_position: self@.position,
                offset: self@.first_attribute_offset,
            }),
    {
        NtfsAttributes::new(self.position, self.header.first_attribute_offset)
    }

    pub fn first_attribute_offset(&self) -> (r: u16)
        ensures
            r == self@.first_attribute_offset,
    {
        self.header.first_attribute_offset
    }

    /// The flags of this record, with every bit kept as it was read.
    pub fn flags(&self) -> (r: NtfsFileFlags)
        ensures
            r.bits == self@.flags,
    {
        NtfsFileFlags { bits: self.header.flags }
    }

    pub fn hard_link_count(&self) -> (r: u16)
        ensures
            r == self@.hard_link_count,
    {
        self.header.hard_link_count
    }

    pub fn position(&self) -> (r: u64)
        ensures
            r == self@.position,
    {
        self.position
    }

    pub fn sequence_number(&self) -> (r: u16)
        ensures
            r == self@.sequence_number,
    {
        self.header.sequence_number
    }

    pub fn used_size(&self) -> (r: u32)
        ensures
            r == self@.used_size,
    {
        self.header.used_size
    }

    /// Checks that the signature of this record is `FILE`, byte for byte.
    pub fn validate_signature(&self) -> (r: Result<(), NtfsError>)
        ensures
            signature_check(self@.signature, self@.position, r),
    {
        let signature = self.header.signature;
        let expected: [u8; 4] = [0x46, 0x49, 0x4c, 0x45];
        assert(expected@ =~= file_signature());
        if signature[0] == expected[0] && signature[1] == expected[1] && signature[2] == expected[2]
            && signature[3] == expected[3] {
            assert(signature@ =~= file_signature());
            Ok(())
        } else {
            Err(NtfsError::InvalidNtfsFileSignature { position: self.position, expected, actual: signature })
        }
    }
}

} // verus!
