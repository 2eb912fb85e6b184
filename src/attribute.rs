use vstd::prelude::*;

verus! {

/// Where the attribute list of a File Record starts: the record's absolute
/// position and the offset of its first attribute within the record.
pub struct AttributesModel {
    pub file_position: u64,
    pub offset: u16,
}

/// The entry point into the attribute list of a File Record.
#[derive(Clone, Copy, Debug)]
pub struct NtfsAttributes {
    file_position: u64,
    offset: u16,
}

impl View for NtfsAttributes {
    type V = AttributesModel;

    closed spec fn view(&self) -> AttributesModel {
        AttributesModel { file_position: self.file_position, offset: self.offset }
    }
}

impl NtfsAttributes {
    pub fn new(file_position: u64, offset: u16) -> (r: Self)
        ensures
            r@ == (AttributesModel { file_position, offset }),
    {
        NtfsAttributes { file_position, offset }
    }

    /// The absolute position of the File Record that holds the list.
    pub fn file_position(&self) -> (r: u64)
        ensures
            r == self@.file_position,
    {
        self.file_position
    }

    /// The offset of the next attribute within the File Record.
    pub fn offset(&self) -> (r: u16)
        ensures
            r == self@.offset,
    {
        self.offset
    }
}

} // verus!
