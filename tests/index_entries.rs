use ntfs::attribute_value::NtfsAttributeValue;
use ntfs::error::NtfsError;
use ntfs::index_entry::{NtfsIndexEntries, NtfsIndexEntry, NtfsIndexEntryFlags};
use ntfs::structured_values::NewNtfsStructuredValue;

/// A key of four little-endian bytes, as a test decoder.
#[derive(Debug, PartialEq)]
struct U32Key(u32);

impl NewNtfsStructuredValue for U32Key {
    fn new(fs: &[u8], value: NtfsAttributeValue, length: u64) -> Result<Self, NtfsError> {
        let start = value.stream_position() as usize;
        if length != 4 || start + 4 > fs.len() {
            return Err(NtfsError::UnexpectedEof { position: value.stream_position() });
        }
        let b = &fs[start..start + 4];
        Ok(U32Key(u32::from_le_bytes([b[0], b[1], b[2], b[3]])))
    }
}

fn put_header(buf: &mut [u8], at: usize, file_ref: u64, length: u16, key_length: u16, flags: u8) {
    buf[at..at + 8].copy_from_slice(&file_ref.to_le_bytes());
    buf[at + 8..at + 10].copy_from_slice(&length.to_le_bytes());
    buf[at + 10..at + 12].copy_from_slice(&key_length.to_le_bytes());
    buf[at + 12] = flags;
}

/// One entry with a four-byte key, then the last entry: 48 bytes.
fn two_entry_node() -> Vec<u8> {
    let mut buf = vec![0u8; 48];
    put_header(&mut buf, 0, 5, 32, 4, 0);
    buf[16..20].copy_from_slice(&0x1234_5678u32.to_le_bytes());
    put_header(&mut buf, 32, 0, 16, 0, 0x02);
    buf
}

fn cursor(len: u64, end: u64) -> NtfsIndexEntries<U32Key> {
    NtfsIndexEntries::new(NtfsAttributeValue::new(len, 0), end)
}

#[test]
fn two_entries_then_nothing() {
    let node = two_entry_node();
    let mut entries = cursor(48, 48);

    let first = entries.next(&node).unwrap().unwrap();
    assert_eq!(first.position(), 0);
    assert_eq!(first.file_reference(), 5);
    assert_eq!(first.index_entry_length(), 32);
    assert_eq!(first.key_length(), 4);
    assert_eq!(first.key_structured_value(&node), Some(Ok(U32Key(0x1234_5678))));
    assert_eq!(first.subnode_vcn(&node), None);

    let second = entries.next(&node).unwrap().unwrap();
    assert_eq!(second.position(), 32);
    assert!(second.flags().contains(NtfsIndexEntryFlags::last_entry()));
    assert_eq!(second.key_structured_value(&node), None);
    assert_eq!(second.subnode_vcn(&node), None);

    assert!(entries.next(&node).is_none());
}

#[test]
fn exhausted_cursor_stays_exhausted() {
    let node = two_entry_node();
    let mut entries = cursor(48, 48);
    assert!(entries.next(&node).is_some());
    assert!(entries.next(&node).is_some());
    for _ in 0..3 {
        assert!(entries.next(&node).is_none());
    }
    let other = vec![0u8; 64];
    assert!(entries.next(&other).is_none());
}

#[test]
fn last_entry_moves_to_end() {
    let mut node = two_entry_node();
    node.extend_from_slice(&[0u8; 16]);
    let mut entries = cursor(64, 64);
    entries.next(&node).unwrap().unwrap();
    entries.next(&node).unwrap().unwrap();
    assert!(entries.next(&node).is_none());
}

#[test]
fn end_bounds_the_traversal() {
    let node = two_entry_node();
    let mut entries = cursor(48, 32);
    let first = entries.next(&node).unwrap().unwrap();
    assert_eq!(first.position(), 0);
    assert!(entries.next(&node).is_none());
}

#[test]
fn last_entry_never_has_key() {
    let mut node = vec![0u8; 24];
    put_header(&mut node, 0, 0, 24, 4, 0x02);
    let entry = NtfsIndexEntry::<U32Key>::new(&node, NtfsAttributeValue::new(24, 0)).unwrap();
    assert_eq!(entry.key_length(), 4);
    assert_eq!(entry.key_structured_value(&node), None);
}

#[test]
fn entry_without_key_has_no_key() {
    let mut node = vec![0u8; 16];
    put_header(&mut node, 0, 9, 16, 0, 0);
    let entry = NtfsIndexEntry::<U32Key>::new(&node, NtfsAttributeValue::new(16, 0)).unwrap();
    assert_eq!(entry.key_structured_value(&node), None);
}

#[test]
fn subnode_vcn_read_from_entry_tail() {
    let mut node = vec![0u8; 40];
    put_header(&mut node, 8, 0, 32, 0, 0x03);
    node[32..40].copy_from_slice(&0x0102_0304_0506_0708u64.to_le_bytes());
    let entry = NtfsIndexEntry::<U32Key>::new(&node, NtfsAttributeValue::new(40, 8)).unwrap();
    assert_eq!(entry.subnode_vcn(&node), Some(Ok(0x0102_0304_0506_0708)));
}

#[test]
fn subnode_vcn_absent_without_flag() {
    let mut node = vec![0u8; 32];
    put_header(&mut node, 0, 0, 32, 0, 0x00);
    node[24..32].copy_from_slice(&7u64.to_le_bytes());
    let entry = NtfsIndexEntry::<U32Key>::new(&node, NtfsAttributeValue::new(32, 0)).unwrap();
    assert_eq!(entry.subnode_vcn(&node), None);
}

#[test]
fn subnode_vcn_before_start_is_refused() {
    let mut node = vec![0u8; 16];
    put_header(&mut node, 0, 0, 4, 0, 0x01);
    let entry = NtfsIndexEntry::<U32Key>::new(&node, NtfsAttributeValue::new(16, 0)).unwrap();
    assert_eq!(entry.subnode_vcn(&node), Some(Err(NtfsError::InvalidSeek { position: 0 })));
}

#[test]
fn subnode_vcn_past_reader_is_eof() {
    let mut node = vec![0u8; 16];
    put_header(&mut node, 0, 0, 40, 0, 0x01);
    let entry = NtfsIndexEntry::<U32Key>::new(&node, NtfsAttributeValue::new(16, 0)).unwrap();
    assert_eq!(entry.subnode_vcn(&node), Some(Err(NtfsError::UnexpectedEof { position: 32 })));
}

#[test]
fn entry_flags_drop_unnamed_bits() {
    let mut node = vec![0u8; 16];
    put_header(&mut node, 0, 0, 16, 0, 0xFD);
    let entry = NtfsIndexEntry::<U32Key>::new(&node, NtfsAttributeValue::new(16, 0)).unwrap();
    assert_eq!(entry.flags().bits(), 0x01);
    assert!(entry.flags().contains(NtfsIndexEntryFlags::has_subnode()));
    assert!(!entry.flags().contains(NtfsIndexEntryFlags::last_entry()));
    assert_eq!(NtfsIndexEntryFlags::from_bits_truncate(0xFF).bits(), 0x03);
}

#[test]
fn short_header_is_eof_and_ends_traversal() {
    let node = vec![0u8; 10];
    let mut entries = cursor(32, 32);
    assert_eq!(entries.next(&node).unwrap().unwrap_err(), NtfsError::UnexpectedEof { position: 0 });
    assert!(entries.next(&two_entry_node()).is_none());
}

#[test]
fn zero_length_entry_is_refused() {
    let mut node = vec![0u8; 32];
    put_header(&mut node, 0, 1, 0, 0, 0);
    let mut entries = cursor(32, 32);
    assert_eq!(
        entries.next(&node).unwrap().unwrap_err(),
        NtfsError::InvalidIndexEntryLength { position: 0, length: 0 }
    );
    assert!(entries.next(&node).is_none());
}

#[test]
fn detach_and_reattach_resumes() {
    let mut node = vec![0u8; 72];
    put_header(&mut node, 0, 1, 16, 0, 0);
    put_header(&mut node, 16, 2, 24, 0, 0);
    put_header(&mut node, 40, 3, 16, 0, 0);
    put_header(&mut node, 56, 0, 16, 0, 0x02);

    let whole: Vec<(u64, u64)> = cursor(72, 72)
        .attach(&node)
        .collect_positions();

    let mut attached = cursor(72, 72).attach(&node);
    let first = attached.next().unwrap().unwrap();
    let paused = attached.detach();

    let copy = node.clone();
    let mut resumed = vec![(first.position(), first.file_reference())];
    resumed.extend(paused.attach(&copy).collect_positions());
    assert_eq!(resumed, whole);
    assert_eq!(whole, vec![(0, 1), (16, 2), (40, 3), (56, 0)]);
}

trait CollectPositions {
    fn collect_positions(self) -> Vec<(u64, u64)>;
}

impl<'a> CollectPositions for ntfs::index_entry::NtfsIndexEntriesAttached<'a, U32Key> {
    fn collect_positions(mut self) -> Vec<(u64, u64)> {
        let mut out = Vec::new();
        while let Some(entry) = self.next() {
            let entry = entry.unwrap();
            out.push((entry.position(), entry.file_reference()));
        }
        out
    }
}

#[test]
fn seek_current_moves_and_refuses() {
    let mut value = NtfsAttributeValue::new(100, 10);
    assert_eq!(value.seek_current(6), Ok(()));
    assert_eq!(value.stream_position(), 16);
    assert_eq!(value.seek_current(-16), Ok(()));
    assert_eq!(value.stream_position(), 0);
    assert_eq!(value.seek_current(-1), Err(NtfsError::InvalidSeek { position: 0 }));
    assert_eq!(value.stream_position(), 0);
    let mut far = NtfsAttributeValue::new(100, u64::MAX - 2);
    assert_eq!(far.seek_current(3), Err(NtfsError::InvalidSeek { position: u64::MAX - 2 }));
    value.seek_start(42);
    assert_eq!(value.stream_position(), 42);
    assert_eq!(value.len(), 100);
}

#[test]
fn key_handle_follows_header() {
    let node = two_entry_node();
    let first = NtfsIndexEntry::<U32Key>::new(&node, NtfsAttributeValue::new(48, 0)).unwrap();
    let key = first.key_value().unwrap();
    assert_eq!(key.stream_position(), 16);
    assert_eq!(key.len(), 48);
    let far = NtfsIndexEntry::<U32Key>::new(&node, NtfsAttributeValue::new(48, 32)).unwrap();
    assert_eq!(far.key_value().unwrap().stream_position(), 48);
}

#[test]
fn key_decoder_error_is_passed_on() {
    let mut node = vec![0u8; 16];
    put_header(&mut node, 0, 1, 16, 4, 0);
    let entry = NtfsIndexEntry::<U32Key>::new(&node, NtfsAttributeValue::new(16, 0)).unwrap();
    assert_eq!(entry.key_structured_value(&node), Some(Err(NtfsError::UnexpectedEof { position: 16 })));
}

#[test]
fn reads_stop_at_handle_length() {
    let node = two_entry_node();
    let mut entries = cursor(40, 40);
    entries.next(&node).unwrap().unwrap();
    assert_eq!(entries.next(&node).unwrap().unwrap_err(), NtfsError::UnexpectedEof { position: 32 });

    let mut tail = vec![0u8; 48];
    put_header(&mut tail, 0, 0, 48, 0, 0x01);
    tail[40..48].copy_from_slice(&9u64.to_le_bytes());
    let short = NtfsIndexEntry::<U32Key>::new(&tail, NtfsAttributeValue::new(44, 0)).unwrap();
    assert_eq!(short.subnode_vcn(&tail), Some(Err(NtfsError::UnexpectedEof { position: 40 })));
    let whole = NtfsIndexEntry::<U32Key>::new(&tail, NtfsAttributeValue::new(48, 0)).unwrap();
    assert_eq!(whole.subnode_vcn(&tail), Some(Ok(9)));
}

#[test]
fn cloned_entry_reads_alike() {
    let node = two_entry_node();
    let mut entries = cursor(48, 48);
    let first = entries.next(&node).unwrap().unwrap();
    let copy = first.clone();
    assert_eq!(copy.position(), first.position());
    assert_eq!(copy.key_structured_value(&node), Some(Ok(U32Key(0x1234_5678))));
    let mut saved = entries.clone();
    assert_eq!(saved.next(&node).unwrap().unwrap().position(), 32);
    assert_eq!(entries.next(&node).unwrap().unwrap().position(), 32);
}
