//! Metadata root and heap behaviour: stream-header padding, stream
//! lookup, and the string/blob/GUID accessors.

use cli_toolkit::cursor::ByteStream;
use cli_toolkit::error::Error;
use cli_toolkit::heaps::{BlobHeap, GuidHeap, StringHeap};
use cli_toolkit::kinds::HeapKind;
use cli_toolkit::streams::{parse_stream_header, MetadataHeader};

fn push_u16(v: &mut Vec<u8>, x: u16) {
    v.extend_from_slice(&x.to_le_bytes());
}

fn push_u32(v: &mut Vec<u8>, x: u32) {
    v.extend_from_slice(&x.to_le_bytes());
}

// Stream-header padding: for every name length, the cursor ends on a
// 4-byte boundary, right after the name's NUL and its padding.
#[test]
fn stream_header_padding_keeps_alignment() {
    for name_len in 0usize..8usize {
        let mut v = Vec::new();
        push_u32(&mut v, 0x5C);
        push_u32(&mut v, 0x100);
        for i in 0..name_len {
            v.push(b'a' + i as u8);
        }
        v.push(0);
        // pad to the next 4-byte boundary, then some trailing data
        while v.len() % 4 != 0 {
            v.push(0xEE);
        }
        let expected_end = v.len();
        v.push(0xAA);
        let mut c = ByteStream::new(&v);
        let h = parse_stream_header(&mut c).unwrap();
        assert_eq!(h.offset, 0x5C);
        assert_eq!(h.size, 0x100);
        assert_eq!(h.name_bytes.len(), name_len);
        assert_eq!(c.position(), expected_end, "name_len {}", name_len);
        assert_eq!(c.position() % 4, 0);
    }
}

fn metadata_root(version: &[u8], declared_len: u32, names: &[&[u8]]) -> Vec<u8> {
    let mut v = Vec::new();
    push_u32(&mut v, 0x424A5342);
    push_u16(&mut v, 1);
    push_u16(&mut v, 1);
    push_u32(&mut v, 0); // reserved
    push_u32(&mut v, declared_len);
    v.extend_from_slice(version);
    push_u16(&mut v, 0); // flags
    push_u16(&mut v, names.len() as u16);
    for (i, name) in names.iter().enumerate() {
        push_u32(&mut v, 0x100 + i as u32);
        push_u32(&mut v, 0x10);
        v.extend_from_slice(name);
        v.push(0);
        while (v.len() - 0) % 4 != 0 {
            v.push(0);
        }
    }
    v
}

#[test]
fn metadata_root_parses_fields() {
    let root = metadata_root(b"v4.0\0\0\0\0", 8, &[b"#~", b"#Strings"]);
    let h = MetadataHeader::new(&root, 0).unwrap();
    assert_eq!(h.signature, 0x424A5342);
    assert_eq!(h.major_version, 1);
    assert_eq!(h.minor_version, 1);
    assert_eq!(h.length, 8);
    assert_eq!(h.version, "v4.0");
    assert_eq!(h.stream_count, 2);
    let headers = h.stream_headers();
    assert_eq!(headers.len(), 2);
    assert_eq!(headers[0].name_bytes, b"#~");
    assert_eq!(headers[0].offset, 0x100);
    assert_eq!(headers[1].name_bytes, b"#Strings");
}

#[test]
fn metadata_root_rejects_bad_signature() {
    let mut root = metadata_root(b"v4.0\0\0\0\0", 8, &[]);
    root[3] = 0x43;
    assert_eq!(
        MetadataHeader::new(&root, 0).unwrap_err(),
        Error::InvalidData(0, Some("metadata signature"))
    );
}

#[test]
fn metadata_root_rejects_unpadded_version_length() {
    let root = metadata_root(b"v4.0\0\0", 6, &[]);
    assert_eq!(
        MetadataHeader::new(&root, 0).unwrap_err(),
        Error::InvalidData(12, Some("version length"))
    );
}

#[test]
fn metadata_root_offset_out_of_bounds() {
    let root = metadata_root(b"v4.0\0\0\0\0", 8, &[]);
    assert_eq!(
        MetadataHeader::new(&root, root.len() + 1).unwrap_err(),
        Error::OffsetOutOfBounds(root.len() + 1)
    );
}

#[test]
fn stream_lookup_by_kind() {
    // place the root at offset 4 of a larger image so stream offsets are
    // root-relative
    let root = metadata_root(b"v4.0\0\0\0\0", 8, &[b"#Blob"]);
    let mut image = vec![0xEEu8; 4];
    image.extend_from_slice(&root);
    // the header says offset 0x100, size 0x10: extend the image to cover it
    while image.len() < 4 + 0x100 + 0x10 {
        image.push(0xBB);
    }
    let h = MetadataHeader::new(&image, 4).unwrap();
    let blob = h.get_stream_bytes(HeapKind::Blob).unwrap().unwrap();
    assert_eq!(blob.len(), 0x10);
    assert_eq!(blob[0], 0xBB);
    assert_eq!(h.get_stream_bytes(HeapKind::Guid).unwrap(), None);
}

#[test]
fn string_heap_lookup() {
    let heap: Vec<u8> = b"\0M1\0Ns\0tail".to_vec();
    let sh = StringHeap::new(&heap);
    assert_eq!(sh.get_string(0), Ok(""));
    assert_eq!(sh.get_string(1), Ok("M1"));
    assert_eq!(sh.get_string(2), Ok("1"));
    assert_eq!(sh.get_string(4), Ok("Ns"));
    // no terminator after "tail": the rest of the heap is the string
    assert_eq!(sh.get_string(7), Ok("tail"));
    assert_eq!(
        sh.get_string(heap.len() as u32 + 1),
        Err(Error::InvalidData(heap.len() + 1, Some("string heap index")))
    );
}

#[test]
fn blob_heap_lookup() {
    let heap: Vec<u8> = vec![0x00, 0x03, 0xAA, 0xBB, 0xCC, 0x80, 0x01, 0xDD];
    let bh = BlobHeap::new(&heap);
    assert_eq!(bh.get_blob(0), Ok(&[][..]));
    assert_eq!(bh.get_blob(1), Ok(&[0xAA, 0xBB, 0xCC][..]));
    // two-byte length prefix 0x80 0x01 declares one byte
    assert_eq!(bh.get_blob(5), Ok(&[0xDD][..]));
    // a length running past the heap's end
    let heap2: Vec<u8> = vec![0xEE, 0x05, 1, 2];
    let bh2 = BlobHeap::new(&heap2);
    assert_eq!(bh2.get_blob(0), Ok(&[][..]));
    assert_eq!(bh2.get_blob(1), Err(Error::UnexpectedEndOfStream(4)));
}

#[test]
fn guid_heap_lookup() {
    let mut heap = Vec::new();
    for i in 0..32 {
        heap.push(i as u8);
    }
    let gh = GuidHeap::new(&heap);
    assert_eq!(gh.get_guid(0), Ok(None));
    assert_eq!(gh.get_guid(1).unwrap().unwrap(), (0u8..16).collect::<Vec<u8>>().as_slice());
    assert_eq!(gh.get_guid(2).unwrap().unwrap(), (16u8..32).collect::<Vec<u8>>().as_slice());
    assert_eq!(
        gh.get_guid(3),
        Err(Error::InvalidData(3, Some("GUID heap index")))
    );
}
