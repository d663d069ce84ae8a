use bytes::Bytes;
use walredo::codec::{
    build_apply_record_msg, build_begin_redo_for_block_msg, build_get_page_msg, build_push_page_msg,
    read_frame_header, try_build_push_page_msg, BufferTag, PAGE_SIZE,
};
use walredo::error::RedoError;

fn tag() -> BufferTag {
    BufferTag { spcnode: 0x01020304, dbnode: 5, relnode: 0xAABBCCDD, forknum: 2, blknum: 7 }
}

#[test]
fn begin_message_exact_bytes() {
    let m = build_begin_redo_for_block_msg(tag());
    let expected: Vec<u8> = vec![
        b'B', 0, 0, 0, 24, 1, 2, 3, 4, 0, 0, 0, 5, 0xAA, 0xBB, 0xCC, 0xDD, 0, 0, 0, 2, 0, 0, 0, 7,
    ];
    assert_eq!(&m[..], &expected[..]);
}

#[test]
fn get_page_differs_from_begin_only_in_tag_byte() {
    for t in [tag(), BufferTag { spcnode: 0, dbnode: 0, relnode: 0, forknum: 0, blknum: 0 },
              BufferTag { spcnode: u32::MAX, dbnode: 9, relnode: 8, forknum: 255, blknum: u32::MAX }] {
        let b = build_begin_redo_for_block_msg(t);
        let g = build_get_page_msg(t);
        assert_eq!(b.len(), g.len());
        assert_eq!(b[0], b'B');
        assert_eq!(g[0], b'G');
        assert_eq!(&b[1..], &g[1..]);
    }
}

#[test]
fn push_page_layout() {
    let img: Vec<u8> = (0..PAGE_SIZE).map(|i| (i % 251) as u8).collect();
    let m = build_push_page_msg(tag(), &Bytes::from(img.clone()));
    assert_eq!(m.len(), 1 + 4 + 20 + 8192);
    assert_eq!(m[0], b'P');
    assert_eq!(&m[1..5], &(4u32 + 20 + 8192).to_be_bytes()[..]);
    assert_eq!(&m[5..25], &build_get_page_msg(tag())[5..25]);
    assert_eq!(&m[25..], &img[..]);
}

#[test]
fn push_page_rejects_wrong_size() {
    for len in [0usize, 1, 8191, 8193, 16384] {
        let r = try_build_push_page_msg(tag(), &Bytes::from(vec![7u8; len]));
        assert_eq!(r.err(), Some(RedoError::ProtocolPrecondition));
    }
    assert!(try_build_push_page_msg(tag(), &Bytes::from(vec![7u8; 8192])).is_ok());
}

#[test]
fn apply_record_layout() {
    let m = build_apply_record_msg(0x0102030405060708, &Bytes::from_static(b"INIT"));
    let expected: Vec<u8> = vec![b'A', 0, 0, 0, 16, 1, 2, 3, 4, 5, 6, 7, 8, b'I', b'N', b'I', b'T'];
    assert_eq!(&m[..], &expected[..]);
}

#[test]
fn apply_record_empty_payload() {
    let m = build_apply_record_msg(0, &Bytes::new());
    assert_eq!(&m[..], &[b'A', 0, 0, 0, 12, 0, 0, 0, 0, 0, 0, 0, 0][..]);
}

#[test]
fn length_field_is_self_inclusive_on_round_trip() {
    let img = Bytes::from(vec![3u8; 8192]);
    let msgs = vec![
        build_begin_redo_for_block_msg(tag()),
        build_push_page_msg(tag(), &img),
        build_apply_record_msg(42, &Bytes::from(vec![9u8; 1000])),
        build_get_page_msg(tag()),
    ];
    for m in msgs {
        let v = m.to_vec();
        let (t, len) = read_frame_header(&v).unwrap();
        assert_eq!(t, v[0]);
        assert_eq!(len as usize, v.len() - 1);
    }
}

#[test]
fn frame_header_of_synthetic_message() {
    let v: Vec<u8> = vec![b'X', 0, 0, 1, 2, 9, 9];
    assert_eq!(read_frame_header(&v), Some((b'X', 258)));
    assert_eq!(read_frame_header(&vec![1, 2, 3, 4]), None);
    assert_eq!(read_frame_header(&vec![]), None);
}
