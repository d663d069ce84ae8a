//! The framed messages of the redo protocol.
//!
//! Every message is one tag byte, a four-byte big-endian length that counts
//! itself and everything after it, and a payload. All integers are
//! big-endian.
use vstd::prelude::*;
use crate::buf::{bytes_contents, bytes_from_vec, bytes_len, bytes_to_vec};
use crate::error::RedoError;

verus! {

/// Size of one database page, in bytes.
pub const PAGE_SIZE: usize = 8192;

pub const TAG_BEGIN: u8 = 0x42;
pub const TAG_PUSH_PAGE: u8 = 0x50;
pub const TAG_APPLY_RECORD: u8 = 0x41;
pub const TAG_GET_PAGE: u8 = 0x47;

/// Names exactly one page: space, database, relation, fork and block.
#[derive(Clone, Copy, Debug, PartialEq, Eq, Structural)]
pub struct BufferTag {
    pub spcnode: u32,
    pub dbnode: u32,
    pub relnode: u32,
    pub forknum: u8,
    pub blknum: u32,
}

/// Four big-endian bytes of `x`.
pub open spec fn be32(x: u32) -> Seq<u8> {
    seq![
        (x / 0x1000000) as u8,
        ((x / 0x10000) % 0x100) as u8,
        ((x / 0x100) % 0x100) as u8,
        (x % 0x100) as u8,
    ]
}

/// Eight big-endian bytes of `x`.
pub open spec fn be64(x: u64) -> Seq<u8> {
    be32((x / 0x1_0000_0000) as u32) + be32((x % 0x1_0000_0000) as u32)
}

/// The value of four big-endian bytes starting at `at`.
pub open spec fn read_be32(s: Seq<u8>, at: int) -> int {
    s[at] as int * 0x1000000 + s[at + 1] as int * 0x10000 + s[at + 2] as int * 0x100 + s[at + 3] as int
}

/// The five fields of a tag, in order.
pub open spec fn tag_fields(tag: BufferTag) -> Seq<u8> {
    be32(tag.spcnode) + be32(tag.dbnode) + be32(tag.relnode) + be32(tag.forknum as u32) + be32(tag.blknum)
}

/// Begin-block message for `tag`.
pub open spec fn begin_msg(tag: BufferTag) -> Seq<u8> {
    seq![TAG_BEGIN] + be32(24) + tag_fields(tag)
}

/// Push-image message for `tag` with base image `img`.
pub open spec fn push_image_msg(tag: BufferTag, img: Seq<u8>) -> Seq<u8> {
    seq![TAG_PUSH_PAGE] + be32(8216) + tag_fields(tag) + img
}

/// Apply-record message for one record at `lsn`.
pub open spec fn apply_record_msg(lsn: u64, rec: Seq<u8>) -> Seq<u8> {
    seq![TAG_APPLY_RECORD] + be32((12 + rec.len()) as u32) + be64(lsn) + rec
}

/// Get-page message for `tag`.
pub open spec fn get_page_msg(tag: BufferTag) -> Seq<u8> {
    seq![TAG_GET_PAGE] + be32(24) + tag_fields(tag)
}

/// Whether a record of `len` bytes fits in one apply-record message, whose
/// length field must hold `12 + len`.
pub open spec fn record_fits(len: int) -> bool {
    len <= u32::MAX - 12
}

fn put_u32(buf: &mut Vec<u8>, x: u32)
    ensures
        final(buf)@ == old(buf)@ + be32(x),
{
    buf.push((x / 0x1000000) as u8);
    buf.push(((x / 0x10000) % 0x100) as u8);
    buf.push(((x / 0x100) % 0x100) as u8);
    buf.push((x % 0x100) as u8);
    assert(buf@ =~= old(buf)@ + be32(x));
}

fn put_u64(buf: &mut Vec<u8>, x: u64)
    ensures
        final(buf)@ == old(buf)@ + be64(x),
{
    put_u32(buf, (x / 0x1_0000_0000) as u32);
    put_u32(buf, (x % 0x1_0000_0000) as u32);
    assert(buf@ =~= old(buf)@ + be64(x));
}

fn put_tag_fields(buf: &mut Vec<u8>, tag: BufferTag)
    ensures
        final(buf)@ == old(buf)@ + tag_fields(tag),
{
    put_u32(buf, tag.spcnode);
    put_u32(buf, tag.dbnode);
    put_u32(buf, tag.relnode);
    put_u32(buf, tag.forknum as u32);
    put_u32(buf, tag.blknum);
    assert(buf@ =~= old(buf)@ + tag_fields(tag));
}

fn put_slice(buf: &mut Vec<u8>, src: &Vec<u8>)
    ensures
        final(buf)@ == old(buf)@ + src@,
{
    let mut i: usize = 0;
    while i < src.len()
        invariant
            i <= src@.len(),
            buf@ == old(buf)@ + src@.subrange(0, i as int),
        decreases src@.len() - i,
    {
        buf.push(src[i]);
        i = i + 1;
        assert(buf@ =~= old(buf)@ + src@.subrange(0, i as int));
    }
    assert(src@.subrange(0, src@.len() as int) =~= src@);
}

/// The begin-block message for `tag`.
pub fn build_begin_redo_for_block_msg(tag: BufferTag) -> (r: bytes::Bytes)
    ensures
        bytes_contents(r) == begin_msg(tag),
{
    let mut buf: Vec<u8> = Vec::new();
    buf.push(TAG_BEGIN);
    put_u32(&mut buf, 24);
    put_tag_fields(&mut buf, tag);
    assert(buf@ =~= begin_msg(tag));
    bytes_from_vec(buf)
}

/// The push-image message for `tag`, carrying the base image `base_img`,
/// which must be exactly one page long.
pub fn build_push_page_msg(tag: BufferTag, base_img: &bytes::Bytes) -> (r: bytes::Bytes)
    requires
        bytes_contents(*base_img).len() == PAGE_SIZE,
    ensures
        bytes_contents(r) == push_image_msg(tag, bytes_contents(*base_img)),
{
    let img = bytes_to_vec(base_img);
    let mut buf: Vec<u8> = Vec::new();
    buf.push(TAG_PUSH_PAGE);
    put_u32(&mut buf, 24 + PAGE_SIZE as u32);
    put_tag_fields(&mut buf, tag);
    put_slice(&mut buf, &img);
    assert(buf@ =~= push_image_msg(tag, bytes_contents(*base_img)));
    bytes_from_vec(buf)
}

/// The push-image message, or `ProtocolPrecondition` when `base_img` is not
/// exactly one page long: an image of another size is never cut or padded.
pub fn try_build_push_page_msg(tag: BufferTag, base_img: &bytes::Bytes) -> (r: Result<bytes::Bytes, RedoError>)
    ensures
        bytes_contents(*base_img).len() == PAGE_SIZE <==> r is Ok,
        r matches Ok(m) ==> bytes_contents(m) == push_image_msg(tag, bytes_contents(*base_img)),
        r matches Err(e) ==> e == RedoError::ProtocolPrecondition,
{
    if bytes_len(base_img) == PAGE_SIZE {
        Ok(build_push_page_msg(tag, base_img))
    } else {
        Err(RedoError::ProtocolPrecondition)
    }
}

/// The apply-record message for one record `rec` at position `lsn`.
pub fn build_apply_record_msg(lsn: u64, rec: &bytes::Bytes) -> (r: bytes::Bytes)
    requires
        record_fits(bytes_contents(*rec).len() as int),
    ensures
        bytes_contents(r) == apply_record_msg(lsn, bytes_contents(*rec)),
{
    let body = bytes_to_vec(rec);
    let mut buf: Vec<u8> = Vec::new();
    buf.push(TAG_APPLY_RECORD);
    put_u32(&mut buf, 12 + body.len() as u32);
    put_u64(&mut buf, lsn);
    put_slice(&mut buf, &body);
    assert(buf@ =~= apply_record_msg(lsn, bytes_contents(*rec)));
    bytes_from_vec(buf)
}

/// The get-page message for `tag`.
pub fn build_get_page_msg(tag: BufferTag) -> (r: bytes::Bytes)
    ensures
        bytes_contents(r) == get_page_msg(tag),
{
    let mut buf: Vec<u8> = Vec::new();
    buf.push(TAG_GET_PAGE);
    put_u32(&mut buf, 24);
    put_tag_fields(&mut buf, tag);
    assert(buf@ =~= get_page_msg(tag));
    bytes_from_vec(buf)
}

/// Whether the length field of `m` counts exactly itself and what follows
/// it: everything after the tag byte.
pub open spec fn length_field_ok(m: Seq<u8>) -> bool {
    m.len() >= 5 && read_be32(m, 1) == m.len() - 1
}

/// Reading back four big-endian bytes gives the number they were made from.
pub proof fn lemma_be32_round_trip(x: u32, prefix: Seq<u8>, rest: Seq<u8>)
    ensures
        read_be32(prefix + be32(x) + rest, prefix.len() as int) == x,
{
    let s = prefix + be32(x) + rest;
    let p = prefix.len() as int;
    let xi = x as int;
    assert(s[p] == (x / 0x1000000) as u8);
    assert(s[p + 1] == ((x / 0x10000) % 0x100) as u8);
    assert(s[p + 2] == ((x / 0x100) % 0x100) as u8);
    assert(s[p + 3] == (x % 0x100) as u8);
    assert(0 <= xi < 0x1_0000_0000);
    assert(xi == (xi / 0x1000000) * 0x1000000 + ((xi / 0x10000) % 0x100) * 0x10000
        + ((xi / 0x100) % 0x100) * 0x100 + xi % 0x100) by (nonlinear_arith)
        requires 0 <= xi < 0x1_0000_0000;
    assert(xi / 0x1000000 < 0x100) by (nonlinear_arith)
        requires 0 <= xi < 0x1_0000_0000;
}

/// Every message of the protocol carries a self-inclusive length: its length
/// field equals four plus the number of bytes that follow the field, that is
/// the number of bytes after the tag byte.
pub proof fn lemma_length_field_self_inclusive(tag: BufferTag, img: Seq<u8>, lsn: u64, rec: Seq<u8>)
    requires
        img.len() == PAGE_SIZE,
        record_fits(rec.len() as int),
    ensures
        length_field_ok(begin_msg(tag)),
        length_field_ok(push_image_msg(tag, img)),
        length_field_ok(apply_record_msg(lsn, rec)),
        length_field_ok(get_page_msg(tag)),
{
    lemma_be32_round_trip(24, seq![TAG_BEGIN], tag_fields(tag));
    assert(begin_msg(tag) =~= seq![TAG_BEGIN] + be32(24) + tag_fields(tag));
    lemma_be32_round_trip(8216, seq![TAG_PUSH_PAGE], tag_fields(tag) + img);
    assert(push_image_msg(tag, img) =~= seq![TAG_PUSH_PAGE] + be32(8216) + (tag_fields(tag) + img));
    lemma_be32_round_trip((12 + rec.len()) as u32, seq![TAG_APPLY_RECORD], be64(lsn) + rec);
    assert(apply_record_msg(lsn, rec) =~= seq![TAG_APPLY_RECORD] + be32((12 + rec.len()) as u32) + (be64(lsn) + rec));
    lemma_be32_round_trip(24, seq![TAG_GET_PAGE], tag_fields(tag));
    assert(get_page_msg(tag) =~= seq![TAG_GET_PAGE] + be32(24) + tag_fields(tag));
}

/// The begin-block and get-page messages for one tag differ only in their
/// leading tag byte.
pub proof fn lemma_begin_and_get_page_share_framing(tag: BufferTag)
    ensures
        begin_msg(tag).len() == get_page_msg(tag).len(),
        begin_msg(tag)[0] == TAG_BEGIN,
        get_page_msg(tag)[0] == TAG_GET_PAGE,
        begin_msg(tag).drop_first() == get_page_msg(tag).drop_first(),
{
    assert(begin_msg(tag).drop_first() =~= get_page_msg(tag).drop_first());
}

/// The tag byte and the length field at the head of a framed message, when
/// it is long enough to hold them.
pub fn read_frame_header(msg: &Vec<u8>) -> (r: Option<(u8, u32)>)
    ensures
        r is Some <==> msg@.len() >= 5,
        r matches Some((t, len)) ==> t == msg@[0] && len as int == read_be32(msg@, 1),
{
    if msg.len() < 5 {
        return None;
    }
    let b1 = msg[1] as u32;
    let b2 = msg[2] as u32;
    let b3 = msg[3] as u32;
    let b4 = msg[4] as u32;
    assert(b1 * 0x1000000 + b2 * 0x10000 + b3 * 0x100 + b4 <= u32::MAX) by (nonlinear_arith)
        requires b1 < 0x100, b2 < 0x100, b3 < 0x100, b4 < 0x100;
    Some((msg[0], b1 * 0x1000000 + b2 * 0x10000 + b3 * 0x100 + b4))
}

} // verus!
