//! One redo request: the messages sent to the process for a page, and the
//! reading of its answer.
use vstd::prelude::*;
use crate::buf::{bytes_contents, bytes_from_vec, bytes_len};
use crate::codec::{
    apply_record_msg, begin_msg, build_apply_record_msg, build_begin_redo_for_block_msg,
    build_get_page_msg, build_push_page_msg, get_page_msg, push_image_msg, record_fits,
    BufferTag, PAGE_SIZE, TAG_APPLY_RECORD,
};
use crate::error::RedoError;

verus! {

/// One WAL entry to replay: its log position and its raw bytes.
pub struct WalRecord {
    pub lsn: u64,
    pub rec: bytes::Bytes,
}

impl View for WalRecord {
    type V = (u64, Seq<u8>);

    open spec fn view(&self) -> (u64, Seq<u8>) {
        (self.lsn, bytes_contents(self.rec))
    }
}

impl WalRecord {
    pub fn new(lsn: u64, rec: bytes::Bytes) -> (r: WalRecord)
        ensures
            r.lsn == lsn,
            r.rec == rec,
    {
        WalRecord { lsn, rec }
    }
}

/// The contents of a sequence of buffers.
pub open spec fn contents_of(v: Seq<bytes::Bytes>) -> Seq<Seq<u8>> {
    v.map_values(|b: bytes::Bytes| bytes_contents(b))
}

/// The views of a sequence of records.
pub open spec fn records_view(v: Seq<WalRecord>) -> Seq<(u64, Seq<u8>)> {
    v.map_values(|r: WalRecord| r@)
}

/// One apply-record message per record, in the given order.
pub open spec fn record_msgs(recs: Seq<(u64, Seq<u8>)>) -> Seq<Seq<u8>> {
    recs.map_values(|r: (u64, Seq<u8>)| apply_record_msg(r.0, r.1))
}

/// The messages sent for one page: begin-block, the base image if there is
/// one, each record in order, then get-page.
pub open spec fn redo_plan(tag: BufferTag, base: Option<Seq<u8>>, recs: Seq<(u64, Seq<u8>)>) -> Seq<Seq<u8>> {
    let head = match base {
        Some(img) => seq![begin_msg(tag), push_image_msg(tag, img)],
        None => seq![begin_msg(tag)],
    };
    head + record_msgs(recs) + seq![get_page_msg(tag)]
}

/// Whether a request can be framed: a base image, if any, is one page long
/// and every record fits in a message.
pub open spec fn plan_inputs_ok(base: Option<Seq<u8>>, recs: Seq<(u64, Seq<u8>)>) -> bool {
    &&& (base matches Some(img) ==> img.len() == PAGE_SIZE)
    &&& forall|i: int| 0 <= i < recs.len() ==> record_fits(#[trigger] recs[i].1.len() as int)
}

pub open spec fn base_view(base: Option<bytes::Bytes>) -> Option<Seq<u8>> {
    match base {
        Some(b) => Some(bytes_contents(b)),
        None => None,
    }
}

/// The messages to send to the process to have it rebuild the page `tag`
/// from `base_img` (when present) and `records`, in that order.
pub fn build_redo_messages(tag: BufferTag, base_img: &Option<bytes::Bytes>, records: &Vec<WalRecord>) -> (r: Result<Vec<bytes::Bytes>, RedoError>)
    ensures
        r is Ok <==> plan_inputs_ok(base_view(*base_img), records_view(records@)),
        r matches Ok(msgs) ==> contents_of(msgs@) == redo_plan(tag, base_view(*base_img), records_view(records@)),
        r matches Err(e) ==> e == RedoError::ProtocolPrecondition,
{
    let ghost recs = records_view(records@);
    let mut msgs: Vec<bytes::Bytes> = Vec::new();
    msgs.push(build_begin_redo_for_block_msg(tag));
    match base_img {
        Some(img) => {
            if bytes_len(img) != PAGE_SIZE {
                return Err(RedoError::ProtocolPrecondition);
            }
            msgs.push(build_push_page_msg(tag, img));
        },
        None => {},
    }
    let ghost head = redo_plan(tag, base_view(*base_img), seq![]).drop_last();
    let ghost hl = msgs@.len();
    assert(contents_of(msgs@) =~= head);
    let mut i: usize = 0;
    while i < records.len()
        invariant
            i <= records@.len(),
            recs == records_view(records@),
            recs.len() == records@.len(),
            head == redo_plan(tag, base_view(*base_img), seq![]).drop_last(),
            hl == head.len(),
            msgs@.len() == hl + i,
            forall|j: int| 0 <= j < i ==> record_fits(#[trigger] recs[j].1.len() as int),
            forall|j: int| 0 <= j < hl ==> bytes_contents(#[trigger] msgs@[j]) == head[j],
            forall|j: int| 0 <= j < i ==> bytes_contents(#[trigger] msgs@[hl + j])
                == apply_record_msg(recs[j].0, recs[j].1),
        decreases records@.len() - i,
    {
        let r = &records[i];
        assert(recs[i as int] == r@);
        if bytes_len(&r.rec) > u32::MAX as usize - 12 {
            assert(!record_fits(recs[i as int].1.len() as int));
            return Err(RedoError::ProtocolPrecondition);
        }
        msgs.push(build_apply_record_msg(r.lsn, &r.rec));
        assert(bytes_contents(msgs@[hl + i]) == apply_record_msg(recs[i as int].0, recs[i as int].1));
        i = i + 1;
    }
    msgs.push(build_get_page_msg(tag));
    assert(contents_of(msgs@) =~= redo_plan(tag, base_view(*base_img), recs)) by {
        let plan = redo_plan(tag, base_view(*base_img), recs);
        assert(plan.len() == msgs@.len());
        assert forall|j: int| 0 <= j < plan.len() implies contents_of(msgs@)[j] == plan[j] by {
            if j < hl {
            } else if j < hl + recs.len() {
                assert(msgs@[hl + (j - hl)] == msgs@[j]);
            }
        }
    }
    Ok(msgs)
}

/// Where the record messages start in a plan: after begin-block and, when
/// there is a base image, push-image.
pub open spec fn records_start(base: Option<Seq<u8>>) -> int {
    if base is Some { 2 } else { 1 }
}

/// For `N` records a plan holds exactly `N` apply-record messages, one per
/// record and in the records' order, after begin-block (and push-image) and
/// before the closing get-page.
pub proof fn lemma_plan_applies_records_in_order(tag: BufferTag, base: Option<Seq<u8>>, recs: Seq<(u64, Seq<u8>)>)
    ensures
        ({
            let plan = redo_plan(tag, base, recs);
            let off = records_start(base);
            &&& plan.len() == off + recs.len() + 1
            &&& plan[0] == begin_msg(tag)
            &&& (base matches Some(img) ==> plan[1] == push_image_msg(tag, img))
            &&& plan.last() == get_page_msg(tag)
            &&& forall|i: int| 0 <= i < recs.len() ==> plan[off + i] == apply_record_msg(recs[i].0, recs[i].1)
            &&& forall|j: int| 0 <= j < plan.len() ==> (#[trigger] plan[j][0] == TAG_APPLY_RECORD <==> off <= j < off + recs.len())
        }),
{
    let plan = redo_plan(tag, base, recs);
    let off = records_start(base);
    assert forall|i: int| 0 <= i < recs.len() implies plan[off + i] == apply_record_msg(recs[i].0, recs[i].1) by {
        assert(record_msgs(recs)[i] == apply_record_msg(recs[i].0, recs[i].1));
    }
    assert forall|j: int| 0 <= j < plan.len() implies (#[trigger] plan[j][0] == TAG_APPLY_RECORD <==> off <= j < off + recs.len()) by {
        if j == 0 {
            assert(plan[j] == begin_msg(tag));
        } else if j < off {
            assert(plan[j] == push_image_msg(tag, base->0));
        } else if j < off + recs.len() {
            assert(plan[j] == apply_record_msg(recs[j - off].0, recs[j - off].1));
        } else {
            assert(plan[j] == get_page_msg(tag));
        }
    }
}

/// The page image read back from the process: exactly one page of bytes,
/// else the stream ended early.
pub fn decode_page_response(buf: Vec<u8>) -> (r: Result<bytes::Bytes, RedoError>)
    ensures
        r is Ok <==> buf@.len() == PAGE_SIZE,
        r matches Ok(page) ==> bytes_contents(page) == buf@,
        r matches Err(e) ==> e == RedoError::StreamFailure,
{
    if buf.len() == PAGE_SIZE {
        Ok(bytes_from_vec(buf))
    } else {
        Err(RedoError::StreamFailure)
    }
}

} // verus!
