//! Best-effort assembly of many result files into canonical records.
use crate::log::{outcome, LogRecord, RecordModel};
use vstd::prelude::*;

verus! {

/// The canonical records of the buffers that make one, in the buffers' order;
/// the others are left out.
pub open spec fn well_formed_records(bs: Seq<Seq<u8>>) -> Seq<RecordModel>
    decreases bs.len(),
{
    if bs.len() == 0 {
        Seq::empty()
    } else {
        let kept = well_formed_records(bs.drop_last());
        match outcome(bs.last()) {
            Ok(rec) => kept.push(rec),
            Err(_) => kept,
        }
    }
}

pub open spec fn buffers_view(bs: Seq<Vec<u8>>) -> Seq<Seq<u8>> {
    bs.map_values(|b: Vec<u8>| b@)
}

pub open spec fn records_view(rs: Seq<LogRecord>) -> Seq<RecordModel> {
    rs.map_values(|r: LogRecord| r@)
}

/// Decodes and canonicalises each buffer on its own, keeping the records of
/// those that succeed and dropping the rest.
pub fn collect_records(buffers: &Vec<Vec<u8>>) -> (r: Vec<LogRecord>)
    ensures
        records_view(r@) == well_formed_records(buffers_view(buffers@)),
{
    let ghost all = buffers_view(buffers@);
    let mut out: Vec<LogRecord> = Vec::new();
    let mut i: usize = 0;
    while i < buffers.len()
        invariant
            i <= buffers@.len(),
            all == buffers_view(buffers@),
            records_view(out@) == well_formed_records(all.take(i as int)),
        decreases buffers@.len() - i,
    {
        let ghost before = out@;
        let ghost upto = all.take(i as int + 1);
        assert(upto.drop_last() =~= all.take(i as int));
        assert(upto.last() == buffers@[i as int]@);
        match LogRecord::from_json(buffers[i].as_slice()) {
            Ok(rec) => {
                out.push(rec);
                assert(records_view(out@) =~= records_view(before).push(out@.last()@));
            },
            Err(_) => {},
        }
        i = i + 1;
    }
    assert(all.take(i as int) =~= all);
    out
}

/// A buffer's record is kept by the batch exactly when it makes one on its
/// own, whatever stands before it: appending a buffer appends its record or
/// nothing.
pub proof fn lemma_batch_keeps_exactly_the_well_formed(bs: Seq<Seq<u8>>, b: Seq<u8>)
    ensures
        outcome(b) matches Ok(rec) ==> well_formed_records(bs.push(b)) == well_formed_records(
            bs,
        ).push(rec),
        outcome(b) is Err ==> well_formed_records(bs.push(b)) == well_formed_records(bs),
{
    assert(bs.push(b).drop_last() =~= bs);
}

/// The batch holds one record for each buffer that makes one, and no more.
pub proof fn lemma_batch_size(bs: Seq<Seq<u8>>)
    ensures
        well_formed_records(bs).len() == bs.filter(|b: Seq<u8>| outcome(b) is Ok).len(),
    decreases bs.len(),
{
    reveal(Seq::filter);
    if bs.len() > 0 {
        lemma_batch_size(bs.drop_last());
    } else {
        assert(bs.filter(|b: Seq<u8>| outcome(b) is Ok) =~= Seq::<Seq<u8>>::empty());
    }
}

} // verus!
