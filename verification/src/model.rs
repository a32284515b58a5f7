//! The decoded snapshot shape and the filtering policy applied to it: an
//! entry whose percentage is zero is a reading the feed has not populated
//! yet, and every decoded response drops such entries before it is handed
//! to a caller.

use vstd::prelude::*;
use crate::errors::ErrorKind;

verus! {

/// Classification of an occupancy figure.
#[derive(Clone, Copy, Debug, PartialEq, Eq, Structural)]
pub enum Level {
    LOW,
    NORMAL,
    HIGH,
}

/// One occupancy reading within a snapshot.
#[derive(Debug, PartialEq)]
pub struct DataEntry {
    pub start_time: String,
    pub end_time: String,
    pub percentage: u8,
    pub level: Level,
    pub is_current: bool,
}

/// A decoded snapshot: a time range and its ordered occupancy entries.
#[derive(Debug, PartialEq)]
pub struct ResponseData {
    pub start_time: String,
    pub end_time: String,
    pub items: Vec<DataEntry>,
}

/// An entry is kept by the filtering policy exactly when its percentage is
/// positive; a percentage of zero marks a not-yet-populated reading.
pub open spec fn spec_entry_kept(e: DataEntry) -> bool {
    e.percentage > 0
}

/// The item list with the not-yet-populated entries dropped: the kept
/// entries, unchanged and in their original order.
pub open spec fn spec_filtered(items: Seq<DataEntry>) -> Seq<DataEntry>
    decreases items.len(),
{
    if items.len() == 0 {
        Seq::empty()
    } else {
        let rest = spec_filtered(items.drop_first());
        if spec_entry_kept(items[0]) {
            seq![items[0]] + rest
        } else {
            rest
        }
    }
}

/// Every entry of a filtered item list has a positive percentage.
pub proof fn lemma_filtered_positive(items: Seq<DataEntry>, i: int)
    requires
        0 <= i < spec_filtered(items).len(),
    ensures
        spec_filtered(items)[i].percentage > 0,
    decreases items.len(),
{
    if items.len() > 0 {
        if spec_entry_kept(items[0]) {
            if i > 0 {
                lemma_filtered_positive(items.drop_first(), i - 1);
            }
        } else {
            lemma_filtered_positive(items.drop_first(), i);
        }
    }
}

/// Drops the not-yet-populated entries from a decoded snapshot, keeping
/// the time range and the order of the remaining entries unchanged. The
/// returned item list never holds an entry whose percentage is zero.
pub fn filter_response(data: ResponseData) -> (r: ResponseData)
    ensures
        r.start_time@ == data.start_time@,
        r.end_time@ == data.end_time@,
        r.items@ == spec_filtered(data.items@),
        forall|i: int| 0 <= i < r.items@.len() ==> r.items@[i].percentage > 0,
{
    let ResponseData { start_time, end_time, items } = data;
    let mut remaining = items;
    let ghost orig = remaining@;
    let mut kept: Vec<DataEntry> = Vec::new();
    while remaining.len() > 0
        invariant
            spec_filtered(orig) == kept@ + spec_filtered(remaining@),
        decreases remaining@.len(),
    {
        let ghost before = remaining@;
        let e = remaining.remove(0);
        proof {
            assert(before.remove(0) =~= before.drop_first());
            assert(before[0] == e);
        }
        if e.percentage > 0 {
            kept.push(e);
            proof {
                assert(kept@ + spec_filtered(remaining@) =~= spec_filtered(orig));
            }
        }
    }
    proof {
        assert(spec_filtered(remaining@) =~= Seq::<DataEntry>::empty());
        assert(kept@ =~= spec_filtered(orig));
        assert forall|i: int| 0 <= i < kept@.len() implies kept@[i].percentage > 0 by {
            lemma_filtered_positive(orig, i);
        }
    }
    ResponseData { start_time, end_time, items: kept }
}

/// Completes a resolution after the serialization collaborator has decoded
/// the raw payload: a failed decode surfaces as `MalformedPayload`, and a
/// decoded snapshot passes through the filtering policy before it reaches
/// the caller.
pub fn finish_decoded(decoded: Option<ResponseData>) -> (r: Result<ResponseData, ErrorKind>)
    ensures
        decoded is None ==> r == Err::<ResponseData, ErrorKind>(ErrorKind::MalformedPayload),
        decoded matches Some(d) ==> (r matches Ok(f) && f.start_time@ == d.start_time@
            && f.end_time@ == d.end_time@ && f.items@ == spec_filtered(d.items@)),
{
    match decoded {
        Some(d) => Ok(filter_response(d)),
        None => Err(ErrorKind::MalformedPayload),
    }
}

} // verus!
