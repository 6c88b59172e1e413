//! The per-item lifecycle decisions of one run.
//!
//! The engine never performs a side effect itself; the application sends and
//! deletes messages and writes rows.  What the engine fixes here is the order
//! of the work and the decision taken after each outside call: all creations
//! are processed before any retraction, a row is persisted only when both of
//! its notification messages were delivered (a row must never exist without
//! its handles), and a row is closed only when its messages were deleted (a
//! failed deletion leaves the row active, so the next run retries it).

use vstd::prelude::*;
use crate::model::{DetailedPoi, KnownPoi};
use crate::reconcile::ReconcileOutcome;

verus! {

/// The handle of one delivered message: where it was sent and which message
/// it is, enough to delete it later.
#[derive(Clone, Copy, Debug, PartialEq, Eq, Structural)]
pub struct MessageRef {
    pub chat_id: i64,
    pub message_id: i32,
}

/// A row ready to be persisted: the POI together with the handles of both
/// messages that were just sent for it.
#[derive(Debug)]
pub struct CreationRow {
    pub poi: DetailedPoi,
    pub chat_id: i64,
    pub message_id_info: i32,
    pub message_id_location: i32,
}

/// Decides what to persist after the send phase of one creation: a row
/// carrying both handles when both sends delivered, nothing otherwise — a row
/// is created atomically with its handles or not at all.
pub fn creation_row(poi: &DetailedPoi, info: Option<MessageRef>, location: Option<MessageRef>) -> (r:
    Option<CreationRow>)
    ensures
        r is Some <==> (info is Some && location is Some),
        r matches Some(row) ==> {
            &&& row.poi == *poi
            &&& row.chat_id == info->0.chat_id
            &&& row.message_id_info == info->0.message_id
            &&& row.message_id_location == location->0.message_id
        },
{
    match (info, location) {
        (Some(i), Some(l)) => Some(
            CreationRow {
                poi: poi.clone(),
                chat_id: i.chat_id,
                message_id_info: i.message_id,
                message_id_location: l.message_id,
            },
        ),
        _ => None,
    }
}

/// Decides whether a retraction may be recorded: the row to close when its
/// messages were deleted, nothing when deletion failed — then the row stays
/// active and the next run finds it again.
pub fn retraction_mark(row: &KnownPoi, deleted: bool) -> (r: Option<String>)
    ensures
        r == if deleted {
            Some(row.id)
        } else {
            None::<String>
        },
{
    if deleted {
        Some(row.id.clone())
    } else {
        None
    }
}

/// One unit of work of a run.
#[derive(Debug)]
pub enum WorkItem {
    /// Notify about a newly observed POI, then persist its row.
    Create(DetailedPoi),
    /// Delete the messages of a no longer observed POI, then close its row.
    Retract(KnownPoi),
}

/// Lays out the work of one run: every creation, in diff order, strictly
/// before every retraction.
pub fn plan(outcome: &ReconcileOutcome) -> (p: Vec<WorkItem>)
    ensures
        p@ == outcome.to_create@.map_values(|d: DetailedPoi| WorkItem::Create(d))
            + outcome.to_retract@.map_values(|k: KnownPoi| WorkItem::Retract(k)),
{
    let ghost creates = outcome.to_create@.map_values(|d: DetailedPoi| WorkItem::Create(d));
    let ghost retracts = outcome.to_retract@.map_values(|k: KnownPoi| WorkItem::Retract(k));
    let mut p: Vec<WorkItem> = Vec::new();
    let mut i: usize = 0;
    while i < outcome.to_create.len()
        invariant
            i <= outcome.to_create.len(),
            creates == outcome.to_create@.map_values(|d: DetailedPoi| WorkItem::Create(d)),
            p@ == creates.take(i as int),
        decreases outcome.to_create.len() - i,
    {
        p.push(WorkItem::Create(outcome.to_create[i].clone()));
        proof {
            assert(p@ =~= creates.take(i as int + 1));
        }
        i += 1;
    }
    proof {
        assert(creates.take(creates.len() as int) =~= creates);
    }
    let mut j: usize = 0;
    while j < outcome.to_retract.len()
        invariant
            j <= outcome.to_retract.len(),
            creates == outcome.to_create@.map_values(|d: DetailedPoi| WorkItem::Create(d)),
            retracts == outcome.to_retract@.map_values(|k: KnownPoi| WorkItem::Retract(k)),
            p@ == creates + retracts.take(j as int),
        decreases outcome.to_retract.len() - j,
    {
        p.push(WorkItem::Retract(outcome.to_retract[j].clone()));
        proof {
            assert(p@ =~= creates + retracts.take(j as int + 1));
        }
        j += 1;
    }
    proof {
        assert(creates + retracts.take(retracts.len() as int) =~= creates + retracts);
    }
    p
}

} // verus!
