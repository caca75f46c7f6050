use crate::text::str_eq;
use crate::types::{SyncGuid, SyncStatus};
use vstd::prelude::*;

verus! {

/// A local item staged for upload: its change counter now, and the counter
/// it had when it was staged.
#[derive(Debug, Clone)]
pub struct StagedChange {
    pub guid: SyncGuid,
    pub sync_change_counter: u32,
    pub staged_change_counter: u32,
    pub sync_status: SyncStatus,
}

/// Whether the server acknowledged the GUID `g`.
pub open spec fn acked(guids: Seq<SyncGuid>, g: Seq<char>) -> bool {
    exists|j: int| 0 <= j < guids.len() && (#[trigger] guids[j])@ == g
}

/// The counter after an upload is acknowledged: the changes that were
/// staged are done, and only edits made since then remain.
pub open spec fn counter_after_upload(counter: u32, staged: u32) -> u32 {
    if counter >= staged {
        (counter - staged) as u32
    } else {
        0
    }
}

/// Whether `n` is `o` after the upload of `o` was acknowledged (`ack`), or
/// `o` unchanged when it was not.
pub open spec fn finalized(o: StagedChange, n: StagedChange, ack: bool) -> bool {
    &&& n.guid@ == o.guid@
    &&& n.staged_change_counter == o.staged_change_counter
    &&& if ack {
        n.sync_change_counter == counter_after_upload(o.sync_change_counter, o.staged_change_counter)
            && n.sync_status == SyncStatus::Normal
    } else {
        n.sync_change_counter == o.sync_change_counter && n.sync_status == o.sync_status
    }
}

fn is_acked(guids: &Vec<SyncGuid>, g: &SyncGuid) -> (r: bool)
    ensures
        r == acked(guids@, g@),
{
    let mut j: usize = 0;
    while j < guids.len()
        invariant
            j <= guids@.len(),
            forall|k: int| 0 <= k < j ==> (#[trigger] guids@[k])@ != g@,
        decreases guids.len() - j,
    {
        if str_eq(guids[j].as_str(), g.as_str()) {
            return true;
        }
        j = j + 1;
    }
    false
}

/// Records acknowledged uploads: each acknowledged item's change counter
/// drops by the amount it had when staged, and it is marked synced. Items
/// that were not acknowledged keep their counters, so the next sync stages
/// them again.
pub fn push_synced_changes(items: &mut Vec<StagedChange>, guids: &Vec<SyncGuid>)
    ensures
        final(items)@.len() == old(items)@.len(),
        forall|i: int|
            #![trigger old(items)@[i]]
            #![trigger final(items)@[i]]
            0 <= i < old(items)@.len() ==> finalized(
                old(items)@[i],
                final(items)@[i],
                acked(guids@, old(items)@[i].guid@),
            ),
{
    let ghost before = items@;
    let mut i: usize = 0;
    while i < items.len()
        invariant
            items@.len() == before.len(),
            i <= items@.len(),
            forall|k: int|
                0 <= k < i ==> finalized(
                    #[trigger] before[k],
                    items@[k],
                    acked(guids@, before[k].guid@),
                ),
            forall|k: int| i <= k < items@.len() ==> #[trigger] items@[k] == before[k],
        decreases before.len() - i,
    {
        let item = &items[i];
        if is_acked(guids, &item.guid) {
            let counter = if item.sync_change_counter >= item.staged_change_counter {
                item.sync_change_counter - item.staged_change_counter
            } else {
                0
            };
            let updated = StagedChange {
                guid: item.guid.cloned(),
                sync_change_counter: counter,
                staged_change_counter: item.staged_change_counter,
                sync_status: SyncStatus::Normal,
            };
            items.set(i, updated);
        }
        i = i + 1;
    }
}

/// After acknowledgement, an item's counter is decremented by exactly the
/// amount captured at staging (never below zero), and an item that was not
/// acknowledged keeps its counter.
pub proof fn lemma_finalize_counts(o: StagedChange, n: StagedChange, ack: bool)
    requires
        finalized(o, n, ack),
    ensures
        ack && o.sync_change_counter >= o.staged_change_counter ==> n.sync_change_counter
            + o.staged_change_counter == o.sync_change_counter,
        !ack ==> n.sync_change_counter == o.sync_change_counter,
{
}

} // verus!
