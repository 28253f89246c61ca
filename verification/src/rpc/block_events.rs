//! The block event published when the canonical chain changes.

use crate::db::BlockEvent;
use vstd::prelude::*;

verus! {

/// What a block event reads of the tip of a chain: the tip's header fields,
/// its hash and parent hash in text form, and how many transactions it has.
#[derive(Debug, Clone, PartialEq, Eq)]
pub struct ChainTip {
    pub number: u64,
    pub hash: String,
    pub parent_hash: String,
    pub timestamp: u64,
    pub tx_count: usize,
}

/// A change of the canonical chain, given by the tips of the chains it
/// involves.
#[derive(Debug, Clone, PartialEq, Eq)]
pub enum CanonStateNotification {
    /// New blocks were appended; `new` is the tip of the appended chain.
    Commit { new: ChainTip },
    /// The chain ending in `old` was replaced by the chain ending in `new`.
    Reorg { old: ChainTip, new: ChainTip },
}

impl CanonStateNotification {
    /// The tip of the chain that is canonical after the change.
    pub open spec fn new_tip(self) -> ChainTip {
        match self {
            CanonStateNotification::Commit { new } => new,
            CanonStateNotification::Reorg { new, .. } => new,
        }
    }
}

/// Whether `event` describes the block `tip`.
pub open spec fn describes(event: BlockEvent, tip: ChainTip) -> bool {
    &&& event.block_number == tip.number
    &&& event.block_hash@ == tip.hash@
    &&& event.parent_hash@ == tip.parent_hash@
    &&& event.timestamp == tip.timestamp
    &&& event.tx_count == tip.tx_count
}

/// The block event for a change of the canonical chain: it describes the
/// new canonical tip, after a commit and after a reorg alike.
pub fn block_event_from_notification(notification: &CanonStateNotification) -> (event: BlockEvent)
    ensures
        describes(event, notification.new_tip()),
        (match *notification {
            CanonStateNotification::Commit { new } => event.block_number == new.number
                && event.block_hash@ == new.hash@ && event.parent_hash@ == new.parent_hash@
                && event.timestamp == new.timestamp && event.tx_count == new.tx_count,
            CanonStateNotification::Reorg { old, new } => event.block_number == new.number
                && event.block_hash@ == new.hash@ && event.parent_hash@ == new.parent_hash@
                && event.timestamp == new.timestamp && event.tx_count == new.tx_count,
        }),
{
    let tip = match notification {
        CanonStateNotification::Commit { new } => new,
        CanonStateNotification::Reorg { new, .. } => new,
    };
    BlockEvent {
        block_number: tip.number,
        block_hash: tip.hash.clone(),
        parent_hash: tip.parent_hash.clone(),
        timestamp: tip.timestamp,
        tx_count: tip.tx_count,
    }
}

/// A reorg to a chain is reported as the commit of that chain would be:
/// the chain that was replaced plays no part in the event.
pub proof fn lemma_reorg_reported_as_commit(old: ChainTip, new: ChainTip, event: BlockEvent)
    ensures
        describes(event, CanonStateNotification::Reorg { old, new }.new_tip())
            <==> describes(event, CanonStateNotification::Commit { new }.new_tip()),
{
}

/// The new tip of a commit is the tip of the committed chain, and the new
/// tip of a reorg is the tip of the chain that replaces the old one, never
/// the old one; an event describes a tip exactly when each of its fields is
/// the tip's field of the same meaning.
pub proof fn lemma_new_tip_and_fields(old: ChainTip, new: ChainTip, event: BlockEvent)
    ensures
        (CanonStateNotification::Commit { new }).new_tip() == new,
        (CanonStateNotification::Reorg { old, new }).new_tip() == new,
        describes(event, new) <==> (event.block_number == new.number && event.block_hash@
            == new.hash@ && event.parent_hash@ == new.parent_hash@ && event.timestamp
            == new.timestamp && event.tx_count == new.tx_count),
{
}

} // verus!
