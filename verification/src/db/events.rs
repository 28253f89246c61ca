//! Events published to subscribers: changes to entities and new blocks.

use vstd::prelude::*;

verus! {

/// The kind of change an entity event reports.
#[derive(Clone, Debug, PartialEq, Eq, Structural)]
pub enum EventType {
    Saved,
    Deleted,
}

/// Published when an entity is created, updated or deleted.
#[derive(Clone, Debug, PartialEq, Eq)]
pub struct EntityEvent {
    pub event: EventType,
    pub key: String,
    pub value: Option<String>,
}

/// Published when the node receives and processes a new block.
#[derive(Clone, Debug, PartialEq, Eq)]
pub struct BlockEvent {
    pub block_number: u64,
    pub block_hash: String,
    pub parent_hash: String,
    pub timestamp: u64,
    pub tx_count: usize,
}

/// The view of an optional string.
pub open spec fn opt_view(s: Option<String>) -> Option<Seq<char>> {
    match s {
        Some(v) => Some(v@),
        None => None,
    }
}

/// Whether an event about `key` passes the subscription filter `filter`:
/// with no filter every event passes, with one only events about that key.
pub open spec fn key_passes_filter(key: Seq<char>, filter: Option<Seq<char>>) -> bool {
    match filter {
        None => true,
        Some(f) => key == f,
    }
}

impl EntityEvent {
    /// The event published after `value` was saved under `key`.
    pub fn saved(key: String, value: String) -> (event: EntityEvent)
        ensures
            event.event == EventType::Saved,
            event.key@ == key@,
            opt_view(event.value) == Some(value@),
    {
        EntityEvent { event: EventType::Saved, key, value: Some(value) }
    }

    /// The event published after the entity under `key` was deleted. It
    /// carries no value.
    pub fn deleted(key: String) -> (event: EntityEvent)
        ensures
            event.event == EventType::Deleted,
            event.key@ == key@,
            event.value is None,
    {
        EntityEvent { event: EventType::Deleted, key, value: None }
    }

    /// The event to publish after a delete of `key` that removed an entity
    /// (`removed`) or found none. Deleting a key that holds nothing
    /// publishes nothing.
    pub fn for_delete(key: String, removed: bool) -> (event: Option<EntityEvent>)
        ensures
            removed <==> event is Some,
            event matches Some(e) ==> e.event == EventType::Deleted && e.key@ == key@
                && e.value is None,
    {
        if removed {
            Some(EntityEvent::deleted(key))
        } else {
            None
        }
    }

    /// Whether the event passes a subscription's key filter.
    pub fn passes_filter(&self, key_filter: &Option<String>) -> (passes: bool)
        ensures
            passes == key_passes_filter(self.key@, opt_view(*key_filter)),
            passes <==> (key_filter is None || self.key@ == key_filter->0@),
    {
        match key_filter {
            None => true,
            Some(filter) => self.key == *filter,
        }
    }
}

/// With no filter every key passes; with a filter exactly the key equal to
/// it, character for character, passes: no other key, not a prefix of it
/// and not a key it is a prefix of.
pub proof fn lemma_filter_is_key_equality(key: Seq<char>, filter: Seq<char>)
    ensures
        key_passes_filter(key, None),
        key_passes_filter(key, Some(filter)) <==> key == filter,
        key_passes_filter(filter, Some(filter)),
        key.len() != filter.len() ==> !key_passes_filter(key, Some(filter)),
{
}

} // verus!
