//! Events that a subscription to a full node delivers.

use std::collections::BTreeMap;
use vstd::prelude::*;

verus! {

/// The kinds of event that are told apart.
#[derive(Clone, Copy, Debug, PartialEq, Eq, Structural)]
pub enum EventType {
    NewBlock,
    Tx,
}

/// What an event carries.
#[derive(Clone, Debug, PartialEq)]
pub enum EventData {
    /// A block was committed, at `height` where the node told it.
    NewBlock { height: Option<u64> },
    /// A transaction was executed in the block at `block_height`.
    Tx { block_height: u64, index: Option<u32>, tx: Vec<u8> },
    /// Any other event, as the JSON text it came in.
    GenericJsonEvent(String),
}

/// An incoming event produced by a subscription.
///
/// `events` maps key names, each of which encodes an event type and a tag,
/// to values.
#[derive(Clone, Debug, PartialEq)]
pub struct Event {
    /// The query that produced the event.
    pub query: String,
    /// The data associated with the event.
    pub data: EventData,
    /// Event type and attributes map.
    pub events: Option<BTreeMap<String, Vec<String>>>,
}

impl Event {
    /// What kind of event the data is of.
    pub open spec fn spec_event_type(&self) -> Option<EventType> {
        match self.data {
            EventData::NewBlock { .. } => Some(EventType::NewBlock),
            EventData::Tx { .. } => Some(EventType::Tx),
            EventData::GenericJsonEvent(_) => None,
        }
    }

    /// Returns the type associated with this event, if it is one that is told
    /// apart: `NewBlock` for a new block, `Tx` for a transaction, and `None`
    /// for any other event.
    pub fn event_type(&self) -> (r: Option<EventType>)
        ensures
            r == self.spec_event_type(),
    {
        match self.data {
            EventData::NewBlock { .. } => Some(EventType::NewBlock),
            EventData::Tx { .. } => Some(EventType::Tx),
            _ => None,
        }
    }
}

} // verus!
