//! Positions in the event stream and the small value types that travel with
//! events: offsets, event sources, and commands addressed to an entity.

use vstd::prelude::*;
use crate::str_eq;
use crate::slicing::PersistenceId;

verus! {

/// Uniquely identifies the type of an entity.
pub type EntityType = String;

/// Uniquely identifies an entity, or entity instance.
pub type EntityId = String;

/// Tags annotate an entity's events.
pub type Tag = String;

/// Implemented by structures that can return a persistence id.
pub trait WithPersistenceId {
    fn persistence_id(&self) -> &PersistenceId;
}

/// Implemented by structures that can return tags.
pub trait WithTags {
    fn tags(&self) -> &[Tag];
}

/// A timestamp-based offset: the timestamp in milliseconds since the epoch
/// and the sequence number seen at that timestamp, since several events can
/// share one timestamp.
#[derive(Debug, Clone, Copy, PartialEq, Eq, Structural)]
pub struct TimestampOffset {
    pub timestamp: i64,
    pub seq_nr: u64,
}

impl PartialOrd for TimestampOffset {
    /// Timestamp-based offsets compare by timestamp alone; equal timestamps
    /// compare equal whatever their sequence numbers.
    fn partial_cmp(&self, other: &Self) -> (r: Option<core::cmp::Ordering>) {
        if self.timestamp < other.timestamp {
            Some(core::cmp::Ordering::Less)
        } else if self.timestamp == other.timestamp {
            Some(core::cmp::Ordering::Equal)
        } else {
            Some(core::cmp::Ordering::Greater)
        }
    }
}

impl vstd::std_specs::cmp::PartialOrdSpecImpl for TimestampOffset {
    open spec fn obeys_partial_cmp_spec() -> bool {
        true
    }

    open spec fn partial_cmp_spec(&self, other: &Self) -> Option<core::cmp::Ordering> {
        if self.timestamp < other.timestamp {
            Some(core::cmp::Ordering::Less)
        } else if self.timestamp == other.timestamp {
            Some(core::cmp::Ordering::Equal)
        } else {
            Some(core::cmp::Ordering::Greater)
        }
    }
}

/// A resumable position in the event stream. Exclusive: a query from offset
/// `o` returns events strictly after `o`.
#[derive(Debug, Clone, Copy, PartialEq, PartialOrd)]
pub enum Offset {
    /// An ordered sequence number for the events.
    Sequence(u64),
    /// A timestamp-based offset.
    Timestamp(TimestampOffset),
}

/// Implemented by structures that can return an offset.
pub trait WithOffset {
    fn offset(&self) -> Offset;
}

/// Implemented by structures that can return a timestamp, in milliseconds
/// since the epoch.
pub trait WithTimestamp {
    fn timestamp(&self) -> i64;
}

/// Implemented by structures that can return a sequence number.
pub trait WithSeqNr {
    fn seq_nr(&self) -> u64;
}

/// An event source descriptor.
#[derive(Debug, Clone, Copy, PartialEq, Eq, Structural)]
pub enum Source {
    /// For backtracking events.
    Backtrack,
    /// For ordinary events.
    Regular,
    /// For PubSub events.
    PubSub,
}

/// It is an error if a string representation is not one of: `""` for
/// ordinary events, `"BT"` for backtracking events, `"PS"` for PubSub events.
#[derive(Debug, PartialEq, Eq, Structural)]
pub struct CannotSourceError;

impl Source {
    /// Parses the wire representation of a source descriptor.
    pub fn from_str(s: &str) -> (r: Result<Self, CannotSourceError>)
        ensures
            s@ == ""@ ==> r == Ok::<Source, CannotSourceError>(Source::Regular),
            s@ == "BT"@ ==> r == Ok::<Source, CannotSourceError>(Source::Backtrack),
            s@ == "PS"@ ==> r == Ok::<Source, CannotSourceError>(Source::PubSub),
            !(s@ == ""@ || s@ == "BT"@ || s@ == "PS"@) ==> r == Err::<
                Source,
                CannotSourceError,
            >(CannotSourceError),
    {
        proof {
            reveal_strlit("");
            reveal_strlit("BT");
            reveal_strlit("PS");
            assert(""@.len() == 0 && "BT"@.len() == 2 && "PS"@.len() == 2);
            assert("BT"@[0] == 'B' && "PS"@[0] == 'P');
        }
        if str_eq(s, "") {
            Ok(Source::Regular)
        } else if str_eq(s, "BT") {
            Ok(Source::Backtrack)
        } else if str_eq(s, "PS") {
            Ok(Source::PubSub)
        } else {
            Err(CannotSourceError)
        }
    }
}

/// Implemented by structures that can return a source.
pub trait WithSource {
    fn source(&self) -> Source;
}

/// A message encapsulates a command that is addressed to a specific entity.
#[derive(Debug, PartialEq)]
pub struct Message<C> {
    pub entity_id: EntityId,
    pub command: C,
}

impl<C> Message<C> {
    pub fn new(entity_id: EntityId, command: C) -> (r: Self)
        ensures
            r.entity_id == entity_id,
            r.command == command,
    {
        Self { entity_id, command }
    }
}

} // verus!
