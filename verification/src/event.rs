//! The envelope in which an event travels on the stream.

use vstd::prelude::*;

verus! {

/// A committed event as the stream carries it: where it belongs, what kind
/// it is, and its payload and metadata as JSON text.
#[derive(Debug)]
pub struct DomainEvent {
    /// The id of the aggregate.
    pub id: String,
    /// The type of the aggregate.
    pub aggregate_type: String,
    /// The event's number in the aggregate's stream.
    pub sequence: usize,
    /// The tag of the event: the aggregate's type, a colon, the event's name.
    pub event_type: String,
    /// The version of the event's stored form.
    pub event_version: String,
    /// The event, as JSON text.
    pub payload: String,
    /// What travelled with the command, as JSON text.
    pub metadata: String,
}

/// Mathematical model of a [`DomainEvent`].
pub struct DomainEventModel {
    pub id: Seq<char>,
    pub aggregate_type: Seq<char>,
    pub sequence: nat,
    pub event_type: Seq<char>,
    pub event_version: Seq<char>,
    pub payload: Seq<char>,
    pub metadata: Seq<char>,
}

impl View for DomainEvent {
    type V = DomainEventModel;

    open spec fn view(&self) -> DomainEventModel {
        DomainEventModel {
            id: self.id@,
            aggregate_type: self.aggregate_type@,
            sequence: self.sequence as nat,
            event_type: self.event_type@,
            event_version: self.event_version@,
            payload: self.payload@,
            metadata: self.metadata@,
        }
    }
}

impl DomainEvent {
    /// Puts an envelope together.
    pub fn new(
        id: String,
        aggregate_type: String,
        sequence: usize,
        event_type: String,
        event_version: String,
        payload: String,
        metadata: String,
    ) -> (event: DomainEvent)
        ensures
            event@ == (DomainEventModel {
                id: id@,
                aggregate_type: aggregate_type@,
                sequence: sequence as nat,
                event_type: event_type@,
                event_version: event_version@,
                payload: payload@,
                metadata: metadata@,
            }),
    {
        DomainEvent { id, aggregate_type, sequence, event_type, event_version, payload, metadata }
    }
}

impl Clone for DomainEvent {
    fn clone(&self) -> (copy: DomainEvent)
        ensures
            copy@ == self@,
    {
        DomainEvent {
            id: self.id.clone(),
            aggregate_type: self.aggregate_type.clone(),
            sequence: self.sequence,
            event_type: self.event_type.clone(),
            event_version: self.event_version.clone(),
            payload: self.payload.clone(),
            metadata: self.metadata.clone(),
        }
    }
}

} // verus!
