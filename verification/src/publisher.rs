//! From the event log to the stream: what the change-capture publisher
//! decides for each record that the log's change feed delivers.

use crate::event::{DomainEvent, DomainEventModel};
use crate::text::{decoded, invalid_utf8_message, read_field};
use vstd::prelude::*;
use vstd::string::StringExecFns;

verus! {

/// The name that the change feed gives to the insertion of a record.
pub const INSERT: &'static str = "INSERT";

/// One event as the event log stores it.
#[derive(Debug)]
pub struct EventLogRecord {
    /// The partition key: the aggregate's type and id together.
    pub aggregate_type_and_id: String,
    pub event_type: String,
    pub aggregate_id: String,
    pub aggregate_type: String,
    /// What travelled with the command: JSON, as UTF-8 bytes.
    pub metadata: Vec<u8>,
    /// The event: JSON, as UTF-8 bytes.
    pub payload: Vec<u8>,
    pub event_version: String,
    /// The event's number in the aggregate's stream.
    pub aggregate_id_sequence: usize,
}

/// Mathematical model of an [`EventLogRecord`].
pub struct EventLogRecordModel {
    pub aggregate_type_and_id: Seq<char>,
    pub event_type: Seq<char>,
    pub aggregate_id: Seq<char>,
    pub aggregate_type: Seq<char>,
    pub metadata: Seq<u8>,
    pub payload: Seq<u8>,
    pub event_version: Seq<char>,
    pub aggregate_id_sequence: nat,
}

impl View for EventLogRecord {
    type V = EventLogRecordModel;

    open spec fn view(&self) -> EventLogRecordModel {
        EventLogRecordModel {
            aggregate_type_and_id: self.aggregate_type_and_id@,
            event_type: self.event_type@,
            aggregate_id: self.aggregate_id@,
            aggregate_type: self.aggregate_type@,
            metadata: self.metadata@,
            payload: self.payload@,
            event_version: self.event_version@,
            aggregate_id_sequence: self.aggregate_id_sequence as nat,
        }
    }
}

impl Clone for EventLogRecord {
    fn clone(&self) -> (copy: EventLogRecord)
        ensures
            copy@ == self@,
    {
        EventLogRecord {
            aggregate_type_and_id: self.aggregate_type_and_id.clone(),
            event_type: self.event_type.clone(),
            aggregate_id: self.aggregate_id.clone(),
            aggregate_type: self.aggregate_type.clone(),
            metadata: self.metadata.clone(),
            payload: self.payload.clone(),
            event_version: self.event_version.clone(),
            aggregate_id_sequence: self.aggregate_id_sequence,
        }
    }
}

impl EventLogRecordModel {
    /// The envelope that carries the record on the stream, or the complaint
    /// where payload or metadata are not UTF-8. The payload is looked at
    /// first.
    pub open spec fn envelope(self) -> Result<DomainEventModel, Seq<char>> {
        match decoded(self.payload) {
            Err(detail) => Err(invalid_utf8_message("payload"@, detail)),
            Ok(payload) => match decoded(self.metadata) {
                Err(detail) => Err(invalid_utf8_message("metadata"@, detail)),
                Ok(metadata) => Ok(
                    DomainEventModel {
                        id: self.aggregate_id,
                        aggregate_type: self.aggregate_type,
                        sequence: self.aggregate_id_sequence,
                        event_type: self.event_type,
                        event_version: self.event_version,
                        payload,
                        metadata,
                    },
                ),
            },
        }
    }
}

/// The model of a conversion's result.
pub open spec fn converted_model(result: Result<DomainEvent, String>) -> Result<
    DomainEventModel,
    Seq<char>,
> {
    match result {
        Ok(event) => Ok(event@),
        Err(message) => Err(message@),
    }
}

impl DomainEvent {
    /// Turns a record of the event log into the envelope that the stream
    /// carries. It fails where the payload or the metadata are not UTF-8.
    pub fn try_from(record: EventLogRecord) -> (result: Result<DomainEvent, String>)
        ensures
            converted_model(result) == record@.envelope(),
    {
        let payload = read_field("payload", record.payload)?;
        let metadata = read_field("metadata", record.metadata)?;
        Ok(
            DomainEvent::new(
                record.aggregate_id,
                record.aggregate_type,
                record.aggregate_id_sequence,
                record.event_type,
                record.event_version,
                payload,
                metadata,
            ),
        )
    }
}

/// What is to be put on the stream for one record of the event log.
#[derive(Debug)]
pub struct Publication {
    /// The key that decides the shard: the aggregate's type, so that the
    /// events of one type stay in order.
    pub partition_key: String,
    /// The envelope to serialise and send.
    pub event: DomainEvent,
}

/// The model of a publication, or of the complaint in its place.
pub open spec fn publication_model(result: Result<Publication, String>) -> Result<
    (Seq<char>, DomainEventModel),
    Seq<char>,
> {
    match result {
        Ok(publication) => Ok((publication.partition_key@, publication.event@)),
        Err(message) => Err(message@),
    }
}

/// Whether the change feed reports an insertion. The log is append-only:
/// changes of any other name are passed over.
pub fn is_insert(event_name: &str) -> (insert: bool)
    ensures
        insert == (event_name@ == INSERT@),
{
    String::from_str(event_name) == String::from_str(INSERT)
}

/// Decides what to publish for a record of the event log: its envelope,
/// under the aggregate's type as partition key.
pub fn handle_record(record: EventLogRecord) -> (result: Result<Publication, String>)
    ensures
        publication_model(result) == match record@.envelope() {
            Ok(event) => Ok((record@.aggregate_type, event)),
            Err(message) => Err(message),
        },
{
    let partition_key = record.aggregate_type.clone();
    match DomainEvent::try_from(record) {
        Ok(event) => Ok(Publication { partition_key, event }),
        Err(message) => Err(message),
    }
}

} // verus!
