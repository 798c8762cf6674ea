//! How the engine for dispenses is set up: where its events, snapshots and
//! views are kept, and how often it takes a snapshot.

use vstd::prelude::*;
use vstd::string::StringExecFns;

verus! {

/// After how many events the store takes a snapshot of an aggregate, so that
/// hydrating it need not replay its whole history.
pub const SNAPSHOT_SIZE: usize = 5;

/// The table of the event log, where none is configured.
pub const EVENT_LOG_TABLE: &'static str = "dispensary-event-log";

/// The table of the snapshots, where none is configured.
pub const EVENT_SNAPSHOTS_TABLE: &'static str = "dispensary-event-snapshots";

/// The table of the views, where none is configured.
pub const DISPENSES_VIEW_TABLE: &'static str = "dispensary-dispenses-view";

/// The bucket of the uploaded prescriptions, where none is configured.
pub const PRESCRIPTIONS_BUCKET: &'static str = "dispensary-prescriptions";

/// How the event store is set up.
#[derive(Debug)]
pub struct StoreSettings {
    /// The table that holds the event log.
    pub event_log_table: String,
    /// The table that holds the snapshots.
    pub event_snapshots_table: String,
    /// After how many events a snapshot is taken.
    pub snapshot_size: usize,
}

/// A configured name, or the default in its place.
pub open spec fn name_or(configured: Option<String>, default: Seq<char>) -> Seq<char> {
    match configured {
        Some(name) => name@,
        None => default,
    }
}

/// Takes the configured name where there is one, and the default otherwise.
pub fn configured_or(configured: Option<String>, default: &str) -> (name: String)
    ensures
        name@ == name_or(configured, default@),
{
    match configured {
        Some(name) => name,
        None => String::from_str(default),
    }
}

/// Settles how the event store is set up: the configured tables, or the
/// default ones, and a snapshot every [`SNAPSHOT_SIZE`] events.
pub fn init(event_log_table: Option<String>, event_snapshots_table: Option<String>) -> (settings:
    StoreSettings)
    ensures
        settings.event_log_table@ == name_or(event_log_table, EVENT_LOG_TABLE@),
        settings.event_snapshots_table@ == name_or(event_snapshots_table, EVENT_SNAPSHOTS_TABLE@),
        settings.snapshot_size == SNAPSHOT_SIZE,
{
    StoreSettings {
        event_log_table: configured_or(event_log_table, EVENT_LOG_TABLE),
        event_snapshots_table: configured_or(event_snapshots_table, EVENT_SNAPSHOTS_TABLE),
        snapshot_size: SNAPSHOT_SIZE,
    }
}

/// Settles where the views are kept: in the configured table, or in the
/// default one.
pub fn init_repo(view_table: Option<String>) -> (table: String)
    ensures
        table@ == name_or(view_table, DISPENSES_VIEW_TABLE@),
{
    configured_or(view_table, DISPENSES_VIEW_TABLE)
}

} // verus!
