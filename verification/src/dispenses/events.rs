//! What has happened to a dispense.

use super::aggregate::{
    clone_drugs, drug_models, same_drugs, DispenseStatus, DrugItem, DrugItemModel, AGGREGATE_TYPE,
};
use crate::clock::Timestamp;
use vstd::prelude::*;
use vstd::std_specs::cmp::PartialEqSpecImpl;
use vstd::string::StringExecFns;

verus! {

/// An immutable fact about one dispense. Each carries the id of the aggregate
/// it belongs to and the time at which it happened.
#[derive(Debug)]
pub enum Event {
    DispenseStarted { id: String, created_at: Timestamp, status: DispenseStatus },
    PrescriptionUploaded { id: String, prescription_id: String, url: String, updated_at: Timestamp },
    PrescriptionAnalyzed { id: String, analysis_data: String, updated_at: Timestamp },
    PatientAdded { id: String, patient_id: String, patient_name: String, updated_at: Timestamp },
    DrugsAdded { id: String, drugs: Vec<DrugItem>, updated_at: Timestamp },
    DispenseCompleted { id: String, updated_at: Timestamp },
    DispenseCancelled { id: String, updated_at: Timestamp },
}

/// Mathematical model of an [`Event`].
pub enum EventModel {
    DispenseStarted { id: Seq<char>, created_at: Timestamp, status: DispenseStatus },
    PrescriptionUploaded {
        id: Seq<char>,
        prescription_id: Seq<char>,
        url: Seq<char>,
        updated_at: Timestamp,
    },
    PrescriptionAnalyzed { id: Seq<char>, analysis_data: Seq<char>, updated_at: Timestamp },
    PatientAdded {
        id: Seq<char>,
        patient_id: Seq<char>,
        patient_name: Seq<char>,
        updated_at: Timestamp,
    },
    DrugsAdded { id: Seq<char>, drugs: Seq<DrugItemModel>, updated_at: Timestamp },
    DispenseCompleted { id: Seq<char>, updated_at: Timestamp },
    DispenseCancelled { id: Seq<char>, updated_at: Timestamp },
}

impl View for Event {
    type V = EventModel;

    open spec fn view(&self) -> EventModel {
        match *self {
            Event::DispenseStarted { id, created_at, status } => EventModel::DispenseStarted {
                id: id@,
                created_at,
                status,
            },
            Event::PrescriptionUploaded {
                id,
                prescription_id,
                url,
                updated_at,
            } => EventModel::PrescriptionUploaded {
                id: id@,
                prescription_id: prescription_id@,
                url: url@,
                updated_at,
            },
            Event::PrescriptionAnalyzed {
                id,
                analysis_data,
                updated_at,
            } => EventModel::PrescriptionAnalyzed {
                id: id@,
                analysis_data: analysis_data@,
                updated_at,
            },
            Event::PatientAdded { id, patient_id, patient_name, updated_at } => EventModel::PatientAdded {
                id: id@,
                patient_id: patient_id@,
                patient_name: patient_name@,
                updated_at,
            },
            Event::DrugsAdded { id, drugs, updated_at } => EventModel::DrugsAdded {
                id: id@,
                drugs: drug_models(drugs@),
                updated_at,
            },
            Event::DispenseCompleted { id, updated_at } => EventModel::DispenseCompleted {
                id: id@,
                updated_at,
            },
            Event::DispenseCancelled { id, updated_at } => EventModel::DispenseCancelled {
                id: id@,
                updated_at,
            },
        }
    }
}

/// The models of a list of events, in order.
pub open spec fn event_models(events: Seq<Event>) -> Seq<EventModel> {
    events.map_values(|event: Event| event@)
}

impl EventModel {
    /// The event's own name, without the aggregate's.
    pub open spec fn name(self) -> Seq<char> {
        match self {
            EventModel::DispenseStarted { .. } => "Started"@,
            EventModel::PrescriptionUploaded { .. } => "PrescriptionUploaded"@,
            EventModel::PrescriptionAnalyzed { .. } => "PrescriptionAnalyzed"@,
            EventModel::PatientAdded { .. } => "PatientAdded"@,
            EventModel::DrugsAdded { .. } => "DrugsAdded"@,
            EventModel::DispenseCompleted { .. } => "Completed"@,
            EventModel::DispenseCancelled { .. } => "Cancelled"@,
        }
    }

    /// The tag under which the event is stored and routed: the aggregate's
    /// type, a colon, and the event's name.
    pub open spec fn event_type(self) -> Seq<char> {
        AGGREGATE_TYPE@ + ":"@ + self.name()
    }

    /// The id of the aggregate that the event belongs to.
    pub open spec fn aggregate_id(self) -> Seq<char> {
        match self {
            EventModel::DispenseStarted { id, .. } => id,
            EventModel::PrescriptionUploaded { id, .. } => id,
            EventModel::PrescriptionAnalyzed { id, .. } => id,
            EventModel::PatientAdded { id, .. } => id,
            EventModel::DrugsAdded { id, .. } => id,
            EventModel::DispenseCompleted { id, .. } => id,
            EventModel::DispenseCancelled { id, .. } => id,
        }
    }

    /// When the event happened.
    pub open spec fn timestamp(self) -> Timestamp {
        match self {
            EventModel::DispenseStarted { created_at, .. } => created_at,
            EventModel::PrescriptionUploaded { updated_at, .. } => updated_at,
            EventModel::PrescriptionAnalyzed { updated_at, .. } => updated_at,
            EventModel::PatientAdded { updated_at, .. } => updated_at,
            EventModel::DrugsAdded { updated_at, .. } => updated_at,
            EventModel::DispenseCompleted { updated_at, .. } => updated_at,
            EventModel::DispenseCancelled { updated_at, .. } => updated_at,
        }
    }
}

/// The version under which every event is stored.
pub open spec fn event_version() -> Seq<char> {
    "1.0"@
}

impl Event {
    /// The tag under which the event is stored and routed.
    pub fn event_type(&self) -> (tag: String)
        ensures
            tag@ == self@.event_type(),
    {
        let name = match self {
            Event::DispenseStarted { .. } => "Started",
            Event::PrescriptionUploaded { .. } => "PrescriptionUploaded",
            Event::PrescriptionAnalyzed { .. } => "PrescriptionAnalyzed",
            Event::PatientAdded { .. } => "PatientAdded",
            Event::DrugsAdded { .. } => "DrugsAdded",
            Event::DispenseCompleted { .. } => "Completed",
            Event::DispenseCancelled { .. } => "Cancelled",
        };
        String::from_str(AGGREGATE_TYPE).concat(":").concat(name)
    }

    /// The version of the event's stored form.
    pub fn event_version(&self) -> (version: String)
        ensures
            version@ == event_version(),
    {
        String::from_str("1.0")
    }
}

impl Clone for Event {
    fn clone(&self) -> (copy: Event)
        ensures
            copy@ == self@,
    {
        match self {
            Event::DispenseStarted { id, created_at, status } => Event::DispenseStarted {
                id: id.clone(),
                created_at: *created_at,
                status: *status,
            },
            Event::PrescriptionUploaded {
                id,
                prescription_id,
                url,
                updated_at,
            } => Event::PrescriptionUploaded {
                id: id.clone(),
                prescription_id: prescription_id.clone(),
                url: url.clone(),
                updated_at: *updated_at,
            },
            Event::PrescriptionAnalyzed { id, analysis_data, updated_at } => Event::PrescriptionAnalyzed {
                id: id.clone(),
                analysis_data: analysis_data.clone(),
                updated_at: *updated_at,
            },
            Event::PatientAdded { id, patient_id, patient_name, updated_at } => Event::PatientAdded {
                id: id.clone(),
                patient_id: patient_id.clone(),
                patient_name: patient_name.clone(),
                updated_at: *updated_at,
            },
            Event::DrugsAdded { id, drugs, updated_at } => Event::DrugsAdded {
                id: id.clone(),
                drugs: clone_drugs(drugs),
                updated_at: *updated_at,
            },
            Event::DispenseCompleted { id, updated_at } => Event::DispenseCompleted {
                id: id.clone(),
                updated_at: *updated_at,
            },
            Event::DispenseCancelled { id, updated_at } => Event::DispenseCancelled {
                id: id.clone(),
                updated_at: *updated_at,
            },
        }
    }
}

impl PartialEq for Event {
    fn eq(&self, other: &Event) -> (equal: bool) {
        match (self, other) {
            (
                Event::DispenseStarted { id: a, created_at: s, status: p },
                Event::DispenseStarted { id: b, created_at: t, status: q },
            ) => *a == *b && *s == *t && *p == *q,
            (
                Event::PrescriptionUploaded { id: a, prescription_id: c, url: u, updated_at: s },
                Event::PrescriptionUploaded { id: b, prescription_id: d, url: v, updated_at: t },
            ) => *a == *b && *c == *d && *u == *v && *s == *t,
            (
                Event::PrescriptionAnalyzed { id: a, analysis_data: c, updated_at: s },
                Event::PrescriptionAnalyzed { id: b, analysis_data: d, updated_at: t },
            ) => *a == *b && *c == *d && *s == *t,
            (
                Event::PatientAdded { id: a, patient_id: c, patient_name: n, updated_at: s },
                Event::PatientAdded { id: b, patient_id: d, patient_name: m, updated_at: t },
            ) => *a == *b && *c == *d && *n == *m && *s == *t,
            (
                Event::DrugsAdded { id: a, drugs: c, updated_at: s },
                Event::DrugsAdded { id: b, drugs: d, updated_at: t },
            ) => *a == *b && same_drugs(c, d) && *s == *t,
            (
                Event::DispenseCompleted { id: a, updated_at: s },
                Event::DispenseCompleted { id: b, updated_at: t },
            ) => *a == *b && *s == *t,
            (
                Event::DispenseCancelled { id: a, updated_at: s },
                Event::DispenseCancelled { id: b, updated_at: t },
            ) => *a == *b && *s == *t,
            _ => false,
        }
    }
}

impl PartialEqSpecImpl for Event {
    open spec fn obeys_eq_spec() -> bool {
        true
    }

    open spec fn eq_spec(&self, other: &Event) -> bool {
        self@ == other@
    }
}

impl Eq for Event {}

} // verus!
