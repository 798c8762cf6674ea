//! The dispense aggregate: its state and the two functions that drive it.

use super::commands::{Command, CommandModel};
use super::events::{event_models, Event, EventModel};
use crate::clock::{now, Timestamp};
use crate::errors::{Error, ErrorModel};
use vstd::prelude::*;
use vstd::std_specs::cmp::PartialEqSpecImpl;
use vstd::string::StringExecFns;

verus! {

/// The name under which the aggregate's events are stored and routed.
pub const AGGREGATE_TYPE: &'static str = "Dispense";

/// Where a dispense stands in its workflow.
#[derive(Clone, Copy, Debug, PartialEq, Eq, Structural)]
pub enum DispenseStatus {
    /// Started, nothing uploaded yet.
    Pending,
    /// A prescription is uploaded and awaits analysis.
    Analyzing,
    /// The analysis is in; patient and drugs can be added.
    Ready,
    /// Dispensed.
    Complete,
    /// Abandoned.
    Cancelled,
}

impl Default for DispenseStatus {
    fn default() -> (status: DispenseStatus)
        ensures
            status == DispenseStatus::Pending,
    {
        DispenseStatus::Pending
    }
}

/// One line of the drug list.
#[derive(Debug)]
pub struct DrugItem {
    pub drug_id: String,
    pub name: String,
    pub quantity: u32,
}

/// Mathematical model of a [`DrugItem`].
pub struct DrugItemModel {
    pub drug_id: Seq<char>,
    pub name: Seq<char>,
    pub quantity: u32,
}

impl View for DrugItem {
    type V = DrugItemModel;

    open spec fn view(&self) -> DrugItemModel {
        DrugItemModel { drug_id: self.drug_id@, name: self.name@, quantity: self.quantity }
    }
}

impl Clone for DrugItem {
    fn clone(&self) -> (copy: DrugItem)
        ensures
            copy@ == self@,
    {
        DrugItem { drug_id: self.drug_id.clone(), name: self.name.clone(), quantity: self.quantity }
    }
}

impl PartialEq for DrugItem {
    fn eq(&self, other: &DrugItem) -> (equal: bool) {
        self.drug_id == other.drug_id && self.name == other.name && self.quantity == other.quantity
    }
}

impl PartialEqSpecImpl for DrugItem {
    open spec fn obeys_eq_spec() -> bool {
        true
    }

    open spec fn eq_spec(&self, other: &DrugItem) -> bool {
        self@ == other@
    }
}

impl Eq for DrugItem {}

/// The models of a list of drug items, in order.
pub open spec fn drug_models(drugs: Seq<DrugItem>) -> Seq<DrugItemModel> {
    drugs.map_values(|item: DrugItem| item@)
}

/// Copies a drug list item by item.
pub(crate) fn clone_drugs(drugs: &Vec<DrugItem>) -> (copy: Vec<DrugItem>)
    ensures
        drug_models(copy@) == drug_models(drugs@),
{
    let mut copy: Vec<DrugItem> = Vec::new();
    let mut i: usize = 0;
    while i < drugs.len()
        invariant
            i <= drugs.len(),
            copy.len() == i,
            forall|k: int| 0 <= k < i ==> copy@[k]@ == drugs@[k]@,
        decreases drugs.len() - i,
    {
        copy.push(drugs[i].clone());
        i += 1;
    }
    assert(drug_models(copy@) =~= drug_models(drugs@));
    copy
}

/// Whether two drug lists hold equal items in the same order.
pub(crate) fn same_drugs(left: &Vec<DrugItem>, right: &Vec<DrugItem>) -> (equal: bool)
    ensures
        equal == (drug_models(left@) == drug_models(right@)),
{
    if left.len() != right.len() {
        assert(drug_models(left@).len() != drug_models(right@).len());
        return false;
    }
    let mut i: usize = 0;
    while i < left.len()
        invariant
            i <= left.len(),
            left.len() == right.len(),
            forall|k: int| 0 <= k < i ==> left@[k]@ == right@[k]@,
        decreases left.len() - i,
    {
        if !(left[i] == right[i]) {
            assert(drug_models(left@)[i as int] != drug_models(right@)[i as int]);
            return false;
        }
        i += 1;
    }
    assert(drug_models(left@) =~= drug_models(right@));
    true
}

/// The model of a text that may be absent.
pub open spec fn text_model(text: Option<String>) -> Option<Seq<char>> {
    match text {
        Some(present) => Some(present@),
        None => None,
    }
}

/// Copies a text that may be absent.
pub(crate) fn clone_text(text: &Option<String>) -> (copy: Option<String>)
    ensures
        text_model(copy) == text_model(*text),
{
    match text {
        Some(present) => Some(present.clone()),
        None => None,
    }
}

/// Whether two texts that may be absent are both absent or read the same.
pub(crate) fn same_text(left: &Option<String>, right: &Option<String>) -> (equal: bool)
    ensures
        equal == (text_model(*left) == text_model(*right)),
{
    match (left, right) {
        (Some(a), Some(b)) => *a == *b,
        (None, None) => true,
        _ => false,
    }
}

/// What the command handler may call on beside the aggregate itself: nothing.
#[derive(Clone, Copy, Debug)]
pub struct Services {}

impl Default for Services {
    fn default() -> (services: Services) {
        Services {  }
    }
}

/// The authoritative state of one dispensing workflow. It is the zero value
/// until events are applied to it, and changes in no other way.
#[derive(Debug)]
pub struct Dispense {
    pub id: String,
    pub created_at: Timestamp,
    pub updated_at: Timestamp,
    pub status: DispenseStatus,
    pub prescription_id: Option<String>,
    pub prescription_url: Option<String>,
    pub prescription_analyzed: bool,
    pub patient_id: Option<String>,
    pub patient_name: Option<String>,
    pub drugs: Vec<DrugItem>,
    pub deleted: bool,
}

/// Mathematical model of a [`Dispense`].
pub struct DispenseModel {
    pub id: Seq<char>,
    pub created_at: Timestamp,
    pub updated_at: Timestamp,
    pub status: DispenseStatus,
    pub prescription_id: Option<Seq<char>>,
    pub prescription_url: Option<Seq<char>>,
    pub prescription_analyzed: bool,
    pub patient_id: Option<Seq<char>>,
    pub patient_name: Option<Seq<char>>,
    pub drugs: Seq<DrugItemModel>,
    pub deleted: bool,
}

impl View for Dispense {
    type V = DispenseModel;

    open spec fn view(&self) -> DispenseModel {
        DispenseModel {
            id: self.id@,
            created_at: self.created_at,
            updated_at: self.updated_at,
            status: self.status,
            prescription_id: text_model(self.prescription_id),
            prescription_url: text_model(self.prescription_url),
            prescription_analyzed: self.prescription_analyzed,
            patient_id: text_model(self.patient_id),
            patient_name: text_model(self.patient_name),
            drugs: drug_models(self.drugs@),
            deleted: self.deleted,
        }
    }
}

impl DispenseModel {
    /// The state of an aggregate to which no event has been applied.
    pub open spec fn initial() -> DispenseModel {
        DispenseModel {
            id: Seq::empty(),
            created_at: Timestamp::epoch(),
            updated_at: Timestamp::epoch(),
            status: DispenseStatus::Pending,
            prescription_id: None,
            prescription_url: None,
            prescription_analyzed: false,
            patient_id: None,
            patient_name: None,
            drugs: Seq::empty(),
            deleted: false,
        }
    }

    /// An aggregate without an id has never been started.
    pub open spec fn is_new(self) -> bool {
        self.id.len() == 0
    }

    /// The state after one event. Every event sets absolute values, and the
    /// time of the last change with them.
    pub open spec fn apply(self, event: EventModel) -> DispenseModel {
        match event {
            EventModel::DispenseStarted { id, created_at, status } => DispenseModel {
                id,
                created_at,
                updated_at: created_at,
                status,
                ..self
            },
            EventModel::PrescriptionUploaded { prescription_id, url, updated_at, .. } => DispenseModel {
                prescription_id: Some(prescription_id),
                prescription_url: Some(url),
                status: DispenseStatus::Analyzing,
                updated_at,
                ..self
            },
            EventModel::PrescriptionAnalyzed { updated_at, .. } => DispenseModel {
                prescription_analyzed: true,
                status: DispenseStatus::Ready,
                updated_at,
                ..self
            },
            EventModel::PatientAdded { patient_id, patient_name, updated_at, .. } => DispenseModel {
                patient_id: Some(patient_id),
                patient_name: Some(patient_name),
                updated_at,
                ..self
            },
            EventModel::DrugsAdded { drugs, updated_at, .. } => DispenseModel {
                drugs,
                updated_at,
                ..self
            },
            EventModel::DispenseCompleted { updated_at, .. } => DispenseModel {
                status: DispenseStatus::Complete,
                updated_at,
                ..self
            },
            EventModel::DispenseCancelled { updated_at, .. } => DispenseModel {
                status: DispenseStatus::Cancelled,
                updated_at,
                ..self
            },
        }
    }

    /// The state after a run of events, applied first to last.
    pub open spec fn replay(self, events: Seq<EventModel>) -> DispenseModel
        decreases events.len(),
    {
        if events.len() == 0 {
            self
        } else {
            self.replay(events.drop_last()).apply(events.last())
        }
    }

    /// Why a command is refused in this state, if it is.
    ///
    /// Starting needs an aggregate that was never started; everything else
    /// needs one that was, and that is not deleted. Completing needs a
    /// patient and at least one drug besides. No command looks at the status.
    pub open spec fn rejection(self, command: CommandModel) -> Option<ErrorModel> {
        if command is StartDispense {
            if self.is_new() {
                None
            } else {
                Some(ErrorModel::Uniqueness { field: "id"@ })
            }
        } else if self.is_new() {
            Some(ErrorModel::NotFound { entity: AGGREGATE_TYPE@ })
        } else if self.deleted {
            Some(ErrorModel::Forbidden)
        } else if command is CompleteDispense && self.patient_id is None {
            Some(ErrorModel::Validation { message: "Cannot complete dispense without patient"@ })
        } else if command is CompleteDispense && self.drugs.len() == 0 {
            Some(ErrorModel::Validation { message: "Cannot complete dispense without drugs"@ })
        } else {
            None
        }
    }

    /// The event that records a command accepted at the instant `now`.
    pub open spec fn outcome(self, command: CommandModel, now: Timestamp) -> EventModel {
        match command {
            CommandModel::StartDispense { id } => EventModel::DispenseStarted {
                id,
                created_at: now,
                status: DispenseStatus::Pending,
            },
            CommandModel::UploadPrescription { prescription_id, url } => EventModel::PrescriptionUploaded {
                id: self.id,
                prescription_id,
                url,
                updated_at: now,
            },
            CommandModel::AnalyzePrescription { analysis_data } => EventModel::PrescriptionAnalyzed {
                id: self.id,
                analysis_data,
                updated_at: now,
            },
            CommandModel::AddPatient { patient_id, name } => EventModel::PatientAdded {
                id: self.id,
                patient_id,
                patient_name: name,
                updated_at: now,
            },
            CommandModel::AddDrugs { drugs } => EventModel::DrugsAdded {
                id: self.id,
                drugs,
                updated_at: now,
            },
            CommandModel::CompleteDispense => EventModel::DispenseCompleted {
                id: self.id,
                updated_at: now,
            },
            CommandModel::CancelDispense => EventModel::DispenseCancelled {
                id: self.id,
                updated_at: now,
            },
        }
    }

    /// What handling a command at the instant `now` yields: the refusal, or
    /// the one event that records the command.
    pub open spec fn handle(self, command: CommandModel, now: Timestamp) -> Result<
        Seq<EventModel>,
        ErrorModel,
    > {
        match self.rejection(command) {
            Some(error) => Err(error),
            None => Ok(seq![self.outcome(command, now)]),
        }
    }
}

/// The model of what the command handler returns.
pub open spec fn handled_model(result: Result<Vec<Event>, Error>) -> Result<
    Seq<EventModel>,
    ErrorModel,
> {
    match result {
        Ok(events) => Ok(event_models(events@)),
        Err(error) => Err(error@),
    }
}

/// The model of what a validation returns.
pub open spec fn checked_model(result: Result<(), Error>) -> Option<ErrorModel> {
    match result {
        Ok(_) => None,
        Err(error) => Some(error@),
    }
}

impl Default for Dispense {
    fn default() -> (dispense: Dispense)
        ensures
            dispense@ == DispenseModel::initial(),
    {
        let dispense = Dispense {
            id: String::new(),
            created_at: Timestamp::default(),
            updated_at: Timestamp::default(),
            status: DispenseStatus::default(),
            prescription_id: None,
            prescription_url: None,
            prescription_analyzed: false,
            patient_id: None,
            patient_name: None,
            drugs: Vec::new(),
            deleted: false,
        };
        assert(dispense@.drugs =~= Seq::empty());
        dispense
    }
}

impl Clone for Dispense {
    fn clone(&self) -> (copy: Dispense)
        ensures
            copy@ == self@,
    {
        Dispense {
            id: self.id.clone(),
            created_at: self.created_at,
            updated_at: self.updated_at,
            status: self.status,
            prescription_id: clone_text(&self.prescription_id),
            prescription_url: clone_text(&self.prescription_url),
            prescription_analyzed: self.prescription_analyzed,
            patient_id: clone_text(&self.patient_id),
            patient_name: clone_text(&self.patient_name),
            drugs: clone_drugs(&self.drugs),
            deleted: self.deleted,
        }
    }
}

impl PartialEq for Dispense {
    fn eq(&self, other: &Dispense) -> (equal: bool) {
        self.id == other.id && self.created_at == other.created_at && self.updated_at
            == other.updated_at && self.status == other.status && same_text(
            &self.prescription_id,
            &other.prescription_id,
        ) && same_text(&self.prescription_url, &other.prescription_url)
            && self.prescription_analyzed == other.prescription_analyzed && same_text(
            &self.patient_id,
            &other.patient_id,
        ) && same_text(&self.patient_name, &other.patient_name) && same_drugs(
            &self.drugs,
            &other.drugs,
        ) && self.deleted == other.deleted
    }
}

impl PartialEqSpecImpl for Dispense {
    open spec fn obeys_eq_spec() -> bool {
        true
    }

    open spec fn eq_spec(&self, other: &Dispense) -> bool {
        self@ == other@
    }
}

impl Eq for Dispense {}

impl Dispense {
    /// The name under which the aggregate's events are stored and routed.
    pub fn aggregate_type() -> (name: String)
        ensures
            name@ == AGGREGATE_TYPE@,
    {
        String::from_str(AGGREGATE_TYPE)
    }

    /// Decides on a command at the present instant.
    ///
    /// Whether the command is refused, and why, depends on the state alone.
    /// An accepted command yields the one event that records it, stamped with
    /// some reading of the clock; [`Dispense::handle_at`] says which event
    /// that is for each instant.
    pub fn handle(&self, command: Command, _services: &Services) -> (result: Result<
        Vec<Event>,
        Error,
    >)
        ensures
            result is Err <==> self@.rejection(command@) is Some,
            result matches Err(error) ==> self@.rejection(command@) == Some(error@),
            exists|instant: Timestamp|
                instant.seconds >= 0 && instant.nanos < 1_000_000_000 && #[trigger] self@.handle(
                    command@,
                    instant,
                ) == handled_model(result),
            result matches Ok(events) ==> events@.len() == 1 && exists|instant: Timestamp|
                events@[0]@ == #[trigger] self@.outcome(command@, instant),
    {
        let instant = now();
        self.handle_at(command, instant)
    }

    /// Decides on a command as of the instant `now`: refuses it, or returns
    /// the one event that records it. The aggregate itself is left as it is;
    /// only applying the event changes it.
    pub fn handle_at(&self, command: Command, now: Timestamp) -> (result: Result<Vec<Event>, Error>)
        ensures
            handled_model(result) == self@.handle(command@, now),
            result matches Ok(events) ==> events@.len() == 1 && events@[0]@ == self@.outcome(
                command@,
                now,
            ),
    {
        let ghost expected = self@.outcome(command@, now);
        let event = match command {
            Command::StartDispense { id } => {
                self.validate_new()?;
                Event::DispenseStarted { id, created_at: now, status: DispenseStatus::Pending }
            },
            Command::UploadPrescription { prescription_id, url } => {
                self.validate_existing()?;
                Event::PrescriptionUploaded {
                    id: self.id.clone(),
                    prescription_id,
                    url,
                    updated_at: now,
                }
            },
            Command::AnalyzePrescription { analysis_data } => {
                self.validate_existing()?;
                Event::PrescriptionAnalyzed { id: self.id.clone(), analysis_data, updated_at: now }
            },
            Command::AddPatient { patient_id, name } => {
                self.validate_existing()?;
                Event::PatientAdded {
                    id: self.id.clone(),
                    patient_id,
                    patient_name: name,
                    updated_at: now,
                }
            },
            Command::AddDrugs { drugs } => {
                self.validate_existing()?;
                Event::DrugsAdded { id: self.id.clone(), drugs, updated_at: now }
            },
            Command::CompleteDispense => {
                self.validate_existing()?;
                self.validate_can_complete()?;
                Event::DispenseCompleted { id: self.id.clone(), updated_at: now }
            },
            Command::CancelDispense => {
                self.validate_existing()?;
                Event::DispenseCancelled { id: self.id.clone(), updated_at: now }
            },
        };
        assert(event@ == expected);
        let events = vec![event];
        assert(event_models(events@) =~= seq![expected]);
        Ok(events)
    }

    /// Moves the aggregate on by one event. It never fails: whatever the
    /// state, the event's values are written over it.
    pub fn apply(&mut self, event: Event)
        ensures
            final(self)@ == old(self)@.apply(event@),
    {
        match event {
            Event::DispenseStarted { id, created_at, status } => {
                self.id = id;
                self.created_at = created_at;
                self.updated_at = created_at;
                self.status = status;
            },
            Event::PrescriptionUploaded { prescription_id, url, updated_at, .. } => {
                self.prescription_id = Some(prescription_id);
                self.prescription_url = Some(url);
                self.status = DispenseStatus::Analyzing;
                self.updated_at = updated_at;
            },
            Event::PrescriptionAnalyzed { updated_at, .. } => {
                self.prescription_analyzed = true;
                self.status = DispenseStatus::Ready;
                self.updated_at = updated_at;
            },
            Event::PatientAdded { patient_id, patient_name, updated_at, .. } => {
                self.patient_id = Some(patient_id);
                self.patient_name = Some(patient_name);
                self.updated_at = updated_at;
            },
            Event::DrugsAdded { drugs, updated_at, .. } => {
                self.drugs = drugs;
                self.updated_at = updated_at;
            },
            Event::DispenseCompleted { updated_at, .. } => {
                self.status = DispenseStatus::Complete;
                self.updated_at = updated_at;
            },
            Event::DispenseCancelled { updated_at, .. } => {
                self.status = DispenseStatus::Cancelled;
                self.updated_at = updated_at;
            },
        }
    }

    /// Hydrates the aggregate: applies a run of events, first to last.
    pub fn replay(&mut self, events: Vec<Event>)
        ensures
            final(self)@ == old(self)@.replay(event_models(events@)),
    {
        let ghost all = event_models(events@);
        for event in it: events.into_iter()
            invariant
                it.seq().map_values(|event: Event| event@) == all,
                self@ == old(self)@.replay(all.take(it.index() as int)),
        {
            proof {
                assert(all.take(it.index() + 1).drop_last() =~= all.take(it.index() as int));
            }
            self.apply(event);
        }
        assert(all.take(all.len() as int) =~= all);
    }

    /// Starting is for an aggregate that was never started.
    fn validate_new(&self) -> (result: Result<(), Error>)
        ensures
            checked_model(result) == if self@.is_new() {
                None
            } else {
                Some(ErrorModel::Uniqueness { field: "id"@ })
            },
    {
        if !self.id.as_str().is_empty() {
            return Err(Error::Uniqueness { field: String::from_str("id") });
        }
        Ok(())
    }

    /// Everything but starting is for an aggregate that exists and is not
    /// deleted.
    fn validate_existing(&self) -> (result: Result<(), Error>)
        ensures
            checked_model(result) == if self@.is_new() {
                Some(ErrorModel::NotFound { entity: AGGREGATE_TYPE@ })
            } else if self@.deleted {
                Some(ErrorModel::Forbidden)
            } else {
                None
            },
    {
        if self.id.as_str().is_empty() {
            return Err(Error::NotFound { entity: String::from_str(AGGREGATE_TYPE) });
        }
        if self.deleted {
            return Err(Error::Forbidden);
        }
        Ok(())
    }

    /// Completing needs a patient and at least one drug.
    fn validate_can_complete(&self) -> (result: Result<(), Error>)
        ensures
            checked_model(result) == if self@.patient_id is None {
                Some(
                    ErrorModel::Validation { message: "Cannot complete dispense without patient"@ },
                )
            } else if self@.drugs.len() == 0 {
                Some(ErrorModel::Validation { message: "Cannot complete dispense without drugs"@ })
            } else {
                None
            },
    {
        if self.patient_id.is_none() {
            return Err(
                Error::Validation {
                    message: String::from_str("Cannot complete dispense without patient"),
                },
            );
        }
        if self.drugs.is_empty() {
            return Err(
                Error::Validation {
                    message: String::from_str("Cannot complete dispense without drugs"),
                },
            );
        }
        Ok(())
    }
}

} // verus!
