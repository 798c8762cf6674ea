//! What a caller can ask of a dispense.

use super::aggregate::{clone_drugs, drug_models, same_drugs, DrugItem, DrugItemModel};
use vstd::prelude::*;
use vstd::std_specs::cmp::PartialEqSpecImpl;

verus! {

/// A request to change a dispense. The aggregate may reject it.
#[derive(Debug)]
pub enum Command {
    /// Start a new dispense workflow.
    StartDispense { id: String },
    /// Record the uploaded prescription document.
    UploadPrescription { prescription_id: String, url: String },
    /// Record the analysis of the prescription, as JSON text.
    AnalyzePrescription { analysis_data: String },
    /// Record who the dispense is for.
    AddPatient { patient_id: String, name: String },
    /// Replace the drug list.
    AddDrugs { drugs: Vec<DrugItem> },
    /// Mark the dispense as complete.
    CompleteDispense,
    /// Cancel the dispense.
    CancelDispense,
}

/// Mathematical model of a [`Command`].
pub enum CommandModel {
    StartDispense { id: Seq<char> },
    UploadPrescription { prescription_id: Seq<char>, url: Seq<char> },
    AnalyzePrescription { analysis_data: Seq<char> },
    AddPatient { patient_id: Seq<char>, name: Seq<char> },
    AddDrugs { drugs: Seq<DrugItemModel> },
    CompleteDispense,
    CancelDispense,
}

impl View for Command {
    type V = CommandModel;

    open spec fn view(&self) -> CommandModel {
        match *self {
            Command::StartDispense { id } => CommandModel::StartDispense { id: id@ },
            Command::UploadPrescription { prescription_id, url } => CommandModel::UploadPrescription {
                prescription_id: prescription_id@,
                url: url@,
            },
            Command::AnalyzePrescription { analysis_data } => CommandModel::AnalyzePrescription {
                analysis_data: analysis_data@,
            },
            Command::AddPatient { patient_id, name } => CommandModel::AddPatient {
                patient_id: patient_id@,
                name: name@,
            },
            Command::AddDrugs { drugs } => CommandModel::AddDrugs { drugs: drug_models(drugs@) },
            Command::CompleteDispense => CommandModel::CompleteDispense,
            Command::CancelDispense => CommandModel::CancelDispense,
        }
    }
}

impl Clone for Command {
    fn clone(&self) -> (copy: Command)
        ensures
            copy@ == self@,
    {
        match self {
            Command::StartDispense { id } => Command::StartDispense { id: id.clone() },
            Command::UploadPrescription { prescription_id, url } => Command::UploadPrescription {
                prescription_id: prescription_id.clone(),
                url: url.clone(),
            },
            Command::AnalyzePrescription { analysis_data } => Command::AnalyzePrescription {
                analysis_data: analysis_data.clone(),
            },
            Command::AddPatient { patient_id, name } => Command::AddPatient {
                patient_id: patient_id.clone(),
                name: name.clone(),
            },
            Command::AddDrugs { drugs } => Command::AddDrugs { drugs: clone_drugs(drugs) },
            Command::CompleteDispense => Command::CompleteDispense,
            Command::CancelDispense => Command::CancelDispense,
        }
    }
}

impl PartialEq for Command {
    fn eq(&self, other: &Command) -> (equal: bool) {
        match (self, other) {
            (Command::StartDispense { id: a }, Command::StartDispense { id: b }) => *a == *b,
            (
                Command::UploadPrescription { prescription_id: a, url: u },
                Command::UploadPrescription { prescription_id: b, url: v },
            ) => *a == *b && *u == *v,
            (
                Command::AnalyzePrescription { analysis_data: a },
                Command::AnalyzePrescription { analysis_data: b },
            ) => *a == *b,
            (
                Command::AddPatient { patient_id: a, name: n },
                Command::AddPatient { patient_id: b, name: m },
            ) => *a == *b && *n == *m,
            (Command::AddDrugs { drugs: a }, Command::AddDrugs { drugs: b }) => same_drugs(a, b),
            (Command::CompleteDispense, Command::CompleteDispense) => true,
            (Command::CancelDispense, Command::CancelDispense) => true,
            _ => false,
        }
    }
}

impl PartialEqSpecImpl for Command {
    open spec fn obeys_eq_spec() -> bool {
        true
    }

    open spec fn eq_spec(&self, other: &Command) -> bool {
        self@ == other@
    }
}

impl Eq for Command {}

} // verus!
