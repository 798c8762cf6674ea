//! The command surface: what each request of a caller asks the engine to do.

use crate::dispenses::commands::{Command, CommandModel};
use crate::dispenses::inputs::{AddDrugsInput, AddPatientInput, UploadPrescriptionInput};
use crate::execution::Execution;
use crate::ids::{is_id, new_id};
use crate::keys::{upload_key, upload_key_of, UPLOAD_EXPIRY_SECONDS};
use vstd::prelude::*;

verus! {

/// Where and for how long a caller may upload a prescription.
#[derive(Debug)]
pub struct UploadTarget {
    /// The id under which the prescription will be known.
    pub prescription_id: String,
    /// The key to upload to.
    pub key: String,
    /// The kind of document that the caller announced.
    pub content_type: String,
    /// The seconds for which the permission to upload stays good.
    pub expires_in_seconds: u64,
}

/// Mathematical model of an [`UploadTarget`].
pub struct UploadTargetModel {
    pub prescription_id: Seq<char>,
    pub key: Seq<char>,
    pub content_type: Seq<char>,
    pub expires_in_seconds: u64,
}

impl View for UploadTarget {
    type V = UploadTargetModel;

    open spec fn view(&self) -> UploadTargetModel {
        UploadTargetModel {
            prescription_id: self.prescription_id@,
            key: self.key@,
            content_type: self.content_type@,
            expires_in_seconds: self.expires_in_seconds,
        }
    }
}

impl UploadTargetModel {
    /// The target for a prescription of a dispense: a key under the
    /// dispense, good for the fixed window.
    pub open spec fn of(
        dispense_id: Seq<char>,
        content_type: Seq<char>,
        prescription_id: Seq<char>,
    ) -> UploadTargetModel {
        UploadTargetModel {
            prescription_id,
            key: upload_key_of(dispense_id, prescription_id),
            content_type,
            expires_in_seconds: UPLOAD_EXPIRY_SECONDS,
        }
    }
}

impl UploadTarget {
    /// The target for uploading a prescription of a dispense under a given
    /// prescription id.
    pub fn new(id: &str, input: UploadPrescriptionInput, prescription_id: String) -> (target:
        UploadTarget)
        ensures
            target@ == UploadTargetModel::of(id@, input.content_type@, prescription_id@),
    {
        let key = upload_key(id, prescription_id.as_str());
        UploadTarget {
            prescription_id,
            key,
            content_type: input.content_type,
            expires_in_seconds: UPLOAD_EXPIRY_SECONDS,
        }
    }
}

/// Starts a dispense under a fresh id.
pub fn create_dispense() -> (request: Execution)
    ensures
        is_id(request@.aggregate_id),
        request@.is_fresh(
            request@.aggregate_id,
            CommandModel::StartDispense { id: request@.aggregate_id },
        ),
{
    let command_id = new_id();
    let aggregate_id = new_id();
    let command = Command::StartDispense { id: aggregate_id.clone() };
    Execution::new(aggregate_id, command, command_id)
}

/// Names the target to which the caller may upload a prescription of a
/// dispense, under a fresh prescription id.
pub fn get_upload_url(id: &str, input: UploadPrescriptionInput) -> (target: UploadTarget)
    ensures
        target@ == UploadTargetModel::of(id@, input.content_type@, target@.prescription_id),
        is_id(target@.prescription_id),
{
    UploadTarget::new(id, input, new_id())
}

/// Records who a dispense is for.
pub fn add_patient(id: String, input: AddPatientInput) -> (request: Execution)
    ensures
        request@.is_fresh(
            id@,
            CommandModel::AddPatient { patient_id: input.patient_id@, name: input.name@ },
        ),
{
    let command = Command::AddPatient { patient_id: input.patient_id, name: input.name };
    Execution::new(id, command, new_id())
}

/// Replaces the drug list of a dispense.
pub fn add_drugs(id: String, input: AddDrugsInput) -> (request: Execution)
    ensures
        request@.is_fresh(id@, CommandModel::AddDrugs { drugs: input.drugs_model() }),
{
    let command = Command::AddDrugs { drugs: input.drugs };
    Execution::new(id, command, new_id())
}

/// Completes a dispense.
pub fn complete_dispense(id: String) -> (request: Execution)
    ensures
        request@.is_fresh(id@, CommandModel::CompleteDispense),
{
    Execution::new(id, Command::CompleteDispense, new_id())
}

/// Cancels a dispense.
pub fn cancel_dispense(id: String) -> (request: Execution)
    ensures
        request@.is_fresh(id@, CommandModel::CancelDispense),
{
    Execution::new(id, Command::CancelDispense, new_id())
}

} // verus!
