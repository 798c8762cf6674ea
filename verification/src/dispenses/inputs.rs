//! What a caller sends along with a request.

use super::aggregate::{clone_drugs, drug_models, DrugItem, DrugItemModel};
use vstd::prelude::*;

verus! {

/// Starting a dispense takes no input.
#[derive(Clone, Copy, Debug)]
pub struct StartDispenseInput {}

/// The document that a caller is about to upload.
#[derive(Debug)]
pub struct UploadPrescriptionInput {
    pub file_name: String,
    pub content_type: String,
}

/// The patient that a dispense is for.
#[derive(Debug)]
pub struct AddPatientInput {
    pub patient_id: String,
    pub name: String,
}

/// The drugs to dispense.
#[derive(Debug)]
pub struct AddDrugsInput {
    pub drugs: Vec<DrugItem>,
}

impl Clone for UploadPrescriptionInput {
    fn clone(&self) -> (copy: UploadPrescriptionInput)
        ensures
            copy.file_name@ == self.file_name@,
            copy.content_type@ == self.content_type@,
    {
        UploadPrescriptionInput {
            file_name: self.file_name.clone(),
            content_type: self.content_type.clone(),
        }
    }
}

impl Clone for AddPatientInput {
    fn clone(&self) -> (copy: AddPatientInput)
        ensures
            copy.patient_id@ == self.patient_id@,
            copy.name@ == self.name@,
    {
        AddPatientInput { patient_id: self.patient_id.clone(), name: self.name.clone() }
    }
}

impl AddDrugsInput {
    /// The models of the drugs, in order.
    pub open spec fn drugs_model(&self) -> Seq<DrugItemModel> {
        drug_models(self.drugs@)
    }
}

impl Clone for AddDrugsInput {
    fn clone(&self) -> (copy: AddDrugsInput)
        ensures
            copy.drugs_model() == self.drugs_model(),
    {
        AddDrugsInput { drugs: clone_drugs(&self.drugs) }
    }
}

} // verus!
