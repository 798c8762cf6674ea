//! The analysis pipeline: what a notice of an uploaded prescription sets in
//! motion, and what the pipeline makes of the events that reach it.

use crate::dispenses::aggregate::AGGREGATE_TYPE;
use crate::dispenses::commands::{Command, CommandModel};
use crate::event::DomainEvent;
use crate::execution::{Execution, ExecutionModel};
use crate::ids::{is_id, new_id};
use crate::stream::{
    batch_item_failures, failed_identifiers, reported_identifiers, BatchItemFailure, ItemOutcome,
};
use crate::keys::{
    dispense_id_of, dispense_id_of_key, is_segment, lemma_upload_key_round_trip, location,
    location_of, upload_key_of,
};
use vstd::prelude::*;
use vstd::string::StringExecFns;

verus! {

/// The member of a triggering document that holds its records.
pub const RECORDS: &'static str = "Records";

/// The member by which a record of object storage is known.
pub const STORAGE_MARK: &'static str = "s3";

/// The member by which a record of the event stream is known.
pub const STREAM_MARK: &'static str = "kinesis";

/// What is said of a notice that names no bucket.
pub const MISSING_BUCKET: &'static str = "Missing bucket name";

/// What is said of a notice that names no key.
pub const MISSING_KEY: &'static str = "Missing object key";

/// The name of the event that records an uploaded prescription.
pub const PRESCRIPTION_UPLOADED: &'static str = "PrescriptionUploaded";

/// A JSON document, as `serde_json` holds it. Nothing of its inside is
/// visible here; it is read through [`member`] and [`element`].
#[verifier::external_type_specification]
#[verifier::external_body]
pub struct ExJsonValue(serde_json::Value);

/// What `serde_json::Value::get` finds under a key: the member of that name
/// where the value is an object that has one, and nothing otherwise.
pub uninterp spec fn json_member(value: serde_json::Value, key: Seq<char>) -> Option<
    serde_json::Value,
>;

/// What `serde_json::Value::get` finds at a place: the element at that place
/// where the value is an array that is long enough, and nothing otherwise.
pub uninterp spec fn json_element(value: serde_json::Value, index: nat) -> Option<
    serde_json::Value,
>;

/// Looks a key up in a JSON value with `serde_json::Value::get`. The result
/// depends on the value and the key alone; it is named, not spelled out.
#[verifier::external_body]
fn member<'a>(value: &'a serde_json::Value, key: &str) -> (found: Option<&'a serde_json::Value>)
    ensures
        match found {
            Some(inner) => json_member(*value, key@) == Some(*inner),
            None => json_member(*value, key@) is None,
        },
{
    value.get(key)
}

/// Looks a place up in a JSON value with `serde_json::Value::get`. The
/// result depends on the value and the place alone; it is named, not spelled
/// out.
#[verifier::external_body]
fn element<'a>(value: &'a serde_json::Value, index: usize) -> (found: Option<
    &'a serde_json::Value,
>)
    ensures
        match found {
            Some(inner) => json_element(*value, index as nat) == Some(*inner),
            None => json_element(*value, index as nat) is None,
        },
{
    value.get(index)
}

/// Where a triggering document comes from.
#[derive(Clone, Copy, Debug, PartialEq, Eq, Structural)]
pub enum EventSource {
    /// Object storage: notices of uploaded objects.
    Storage,
    /// The event stream: a batch of domain events.
    Stream,
    /// Neither: there is nothing to do.
    Unknown,
}

/// The source that the marks on a record stand for. A record that bears
/// the mark of object storage is taken for one of object storage, whatever
/// else it bears.
pub open spec fn source_of_marks(storage: bool, stream: bool) -> EventSource {
    if storage {
        EventSource::Storage
    } else if stream {
        EventSource::Stream
    } else {
        EventSource::Unknown
    }
}

/// The source of a triggering document: that of the first of its records. A
/// document without records has no known source.
pub open spec fn source_of(payload: serde_json::Value) -> EventSource {
    match json_member(payload, RECORDS@) {
        None => EventSource::Unknown,
        Some(records) => match json_element(records, 0) {
            None => EventSource::Unknown,
            Some(first) => source_of_marks(
                json_member(first, STORAGE_MARK@) is Some,
                json_member(first, STREAM_MARK@) is Some,
            ),
        },
    }
}

/// Tells the source of a record from the marks it bears.
pub fn source_from_marks(storage: bool, stream: bool) -> (source: EventSource)
    ensures
        source == source_of_marks(storage, stream),
{
    if storage {
        EventSource::Storage
    } else if stream {
        EventSource::Stream
    } else {
        EventSource::Unknown
    }
}

/// Tells where a triggering document comes from, so that it can be handed
/// to the handler for that source.
pub fn handle_event(payload: &serde_json::Value) -> (source: EventSource)
    ensures
        source == source_of(*payload),
{
    match member(payload, RECORDS) {
        None => EventSource::Unknown,
        Some(records) => match element(records, 0) {
            None => EventSource::Unknown,
            Some(first) => source_from_marks(
                member(first, STORAGE_MARK).is_some(),
                member(first, STREAM_MARK).is_some(),
            ),
        },
    }
}

/// What a notice of object storage says of an uploaded object.
#[derive(Debug)]
pub struct UploadNotice {
    pub bucket: Option<String>,
    pub key: Option<String>,
}

/// An object in storage.
#[derive(Debug)]
pub struct Document {
    pub bucket: String,
    pub key: String,
}

/// Where the work on one uploaded prescription stands. The work has three
/// steps, each taken only once the one before it has gone through: the
/// upload is recorded on the dispense, the document is fetched and analysed,
/// and the analysis is recorded on the dispense.
#[derive(Debug)]
pub enum Stage {
    /// The command that records the upload is with the engine.
    Recording { dispense_id: String, document: Document },
    /// The document is being fetched and analysed.
    Analysing { dispense_id: String },
    /// The command that records the analysis is with the engine.
    Concluding,
    /// Nothing is left to do.
    Closed,
}

/// What came of the step that was asked for last.
#[derive(Debug)]
pub enum Feedback {
    /// The engine has executed the command.
    Executed,
    /// The document was fetched and analysed: here is the analysis, as JSON
    /// text.
    Analysed { analysis_data: String },
    /// The step did not go through.
    Failed,
}

/// What to do next for an uploaded prescription.
#[derive(Debug)]
pub enum Step {
    /// Hand this command to the engine.
    Execute(Execution),
    /// Fetch this document and have it analysed.
    Fetch(Document),
    /// The prescription is recorded and analysed: the notice is done.
    Finish,
    /// The notice has failed: leave it, and go on with the next one.
    Abandon,
}

/// The work that an uploaded prescription sets in motion: its first step,
/// and the stage that the work is in while that step is taken.
#[derive(Debug)]
pub struct Upload {
    /// The command that records the upload.
    pub record: Execution,
    /// The stage of the work while the upload is being recorded.
    pub stage: Stage,
}

/// What to do about a notice.
#[derive(Debug)]
pub enum Reaction {
    /// The key is not that of a prescription: pass over the notice with a
    /// warning.
    Ignore,
    /// The key is that of a prescription: record and analyse it.
    Process(Upload),
}

/// Mathematical model of an [`UploadNotice`].
pub struct UploadNoticeModel {
    pub bucket: Option<Seq<char>>,
    pub key: Option<Seq<char>>,
}

/// Mathematical model of a [`Document`].
pub struct DocumentModel {
    pub bucket: Seq<char>,
    pub key: Seq<char>,
}

/// Mathematical model of a [`Stage`].
pub enum StageModel {
    Recording { dispense_id: Seq<char>, document: DocumentModel },
    Analysing { dispense_id: Seq<char> },
    Concluding,
    Closed,
}

/// Mathematical model of a [`Feedback`].
pub enum FeedbackModel {
    Executed,
    Analysed { analysis_data: Seq<char> },
    Failed,
}

/// Mathematical model of a [`Step`].
pub enum StepModel {
    Execute(ExecutionModel),
    Fetch(DocumentModel),
    Finish,
    Abandon,
}

/// Mathematical model of an [`Upload`].
pub struct UploadModel {
    pub record: ExecutionModel,
    pub stage: StageModel,
}

/// Mathematical model of a [`Reaction`].
pub enum ReactionModel {
    Ignore,
    Process(UploadModel),
}

impl View for UploadNotice {
    type V = UploadNoticeModel;

    open spec fn view(&self) -> UploadNoticeModel {
        UploadNoticeModel {
            bucket: match self.bucket {
                Some(bucket) => Some(bucket@),
                None => None,
            },
            key: match self.key {
                Some(key) => Some(key@),
                None => None,
            },
        }
    }
}

impl View for Document {
    type V = DocumentModel;

    open spec fn view(&self) -> DocumentModel {
        DocumentModel { bucket: self.bucket@, key: self.key@ }
    }
}

impl View for Stage {
    type V = StageModel;

    open spec fn view(&self) -> StageModel {
        match *self {
            Stage::Recording { dispense_id, document } => StageModel::Recording {
                dispense_id: dispense_id@,
                document: document@,
            },
            Stage::Analysing { dispense_id } => StageModel::Analysing { dispense_id: dispense_id@ },
            Stage::Concluding => StageModel::Concluding,
            Stage::Closed => StageModel::Closed,
        }
    }
}

impl View for Feedback {
    type V = FeedbackModel;

    open spec fn view(&self) -> FeedbackModel {
        match *self {
            Feedback::Executed => FeedbackModel::Executed,
            Feedback::Analysed { analysis_data } => FeedbackModel::Analysed {
                analysis_data: analysis_data@,
            },
            Feedback::Failed => FeedbackModel::Failed,
        }
    }
}

impl View for Step {
    type V = StepModel;

    open spec fn view(&self) -> StepModel {
        match *self {
            Step::Execute(execution) => StepModel::Execute(execution@),
            Step::Fetch(document) => StepModel::Fetch(document@),
            Step::Finish => StepModel::Finish,
            Step::Abandon => StepModel::Abandon,
        }
    }
}

impl View for Upload {
    type V = UploadModel;

    open spec fn view(&self) -> UploadModel {
        UploadModel { record: self.record@, stage: self.stage@ }
    }
}

impl View for Reaction {
    type V = ReactionModel;

    open spec fn view(&self) -> ReactionModel {
        match *self {
            Reaction::Ignore => ReactionModel::Ignore,
            Reaction::Process(upload) => ReactionModel::Process(upload@),
        }
    }
}

/// The model of a reaction, or of the complaint in its place.
pub open spec fn reacted_model(result: Result<Reaction, String>) -> Result<
    ReactionModel,
    Seq<char>,
> {
    match result {
        Ok(reaction) => Ok(reaction@),
        Err(message) => Err(message@),
    }
}

impl UploadNoticeModel {
    /// What a notice calls for, given the ids to use for the prescription
    /// and for the command that records it.
    ///
    /// A notice without bucket or key is an error. A key that is not that
    /// of a prescription is passed over. Otherwise the upload is recorded
    /// on the dispense that the key names, under the given prescription id,
    /// with the object's location.
    pub open spec fn reaction(
        self,
        prescription_id: Seq<char>,
        command_id: Seq<char>,
    ) -> Result<ReactionModel, Seq<char>> {
        match (self.bucket, self.key) {
            (None, _) => Err(MISSING_BUCKET@),
            (Some(_), None) => Err(MISSING_KEY@),
            (Some(bucket), Some(key)) => match dispense_id_of_key(key) {
                None => Ok(ReactionModel::Ignore),
                Some(dispense_id) => Ok(
                    ReactionModel::Process(
                        UploadModel {
                            record: ExecutionModel::of(
                                dispense_id,
                                CommandModel::UploadPrescription {
                                    prescription_id,
                                    url: location_of(bucket, key),
                                },
                                command_id,
                            ),
                            stage: StageModel::Recording {
                                dispense_id,
                                document: DocumentModel { bucket, key },
                            },
                        },
                    ),
                ),
            },
        }
    }
}

impl StageModel {
    /// The stage that follows, and the step to take, once the step that was
    /// asked for last has ended as the feedback says. `command_id` is the
    /// id under which a command that this asks for is traced.
    ///
    /// A recorded upload has its document fetched and analysed; an analysis
    /// is recorded on the dispense; a recorded analysis ends the work. A
    /// step that failed, or feedback that does not answer the step that was
    /// asked for, ends the work too: the notice is abandoned, and nothing
    /// that was done for it is undone.
    pub open spec fn advance(self, feedback: FeedbackModel, command_id: Seq<char>) -> (
        StageModel,
        StepModel,
    ) {
        match (self, feedback) {
            (StageModel::Recording { dispense_id, document }, FeedbackModel::Executed) => (
                StageModel::Analysing { dispense_id },
                StepModel::Fetch(document),
            ),
            (
                StageModel::Analysing { dispense_id },
                FeedbackModel::Analysed { analysis_data },
            ) => (
                StageModel::Concluding,
                StepModel::Execute(
                    ExecutionModel::of(
                        dispense_id,
                        CommandModel::AnalyzePrescription { analysis_data },
                        command_id,
                    ),
                ),
            ),
            (StageModel::Concluding, FeedbackModel::Executed) => (
                StageModel::Closed,
                StepModel::Finish,
            ),
            _ => (StageModel::Closed, StepModel::Abandon),
        }
    }
}

/// What is uploaded for a dispense reaches that dispense: a notice of an
/// object under the key that was made for a dispense, whose id is not empty
/// and holds no separator, has the upload recorded on that very dispense,
/// whichever the bucket and the ids.
pub proof fn lemma_upload_reaches_its_dispense(
    dispense_id: Seq<char>,
    uploaded_as: Seq<char>,
    bucket: Seq<char>,
    prescription_id: Seq<char>,
    command_id: Seq<char>,
)
    requires
        is_segment(dispense_id),
        dispense_id.len() > 0,
    ensures
        ({
            let key = upload_key_of(dispense_id, uploaded_as);
            let notice = UploadNoticeModel { bucket: Some(bucket), key: Some(key) };
            &&& notice.reaction(prescription_id, command_id) matches Ok(
                ReactionModel::Process(upload),
            )
            &&& upload.record.aggregate_id == dispense_id
            &&& upload.record.command == CommandModel::UploadPrescription {
                prescription_id,
                url: location_of(bucket, key),
            }
            &&& upload.stage == StageModel::Recording {
                dispense_id,
                document: DocumentModel { bucket, key },
            }
        }),
{
    lemma_upload_key_round_trip(dispense_id, uploaded_as);
}

/// The two commands of an upload, in their order and on one dispense: where
/// every step goes through, the work on a prescription asks for its document
/// after the upload is recorded, for the analysis to be recorded on the same
/// dispense after that, and then ends.
pub proof fn lemma_upload_runs_to_its_end(
    dispense_id: Seq<char>,
    document: DocumentModel,
    analysis_data: Seq<char>,
    command_id: Seq<char>,
)
    ensures
        ({
            let recording = StageModel::Recording { dispense_id, document };
            let (analysing, fetch) = recording.advance(FeedbackModel::Executed, command_id);
            let (concluding, record) = analysing.advance(
                FeedbackModel::Analysed { analysis_data },
                command_id,
            );
            let (closed, finish) = concluding.advance(FeedbackModel::Executed, command_id);
            &&& fetch == StepModel::Fetch(document)
            &&& record == StepModel::Execute(
                ExecutionModel::of(
                    dispense_id,
                    CommandModel::AnalyzePrescription { analysis_data },
                    command_id,
                ),
            )
            &&& finish == StepModel::Finish
            &&& closed == StageModel::Closed
        }),
{
}

/// A failed step ends the work on its notice, whatever the stage; and once
/// the work has ended, no feedback starts it again.
pub proof fn lemma_failure_ends_the_work(
    stage: StageModel,
    feedback: FeedbackModel,
    command_id: Seq<char>,
)
    ensures
        stage.advance(FeedbackModel::Failed, command_id) == (
            StageModel::Closed,
            StepModel::Abandon,
        ),
        StageModel::Closed.advance(feedback, command_id) == (
            StageModel::Closed,
            StepModel::Abandon,
        ),
{
}

/// Decides what to do about a notice, with the given ids for the
/// prescription and for the command that records it.
pub fn react_to_upload(notice: UploadNotice, prescription_id: String, command_id: String) -> (result:
    Result<Reaction, String>)
    ensures
        reacted_model(result) == notice@.reaction(prescription_id@, command_id@),
{
    let bucket = match notice.bucket {
        Some(bucket) => bucket,
        None => {
            return Err(String::from_str(MISSING_BUCKET));
        },
    };
    let key = match notice.key {
        Some(key) => key,
        None => {
            return Err(String::from_str(MISSING_KEY));
        },
    };
    match dispense_id_of(key.as_str()) {
        None => Ok(Reaction::Ignore),
        Some(dispense_id) => {
            let url = location(bucket.as_str(), key.as_str());
            let command = Command::UploadPrescription { prescription_id, url };
            let record = Execution::new(dispense_id.clone(), command, command_id);
            let stage = Stage::Recording { dispense_id, document: Document { bucket, key } };
            Ok(Reaction::Process(Upload { record, stage }))
        },
    }
}

/// Decides what to do about a notice of an uploaded object, with fresh ids
/// for the prescription and for the command that records it.
///
/// Whether the notice is refused, passed over or processed, and everything
/// about the upload but the two ids, is as
/// [`UploadNoticeModel::reaction`] has it.
pub fn handle_s3_record(notice: UploadNotice) -> (result: Result<Reaction, String>)
    ensures
        exists|prescription_id: Seq<char>, command_id: Seq<char>|
            is_id(prescription_id) && is_id(command_id) && reacted_model(
                result,
            ) == #[trigger] notice@.reaction(prescription_id, command_id),
{
    let prescription_id = new_id();
    let command_id = new_id();
    react_to_upload(notice, prescription_id, command_id)
}

/// Moves the work on an uploaded prescription on by one step, with the
/// given id for the command that this may ask for.
pub fn advance_with(stage: Stage, feedback: Feedback, command_id: String) -> (next: (Stage, Step))
    ensures
        (next.0@, next.1@) == stage@.advance(feedback@, command_id@),
{
    match (stage, feedback) {
        (Stage::Recording { dispense_id, document }, Feedback::Executed) => (
            Stage::Analysing { dispense_id },
            Step::Fetch(document),
        ),
        (Stage::Analysing { dispense_id }, Feedback::Analysed { analysis_data }) => {
            let command = Command::AnalyzePrescription { analysis_data };
            (Stage::Concluding, Step::Execute(Execution::new(dispense_id, command, command_id)))
        },
        (Stage::Concluding, Feedback::Executed) => (Stage::Closed, Step::Finish),
        _ => (Stage::Closed, Step::Abandon),
    }
}

/// Moves the work on an uploaded prescription on by one step: takes what
/// came of the last step and says what to do next. A command that this asks
/// for is traced by a fresh id; everything else is as
/// [`StageModel::advance`] has it.
pub fn advance(stage: Stage, feedback: Feedback) -> (next: (Stage, Step))
    ensures
        exists|command_id: Seq<char>|
            is_id(command_id) && (next.0@, next.1@) == #[trigger] stage@.advance(
                feedback@,
                command_id,
            ),
{
    advance_with(stage, feedback, new_id())
}

/// The model of the answer to a batch of notices.
pub open spec fn answered_model(result: Result<(), Vec<BatchItemFailure>>) -> Result<
    (),
    Seq<Seq<char>>,
> {
    match result {
        Ok(_) => Ok(()),
        Err(failures) => Err(reported_identifiers(failures@)),
    }
}

/// The answer to a batch of notices, once each has been worked on: all is
/// well where none has failed, and otherwise the failed ones are named, in
/// the order of the batch, so that the batch comes again. A failed notice
/// does not stop the ones after it: each is worked on, and the answer is
/// given at the end.
pub fn upload_batch_result(outcomes: &Vec<ItemOutcome>) -> (result: Result<
    (),
    Vec<BatchItemFailure>,
>)
    ensures
        answered_model(result) == if failed_identifiers(outcomes@).len() == 0 {
            Ok::<(), Seq<Seq<char>>>(())
        } else {
            Err::<(), Seq<Seq<char>>>(failed_identifiers(outcomes@))
        },
{
    let failures = batch_item_failures(outcomes);
    if failures.len() == 0 {
        Ok(())
    } else {
        Err(failures)
    }
}

/// The tag of the event that records an uploaded prescription.
pub open spec fn prescription_uploaded_tag() -> Seq<char> {
    AGGREGATE_TYPE@ + ":"@ + PRESCRIPTION_UPLOADED@
}

/// Whether an event from the stream records an uploaded prescription: the
/// one kind of event that the pipeline takes note of. Every other event
/// passes through untouched.
pub fn handle_kinesis_record(event: &DomainEvent) -> (noted: bool)
    ensures
        noted == (event@.event_type == prescription_uploaded_tag()),
{
    let tag = String::from_str(AGGREGATE_TYPE).concat(":").concat(PRESCRIPTION_UPLOADED);
    event.event_type == tag
}

} // verus!
