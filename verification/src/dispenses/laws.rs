//! What holds of the aggregate whatever the commands and events.

use super::aggregate::{DispenseModel, DispenseStatus, DrugItemModel, AGGREGATE_TYPE};
use super::commands::CommandModel;
use super::events::EventModel;
use crate::clock::Timestamp;
use crate::errors::ErrorModel;
use vstd::prelude::*;

verus! {

/// A command together with the instant at which it is handled.
pub struct Request {
    pub command: CommandModel,
    pub at: Timestamp,
}

impl DispenseModel {
    /// The events that one request adds to the log: the one that records the
    /// command, or none where the command is refused.
    pub open spec fn emitted(self, request: Request) -> Seq<EventModel> {
        match self.handle(request.command, request.at) {
            Ok(events) => events,
            Err(_) => Seq::empty(),
        }
    }

    /// The state after one request: its events are applied as they are
    /// produced. A refused command leaves the state as it was.
    pub open spec fn execute(self, request: Request) -> DispenseModel {
        self.replay(self.emitted(request))
    }

    /// The state after a run of requests, each handled in the state that the
    /// ones before it left.
    pub open spec fn run(self, requests: Seq<Request>) -> DispenseModel
        decreases requests.len(),
    {
        if requests.len() == 0 {
            self
        } else {
            self.run(requests.drop_last()).execute(requests.last())
        }
    }

    /// The log that a run of requests leaves behind.
    pub open spec fn history(self, requests: Seq<Request>) -> Seq<EventModel>
        decreases requests.len(),
    {
        if requests.len() == 0 {
            Seq::empty()
        } else {
            self.history(requests.drop_last()) + self.run(requests.drop_last()).emitted(
                requests.last(),
            )
        }
    }
}

/// Replaying a log in two parts, one after the other, gives the state that
/// replaying it whole gives.
pub proof fn lemma_replay_in_parts(
    state: DispenseModel,
    first: Seq<EventModel>,
    second: Seq<EventModel>,
)
    ensures
        state.replay(first + second) == state.replay(first).replay(second),
    decreases second.len(),
{
    if second.len() == 0 {
        assert(first + second =~= first);
    } else {
        lemma_replay_in_parts(state, first, second.drop_last());
        assert((first + second).drop_last() =~= first + second.drop_last());
        assert((first + second).last() == second.last());
    }
}

/// Replaying a single event is applying it.
pub proof fn lemma_replay_one(state: DispenseModel, event: EventModel)
    ensures
        state.replay(seq![event]) == state.apply(event),
{
    assert(seq![event].drop_last() =~= Seq::<EventModel>::empty());
    reveal_with_fuel(DispenseModel::replay, 2);
}

/// Replay equivalence from any state: whatever the requests, folding the
/// log they leave over the starting state gives the state that was reached
/// by applying each event as it was produced.
pub proof fn lemma_replay_equivalence_from(state: DispenseModel, requests: Seq<Request>)
    ensures
        state.replay(state.history(requests)) == state.run(requests),
    decreases requests.len(),
{
    if requests.len() > 0 {
        let earlier = requests.drop_last();
        lemma_replay_equivalence_from(state, earlier);
        lemma_replay_in_parts(
            state,
            state.history(earlier),
            state.run(earlier).emitted(requests.last()),
        );
    }
}

/// Replay equivalence: an aggregate hydrated from the log of its requests
/// is in the state that handling those requests one by one left it in.
pub proof fn lemma_replay_equivalence(requests: Seq<Request>)
    ensures
        DispenseModel::initial().replay(DispenseModel::initial().history(requests))
            == DispenseModel::initial().run(requests),
{
    lemma_replay_equivalence_from(DispenseModel::initial(), requests);
}

/// One request moves the state by at most one event: by the event that
/// records the command, or not at all where the command is refused.
pub proof fn lemma_execute(state: DispenseModel, request: Request)
    ensures
        state.execute(request) == if state.rejection(request.command) is None {
            state.apply(state.outcome(request.command, request.at))
        } else {
            state
        },
{
    if state.rejection(request.command) is None {
        lemma_replay_one(state, state.outcome(request.command, request.at));
    }
}

/// Identity is immutable once set: whatever is asked of an aggregate that
/// was started, it keeps its id and the time of its creation.
pub proof fn lemma_identity_is_kept(state: DispenseModel, requests: Seq<Request>)
    requires
        !state.is_new(),
    ensures
        state.run(requests).id == state.id,
        state.run(requests).created_at == state.created_at,
    decreases requests.len(),
{
    if requests.len() > 0 {
        lemma_identity_is_kept(state, requests.drop_last());
        lemma_execute(state.run(requests.drop_last()), requests.last());
    }
}

/// No command deletes an aggregate: the flag stays as it was, whatever is
/// asked.
pub proof fn lemma_never_deleted(state: DispenseModel, requests: Seq<Request>)
    ensures
        state.run(requests).deleted == state.deleted,
    decreases requests.len(),
{
    if requests.len() > 0 {
        lemma_never_deleted(state, requests.drop_last());
        lemma_execute(state.run(requests.drop_last()), requests.last());
    }
}

/// Every event that a started aggregate emits carries the aggregate's id.
pub proof fn lemma_history_is_its_own(state: DispenseModel, requests: Seq<Request>, at: int)
    requires
        !state.is_new(),
        0 <= at < state.history(requests).len(),
    ensures
        state.history(requests)[at].aggregate_id() == state.id,
    decreases requests.len(),
{
    if requests.len() > 0 {
        let earlier = requests.drop_last();
        if at < state.history(earlier).len() {
            lemma_history_is_its_own(state, earlier, at);
        } else {
            lemma_identity_is_kept(state, earlier);
        }
    }
}

/// An aggregate is started once: the first start of a new aggregate under a
/// non-empty id is accepted, and once its event is applied every further
/// start, under that id or another, is refused as a uniqueness conflict.
pub proof fn lemma_start_only_once(
    state: DispenseModel,
    id: Seq<char>,
    first: Timestamp,
    again: Seq<char>,
    second: Timestamp,
)
    requires
        state.is_new(),
        id.len() > 0,
    ensures
        state.handle(CommandModel::StartDispense { id }, first) == Ok::<
            Seq<EventModel>,
            ErrorModel,
        >(
            seq![
                EventModel::DispenseStarted {
                    id,
                    created_at: first,
                    status: DispenseStatus::Pending,
                },
            ],
        ),
        state.execute(Request { command: CommandModel::StartDispense { id }, at: first }).handle(
            CommandModel::StartDispense { id: again },
            second,
        ) == Err::<Seq<EventModel>, ErrorModel>(ErrorModel::Uniqueness { field: "id"@ }),
{
    let request = Request { command: CommandModel::StartDispense { id }, at: first };
    lemma_replay_one(state, state.outcome(request.command, first));
}

/// On an aggregate that was never started, every command but the start is
/// refused as not found.
pub proof fn lemma_unstarted_is_not_found(
    state: DispenseModel,
    command: CommandModel,
    now: Timestamp,
)
    requires
        state.is_new(),
        !(command is StartDispense),
    ensures
        state.handle(command, now) == Err::<Seq<EventModel>, ErrorModel>(
            ErrorModel::NotFound { entity: AGGREGATE_TYPE@ },
        ),
{
}

/// On an aggregate that exists and is not deleted, completing is refused
/// exactly while the patient or the drugs are missing, and then as a
/// validation error.
pub proof fn lemma_complete_needs_patient_and_drugs(state: DispenseModel, now: Timestamp)
    requires
        !state.is_new(),
        !state.deleted,
    ensures
        state.handle(CommandModel::CompleteDispense, now) is Err <==> (state.patient_id is None
            || state.drugs.len() == 0),
        state.handle(CommandModel::CompleteDispense, now) matches Err(error)
            ==> error is Validation,
        state.handle(CommandModel::CompleteDispense, now) matches Ok(events) ==> events == seq![
            EventModel::DispenseCompleted { id: state.id, updated_at: now },
        ],
{
}

/// The order in which patient and drugs arrive does not matter: once both
/// events are applied, completing is accepted; after only one of them it is
/// still refused, unless the other was there before.
pub proof fn lemma_complete_in_either_order(
    state: DispenseModel,
    patient_id: Seq<char>,
    patient_name: Seq<char>,
    drugs: Seq<DrugItemModel>,
    patient_at: Timestamp,
    drugs_at: Timestamp,
    now: Timestamp,
)
    requires
        !state.is_new(),
        !state.deleted,
        drugs.len() > 0,
    ensures
        ({
            let patient = EventModel::PatientAdded {
                id: state.id,
                patient_id,
                patient_name,
                updated_at: patient_at,
            };
            let listed = EventModel::DrugsAdded { id: state.id, drugs, updated_at: drugs_at };
            &&& state.apply(patient).apply(listed).handle(CommandModel::CompleteDispense, now) is Ok
            &&& state.apply(listed).apply(patient).handle(CommandModel::CompleteDispense, now) is Ok
            &&& state.drugs.len() == 0 ==> state.apply(patient).handle(
                CommandModel::CompleteDispense,
                now,
            ) is Err
            &&& state.patient_id is None ==> state.apply(listed).handle(
                CommandModel::CompleteDispense,
                now,
            ) is Err
        }),
{
}

/// Two events are of the same kind.
pub open spec fn same_kind(left: EventModel, right: EventModel) -> bool {
    match left {
        EventModel::DispenseStarted { .. } => right is DispenseStarted,
        EventModel::PrescriptionUploaded { .. } => right is PrescriptionUploaded,
        EventModel::PrescriptionAnalyzed { .. } => right is PrescriptionAnalyzed,
        EventModel::PatientAdded { .. } => right is PatientAdded,
        EventModel::DrugsAdded { .. } => right is DrugsAdded,
        EventModel::DispenseCompleted { .. } => right is DispenseCompleted,
        EventModel::DispenseCancelled { .. } => right is DispenseCancelled,
    }
}

/// The tag tells the kind: two events bear the same tag exactly where they
/// are of the same kind, so that a stored event can be told by its tag alone.
pub proof fn lemma_event_type_tells_the_kind(left: EventModel, right: EventModel)
    ensures
        left.event_type() == right.event_type() <==> same_kind(left, right),
{
    reveal_strlit("Started");
    reveal_strlit("PrescriptionUploaded");
    reveal_strlit("PrescriptionAnalyzed");
    reveal_strlit("PatientAdded");
    reveal_strlit("DrugsAdded");
    reveal_strlit("Completed");
    reveal_strlit("Cancelled");
    let prefix = AGGREGATE_TYPE@ + ":"@;
    assert(left.event_type().skip(prefix.len() as int) =~= left.name());
    assert(right.event_type().skip(prefix.len() as int) =~= right.name());
    if left.name() == right.name() {
        assert(left.name().len() == right.name().len());
        assert(left.name()[1] == right.name()[1]);
        assert(left.name()[12] == right.name()[12] || left.name().len() <= 12);
    }
}

/// No event but the start touches the aggregate's id, and every event
/// leaves its own time as the time of the last change.
pub proof fn lemma_apply_keeps_identity(state: DispenseModel, event: EventModel)
    ensures
        !(event is DispenseStarted) ==> state.apply(event).id == state.id && state.apply(
            event,
        ).created_at == state.created_at,
        state.apply(event).updated_at == event.timestamp(),
        state.apply(event).deleted == state.deleted,
{
}

/// What is once set stays set: no event clears the prescription, the
/// analysis flag or the patient.
pub proof fn lemma_apply_never_clears(state: DispenseModel, event: EventModel)
    ensures
        state.prescription_id is Some ==> state.apply(event).prescription_id is Some,
        state.prescription_url is Some ==> state.apply(event).prescription_url is Some,
        state.prescription_analyzed ==> state.apply(event).prescription_analyzed,
        state.patient_id is Some ==> state.apply(event).patient_id is Some,
        state.patient_name is Some ==> state.apply(event).patient_name is Some,
{
}

} // verus!
