//! Duplicate delivery does no harm: what holds of the read model when the
//! same events reach it more than once.

use super::aggregate::DispenseModel;
use super::events::EventModel;
use super::view::{EventEnvelopeModel, ViewModel};
use vstd::prelude::*;

verus! {

/// Which fields of the aggregate an event, or a run of events, writes.
struct Written {
    id: bool,
    created_at: bool,
    updated_at: bool,
    status: bool,
    prescription: bool,
    analyzed: bool,
    patient: bool,
    drugs: bool,
}

impl Written {
    spec fn nothing() -> Written {
        Written {
            id: false,
            created_at: false,
            updated_at: false,
            status: false,
            prescription: false,
            analyzed: false,
            patient: false,
            drugs: false,
        }
    }

    spec fn of(event: EventModel) -> Written {
        let none = Written::nothing();
        match event {
            EventModel::DispenseStarted { .. } => Written {
                id: true,
                created_at: true,
                updated_at: true,
                status: true,
                ..none
            },
            EventModel::PrescriptionUploaded { .. } => Written {
                prescription: true,
                status: true,
                updated_at: true,
                ..none
            },
            EventModel::PrescriptionAnalyzed { .. } => Written {
                analyzed: true,
                status: true,
                updated_at: true,
                ..none
            },
            EventModel::PatientAdded { .. } => Written { patient: true, updated_at: true, ..none },
            EventModel::DrugsAdded { .. } => Written { drugs: true, updated_at: true, ..none },
            EventModel::DispenseCompleted { .. } => Written {
                status: true,
                updated_at: true,
                ..none
            },
            EventModel::DispenseCancelled { .. } => Written {
                status: true,
                updated_at: true,
                ..none
            },
        }
    }

    spec fn or(self, other: Written) -> Written {
        Written {
            id: self.id || other.id,
            created_at: self.created_at || other.created_at,
            updated_at: self.updated_at || other.updated_at,
            status: self.status || other.status,
            prescription: self.prescription || other.prescription,
            analyzed: self.analyzed || other.analyzed,
            patient: self.patient || other.patient,
            drugs: self.drugs || other.drugs,
        }
    }

    spec fn of_all(events: Seq<EventModel>) -> Written
        decreases events.len(),
    {
        if events.len() == 0 {
            Written::nothing()
        } else {
            Written::of_all(events.drop_last()).or(Written::of(events.last()))
        }
    }
}

/// The state that has the written fields from `over` and the others from
/// `base`.
spec fn overlay(base: DispenseModel, over: DispenseModel, written: Written) -> DispenseModel {
    DispenseModel {
        id: if written.id {
            over.id
        } else {
            base.id
        },
        created_at: if written.created_at {
            over.created_at
        } else {
            base.created_at
        },
        updated_at: if written.updated_at {
            over.updated_at
        } else {
            base.updated_at
        },
        status: if written.status {
            over.status
        } else {
            base.status
        },
        prescription_id: if written.prescription {
            over.prescription_id
        } else {
            base.prescription_id
        },
        prescription_url: if written.prescription {
            over.prescription_url
        } else {
            base.prescription_url
        },
        prescription_analyzed: if written.analyzed {
            over.prescription_analyzed
        } else {
            base.prescription_analyzed
        },
        patient_id: if written.patient {
            over.patient_id
        } else {
            base.patient_id
        },
        patient_name: if written.patient {
            over.patient_name
        } else {
            base.patient_name
        },
        drugs: if written.drugs {
            over.drugs
        } else {
            base.drugs
        },
        deleted: base.deleted,
    }
}

/// A run of events writes the same values into the same fields whatever the
/// state it meets, and leaves the other fields alone.
proof fn lemma_replay_overlays(base: DispenseModel, other: DispenseModel, events: Seq<EventModel>)
    ensures
        base.replay(events) == overlay(base, other.replay(events), Written::of_all(events)),
    decreases events.len(),
{
    if events.len() > 0 {
        let earlier = events.drop_last();
        lemma_replay_overlays(base, other, earlier);
        lemma_replay_overlays(other, other, earlier);
    }
}

/// The payloads of a batch of envelopes, in order.
pub open spec fn payloads(envelopes: Seq<EventEnvelopeModel>) -> Seq<EventModel> {
    envelopes.map_values(|envelope: EventEnvelopeModel| envelope.payload)
}

/// Applying an event a second time changes nothing: every event writes
/// absolute values.
pub proof fn lemma_apply_idempotent(state: DispenseModel, event: EventModel)
    ensures
        state.apply(event).apply(event) == state.apply(event),
{
}

/// Replaying a run of events a second time changes nothing.
pub proof fn lemma_replay_idempotent(state: DispenseModel, events: Seq<EventModel>)
    ensures
        state.replay(events).replay(events) == state.replay(events),
{
    lemma_replay_overlays(state.replay(events), state, events);
}

/// A view to which the same event is delivered twice is the view to which it
/// was delivered once.
pub proof fn lemma_update_idempotent(view: ViewModel, envelope: EventEnvelopeModel)
    ensures
        view.update(envelope).update(envelope) == view.update(envelope),
{
}

/// Through a batch the view's state moves as the aggregate's does: by the
/// replay of the payloads.
pub proof fn lemma_update_all_replays(view: ViewModel, envelopes: Seq<EventEnvelopeModel>)
    ensures
        view.update_all(envelopes).dispense == view.dispense.replay(payloads(envelopes)),
    decreases envelopes.len(),
{
    if envelopes.len() > 0 {
        lemma_update_all_replays(view, envelopes.drop_last());
        assert(payloads(envelopes).drop_last() =~= payloads(envelopes.drop_last()));
    }
}

/// A view to which the same batch is delivered twice is the view to which it
/// was delivered once.
pub proof fn lemma_update_all_idempotent(view: ViewModel, envelopes: Seq<EventEnvelopeModel>)
    ensures
        view.update_all(envelopes).update_all(envelopes) == view.update_all(envelopes),
{
    let once = view.update_all(envelopes);
    lemma_update_all_replays(view, envelopes);
    lemma_update_all_replays(once, envelopes);
    lemma_replay_idempotent(view.dispense, payloads(envelopes));
}

} // verus!
