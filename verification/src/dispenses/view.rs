//! The read model of a dispense, and how committed events bring it up to date.

use super::aggregate::{Dispense, DispenseModel, AGGREGATE_TYPE};
use super::events::{Event, EventModel};
use crate::metadata::{Metadata, COMMAND_ID};
use vstd::prelude::*;
use vstd::std_specs::cmp::PartialEqSpecImpl;
use vstd::view::View as _;
use vstd::string::StringExecFns;

verus! {

/// A committed event with its place in the stream of its aggregate.
#[derive(Debug)]
pub struct EventEnvelope {
    /// The aggregate that the event belongs to.
    pub aggregate_id: String,
    /// The event's number in the aggregate's stream.
    pub sequence: usize,
    /// The event itself.
    pub payload: Event,
    /// What travelled with the command that caused the event.
    pub metadata: Metadata,
}

/// Mathematical model of an [`EventEnvelope`].
pub struct EventEnvelopeModel {
    pub aggregate_id: Seq<char>,
    pub sequence: nat,
    pub payload: EventModel,
    pub metadata: Map<Seq<char>, Seq<char>>,
}

impl vstd::view::View for EventEnvelope {
    type V = EventEnvelopeModel;

    open spec fn view(&self) -> EventEnvelopeModel {
        EventEnvelopeModel {
            aggregate_id: self.aggregate_id@,
            sequence: self.sequence as nat,
            payload: self.payload@,
            metadata: self.metadata@,
        }
    }
}

impl Clone for EventEnvelope {
    fn clone(&self) -> (copy: EventEnvelope)
        ensures
            copy@ == self@,
    {
        EventEnvelope {
            aggregate_id: self.aggregate_id.clone(),
            sequence: self.sequence,
            payload: self.payload.clone(),
            metadata: self.metadata.clone(),
        }
    }
}

/// The models of a list of envelopes, in order.
pub open spec fn envelope_models(envelopes: Seq<EventEnvelope>) -> Seq<EventEnvelopeModel> {
    envelopes.map_values(|envelope: EventEnvelope| envelope@)
}

impl EventEnvelopeModel {
    /// The id of the command that caused the event; empty where the metadata
    /// does not name one.
    pub open spec fn command_id(self) -> Seq<char> {
        if self.metadata.dom().contains(COMMAND_ID@) {
            self.metadata[COMMAND_ID@]
        } else {
            Seq::empty()
        }
    }
}

/// The read model of one dispense: the aggregate's state as the events seen
/// so far leave it, and the id of the command behind the last of them.
#[derive(Debug)]
pub struct View {
    pub aggregate_type: String,
    pub command_id: String,
    pub id: String,
    pub dispense: Dispense,
}

/// Mathematical model of a [`View`].
pub struct ViewModel {
    pub aggregate_type: Seq<char>,
    pub command_id: Seq<char>,
    pub id: Seq<char>,
    pub dispense: DispenseModel,
}

impl vstd::view::View for View {
    type V = ViewModel;

    open spec fn view(&self) -> ViewModel {
        ViewModel {
            aggregate_type: self.aggregate_type@,
            command_id: self.command_id@,
            id: self.id@,
            dispense: self.dispense@,
        }
    }
}

impl ViewModel {
    /// The view of an aggregate of which no event has been seen.
    pub open spec fn initial() -> ViewModel {
        ViewModel {
            aggregate_type: Seq::empty(),
            command_id: Seq::empty(),
            id: Seq::empty(),
            dispense: DispenseModel::initial(),
        }
    }

    /// The view after one more event: keyed by the event's aggregate, marked
    /// with the command behind it, the state moved on by the event.
    pub open spec fn update(self, envelope: EventEnvelopeModel) -> ViewModel {
        ViewModel {
            aggregate_type: AGGREGATE_TYPE@,
            command_id: envelope.command_id(),
            id: envelope.aggregate_id,
            dispense: self.dispense.apply(envelope.payload),
        }
    }

    /// The view after a batch of events, applied first to last.
    pub open spec fn update_all(self, envelopes: Seq<EventEnvelopeModel>) -> ViewModel
        decreases envelopes.len(),
    {
        if envelopes.len() == 0 {
            self
        } else {
            self.update_all(envelopes.drop_last()).update(envelopes.last())
        }
    }
}

impl Default for View {
    fn default() -> (view: View)
        ensures
            view@ == ViewModel::initial(),
    {
        View {
            aggregate_type: String::new(),
            command_id: String::new(),
            id: String::new(),
            dispense: Dispense::default(),
        }
    }
}

impl Clone for View {
    fn clone(&self) -> (copy: View)
        ensures
            copy@ == self@,
    {
        View {
            aggregate_type: self.aggregate_type.clone(),
            command_id: self.command_id.clone(),
            id: self.id.clone(),
            dispense: self.dispense.clone(),
        }
    }
}

impl PartialEq for View {
    fn eq(&self, other: &View) -> (equal: bool) {
        self.aggregate_type == other.aggregate_type && self.command_id == other.command_id
            && self.id == other.id && self.dispense == other.dispense
    }
}

impl PartialEqSpecImpl for View {
    open spec fn obeys_eq_spec() -> bool {
        true
    }

    open spec fn eq_spec(&self, other: &View) -> bool {
        self@ == other@
    }
}

impl Eq for View {}

impl View {
    /// Brings the view up to date with one committed event.
    pub fn update(&mut self, event: &EventEnvelope)
        ensures
            final(self)@ == old(self)@.update(event@),
    {
        self.id = event.aggregate_id.clone();
        self.aggregate_type = String::from_str(AGGREGATE_TYPE);
        self.command_id = match event.metadata.get(COMMAND_ID) {
            Some(command_id) => command_id.clone(),
            None => String::new(),
        };
        self.dispense.apply(event.payload.clone());
    }
}

/// What the view store keeps beside a view: the key under which the view is
/// stored, and the version that guards its next write.
#[derive(Debug)]
pub struct ViewContext {
    pub view_instance_id: String,
    pub version: i64,
}

/// Mathematical model of a [`ViewContext`].
pub struct ViewContextModel {
    pub view_instance_id: Seq<char>,
    pub version: int,
}

impl vstd::view::View for ViewContext {
    type V = ViewContextModel;

    open spec fn view(&self) -> ViewContextModel {
        ViewContextModel {
            view_instance_id: self.view_instance_id@,
            version: self.version as int,
        }
    }
}

/// The model of what the view store hands out for a key: nothing, or the
/// stored view with its context.
pub open spec fn loaded_model(loaded: Option<(View, ViewContext)>) -> Option<
    (ViewModel, ViewContextModel),
> {
    match loaded {
        Some((view, context)) => Some((view@, context@)),
        None => None,
    }
}

/// The view to start from: the stored one, or, where nothing is stored yet,
/// the empty one keyed by the aggregate's id.
pub open spec fn starting_view(
    loaded: Option<(ViewModel, ViewContextModel)>,
    dispense_id: Seq<char>,
) -> ViewModel {
    match loaded {
        Some((view, _)) => view,
        None => ViewModel { id: dispense_id, ..ViewModel::initial() },
    }
}

/// The context to write under: the stored one, or that of a first write
/// under the aggregate's id.
pub open spec fn starting_context(
    loaded: Option<(ViewModel, ViewContextModel)>,
    dispense_id: Seq<char>,
) -> ViewContextModel {
    match loaded {
        Some((_, context)) => context,
        None => ViewContextModel { view_instance_id: dispense_id, version: 0 },
    }
}

/// Projects a batch of committed events onto what the view store holds for
/// their aggregate, and returns what is to be written back: the stored view,
/// or where there is none the empty one keyed by the aggregate's id, moved
/// on by every event in order, under the stored context, or under a new one
/// keyed by the aggregate's id.
pub fn project(
    loaded: Option<(View, ViewContext)>,
    dispense_id: &str,
    events: &Vec<EventEnvelope>,
) -> (written: (View, ViewContext))
    ensures
        written.0@ == starting_view(loaded_model(loaded), dispense_id@).update_all(
            envelope_models(events@),
        ),
        written.1@ == starting_context(loaded_model(loaded), dispense_id@),
{
    let (mut view, context) = match loaded {
        None => {
            let context = ViewContext {
                view_instance_id: String::from_str(dispense_id),
                version: 0,
            };
            let mut view = View::default();
            view.id = String::from_str(dispense_id);
            (view, context)
        },
        Some((view, context)) => (view, context),
    };
    let mut i: usize = 0;
    while i < events.len()
        invariant
            i <= events@.len(),
            view@ == starting_view(loaded_model(loaded), dispense_id@).update_all(
                envelope_models(events@).take(i as int),
            ),
        decreases events.len() - i,
    {
        proof {
            let all = envelope_models(events@);
            assert(all.take(i + 1).drop_last() =~= all.take(i as int));
        }
        view.update(&events[i]);
        i += 1;
    }
    assert(envelope_models(events@).take(i as int) =~= envelope_models(events@));
    (view, context)
}

} // verus!
