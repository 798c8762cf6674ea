use dispensary::clock::Timestamp;
use dispensary::dispenses::view::{project, EventEnvelope, ViewContext};
use dispensary::dispenses::{DispenseStatus, DrugItem, Event, View};
use dispensary::metadata::Metadata;

fn at(seconds: i64) -> Timestamp {
    Timestamp::new(seconds, 0)
}

fn envelope(sequence: usize, command_id: Option<&str>, payload: Event) -> EventEnvelope {
    let mut metadata = Metadata::new();
    metadata.insert("user".to_string(), "tester".to_string());
    if let Some(command_id) = command_id {
        metadata.insert("command_id".to_string(), command_id.to_string());
    }
    EventEnvelope { aggregate_id: "d1".to_string(), sequence, payload, metadata }
}

fn batch() -> Vec<EventEnvelope> {
    vec![
        envelope(
            1,
            Some("c1"),
            Event::DispenseStarted {
                id: "d1".to_string(),
                created_at: at(1),
                status: DispenseStatus::Pending,
            },
        ),
        envelope(
            2,
            Some("c2"),
            Event::DrugsAdded {
                id: "d1".to_string(),
                drugs: vec![DrugItem {
                    drug_id: "a".to_string(),
                    name: "Aspirin".to_string(),
                    quantity: 30,
                }],
                updated_at: at(2),
            },
        ),
        envelope(
            3,
            Some("c3"),
            Event::PrescriptionUploaded {
                id: "d1".to_string(),
                prescription_id: "rx".to_string(),
                url: "u".to_string(),
                updated_at: at(3),
            },
        ),
    ]
}

#[test]
fn update_keys_marks_and_moves_the_view() {
    let mut view = View::default();
    assert_eq!(view.id, "");
    assert_eq!(view.aggregate_type, "");
    assert_eq!(view.command_id, "");
    view.update(&batch()[0]);
    assert_eq!(view.id, "d1");
    assert_eq!(view.aggregate_type, "Dispense");
    assert_eq!(view.command_id, "c1");
    assert_eq!(view.dispense.id, "d1");
    assert_eq!(view.dispense.status, DispenseStatus::Pending);
    assert_eq!(view.dispense.created_at, at(1));
}

#[test]
fn an_event_without_command_id_clears_the_mark() {
    let mut view = View::default();
    view.update(&batch()[0]);
    view.update(&envelope(
        2,
        None,
        Event::DispenseCancelled { id: "d1".to_string(), updated_at: at(2) },
    ));
    assert_eq!(view.command_id, "");
    assert_eq!(view.dispense.status, DispenseStatus::Cancelled);
}

#[test]
fn delivering_an_event_twice_is_delivering_it_once() {
    let mut view = View::default();
    for event in batch() {
        view.update(&event);
        let once = view.clone();
        view.update(&event);
        assert_eq!(view, once);
    }
}

#[test]
fn delivering_a_batch_twice_is_delivering_it_once() {
    let (once, _) = project(None, "d1", &batch());
    let context = ViewContext { view_instance_id: "d1".to_string(), version: 1 };
    let (twice, _) = project(Some((once.clone(), context)), "d1", &batch());
    assert_eq!(twice, once);
}

#[test]
fn project_starts_from_the_empty_view_under_a_new_context() {
    let (view, context) = project(None, "d1", &batch());
    assert_eq!(context.view_instance_id, "d1");
    assert_eq!(context.version, 0);
    assert_eq!(view.id, "d1");
    assert_eq!(view.command_id, "c3");
    assert_eq!(view.dispense.status, DispenseStatus::Analyzing);
    assert_eq!(view.dispense.drugs.len(), 1);
    assert_eq!(view.dispense.updated_at, at(3));
}

#[test]
fn project_of_no_events_writes_back_what_was_loaded() {
    let (empty, context) = project(None, "d9", &Vec::new());
    assert_eq!(empty, View { id: "d9".to_string(), ..View::default() });
    assert_eq!(empty.id, "d9");
    assert_eq!(empty.command_id, "");
    assert_eq!(context.view_instance_id, "d9");
    assert_eq!(context.version, 0);

    let (stored, _) = project(None, "d1", &batch());
    let context = ViewContext { view_instance_id: "d1".to_string(), version: 7 };
    let (view, context) = project(Some((stored.clone(), context)), "other", &Vec::new());
    assert_eq!(view, stored);
    assert_eq!(context.view_instance_id, "d1");
    assert_eq!(context.version, 7);
}

#[test]
fn project_continues_from_the_stored_view() {
    let all = batch();
    let (whole, _) = project(None, "d1", &all);
    let mut first = batch();
    let rest = first.split_off(1);
    let (partial, context) = project(None, "d1", &first);
    let (resumed, _) = project(Some((partial, context)), "d1", &rest);
    assert_eq!(resumed, whole);
}

#[test]
fn metadata_is_a_map() {
    let mut metadata = Metadata::new();
    assert_eq!(metadata.get("command_id"), None);
    assert!(metadata.to_pairs().is_empty());
    metadata.insert("command_id".to_string(), "c1".to_string());
    metadata.insert("user".to_string(), "u".to_string());
    metadata.insert("command_id".to_string(), "c2".to_string());
    assert_eq!(metadata.get("command_id"), Some(&"c2".to_string()));
    assert_eq!(metadata.get("user"), Some(&"u".to_string()));
    assert_eq!(metadata.get("absent"), None);
    let mut pairs = metadata.to_pairs();
    pairs.sort();
    assert_eq!(
        pairs,
        vec![("command_id".to_string(), "c2".to_string()), ("user".to_string(), "u".to_string())]
    );
    let copy = metadata.clone();
    assert_eq!(copy.get("command_id"), Some(&"c2".to_string()));
}

#[test]
fn metadata_from_pairs_lets_the_later_pair_win() {
    let metadata = Metadata::from_pairs(vec![
        ("k".to_string(), "first".to_string()),
        ("other".to_string(), "o".to_string()),
        ("k".to_string(), "second".to_string()),
    ]);
    assert_eq!(metadata.get("k"), Some(&"second".to_string()));
    assert_eq!(metadata.get("other"), Some(&"o".to_string()));
    assert_eq!(metadata.to_pairs().len(), 2);
}

#[test]
fn metadata_for_command_holds_the_id_alone() {
    let metadata = Metadata::for_command("c1".to_string());
    assert_eq!(metadata.to_pairs(), vec![("command_id".to_string(), "c1".to_string())]);
}
