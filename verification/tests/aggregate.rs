use dispensary::clock::Timestamp;
use dispensary::dispenses::{
    Command, Dispense, DispenseStatus, DrugItem, Event, Services, AGGREGATE_TYPE,
};
use dispensary::Error;

fn at(seconds: i64) -> Timestamp {
    Timestamp::new(seconds, 0)
}

fn aspirin() -> DrugItem {
    DrugItem { drug_id: "a".to_string(), name: "Aspirin".to_string(), quantity: 30 }
}

fn ibuprofen() -> DrugItem {
    DrugItem { drug_id: "b".to_string(), name: "Ibuprofen".to_string(), quantity: 20 }
}

fn started(id: &str) -> Dispense {
    let mut dispense = Dispense::default();
    let events = dispense.handle_at(Command::StartDispense { id: id.to_string() }, at(1)).unwrap();
    dispense.replay(events);
    dispense
}

fn execute(dispense: &mut Dispense, command: Command, seconds: i64) -> Vec<Event> {
    let events = dispense.handle_at(command, at(seconds)).unwrap();
    dispense.replay(events.clone());
    events
}

fn every_command_but_start() -> Vec<Command> {
    vec![
        Command::UploadPrescription { prescription_id: "rx".to_string(), url: "u".to_string() },
        Command::AnalyzePrescription { analysis_data: "{}".to_string() },
        Command::AddPatient { patient_id: "p1".to_string(), name: "Jane".to_string() },
        Command::AddDrugs { drugs: vec![aspirin()] },
        Command::CompleteDispense,
        Command::CancelDispense,
    ]
}

#[test]
fn complete_workflow_scenario() {
    let mut dispense = Dispense::default();

    let events = dispense
        .handle_at(Command::StartDispense { id: "d1".to_string() }, at(1))
        .unwrap();
    assert_eq!(
        events,
        vec![Event::DispenseStarted {
            id: "d1".to_string(),
            created_at: at(1),
            status: DispenseStatus::Pending,
        }]
    );
    dispense.replay(events);

    let events = dispense.handle_at(Command::AddDrugs { drugs: vec![aspirin()] }, at(2)).unwrap();
    assert_eq!(
        events,
        vec![Event::DrugsAdded { id: "d1".to_string(), drugs: vec![aspirin()], updated_at: at(2) }]
    );
    dispense.replay(events);

    let events = dispense
        .handle_at(
            Command::AddPatient { patient_id: "p1".to_string(), name: "Jane".to_string() },
            at(3),
        )
        .unwrap();
    assert_eq!(
        events,
        vec![Event::PatientAdded {
            id: "d1".to_string(),
            patient_id: "p1".to_string(),
            patient_name: "Jane".to_string(),
            updated_at: at(3),
        }]
    );
    dispense.replay(events);

    let events = dispense.handle_at(Command::CompleteDispense, at(4)).unwrap();
    assert_eq!(events, vec![Event::DispenseCompleted { id: "d1".to_string(), updated_at: at(4) }]);
    dispense.replay(events);

    assert_eq!(dispense.status, DispenseStatus::Complete);
    assert_eq!(dispense.drugs, vec![aspirin()]);
    assert_eq!(dispense.patient_id, Some("p1".to_string()));
    assert_eq!(dispense.patient_name, Some("Jane".to_string()));
    assert_eq!(dispense.updated_at, at(4));
    assert_eq!(dispense.created_at, at(1));
    assert_eq!(dispense.id, "d1");
}

#[test]
fn the_zero_value_is_new_and_pending() {
    let dispense = Dispense::default();
    assert_eq!(dispense.id, "");
    assert_eq!(dispense.status, DispenseStatus::Pending);
    assert_eq!(dispense.created_at, Timestamp::new(0, 0));
    assert_eq!(dispense.updated_at, Timestamp::default());
    assert_eq!(dispense.prescription_id, None);
    assert_eq!(dispense.prescription_url, None);
    assert!(!dispense.prescription_analyzed);
    assert_eq!(dispense.patient_id, None);
    assert_eq!(dispense.patient_name, None);
    assert!(dispense.drugs.is_empty());
    assert!(!dispense.deleted);
    assert_eq!(DispenseStatus::default(), DispenseStatus::Pending);
}

#[test]
fn aggregate_type_is_dispense() {
    assert_eq!(Dispense::aggregate_type(), "Dispense");
    assert_eq!(AGGREGATE_TYPE, "Dispense");
}

#[test]
fn second_start_is_a_uniqueness_conflict() {
    let dispense = started("d1");
    for id in ["d1", "d2", ""] {
        match dispense.handle_at(Command::StartDispense { id: id.to_string() }, at(2)) {
            Err(Error::Uniqueness { field }) => assert_eq!(field, "id"),
            other => panic!("expected a uniqueness conflict, got {:?}", other),
        }
    }
}

#[test]
fn a_start_under_the_empty_id_leaves_the_aggregate_new() {
    let mut dispense = Dispense::default();
    execute(&mut dispense, Command::StartDispense { id: String::new() }, 1);
    assert_eq!(dispense.id, "");
    assert!(dispense.handle_at(Command::StartDispense { id: "d1".to_string() }, at(2)).is_ok());
}

#[test]
fn commands_on_a_new_aggregate_are_not_found() {
    let dispense = Dispense::default();
    for command in every_command_but_start() {
        match dispense.handle_at(command, at(1)) {
            Err(Error::NotFound { entity }) => assert_eq!(entity, "Dispense"),
            other => panic!("expected not found, got {:?}", other),
        }
    }
}

#[test]
fn commands_on_a_deleted_aggregate_are_forbidden() {
    let mut dispense = started("d1");
    dispense.deleted = true;
    for command in every_command_but_start() {
        match dispense.handle_at(command, at(2)) {
            Err(Error::Forbidden) => {}
            other => panic!("expected forbidden, got {:?}", other),
        }
    }
    match dispense.handle_at(Command::StartDispense { id: "d1".to_string() }, at(2)) {
        Err(Error::Uniqueness { .. }) => {}
        other => panic!("expected a uniqueness conflict, got {:?}", other),
    }
}

#[test]
fn completing_needs_a_patient() {
    let mut dispense = started("d1");
    execute(&mut dispense, Command::AddDrugs { drugs: vec![aspirin()] }, 2);
    match dispense.handle_at(Command::CompleteDispense, at(3)) {
        Err(Error::Validation { message }) => {
            assert_eq!(message, "Cannot complete dispense without patient")
        }
        other => panic!("expected a validation error, got {:?}", other),
    }
}

#[test]
fn completing_needs_drugs() {
    let mut dispense = started("d1");
    execute(
        &mut dispense,
        Command::AddPatient { patient_id: "p1".to_string(), name: "Jane".to_string() },
        2,
    );
    match dispense.handle_at(Command::CompleteDispense, at(3)) {
        Err(Error::Validation { message }) => {
            assert_eq!(message, "Cannot complete dispense without drugs")
        }
        other => panic!("expected a validation error, got {:?}", other),
    }
    execute(&mut dispense, Command::AddDrugs { drugs: vec![] }, 3);
    assert!(matches!(
        dispense.handle_at(Command::CompleteDispense, at(4)),
        Err(Error::Validation { .. })
    ));
}

#[test]
fn completing_with_neither_names_the_patient_first() {
    let dispense = started("d1");
    match dispense.handle_at(Command::CompleteDispense, at(2)) {
        Err(Error::Validation { message }) => {
            assert_eq!(message, "Cannot complete dispense without patient")
        }
        other => panic!("expected a validation error, got {:?}", other),
    }
}

#[test]
fn completing_works_in_either_order() {
    let patient = Command::AddPatient { patient_id: "p1".to_string(), name: "Jane".to_string() };
    let drugs = Command::AddDrugs { drugs: vec![aspirin()] };

    let mut first = started("d1");
    execute(&mut first, patient.clone(), 2);
    execute(&mut first, drugs.clone(), 3);
    execute(&mut first, Command::CompleteDispense, 4);
    assert_eq!(first.status, DispenseStatus::Complete);

    let mut second = started("d1");
    execute(&mut second, drugs, 2);
    execute(&mut second, patient, 3);
    execute(&mut second, Command::CompleteDispense, 4);
    assert_eq!(second.status, DispenseStatus::Complete);
}

#[test]
fn status_follows_the_events() {
    let mut dispense = started("d1");
    assert_eq!(dispense.status, DispenseStatus::Pending);
    let events = execute(
        &mut dispense,
        Command::UploadPrescription {
            prescription_id: "rx1".to_string(),
            url: "s3://b/prescriptions/d1/rx1".to_string(),
        },
        2,
    );
    assert_eq!(
        events,
        vec![Event::PrescriptionUploaded {
            id: "d1".to_string(),
            prescription_id: "rx1".to_string(),
            url: "s3://b/prescriptions/d1/rx1".to_string(),
            updated_at: at(2),
        }]
    );
    assert_eq!(dispense.status, DispenseStatus::Analyzing);
    assert_eq!(dispense.prescription_id, Some("rx1".to_string()));
    assert_eq!(dispense.prescription_url, Some("s3://b/prescriptions/d1/rx1".to_string()));
    assert!(!dispense.prescription_analyzed);

    let events =
        execute(&mut dispense, Command::AnalyzePrescription { analysis_data: "{}".to_string() }, 3);
    assert_eq!(
        events,
        vec![Event::PrescriptionAnalyzed {
            id: "d1".to_string(),
            analysis_data: "{}".to_string(),
            updated_at: at(3),
        }]
    );
    assert_eq!(dispense.status, DispenseStatus::Ready);
    assert!(dispense.prescription_analyzed);
    assert_eq!(dispense.updated_at, at(3));

    let events = execute(&mut dispense, Command::CancelDispense, 4);
    assert_eq!(events, vec![Event::DispenseCancelled { id: "d1".to_string(), updated_at: at(4) }]);
    assert_eq!(dispense.status, DispenseStatus::Cancelled);
}

#[test]
fn patient_and_drugs_are_accepted_after_the_end() {
    let mut dispense = started("d1");
    execute(&mut dispense, Command::CancelDispense, 2);
    execute(&mut dispense, Command::AddDrugs { drugs: vec![aspirin()] }, 3);
    execute(
        &mut dispense,
        Command::AddPatient { patient_id: "p1".to_string(), name: "Jane".to_string() },
        4,
    );
    assert_eq!(dispense.status, DispenseStatus::Cancelled);
    assert_eq!(dispense.drugs, vec![aspirin()]);
    assert_eq!(dispense.patient_id, Some("p1".to_string()));
}

#[test]
fn drugs_are_replaced_not_merged() {
    let mut dispense = started("d1");
    execute(&mut dispense, Command::AddDrugs { drugs: vec![aspirin(), ibuprofen()] }, 2);
    assert_eq!(dispense.drugs, vec![aspirin(), ibuprofen()]);
    execute(&mut dispense, Command::AddDrugs { drugs: vec![ibuprofen()] }, 3);
    assert_eq!(dispense.drugs, vec![ibuprofen()]);
}

#[test]
fn handling_leaves_the_aggregate_as_it_is() {
    let dispense = started("d1");
    let before = dispense.clone();
    let _ = dispense.handle_at(Command::CancelDispense, at(9));
    let _ = dispense.handle_at(Command::CompleteDispense, at(9));
    assert_eq!(dispense, before);
}

#[test]
fn replaying_the_log_gives_the_state_reached_step_by_step() {
    let commands = vec![
        Command::StartDispense { id: "d1".to_string() },
        Command::CompleteDispense,
        Command::UploadPrescription { prescription_id: "rx".to_string(), url: "u".to_string() },
        Command::StartDispense { id: "d1".to_string() },
        Command::AnalyzePrescription { analysis_data: "{}".to_string() },
        Command::AddDrugs { drugs: vec![aspirin()] },
        Command::AddPatient { patient_id: "p1".to_string(), name: "Jane".to_string() },
        Command::AddDrugs { drugs: vec![ibuprofen(), aspirin()] },
        Command::CompleteDispense,
    ];
    let mut live = Dispense::default();
    let mut log: Vec<Event> = Vec::new();
    let mut seconds = 0;
    for command in commands {
        seconds += 1;
        if let Ok(events) = live.handle_at(command, at(seconds)) {
            for event in events {
                log.push(event.clone());
                live.apply(event);
            }
        }
    }
    assert_eq!(log.len(), 7);

    let mut hydrated = Dispense::default();
    hydrated.replay(log.clone());
    assert_eq!(hydrated, live);

    let mut in_parts = Dispense::default();
    let later = log.split_off(3);
    in_parts.replay(log);
    in_parts.replay(later);
    assert_eq!(in_parts, live);
    assert_eq!(live.status, DispenseStatus::Complete);
    assert_eq!(live.drugs, vec![ibuprofen(), aspirin()]);
}

#[test]
fn replaying_nothing_changes_nothing() {
    let mut dispense = started("d1");
    let before = dispense.clone();
    dispense.replay(Vec::new());
    assert_eq!(dispense, before);
}

#[test]
fn applying_an_event_twice_is_applying_it_once() {
    let events = vec![
        Event::DispenseStarted {
            id: "d1".to_string(),
            created_at: at(1),
            status: DispenseStatus::Pending,
        },
        Event::PrescriptionUploaded {
            id: "d1".to_string(),
            prescription_id: "rx".to_string(),
            url: "u".to_string(),
            updated_at: at(2),
        },
        Event::PrescriptionAnalyzed {
            id: "d1".to_string(),
            analysis_data: "{}".to_string(),
            updated_at: at(3),
        },
        Event::PatientAdded {
            id: "d1".to_string(),
            patient_id: "p1".to_string(),
            patient_name: "Jane".to_string(),
            updated_at: at(4),
        },
        Event::DrugsAdded { id: "d1".to_string(), drugs: vec![aspirin()], updated_at: at(5) },
        Event::DispenseCompleted { id: "d1".to_string(), updated_at: at(6) },
        Event::DispenseCancelled { id: "d1".to_string(), updated_at: at(7) },
    ];
    let mut state = Dispense::default();
    for event in events {
        let mut once = state.clone();
        once.apply(event.clone());
        let mut twice = once.clone();
        twice.apply(event.clone());
        assert_eq!(once, twice);
        state = once;
    }
}

#[test]
fn handle_stamps_events_with_the_clock() {
    let dispense = Dispense::default();
    let events = dispense
        .handle(Command::StartDispense { id: "d1".to_string() }, &Services::default())
        .unwrap();
    assert_eq!(events.len(), 1);
    match &events[0] {
        Event::DispenseStarted { id, created_at, status } => {
            assert_eq!(id, "d1");
            assert_eq!(*status, DispenseStatus::Pending);
            assert!(created_at.seconds > 1_600_000_000);
            assert!(created_at.nanos < 1_000_000_000);
        }
        other => panic!("expected a start, got {:?}", other),
    }
    match dispense.handle(Command::CancelDispense, &Services::default()) {
        Err(Error::NotFound { entity }) => assert_eq!(entity, "Dispense"),
        other => panic!("expected not found, got {:?}", other),
    }
}

#[test]
fn event_types_carry_the_aggregate_and_the_name() {
    let id = || "d1".to_string();
    let cases = vec![
        (
            Event::DispenseStarted { id: id(), created_at: at(1), status: DispenseStatus::Pending },
            "Dispense:Started",
        ),
        (
            Event::PrescriptionUploaded {
                id: id(),
                prescription_id: id(),
                url: id(),
                updated_at: at(1),
            },
            "Dispense:PrescriptionUploaded",
        ),
        (
            Event::PrescriptionAnalyzed { id: id(), analysis_data: id(), updated_at: at(1) },
            "Dispense:PrescriptionAnalyzed",
        ),
        (
            Event::PatientAdded {
                id: id(),
                patient_id: id(),
                patient_name: id(),
                updated_at: at(1),
            },
            "Dispense:PatientAdded",
        ),
        (Event::DrugsAdded { id: id(), drugs: vec![], updated_at: at(1) }, "Dispense:DrugsAdded"),
        (Event::DispenseCompleted { id: id(), updated_at: at(1) }, "Dispense:Completed"),
        (Event::DispenseCancelled { id: id(), updated_at: at(1) }, "Dispense:Cancelled"),
    ];
    for (event, tag) in cases {
        assert_eq!(event.event_type(), tag);
        assert_eq!(event.event_version(), "1.0");
    }
}

#[test]
fn error_messages() {
    assert_eq!(
        Error::NotFound { entity: "Dispense".to_string() }.message(),
        "Entity not found: Dispense"
    );
    assert_eq!(Error::Uniqueness { field: "id".to_string() }.message(), "Uniqueness conflict: id");
    assert_eq!(Error::Forbidden.message(), "Forbidden action");
    assert_eq!(
        Error::InvalidStateTransition { from: "ready".to_string(), to: "pending".to_string() }
            .message(),
        "Invalid state transition from ready to pending"
    );
    assert_eq!(
        Error::Validation { message: "no".to_string() }.message(),
        "Validation error: no"
    );
}

#[test]
fn equality_looks_at_every_field() {
    assert_eq!(aspirin(), aspirin());
    assert_ne!(aspirin(), ibuprofen());
    assert_ne!(aspirin(), DrugItem { quantity: 31, ..aspirin() });
    let base = started("d1");
    assert_ne!(base, Dispense::default());
    assert_ne!(base, Dispense { deleted: true, ..base.clone() });
    assert_ne!(base, Dispense { patient_name: Some("x".to_string()), ..base.clone() });
    assert_ne!(base, Dispense { drugs: vec![aspirin()], ..base.clone() });
    assert_ne!(
        Command::AddDrugs { drugs: vec![aspirin()] },
        Command::AddDrugs { drugs: vec![aspirin(), aspirin()] }
    );
    assert_ne!(Command::CompleteDispense, Command::CancelDispense);
    assert_eq!(
        Command::AddPatient { patient_id: "p".to_string(), name: "n".to_string() }.clone(),
        Command::AddPatient { patient_id: "p".to_string(), name: "n".to_string() }
    );
}
