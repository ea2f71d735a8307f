use vixen::listener::{Listener, ListenerAction, ListenerEvent};
use vixen::orchestrator::{OrchAction, OrchEvent, Orchestrator};
use vixen::storage::{database_file_path, init_store, InitAction, StoreState};

#[test]
fn listener_drains_gracefully() {
    let mut listener = Listener::new();
    assert_eq!(listener.step(ListenerEvent::Connect), ListenerAction::Accept);
    assert_eq!(listener.in_flight, 1);

    assert_eq!(listener.step(ListenerEvent::Shutdown), ListenerAction::Wait);
    assert!(!listener.accepting);
    assert!(!listener.stopped);

    assert_eq!(listener.step(ListenerEvent::Connect), ListenerAction::Refuse);
    assert_eq!(listener.in_flight, 1);

    assert_eq!(listener.step(ListenerEvent::RequestDone), ListenerAction::Finish);
    assert!(listener.stopped);
    assert_eq!(listener.in_flight, 0);
}

#[test]
fn idle_listener_finishes_on_shutdown_at_once() {
    let mut listener = Listener::new();
    assert_eq!(listener.step(ListenerEvent::Shutdown), ListenerAction::Finish);
    assert!(listener.stopped);
}

#[test]
fn request_finished_while_accepting_keeps_the_listener_open() {
    let mut listener = Listener::new();
    assert_eq!(listener.step(ListenerEvent::Connect), ListenerAction::Accept);
    assert_eq!(listener.step(ListenerEvent::RequestDone), ListenerAction::Wait);
    assert!(listener.accepting);
    assert!(!listener.stopped);
}

#[test]
fn orchestrator_broadcasts_once_and_exits_after_both_units() {
    let mut orchestrator = Orchestrator::new();
    assert_eq!(
        orchestrator.step(OrchEvent::TerminationSignal),
        OrchAction::BroadcastShutdown
    );
    assert_eq!(orchestrator.step(OrchEvent::TerminationSignal), OrchAction::Wait);
    assert_eq!(orchestrator.step(OrchEvent::PollerStopped), OrchAction::Wait);
    assert_eq!(orchestrator.step(OrchEvent::ListenerStopped), OrchAction::Exit);
}

#[test]
fn orchestrator_waits_for_the_slower_unit() {
    let mut orchestrator = Orchestrator::new();
    orchestrator.step(OrchEvent::TerminationSignal);
    assert_eq!(orchestrator.step(OrchEvent::ListenerStopped), OrchAction::Wait);
    assert_eq!(orchestrator.step(OrchEvent::PollerStopped), OrchAction::Exit);
}

#[test]
fn store_initialization_is_idempotent() {
    let mut store = StoreState { exists: false, migrations_applied: 0 };
    let first = init_store(&mut store, 3);
    assert_eq!(
        first,
        vec![
            InitAction::CreateDatabase,
            InitAction::ApplyMigration,
            InitAction::ApplyMigration,
            InitAction::ApplyMigration,
            InitAction::Vacuum,
        ]
    );
    assert!(store.exists);
    assert_eq!(store.migrations_applied, 3);

    let second = init_store(&mut store, 3);
    assert_eq!(second, vec![InitAction::Vacuum]);
    assert!(store.exists);
    assert_eq!(store.migrations_applied, 3);
}

#[test]
fn initialization_of_an_existing_store_only_migrates_and_compacts() {
    let mut store = StoreState { exists: true, migrations_applied: 2 };
    let actions = init_store(&mut store, 3);
    assert_eq!(actions, vec![InitAction::ApplyMigration, InitAction::Vacuum]);
    assert_eq!(store.migrations_applied, 3);
}

#[test]
fn descriptor_path_is_extracted_up_to_the_query() {
    assert_eq!(
        database_file_path("sqlite://data/vixen.db?mode=rwc").as_deref(),
        Some("data/vixen.db")
    );
    assert_eq!(database_file_path("sqlite://x.db").as_deref(), Some("x.db"));
    assert_eq!(database_file_path("sqlite://").as_deref(), Some(""));
    assert_eq!(database_file_path("postgres://x"), None);
    assert_eq!(database_file_path(""), None);
}
