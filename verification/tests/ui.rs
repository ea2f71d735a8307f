use vixen::ui::{key_event, App, AppEvent, Key};

#[test]
fn fresh_app_is_running_with_counter_zero() {
    let app = App::new();
    assert!(app.running);
    assert_eq!(app.counter, 0);
    let by_default = App::default();
    assert!(by_default.running);
    assert_eq!(by_default.counter, 0);
}

#[test]
fn quit_stops_the_app_and_keeps_the_counter() {
    let mut app = App::new();
    app.increment_counter();
    app.quit();
    assert!(!app.running);
    assert_eq!(app.counter, 1);
}

#[test]
fn counter_saturates_at_both_ends() {
    let mut app = App::new();
    app.decrement_counter();
    assert_eq!(app.counter, 0);
    app.counter = u8::MAX;
    app.increment_counter();
    assert_eq!(app.counter, u8::MAX);
    app.decrement_counter();
    assert_eq!(app.counter, u8::MAX - 1);
}

#[test]
fn tick_changes_nothing() {
    let app = App::new();
    app.tick();
    assert!(app.running);
    assert_eq!(app.counter, 0);
}

#[test]
fn keys_map_to_their_events() {
    assert_eq!(key_event(Key::Esc, false), Some(AppEvent::Quit));
    assert_eq!(key_event(Key::Char('q'), false), Some(AppEvent::Quit));
    assert_eq!(key_event(Key::Char('c'), true), Some(AppEvent::Quit));
    assert_eq!(key_event(Key::Char('C'), true), Some(AppEvent::Quit));
    assert_eq!(key_event(Key::Char('c'), false), None);
    assert_eq!(key_event(Key::Right, false), Some(AppEvent::Increment));
    assert_eq!(key_event(Key::Left, false), Some(AppEvent::Decrement));
    assert_eq!(key_event(Key::Char('x'), false), None);
    assert_eq!(key_event(Key::Other, true), None);
}

#[test]
fn applying_events_drives_the_state() {
    let mut app = App::new();
    app.apply(AppEvent::Increment);
    app.apply(AppEvent::Increment);
    app.apply(AppEvent::Decrement);
    assert_eq!(app.counter, 1);
    assert!(app.running);
    app.apply(AppEvent::Quit);
    assert!(!app.running);
}
