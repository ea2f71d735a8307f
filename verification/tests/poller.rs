use vixen::poller::{
    batch_is_well_formed, ChatFilter, FetchParams, PollAction, PollEvent, Poller,
    allowed_event_kinds, updates_url, BACKOFF_SECS, CLIENT_TIMEOUT_SECS, FETCH_LIMIT,
    LONG_POLL_TIMEOUT_SECS,
};
use vixen::update::{Chat, ChatType, Message, Update};

fn message_update(update_id: i64, chat_id: i64, chat_type: ChatType) -> Update {
    Update {
        update_id,
        message: Some(Message {
            message_id: update_id * 100,
            date: 1_700_000_000,
            chat: Chat { id: chat_id, chat_type, title: None },
            from: None,
            text: Some("hello".to_string()),
        }),
    }
}

fn bare_update(update_id: i64) -> Update {
    Update { update_id, message: None }
}

fn standard_params(offset: i64) -> FetchParams {
    FetchParams {
        offset,
        long_poll_timeout_secs: LONG_POLL_TIMEOUT_SECS,
        client_timeout_secs: CLIENT_TIMEOUT_SECS,
        limit: FETCH_LIMIT,
    }
}

#[test]
fn batch_scenario_forwards_one_and_advances_to_twelve() {
    let mut poller = Poller::new(ChatFilter { allow: vec![] });
    let batch = vec![
        message_update(10, 5, ChatType::Group),
        message_update(11, 6, ChatType::Private),
    ];
    let (action, forwarded) = poller.step(PollEvent::FetchOk(batch));
    assert_eq!(forwarded.len(), 1);
    assert_eq!(forwarded[0].chat.id, 5);
    assert_eq!(forwarded[0].message_id, 1000);
    assert_eq!(poller.cursor, 12);
    assert_eq!(action, PollAction::Fetch(standard_params(12)));
}

#[test]
fn cursor_reaches_one_past_maximum_even_when_everything_is_filtered() {
    let mut poller = Poller::new(ChatFilter { allow: vec![7] });
    let batch = vec![
        message_update(3, 5, ChatType::Group),
        message_update(4, 6, ChatType::Private),
        bare_update(9),
    ];
    let forwarded = poller.process_batch(batch);
    assert!(forwarded.is_empty());
    assert_eq!(poller.cursor, 10);
}

#[test]
fn cursor_accumulates_over_several_fetches() {
    let mut poller = Poller::new(ChatFilter { allow: vec![] });
    poller.process_batch(vec![bare_update(1), bare_update(2)]);
    assert_eq!(poller.cursor, 3);
    poller.process_batch(vec![]);
    assert_eq!(poller.cursor, 3);
    poller.process_batch(vec![message_update(7, 1, ChatType::Channel)]);
    assert_eq!(poller.cursor, 8);
}

#[test]
fn private_chat_is_never_forwarded_even_when_listed() {
    let filter = ChatFilter { allow: vec![6] };
    assert!(!filter.allows(&Chat { id: 6, chat_type: ChatType::Private, title: None }));
}

#[test]
fn unlisted_chat_is_dropped_when_allow_list_is_not_empty() {
    let filter = ChatFilter { allow: vec![1, 2] };
    assert!(!filter.allows(&Chat { id: 3, chat_type: ChatType::Group, title: None }));
    assert!(filter.allows(&Chat { id: 2, chat_type: ChatType::Supergroup, title: None }));
}

#[test]
fn empty_allow_list_admits_any_chat_that_is_not_private() {
    let filter = ChatFilter { allow: vec![] };
    assert!(filter.allows(&Chat { id: 42, chat_type: ChatType::Group, title: None }));
    assert!(filter.allows(&Chat { id: -1, chat_type: ChatType::Channel, title: None }));
    assert!(!filter.allows(&Chat { id: 42, chat_type: ChatType::Private, title: None }));
}

#[test]
fn failure_backs_off_and_keeps_the_cursor() {
    let mut poller = Poller::new(ChatFilter { allow: vec![] });
    poller.process_batch(vec![bare_update(4)]);
    assert_eq!(poller.cursor, 5);
    let (action, forwarded) = poller.step(PollEvent::FetchFailed);
    assert_eq!(action, PollAction::Sleep(BACKOFF_SECS));
    assert!(forwarded.is_empty());
    assert_eq!(poller.cursor, 5);
    let (action, forwarded) = poller.step(PollEvent::Slept);
    assert_eq!(action, PollAction::Fetch(standard_params(5)));
    assert!(forwarded.is_empty());
    assert_eq!(poller.cursor, 5);
}

#[test]
fn empty_batch_is_success_and_polls_again_at_once() {
    let mut poller = Poller::new(ChatFilter { allow: vec![] });
    let (action, forwarded) = poller.step(PollEvent::FetchOk(vec![]));
    assert_eq!(action, PollAction::Fetch(standard_params(0)));
    assert!(forwarded.is_empty());
    assert_eq!(poller.cursor, 0);
}

#[test]
fn the_loop_starts_with_a_fetch_at_the_cursor() {
    let poller = Poller::new(ChatFilter { allow: vec![] });
    assert_eq!(poller.start(), PollAction::Fetch(standard_params(0)));
}

#[test]
fn shutdown_stops_the_loop_at_once() {
    let mut poller = Poller::new(ChatFilter { allow: vec![] });
    let (action, forwarded) = poller.step(PollEvent::Shutdown);
    assert_eq!(action, PollAction::Stop);
    assert!(forwarded.is_empty());
}

#[test]
fn batches_that_break_the_remote_promise_are_detected() {
    assert!(batch_is_well_formed(5, &vec![]));
    assert!(batch_is_well_formed(5, &vec![bare_update(5), bare_update(5), bare_update(9)]));
    assert!(!batch_is_well_formed(5, &vec![bare_update(4)]));
    assert!(!batch_is_well_formed(5, &vec![bare_update(9), bare_update(8)]));
    assert!(!batch_is_well_formed(5, &vec![bare_update(i64::MAX)]));
}

#[test]
fn client_timeout_exceeds_long_poll_timeout_by_the_margin() {
    let params = standard_params(0);
    assert!(params.client_timeout_secs > params.long_poll_timeout_secs);
    assert_eq!(params.client_timeout_secs - params.long_poll_timeout_secs, 5);
}

#[test]
fn fetch_url_is_rendered_exactly() {
    let kinds = allowed_event_kinds();
    let url = updates_url("123:ABC", &standard_params(42), &kinds);
    assert_eq!(
        url,
        "https://api.telegram.org/bot123:ABC/getUpdates?offset=42&timeout=30&limit=100&allowed_updates=message,callback_query"
    );
}

#[test]
fn fetch_url_with_cursor_zero_and_no_kinds() {
    let url = updates_url("t", &standard_params(0), &vec![]);
    assert_eq!(
        url,
        "https://api.telegram.org/bott/getUpdates?offset=0&timeout=30&limit=100&allowed_updates="
    );
}

#[test]
fn allowed_event_kinds_are_messages_and_callback_queries() {
    let kinds = allowed_event_kinds();
    assert_eq!(kinds, vec!["message", "callback_query"]);
}
