use matrix_journal::journal::{Action, Input, Journal};
use matrix_journal::message::Message;
use matrix_journal::queue::SortQueue;
use matrix_journal::settings::Settings;

fn message(ts: u64, body: &str) -> Message {
    Message {
        id: "$event".to_string(),
        kind: "message".to_string(),
        ts,
        room: "Kitchen".to_string(),
        sender: "Ann".to_string(),
        body: body.to_string(),
        url: None,
    }
}

fn settings(sync_token: Option<&str>) -> Settings {
    Settings {
        user: "@ann:example.org".to_string(),
        password: None,
        homeserver: "https://example.org".to_string(),
        db_key: "key".to_string(),
        session: None,
        sync_token: sync_token.map(|t| t.to_string()),
    }
}

fn bodies(messages: &[Message]) -> Vec<&str> {
    messages.iter().map(|m| m.body.as_str()).collect()
}

fn arrive(journal: &mut Journal, ts: u64, body: &str) -> Action {
    journal.step(Input::Arrived(message(ts, body)))
}

fn listening() -> Journal {
    let mut journal = Journal::new(settings(None));
    assert!(matches!(journal.step(Input::CaughtUp("t1".to_string())), Action::Save));
    assert!(matches!(journal.step(Input::Saved), Action::Listen(_, _)));
    journal
}

#[test]
fn queue_sorts_and_keeps_arrival_order() {
    let mut queue = SortQueue::new();
    assert!(queue.pop().is_none());
    for (ts, body) in [(5, "e1"), (2, "b"), (9, "i"), (5, "e2"), (1, "a"), (5, "e3")] {
        queue.push(message(ts, body));
    }
    let first = queue.pop().unwrap();
    assert_eq!((first.ts, first.body.as_str()), (1, "a"));
    queue.push(message(3, "c"));
    let rest = queue.drain();
    assert_eq!(bodies(&rest), ["b", "c", "e1", "e2", "e3", "i"]);
    assert!(queue.pop().is_none());
    assert!(queue.drain().is_empty());
}

#[test]
fn starts_where_the_settings_say() {
    assert_eq!(Journal::new(settings(None)).resume_from(), None);
    assert_eq!(Journal::new(settings(Some("t0"))).resume_from(), Some("t0".to_string()));
}

#[test]
fn first_action_is_to_sync() {
    for token in [None, Some("t0")] {
        let (mut journal, action) = Journal::start(settings(token));
        match action {
            Action::Sync(from) => assert_eq!(from.as_deref(), token),
            _ => panic!("expected a sync"),
        }
        assert!(matches!(arrive(&mut journal, 1, "early"), Action::Nothing));
        assert!(matches!(journal.step(Input::CaughtUp("t1".to_string())), Action::Save));
    }
}

#[test]
fn failed_catch_up_is_tried_again() {
    let mut journal = Journal::new(settings(Some("t0")));
    for _ in 0..3 {
        match journal.step(Input::CatchUpFailed) {
            Action::Sync(from) => assert_eq!(from, Some("t0".to_string())),
            _ => panic!("expected another sync"),
        }
    }
}

#[test]
fn backlog_is_written_in_order_once_saved() {
    let mut journal = Journal::new(settings(Some("t0")));
    assert!(matches!(arrive(&mut journal, 30, "late"), Action::Nothing));
    assert!(matches!(arrive(&mut journal, 10, "early"), Action::Nothing));
    assert!(matches!(journal.step(Input::CaughtUp("t1".to_string())), Action::Save));
    assert_eq!(journal.settings().sync_token, Some("t1".to_string()));
    assert!(matches!(arrive(&mut journal, 20, "between"), Action::Nothing));
    match journal.step(Input::Saved) {
        Action::Listen(backlog, from) => {
            assert_eq!(bodies(&backlog), ["early", "between", "late"]);
            assert_eq!(from, Some("t1".to_string()));
        }
        _ => panic!("expected to listen"),
    }
}

#[test]
fn live_messages_are_written_at_once() {
    let mut journal = listening();
    for (ts, body) in [(30, "x"), (10, "y")] {
        match arrive(&mut journal, ts, body) {
            Action::Write(messages) => assert_eq!(bodies(&messages), [body]),
            _ => panic!("expected to write"),
        }
    }
}

#[test]
fn every_batch_is_saved() {
    let mut journal = listening();
    assert!(matches!(journal.step(Input::Batch("t2".to_string())), Action::Save));
    assert_eq!(journal.settings().sync_token, Some("t2".to_string()));
    assert!(matches!(journal.step(Input::Saved), Action::Nothing));
    assert!(matches!(journal.step(Input::Batch("t3".to_string())), Action::Save));
    assert_eq!(journal.settings().sync_token, Some("t3".to_string()));
    assert_eq!(journal.settings().user, "@ann:example.org");
    assert_eq!(journal.settings().db_key, "key");
}

#[test]
fn lost_connection_leads_to_catching_up() {
    let mut journal = listening();
    journal.step(Input::Batch("t2".to_string()));
    journal.step(Input::Saved);
    match journal.step(Input::Disconnected) {
        Action::Sync(from) => assert_eq!(from, Some("t2".to_string())),
        _ => panic!("expected a sync"),
    }
    assert!(matches!(arrive(&mut journal, 5, "waits"), Action::Nothing));
}

#[test]
fn unsaved_batch_ends_listening_but_not_the_journal() {
    let mut journal = listening();
    journal.step(Input::Batch("t2".to_string()));
    assert!(matches!(journal.step(Input::SaveFailed), Action::Abandon));
    assert!(matches!(journal.step(Input::Disconnected), Action::Sync(_)));
}

#[test]
fn unsaved_catch_up_is_the_end() {
    let mut journal = Journal::new(settings(None));
    arrive(&mut journal, 5, "waits");
    journal.step(Input::CaughtUp("t1".to_string()));
    assert!(matches!(journal.step(Input::SaveFailed), Action::Fail));
    assert!(matches!(journal.step(Input::Saved), Action::Nothing));
    assert!(matches!(journal.step(Input::Disconnected), Action::Nothing));
}

#[test]
fn regular_end() {
    let mut journal = listening();
    assert!(matches!(journal.step(Input::Finished), Action::Stop));
    assert!(matches!(journal.step(Input::Disconnected), Action::Nothing));
}

#[test]
fn out_of_place_news_changes_nothing() {
    let mut journal = Journal::new(settings(Some("t0")));
    assert!(matches!(journal.step(Input::Saved), Action::Nothing));
    assert!(matches!(journal.step(Input::SaveFailed), Action::Nothing));
    assert!(matches!(journal.step(Input::Batch("t9".to_string())), Action::Nothing));
    assert!(matches!(journal.step(Input::Disconnected), Action::Nothing));
    assert!(matches!(journal.step(Input::Finished), Action::Nothing));
    assert_eq!(journal.resume_from(), Some("t0".to_string()));
    let mut journal = listening();
    assert!(matches!(journal.step(Input::CaughtUp("t9".to_string())), Action::Nothing));
    assert!(matches!(journal.step(Input::CatchUpFailed), Action::Nothing));
    assert_eq!(journal.resume_from(), Some("t1".to_string()));
}

#[test]
fn everything_that_arrives_is_written_once() {
    let mut journal = Journal::new(settings(None));
    let mut written: Vec<String> = Vec::new();
    let inputs = vec![
        Input::Arrived(message(3, "a")),
        Input::CatchUpFailed,
        Input::Arrived(message(1, "b")),
        Input::CaughtUp("t1".to_string()),
        Input::Saved,
        Input::Arrived(message(9, "c")),
        Input::Batch("t2".to_string()),
        Input::Arrived(message(8, "d")),
        Input::SaveFailed,
        Input::Disconnected,
        Input::Arrived(message(7, "e")),
        Input::Arrived(message(6, "f")),
        Input::CaughtUp("t3".to_string()),
        Input::Saved,
    ];
    for input in inputs {
        match journal.step(input) {
            Action::Write(messages) | Action::Listen(messages, _) => {
                written.extend(messages.into_iter().map(|m| m.body));
            }
            _ => {}
        }
    }
    assert_eq!(written, ["b", "a", "c", "d", "f", "e"]);
}
