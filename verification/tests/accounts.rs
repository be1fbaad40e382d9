use matrix_journal::device::{show_symbols, Progress, Reply, Stage};
use matrix_journal::ids::{parsed_id, rooms_to_watch, user_id};
use matrix_journal::json::allow_final_comma;
use matrix_journal::login::{LoginOutcome, LoginStep};
use matrix_journal::settings::{LoginMethod, SaveStep, Session, Settings, NO_CREDENTIALS};
use matrix_sdk::ruma::{RoomId, UserId};

fn settings(password: Option<&str>) -> Settings {
    Settings {
        user: "@me:matrix.org".to_string(),
        password: password.map(|p| p.to_string()),
        homeserver: "https://matrix.org".to_string(),
        db_key: "long-random-string".to_string(),
        session: None,
        sync_token: None,
    }
}

fn session() -> Session {
    Session {
        user_id: "@me:matrix.org".to_string(),
        device_id: "DEVICE".to_string(),
        access_token: "token".to_string(),
        refresh_token: None,
    }
}

#[test]
fn user_ids() {
    assert!(matches!(user_id("@me:matrix.org"), Ok(id) if id == "@me:matrix.org"));
    assert!(user_id("@me:[::1]:8448").is_ok());
    for bad in ["", "me", "me:matrix.org", "@me", "@me:", "@me:bad server", "@m\0e:matrix.org"] {
        match user_id(bad) {
            Ok(_) => panic!("accepted a bad user"),
            Err(error) => assert_eq!(error.given, bad),
        }
    }
}

#[test]
fn reasons_for_refusing() {
    let reason = |text: &str| user_id(text).err().unwrap().reason.to_string();
    assert_eq!(reason(""), UserId::parse("").unwrap_err().to_string());
    assert_eq!(reason("@me"), UserId::parse("@me").unwrap_err().to_string());
    assert_ne!(reason("@me"), reason(""));
    let refused = rooms_to_watch(&Some("room".to_string())).err().unwrap();
    assert_eq!(refused.reason.to_string(), RoomId::parse("room").unwrap_err().to_string());
    let nul = rooms_to_watch(&Some("!\0".to_string())).err().unwrap();
    assert_eq!(nul.reason.to_string(), RoomId::parse("!\0").unwrap_err().to_string());
    assert_ne!(nul.reason.to_string(), refused.reason.to_string());
}

#[test]
fn outcome_of_a_parsed_identifier() {
    assert!(matches!(parsed_id("a", Ok("b".to_string())), Ok(id) if id == "b"));
    let reason = UserId::parse("@me").unwrap_err();
    match parsed_id("a", Err(reason.clone())) {
        Ok(_) => panic!("accepted a refused identifier"),
        Err(error) => {
            assert_eq!(error.given, "a");
            assert_eq!(error.reason.to_string(), reason.to_string());
        }
    }
}

fn allowed(text: &str) -> String {
    String::from_utf8(allow_final_comma(&text.as_bytes().to_vec())).unwrap()
}

#[test]
fn settings_file_may_end_with_a_comma() {
    let text = "{\n  \"user\": \"@me:matrix.org\",\n  \"password\": \"something\",\n  \
                \"homeserver\": \"https://matrix.org\",\n  \"db_key\": \"long-random-string\",\n  \
                \"session\": null,\n  \"sync_token\": null,\n}\n";
    assert!(serde_json::from_str::<serde_json::Value>(text).is_err());
    let value: serde_json::Value = serde_json::from_str(&allowed(text)).unwrap();
    assert_eq!(value["user"], "@me:matrix.org");
    assert_eq!(value["password"], "something");
    assert_eq!(value["homeserver"], "https://matrix.org");
    assert_eq!(value["db_key"], "long-random-string");
    assert!(value["session"].is_null() && value["sync_token"].is_null());
}

#[test]
fn only_the_final_comma_is_allowed() {
    assert_eq!(allowed("{\"a\":{} \n,\t\r\n }\n "), "{\"a\":{} \n \t\r\n }\n ");
    for value in ["null", "true", "17", "\"b\"", "[1]", "{\"b\":1}"] {
        assert_eq!(allowed(&format!("{{\"a\":{},}}", value)), format!("{{\"a\":{} }}", value));
    }
    for text in [
        "",
        ",",
        "{}",
        "{\"a\":1,\"b\":2}",
        "{\"a\":\",}\",\"b\":\"\\\",}\"}",
        "{\"a\":\"\u{e9},}\"}",
        "[1,]",
        "{\"a\":1,",
        ",}",
        " ,}",
        "{,}",
        "{ \n,}",
        "{\"a\":,}",
        "{\"a\":1,,}",
        "{\"a\":1, ,}",
        "[,}",
        "{\"a\":1,}}",
        "{\"a\":1,} x",
        "{\"a\":{,}}",
        "{\"a\":{\"b\":1,}}",
    ] {
        assert_eq!(allowed(text), text);
    }
    assert_eq!(allowed("{\"a\":\"\\\\\",}"), "{\"a\":\"\\\\\" }");
}

#[test]
fn user_of_the_settings() {
    assert!(matches!(settings(None).user_id(), Ok(id) if id == "@me:matrix.org"));
    let mut bad = settings(None);
    bad.user = "me".to_string();
    match bad.user_id() {
        Ok(_) => panic!("accepted a bad user"),
        Err(error) => {
            assert_eq!(error.given, "me");
            assert_eq!(error.reason.to_string(), "leading sigil is incorrect or missing");
        }
    }
}

#[test]
fn all_rooms_or_one() {
    assert!(matches!(rooms_to_watch(&None), Ok(None)));
    let long = format!("!{}", "a".repeat(300));
    for good in ["!room:example.org", "!", "!hash", long.as_str()] {
        match rooms_to_watch(&Some(good.to_string())) {
            Ok(Some(rooms)) => assert_eq!(rooms, [good]),
            _ => panic!("refused a room"),
        }
    }
    for bad in ["", "#room:example.org", "room", "!ro\0om"] {
        match rooms_to_watch(&Some(bad.to_string())) {
            Ok(_) => panic!("accepted a bad room"),
            Err(error) => assert_eq!(error.given, bad),
        }
    }
}

#[test]
fn session_comes_before_password() {
    let mut kept = settings(Some("something"));
    match kept.login_method() {
        Some(LoginMethod::Password { user, password }) => {
            assert_eq!(user, "@me:matrix.org");
            assert_eq!(password, "something");
        }
        _ => panic!("expected the password"),
    }
    kept.record_session(session());
    for password in [Some("something".to_string()), None] {
        kept.password = password;
        match kept.login_method() {
            Some(LoginMethod::Restore(restored)) => {
                assert_eq!(restored.device_id, "DEVICE");
                assert_eq!(restored.access_token, "token");
            }
            _ => panic!("expected the session"),
        }
    }
}

#[test]
fn no_way_to_log_in() {
    assert!(settings(None).login_method().is_none());
    assert_eq!(NO_CREDENTIALS, "No existing session, and no password set in the session file");
}

#[test]
fn sync_token_changes_alone() {
    let mut kept = settings(Some("something"));
    kept.record_session(session());
    kept.update_sync_token("t1".to_string());
    kept.update_sync_token("t2".to_string());
    assert_eq!(kept.sync_token, Some("t2".to_string()));
    assert_eq!(kept.user, "@me:matrix.org");
    assert_eq!(kept.password, Some("something".to_string()));
    assert_eq!(kept.homeserver, "https://matrix.org");
    assert_eq!(kept.db_key, "long-random-string");
    assert_eq!(kept.session.unwrap().device_id, "DEVICE");
}

#[test]
fn settings_are_replaced_only_when_complete() {
    let step = SaveStep::first();
    assert!(step == SaveStep::Create);
    assert!(step.next(true) == SaveStep::Write);
    assert!(step.next(true).next(true) == SaveStep::Rename);
    assert!(step.next(true).next(true).next(true) == SaveStep::Saved);
    assert!(step.next(false) == SaveStep::Failed);
    assert!(step.next(true).next(false) == SaveStep::Failed);
    assert!(step.next(true).next(true).next(false) == SaveStep::Failed);
    assert!(SaveStep::Failed.next(true) == SaveStep::Failed);
    assert!(SaveStep::Saved.next(false) == SaveStep::Saved);
}

#[test]
fn symbols_are_shown() {
    let symbols = vec!["dog".to_string(), "cat".to_string(), "lion".to_string()];
    assert_eq!(show_symbols(&Some(symbols)), "dog cat lion");
    assert_eq!(show_symbols(&Some(Vec::new())), "");
    assert_eq!(show_symbols(&None), "(not provided)");
}

#[test]
fn device_is_verified_blindly() {
    let (stage, reply) = Stage::first();
    assert!(stage == Stage::Requested && matches!(reply, Reply::AcceptRequest));
    let (stage, reply) = stage.step(Progress::RequestChanged);
    assert!(stage == Stage::Requested && matches!(reply, Reply::Nothing));
    let (stage, reply) = stage.step(Progress::Transitioned { comparison: false });
    assert!(stage == Stage::Requested && matches!(reply, Reply::Nothing));
    let (stage, reply) = stage.step(Progress::Transitioned { comparison: true });
    assert!(stage == Stage::Comparing && matches!(reply, Reply::Accept));
    let (stage, reply) = stage.step(Progress::ComparisonChanged);
    assert!(stage == Stage::Comparing && matches!(reply, Reply::Nothing));
    let symbols = Some(vec!["dog".to_string(), "cat".to_string()]);
    let (stage, reply) = stage.step(Progress::KeysExchanged(symbols));
    assert!(stage == Stage::Comparing);
    assert!(matches!(reply, Reply::Confirm(text) if text == "dog cat"));
    let (stage, reply) = stage.step(Progress::ComparisonEnded);
    assert!(stage == Stage::Finished && matches!(reply, Reply::Nothing));
    let (stage, reply) = stage.step(Progress::KeysExchanged(None));
    assert!(stage == Stage::Finished && matches!(reply, Reply::Nothing));
}

#[test]
fn cancelled_verifications() {
    let cancelled = Progress::RequestCancelled("timeout".to_string());
    let (stage, reply) = Stage::Requested.step(cancelled);
    assert!(stage == Stage::Requested);
    assert!(matches!(reply, Reply::ReportCancelled(reason) if reason == "timeout"));
    let (stage, reply) = stage.step(Progress::RequestDone);
    assert!(stage == Stage::Requested && matches!(reply, Reply::ReportVerified));
    let (stage, _) = stage.step(Progress::RequestEnded);
    assert!(stage == Stage::Finished);
    let cancelled = Progress::ComparisonCancelled("mismatch".to_string());
    let (stage, reply) = Stage::Comparing.step(cancelled);
    assert!(stage == Stage::Finished);
    assert!(matches!(reply, Reply::ReportCancelled(reason) if reason == "mismatch"));
}

#[test]
fn login_with_password_keeps_the_session() {
    let mut kept = settings(Some("something"));
    let step = LoginStep::first(&kept).ok().unwrap();
    assert!(step == LoginStep::Connect);
    let step = step.next(&mut kept, LoginOutcome::Done);
    assert!(step == LoginStep::Authenticate && kept.session.is_none());
    let step = step.next(&mut kept, LoginOutcome::NewSession(session()));
    assert!(step == LoginStep::Save);
    assert_eq!(kept.session.as_ref().unwrap().device_id, "DEVICE");
    let step = step.next(&mut kept, LoginOutcome::Done);
    assert!(step == LoginStep::LoggedIn);
    kept.password = None;
    let step = LoginStep::first(&kept).ok().unwrap().next(&mut kept, LoginOutcome::Done);
    assert!(step == LoginStep::Restore);
    assert!(step.next(&mut kept, LoginOutcome::Done) == LoginStep::LoggedIn);
    assert_eq!(kept.session.unwrap().device_id, "DEVICE");
}

#[test]
fn login_that_fails() {
    let mut kept = settings(None);
    let step = LoginStep::first(&kept).ok().unwrap().next(&mut kept, LoginOutcome::Done);
    assert!(step == LoginStep::NoCredentials);
    assert!(step.next(&mut kept, LoginOutcome::Failed) == LoginStep::NoCredentials);
    for step in [LoginStep::Connect, LoginStep::Restore, LoginStep::Authenticate, LoginStep::Save] {
        assert!(step.next(&mut kept, LoginOutcome::Failed) == LoginStep::Failed);
    }
    assert!(LoginStep::Failed.next(&mut kept, LoginOutcome::Done) == LoginStep::Failed);
    for user in ["", "me", "@me", "me:matrix.org"] {
        kept.user = user.to_string();
        assert!(matches!(LoginStep::first(&kept), Err(error) if error.given == user));
    }
}
