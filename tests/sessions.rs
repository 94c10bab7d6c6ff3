use hexchat_translator::deepl::{read_reply, ServiceReply, TranslationError};
use hexchat_translator::dispatch::{
    deliver, on_cmd_listlang, on_cmd_lsay, on_cmd_offlang, on_cmd_setlang, on_recv_message, Action, Delivery, Eat,
    Line, SendKind, LIST_ROWS,
};
use hexchat_translator::registry::{ChannelKey, LanguagePair, Registry};

fn key(network: &str, channel: &str) -> ChannelKey {
    ChannelKey { network: network.to_string(), channel: channel.to_string() }
}

fn pair(source: &str, target: &str) -> LanguagePair {
    LanguagePair { source: source.to_string(), target: target.to_string() }
}

fn words(ws: &[&str]) -> Vec<String> {
    ws.iter().map(|w| w.to_string()).collect()
}

fn codes(reg: &Registry, k: &ChannelKey) -> Option<(String, String)> {
    reg.lookup(k).map(|p| (p.source, p.target))
}

#[test]
fn activate_deactivate_round_trip() {
    let mut reg = Registry::new();
    reg.activate(key("net", "#c"), pair("en", "de"));
    assert_eq!(codes(&reg, &key("net", "#c")), Some(("en".to_string(), "de".to_string())));
    reg.deactivate(&key("net", "#c"));
    assert_eq!(codes(&reg, &key("net", "#c")), None);
}

#[test]
fn reactivation_overwrites() {
    let mut reg = Registry::new();
    reg.activate(key("net", "#c"), pair("en", "de"));
    reg.activate(key("net", "#c"), pair("fr", "es"));
    assert_eq!(codes(&reg, &key("net", "#c")), Some(("fr".to_string(), "es".to_string())));
}

#[test]
fn deactivate_absent_is_no_op() {
    let mut reg = Registry::new();
    reg.activate(key("net", "#a"), pair("en", "de"));
    reg.deactivate(&key("net", "#b"));
    reg.deactivate(&key("net", "#b"));
    assert_eq!(codes(&reg, &key("net", "#a")), Some(("en".to_string(), "de".to_string())));
    assert_eq!(codes(&reg, &key("net", "#b")), None);
}

#[test]
fn keys_are_case_sensitive() {
    let mut reg = Registry::new();
    reg.activate(key("net", "#Chan"), pair("en", "de"));
    assert_eq!(codes(&reg, &key("net", "#chan")), None);
    assert_eq!(codes(&reg, &key("Net", "#Chan")), None);
}

#[test]
fn setlang_activates_with_codes() {
    let mut reg = Registry::new();
    let r = on_cmd_setlang(&mut reg, Some(key("net", "#c")), &words(&["SETLANG", "English", "DE"]));
    assert_eq!(r.eat, Eat::All);
    assert_eq!(r.actions.len(), 1);
    match &r.actions[0] {
        Action::Print(Line::TranslationOn { source_name, target_name }) => {
            assert_eq!(source_name, "English");
            assert_eq!(target_name, "German");
        },
        _ => panic!("expected the translation-on line"),
    }
    assert_eq!(codes(&reg, &key("net", "#c")), Some(("en".to_string(), "de".to_string())));
}

#[test]
fn setlang_rejects_same_language() {
    let mut reg = Registry::new();
    for (a, b) in [("en", "EN"), ("English", "en"), ("de", "GERMAN")] {
        let r = on_cmd_setlang(&mut reg, Some(key("net", "#c")), &words(&["SETLANG", a, b]));
        assert_eq!(r.eat, Eat::All);
        assert!(matches!(r.actions[0], Action::Print(Line::BadLanguages)));
        assert_eq!(r.actions.len(), 1);
    }
    assert_eq!(codes(&reg, &key("net", "#c")), None);
}

#[test]
fn setlang_rejects_unknown_language() {
    let mut reg = Registry::new();
    let r = on_cmd_setlang(&mut reg, Some(key("net", "#c")), &words(&["SETLANG", "en", "xx"]));
    assert!(matches!(r.actions[0], Action::Print(Line::BadLanguages)));
    assert_eq!(codes(&reg, &key("net", "#c")), None);
}

#[test]
fn setlang_usage_on_wrong_arguments() {
    let mut reg = Registry::new();
    let r = on_cmd_setlang(&mut reg, Some(key("net", "#c")), &words(&["SETLANG", "en"]));
    assert!(matches!(r.actions[0], Action::Print(Line::SetlangUsage)));
    assert_eq!(codes(&reg, &key("net", "#c")), None);
}

#[test]
fn setlang_without_context_reports_failure() {
    let mut reg = Registry::new();
    let r = on_cmd_setlang(&mut reg, None, &words(&["SETLANG", "en", "de"]));
    assert_eq!(r.actions.len(), 2);
    assert!(matches!(r.actions[0], Action::Print(Line::ActivationFailed)));
    assert!(matches!(r.actions[1], Action::Print(Line::TranslationOn { .. })));
}

#[test]
fn offlang_without_session_only_reports_off() {
    let mut reg = Registry::new();
    let r = on_cmd_offlang(&mut reg, Some(key("net", "#c")), &words(&["OFFLANG"]));
    assert_eq!(r.eat, Eat::All);
    assert_eq!(r.actions.len(), 1);
    assert!(matches!(r.actions[0], Action::Print(Line::TranslationOff)));
    let r = on_cmd_offlang(&mut reg, Some(key("net", "#c")), &words(&["OFFLANG", "now"]));
    assert!(matches!(r.actions[0], Action::Print(Line::OfflangUsage)));
}

#[test]
fn offlang_turns_translation_off() {
    let mut reg = Registry::new();
    reg.activate(key("net", "#c"), pair("en", "de"));
    on_cmd_offlang(&mut reg, Some(key("net", "#c")), &words(&["OFFLANG"]));
    assert_eq!(codes(&reg, &key("net", "#c")), None);
}

#[test]
fn lsay_without_session_is_not_handled() {
    let reg = Registry::new();
    let r = on_cmd_lsay(&reg, Some(key("net", "#c")), SendKind::Say, "Hello".to_string(), Some("Hello".to_string()));
    assert_eq!(r.eat, Eat::Pass);
    assert!(r.actions.is_empty());
    assert!(r.job.is_none());
    let r = on_cmd_lsay(&reg, None, SendKind::Say, "Hello".to_string(), Some("Hello".to_string()));
    assert_eq!(r.eat, Eat::Pass);
}

#[test]
fn lsay_strip_failure_is_reported() {
    let mut reg = Registry::new();
    reg.activate(key("net", "#c"), pair("en", "de"));
    let r = on_cmd_lsay(&reg, Some(key("net", "#c")), SendKind::Me, "Hello".to_string(), None);
    assert_eq!(r.eat, Eat::All);
    assert!(r.job.is_none());
    assert!(matches!(r.actions[0], Action::Print(Line::BasicFailure)));
}

#[test]
fn outgoing_end_to_end() {
    let mut reg = Registry::new();
    reg.activate(key("net", "#c"), pair("en", "de"));
    let r = on_cmd_lsay(&reg, Some(key("net", "#c")), SendKind::Say, "Hello there".to_string(), Some("Hello there".to_string()));
    assert_eq!(r.eat, Eat::All);
    let job = r.job.unwrap();
    assert_eq!(job.text, "Hello there");
    assert_eq!(job.from, "en");
    assert_eq!(job.to, "de");
    assert!(matches!(job.delivery, Delivery::Send(SendKind::Say)));
    let result = read_reply(&job.text, ServiceReply::Translations(vec!["Hallo dort".to_string()]));
    let actions = deliver(&mut reg, job, result, true);
    assert_eq!(actions.len(), 2);
    match &actions[0] {
        Action::Send(kind, text) => {
            assert_eq!(*kind, SendKind::Say);
            assert_eq!(text, "Hallo dort");
        },
        _ => panic!("expected a send"),
    }
    match &actions[1] {
        Action::PrintThere(Line::Original(o)) => assert_eq!(o, "Hello there"),
        _ => panic!("expected the original text"),
    }
    assert!(codes(&reg, &key("net", "#c")).is_some());
}

#[test]
fn incoming_end_to_end() {
    let mut reg = Registry::new();
    reg.activate(key("net", "#c"), pair("en", "de"));
    let word = words(&["Bob", "Guten Tag"]);
    let r = on_recv_message(&reg, Some(key("net", "#c")), "Channel Message".to_string(), &word, Some("Guten Tag".to_string()));
    assert_eq!(r.eat, Eat::Host);
    let job = r.job.unwrap();
    assert_eq!(job.from, "de");
    assert_eq!(job.to, "en");
    assert_eq!(job.text, "Guten Tag");
    let result = read_reply(&job.text, ServiceReply::Translations(vec!["Good day".to_string()]));
    let actions = deliver(&mut reg, job, result, true);
    assert_eq!(actions.len(), 2);
    let fields = match &actions[0] {
        Action::Emit(event, fields) => {
            assert_eq!(event, "Channel Message");
            fields.clone()
        },
        _ => panic!("expected an emitted event"),
    };
    assert_eq!(fields, words(&["Bob", "Good day", "~"]));
    match &actions[1] {
        Action::PrintThere(Line::Original(o)) => assert_eq!(o, "Guten Tag"),
        _ => panic!("expected the original text"),
    }
    // The emitted event comes back to the handler, which lets it pass.
    let echo = on_recv_message(&reg, Some(key("net", "#c")), "Channel Message".to_string(), &fields, Some("Good day".to_string()));
    assert_eq!(echo.eat, Eat::Pass);
    assert!(echo.job.is_none());
}

#[test]
fn incoming_mode_is_kept() {
    let mut reg = Registry::new();
    reg.activate(key("net", "#c"), pair("en", "de"));
    let word = words(&["Bob", "Hallo", "@"]);
    let r = on_recv_message(&reg, Some(key("net", "#c")), "Channel Msg Hilight".to_string(), &word, Some("Hallo".to_string()));
    let job = r.job.unwrap();
    let actions = deliver(&mut reg, job, Ok("Hello".to_string()), true);
    match &actions[0] {
        Action::Emit(_, fields) => assert_eq!(*fields, words(&["Bob", "Hello", "@", "~"])),
        _ => panic!("expected an emitted event"),
    }
}

#[test]
fn incoming_without_session_or_short_passes() {
    let reg = Registry::new();
    let r = on_recv_message(&reg, Some(key("net", "#c")), "Channel Message".to_string(), &words(&["Bob", "Hi"]), Some("Hi".to_string()));
    assert_eq!(r.eat, Eat::Pass);
    let r = on_recv_message(&reg, Some(key("net", "#c")), "Disconnected".to_string(), &words(&["x"]), None);
    assert_eq!(r.eat, Eat::Pass);
}

#[test]
fn rate_limit_turns_translation_off() {
    let mut reg = Registry::new();
    reg.activate(key("net", "#c"), pair("en", "de"));
    let r = on_cmd_lsay(&reg, Some(key("net", "#c")), SendKind::Say, "Hi".to_string(), Some("Hi".to_string()));
    let job = r.job.unwrap();
    let result = read_reply("Hi", ServiceReply::Status(429, "Too Many Requests".to_string()));
    let actions = deliver(&mut reg, job, result, true);
    assert_eq!(actions.len(), 4);
    match &actions[0] {
        Action::Send(_, text) => assert_eq!(text, "Hi"),
        _ => panic!("expected a send"),
    }
    match &actions[2] {
        Action::PrintThere(Line::Failure(m)) => {
            assert_eq!(m, "Translation Error: DeepL API request failed: Too Many Requests")
        },
        _ => panic!("expected the failure line"),
    }
    assert!(matches!(actions[3], Action::PrintThere(Line::TranslationOff)));
    assert_eq!(codes(&reg, &key("net", "#c")), None);
}

#[test]
fn other_failure_keeps_session() {
    let mut reg = Registry::new();
    reg.activate(key("net", "#c"), pair("en", "de"));
    let r = on_cmd_lsay(&reg, Some(key("net", "#c")), SendKind::Say, "Hi".to_string(), Some("Hi".to_string()));
    let err = TranslationError::new("Hi".to_string(), "timeout".to_string(), false);
    let actions = deliver(&mut reg, r.job.unwrap(), Err(err), true);
    assert_eq!(actions.len(), 3);
    assert!(codes(&reg, &key("net", "#c")).is_some());
}

#[test]
fn lost_context_drops_result() {
    let mut reg = Registry::new();
    reg.activate(key("net", "#c"), pair("en", "de"));
    let r = on_cmd_lsay(&reg, Some(key("net", "#c")), SendKind::Say, "Hi".to_string(), Some("Hi".to_string()));
    let err = TranslationError::new("Hi".to_string(), "quota".to_string(), true);
    let actions = deliver(&mut reg, r.job.unwrap(), Err(err), false);
    assert_eq!(actions.len(), 1);
    assert!(matches!(actions[0], Action::Print(Line::ContextLost)));
    assert!(codes(&reg, &key("net", "#c")).is_some());
}

#[test]
fn deliveries_in_either_order() {
    for first_is_a in [true, false] {
        let mut reg = Registry::new();
        reg.activate(key("net", "#c"), pair("en", "de"));
        let a = on_cmd_lsay(&reg, Some(key("net", "#c")), SendKind::Say, "one".to_string(), Some("one".to_string()));
        let b = on_cmd_lsay(&reg, Some(key("net", "#c")), SendKind::Say, "two".to_string(), Some("two".to_string()));
        let (ja, jb) = (a.job.unwrap(), b.job.unwrap());
        let sent = if first_is_a {
            let x = deliver(&mut reg, ja, Ok("eins".to_string()), true);
            let y = deliver(&mut reg, jb, Ok("zwei".to_string()), true);
            (x, y)
        } else {
            let y = deliver(&mut reg, jb, Ok("zwei".to_string()), true);
            let x = deliver(&mut reg, ja, Ok("eins".to_string()), true);
            (x, y)
        };
        match (&sent.0[0], &sent.1[0]) {
            (Action::Send(_, x), Action::Send(_, y)) => {
                assert_eq!(x, "eins");
                assert_eq!(y, "zwei");
            },
            _ => panic!("expected sends"),
        }
        assert_eq!(codes(&reg, &key("net", "#c")), Some(("en".to_string(), "de".to_string())));
    }
}

#[test]
fn listlang_prints_catalog_in_rows() {
    let r = on_cmd_listlang(&words(&["LISTLANG"]));
    assert_eq!(r.eat, Eat::All);
    assert_eq!(r.actions.len(), LIST_ROWS + 3);
    assert!(matches!(r.actions[0], Action::Print(Line::Blank)));
    assert!(matches!(r.actions[1], Action::Print(Line::ListHeader)));
    match &r.actions[2] {
        Action::Print(Line::ListRow(v)) => {
            assert_eq!(v.len(), 3);
            assert_eq!(v[0].name, "Arabic");
            assert_eq!(v[2].code, "zh");
        },
        _ => panic!("expected a row"),
    }
    match &r.actions[LIST_ROWS + 1] {
        Action::Print(Line::ListRow(v)) => {
            assert_eq!(v.len(), 1);
            assert_eq!(v[0].name, "Hindi");
        },
        _ => panic!("expected a row"),
    }
    let r = on_cmd_listlang(&words(&["LISTLANG", "x"]));
    assert!(matches!(r.actions[0], Action::Print(Line::ListUsage)));
}
