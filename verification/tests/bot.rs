use schooltape_bot::Action;
use schooltape_bot::BotErrorKind;
use schooltape_bot::Browser;
use schooltape_bot::ErrorDisposition;
use schooltape_bot::InstallError;
use schooltape_bot::RegisterDecision;
use schooltape_bot::SelectionEvent;
use schooltape_bot::Session;
use schooltape_bot::SessionEvent;
use schooltape_bot::command_registry;
use schooltape_bot::error_disposition;
use schooltape_bot::hello_reply;
use schooltape_bot::install_init;
use schooltape_bot::parse_browser;
use schooltape_bot::ping_reply;
use schooltape_bot::register_decision;
use schooltape_bot::register_rejection_message;
use schooltape_bot::session_step;

const USER: u64 = 101;
const CHANNEL: u64 = 202;

const SAFARI_BODY: &str = "\nSorry, Safari is not supported at this time.\n        ";

fn fresh_session(requested: Option<&str>) -> Session {
    install_init(USER, CHANNEL, &requested.map(|s| s.to_string())).expect("valid request")
}

fn selection(user: u64, channel: u64, tag: &str, values: &[&str]) -> SessionEvent {
    SessionEvent::Selection(SelectionEvent {
        user_id: user,
        channel_id: channel,
        tag: tag.to_string(),
        values: values.iter().map(|v| v.to_string()).collect(),
    })
}

#[test]
fn hello_replies_world() {
    assert_eq!(hello_reply(), "world!");
}

#[test]
fn parse_recognizes_each_browser() {
    assert_eq!(parse_browser("chromium"), Some(Browser::Chromium));
    assert_eq!(parse_browser("firefox"), Some(Browser::Firefox));
    assert_eq!(parse_browser("edge"), Some(Browser::Edge));
    assert_eq!(parse_browser("safari"), Some(Browser::Safari));
}

#[test]
fn parse_rejects_unknown_and_is_case_sensitive() {
    assert_eq!(parse_browser("opera"), None);
    assert_eq!(parse_browser("Chromium"), None);
    assert_eq!(parse_browser(""), None);
}

#[test]
fn install_defaults_to_chromium() {
    let s = fresh_session(None);
    assert_eq!(s.message.displayed, Browser::Chromium);
    assert_eq!(s.user_id, USER);
    assert_eq!(s.channel_id, CHANNEL);
}

#[test]
fn install_initial_message_matches_each_guide() {
    for (name, browser, title, body_marker) in [
        (
            "chromium",
            Browser::Chromium,
            "<:chromium:1246037483192582175> Chromium",
            "chrome://extensions",
        ),
        (
            "firefox",
            Browser::Firefox,
            "<:firefox:1246037481975971870> Firefox",
            "schooltape-X.X.X.xpi",
        ),
        (
            "edge",
            Browser::Edge,
            "<:edge:1246037472761217065> Edge",
            "edge://extensions",
        ),
        (
            "safari",
            Browser::Safari,
            "<:safari:1246037470840094720> Safari",
            "Sorry, Safari is not supported",
        ),
    ] {
        let s = fresh_session(Some(name));
        assert_eq!(s.message.displayed, browser);
        assert_eq!(s.message.embed.title, title);
        assert!(s.message.embed.body.contains(body_marker));
        assert_eq!(s.message.embed.author_name, "Installation Guide");
        assert_eq!(s.message.selector.tag, "browsers");
        assert_eq!(s.message.selector.options.len(), 4);
    }
    let bodies: Vec<String> = ["chromium", "firefox", "edge", "safari"]
        .iter()
        .map(|n| fresh_session(Some(n)).message.embed.body)
        .collect();
    for i in 0..bodies.len() {
        for j in 0..bodies.len() {
            if i != j {
                assert_ne!(bodies[i], bodies[j]);
            }
        }
    }
}

#[test]
fn install_safari_body_is_the_static_text() {
    let s = fresh_session(Some("safari"));
    assert_eq!(s.message.embed.body, SAFARI_BODY);
    assert_eq!(
        s.message.embed.title,
        "<:safari:1246037470840094720> Safari"
    );
}

#[test]
fn install_rejects_unknown_browser() {
    let r = install_init(USER, CHANNEL, &Some("opera".to_string()));
    match r {
        Err(e) => {
            assert_eq!(e, InstallError::UnknownBrowser);
            assert_eq!(e.message(), "Invalid browser name");
        }
        Ok(_) => panic!("unknown browser must be rejected"),
    }
}

#[test]
fn selecting_other_browser_edits_body_and_keeps_selector() {
    let mut s = fresh_session(None);
    let before_selector_len = s.message.selector.options.len();
    let a = session_step(&mut s, &selection(USER, CHANNEL, "browsers", &["safari"]));
    assert_eq!(a, Action::Edit(Browser::Safari));
    assert_eq!(s.message.displayed, Browser::Safari);
    assert_eq!(s.message.embed.body, SAFARI_BODY);
    assert_eq!(s.message.selector.tag, "browsers");
    assert_eq!(s.message.selector.options.len(), before_selector_len);
}

#[test]
fn selector_stays_usable_across_selections() {
    let mut s = fresh_session(None);
    let a1 = session_step(&mut s, &selection(USER, CHANNEL, "browsers", &["edge"]));
    assert_eq!(a1, Action::Edit(Browser::Edge));
    let a2 = session_step(&mut s, &selection(USER, CHANNEL, "browsers", &["firefox"]));
    assert_eq!(a2, Action::Edit(Browser::Firefox));
    assert_eq!(s.message.displayed, Browser::Firefox);
}

#[test]
fn unrecognized_value_acknowledged_without_edit() {
    let mut s = fresh_session(Some("firefox"));
    let body_before = s.message.embed.body.clone();
    let a = session_step(&mut s, &selection(USER, CHANNEL, "browsers", &["netscape"]));
    assert_eq!(a, Action::Acknowledge);
    assert_eq!(s.message.displayed, Browser::Firefox);
    assert_eq!(s.message.embed.body, body_before);
}

#[test]
fn empty_selection_acknowledged_without_edit() {
    let mut s = fresh_session(None);
    let a = session_step(&mut s, &selection(USER, CHANNEL, "browsers", &[]));
    assert_eq!(a, Action::Acknowledge);
    assert_eq!(s.message.displayed, Browser::Chromium);
}

#[test]
fn foreign_user_never_edits() {
    let mut s = fresh_session(None);
    let a = session_step(&mut s, &selection(USER + 1, CHANNEL, "browsers", &["safari"]));
    assert_eq!(a, Action::Ignore);
    assert_eq!(s.message.displayed, Browser::Chromium);
}

#[test]
fn foreign_channel_never_edits() {
    let mut s = fresh_session(None);
    let a = session_step(&mut s, &selection(USER, CHANNEL + 1, "browsers", &["safari"]));
    assert_eq!(a, Action::Ignore);
    assert_eq!(s.message.displayed, Browser::Chromium);
}

#[test]
fn foreign_tag_never_edits() {
    let mut s = fresh_session(None);
    let a = session_step(&mut s, &selection(USER, CHANNEL, "colors", &["safari"]));
    assert_eq!(a, Action::Ignore);
    assert_eq!(s.message.displayed, Browser::Chromium);
}

#[test]
fn timeout_terminates_and_message_stays() {
    let mut s = fresh_session(None);
    let a1 = session_step(&mut s, &selection(USER, CHANNEL, "browsers", &["edge"]));
    assert_eq!(a1, Action::Edit(Browser::Edge));
    let body_before = s.message.embed.body.clone();
    let a2 = session_step(&mut s, &SessionEvent::Timeout);
    assert_eq!(a2, Action::Terminate);
    assert_eq!(s.message.displayed, Browser::Edge);
    assert_eq!(s.message.embed.body, body_before);
}

#[test]
fn ping_reply_zero_for_fresh_connection() {
    assert_eq!(ping_reply(0), "Pong! Latency: 0 ms");
}

#[test]
fn ping_reply_formats_exact_values() {
    assert_eq!(ping_reply(1), "Pong! Latency: 1 ms");
    assert_eq!(ping_reply(9), "Pong! Latency: 9 ms");
    assert_eq!(ping_reply(10), "Pong! Latency: 10 ms");
    assert_eq!(ping_reply(42), "Pong! Latency: 42 ms");
    assert_eq!(ping_reply(1000), "Pong! Latency: 1000 ms");
    assert_eq!(ping_reply(90210), "Pong! Latency: 90210 ms");
    assert_eq!(
        ping_reply(u64::MAX),
        "Pong! Latency: 18446744073709551615 ms"
    );
}

#[test]
fn register_rejects_non_owner() {
    let owners: Vec<u64> = vec![1, 2, 3];
    assert_eq!(register_decision(4, &owners), RegisterDecision::Reject);
    assert_eq!(
        register_rejection_message(),
        "Only bot owners can call this command"
    );
}

#[test]
fn register_rejects_when_no_owners_declared() {
    let owners: Vec<u64> = vec![];
    assert_eq!(register_decision(1, &owners), RegisterDecision::Reject);
}

#[test]
fn register_proceeds_for_owner() {
    let owners: Vec<u64> = vec![1, 2, 3];
    assert_eq!(register_decision(2, &owners), RegisterDecision::Proceed);
}

#[test]
fn error_dispositions_follow_taxonomy() {
    assert_eq!(
        error_disposition(&BotErrorKind::Setup),
        ErrorDisposition::AbortStartup
    );
    assert_eq!(
        error_disposition(&BotErrorKind::Command),
        ErrorDisposition::LogAndContinue
    );
    assert_eq!(
        error_disposition(&BotErrorKind::Other),
        ErrorDisposition::Delegate
    );
}

#[test]
fn registry_holds_the_four_commands_uniquely() {
    let cmds = command_registry();
    let names: Vec<&str> = cmds.iter().map(|c| c.name.as_str()).collect();
    assert_eq!(names, vec!["hello", "register", "ping", "install"]);
    for i in 0..names.len() {
        for j in 0..names.len() {
            if i != j {
                assert_ne!(names[i], names[j]);
            }
        }
    }
    assert!(cmds[1].owner_only);
    assert!(!cmds[0].owner_only && !cmds[2].owner_only && !cmds[3].owner_only);
    assert!(cmds[2].ephemeral);
}

#[test]
fn selector_options_cover_the_enumeration() {
    let s = fresh_session(None);
    let values: Vec<&str> = s
        .message
        .selector
        .options
        .iter()
        .map(|o| o.value.as_str())
        .collect();
    assert_eq!(values, vec!["chromium", "firefox", "edge", "safari"]);
    let labels: Vec<&str> = s
        .message
        .selector
        .options
        .iter()
        .map(|o| o.label.as_str())
        .collect();
    assert_eq!(labels, vec!["Chromium", "Firefox", "Microsoft Edge", "Safari"]);
    assert_eq!(s.message.selector.placeholder, "Select a browser");
    for v in values {
        assert!(parse_browser(v).is_some());
    }
}
