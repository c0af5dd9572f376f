use tuigreet::config::Config;
use tuigreet::event::{actions, Action, Scheduler};
use tuigreet::greeter::menu::{session_from_desktop_entry, user_from_passwd_line};
use tuigreet::greeter::{
    Event, ExitReason, Greeter, Key, Mode, Notice, Outcome, Phase, PowerChoice, SessionEntry,
};
use tuigreet::ipc::{AuthMessageType, ErrorType, IpcError, Request, Response};

fn config_with_command(command: &str) -> Config {
    let mut config = Config::default();
    config.session.command = Some(command.to_string());
    config
}

fn greeter() -> Greeter {
    Greeter::new(config_with_command("/bin/bash"), Vec::new(), Vec::new())
}

fn type_text(g: &mut Greeter, text: &str) {
    for c in text.chars() {
        let out = g.handle(Event::KeyPress(Key::Char(c)));
        assert!(out.request.is_none());
    }
}

fn press(g: &mut Greeter, key: Key) -> Outcome {
    g.handle(Event::KeyPress(key))
}

fn reply(g: &mut Greeter, response: Response) -> Outcome {
    let attempt = g.attempt;
    g.handle(Event::Reply { attempt, response })
}

fn auth_message(kind: AuthMessageType, text: &str) -> Response {
    Response::AuthMessage { auth_message_type: kind, auth_message: text.to_string() }
}

fn is_quiet(out: &Outcome) -> bool {
    out.request.is_none()
        && !out.cancel
        && out.power.is_none()
        && !out.reconnect
        && !out.redraw
        && out.exit.is_none()
}

#[test]
fn starts_by_asking_for_a_name() {
    let g = greeter();
    assert!(g.is_valid());
    assert_eq!(g.mode, Mode::EnteringUsername);
    assert_eq!(g.phase, Phase::EnteringUsername);
    assert!(g.session.is_none());
    assert!(!g.pending);
    assert_eq!(g.command, vec!["/bin/bash".to_string()]);
}

#[test]
fn scenario_wrong_password_returns_to_username_with_description() {
    let mut g = greeter();
    type_text(&mut g, "alice");
    let out = press(&mut g, Key::Enter);
    match out.request {
        Some(Request::CreateSession { username }) => assert_eq!(username, "alice"),
        other => panic!("expected CreateSession, got {:?}", other),
    }
    assert!(g.pending);
    assert_eq!(g.phase, Phase::AwaitingDaemon);
    assert_eq!(g.mode, Mode::Processing);

    let out = reply(&mut g, auth_message(AuthMessageType::Secret, "Password:"));
    assert!(out.request.is_none());
    assert!(out.redraw);
    assert_eq!(g.mode, Mode::SecretPrompt);
    assert_eq!(g.phase, Phase::RelayingPrompt);
    assert!(!g.pending);
    let prompt = g.session.as_ref().unwrap().prompt.as_ref().unwrap();
    assert_eq!(prompt.kind, AuthMessageType::Secret);
    assert_eq!(prompt.text, "Password:");

    type_text(&mut g, "wrongpass");
    let out = press(&mut g, Key::Enter);
    match out.request {
        Some(Request::PostAuthMessageResponse { response }) => {
            assert_eq!(response, Some("wrongpass".to_string()))
        },
        other => panic!("expected PostAuthMessageResponse, got {:?}", other),
    }
    // the secret leaves the line with the request
    assert!(g.input.chars.is_empty());
    assert!(g.pending);

    let out = reply(
        &mut g,
        Response::Error {
            error_type: ErrorType::AuthError,
            description: "Authentication failed".to_string(),
        },
    );
    assert!(out.request.is_none());
    assert!(out.redraw);
    assert_eq!(g.mode, Mode::EnteringUsername);
    assert_eq!(g.phase, Phase::EnteringUsername);
    assert!(g.session.is_none());
    assert!(!g.pending);
    match &g.notice {
        Some(Notice::AuthRejected(text)) => assert_eq!(text, "Authentication failed"),
        other => panic!("expected the description, got {:?}", other),
    }
    assert!(g.is_valid());
}

#[test]
fn scenario_success_without_prompt_launches_and_yields() {
    let mut g = greeter();
    type_text(&mut g, "bob");
    let out = press(&mut g, Key::Enter);
    assert!(matches!(out.request, Some(Request::CreateSession { .. })));

    let out = reply(&mut g, Response::Success);
    match out.request {
        Some(Request::StartSession { cmd, env }) => {
            assert_eq!(cmd, vec!["/bin/bash".to_string()]);
            assert_eq!(env, Vec::<String>::new());
        },
        other => panic!("expected StartSession, got {:?}", other),
    }
    assert_eq!(g.phase, Phase::Launching);
    assert!(g.pending);

    let out = reply(&mut g, Response::Success);
    assert!(out.request.is_none());
    assert_eq!(out.exit, Some(ExitReason::Launched));
    assert_eq!(g.phase, Phase::Terminal);
    assert_eq!(g.exit, Some(ExitReason::Launched));
    assert!(g.session.is_none());
    assert!(g.is_terminal());
    assert_eq!(ExitReason::Launched.code(), 0);

    // no further events are processed
    let out = press(&mut g, Key::Char('x'));
    assert!(is_quiet(&out));
    let out = g.handle(Event::Tick);
    assert!(is_quiet(&out));
    assert_eq!(g.phase, Phase::Terminal);
}

#[test]
fn scenario_unreachable_channel_shows_error_and_permits_retry() {
    let mut g = greeter();
    type_text(&mut g, "carol");
    let out = press(&mut g, Key::Enter);
    assert!(out.request.is_some());
    let attempt = g.attempt;

    let out = g.handle(Event::Failure { attempt, error: IpcError::Io });
    assert!(out.request.is_none());
    assert!(out.reconnect);
    assert!(out.redraw);
    assert!(out.exit.is_none());
    assert_eq!(g.mode, Mode::Error);
    assert!(matches!(g.notice, Some(Notice::Failure(IpcError::Io))));
    assert!(g.session.is_none());
    assert!(!g.pending);
    // what was typed is still there
    assert_eq!(g.input.text(), "carol");

    // any key dismisses the failure; then the attempt can be made again
    let out = press(&mut g, Key::Other);
    assert!(out.redraw);
    assert_eq!(g.mode, Mode::EnteringUsername);
    assert!(g.notice.is_none());
    let out = press(&mut g, Key::Enter);
    match out.request {
        Some(Request::CreateSession { username }) => assert_eq!(username, "carol"),
        other => panic!("expected CreateSession, got {:?}", other),
    }
    assert_eq!(g.attempt, attempt + 1);
}

#[test]
fn scenario_two_prompts_are_relayed_in_order_before_launch() {
    let mut g = greeter();
    type_text(&mut g, "dave");
    press(&mut g, Key::Enter);

    reply(&mut g, auth_message(AuthMessageType::Visible, "PIN:"));
    assert_eq!(g.mode, Mode::VisiblePrompt);
    type_text(&mut g, "1234");
    let out = press(&mut g, Key::Enter);
    assert!(matches!(out.request, Some(Request::PostAuthMessageResponse { .. })));

    reply(&mut g, auth_message(AuthMessageType::Secret, "Password:"));
    assert_eq!(g.mode, Mode::SecretPrompt);
    type_text(&mut g, "hunter2");
    let out = press(&mut g, Key::Enter);
    match out.request {
        Some(Request::PostAuthMessageResponse { response }) => {
            assert_eq!(response, Some("hunter2".to_string()))
        },
        other => panic!("expected PostAuthMessageResponse, got {:?}", other),
    }

    let exchanges = &g.session.as_ref().unwrap().exchanges;
    assert_eq!(exchanges.len(), 2);
    assert_eq!(exchanges[0].kind, AuthMessageType::Visible);
    assert_eq!(exchanges[0].text, "PIN:");
    assert_eq!(exchanges[1].kind, AuthMessageType::Secret);
    assert_eq!(exchanges[1].text, "Password:");

    let out = reply(&mut g, Response::Success);
    assert!(matches!(out.request, Some(Request::StartSession { .. })));
    assert_eq!(g.phase, Phase::Launching);
}

#[test]
fn empty_username_is_rejected_locally() {
    let mut g = greeter();
    let out = press(&mut g, Key::Enter);
    assert!(is_quiet(&out));
    assert_eq!(g.mode, Mode::EnteringUsername);
    assert!(g.session.is_none());
    assert_eq!(g.attempt, 0);
}

#[test]
fn keys_are_ignored_while_a_reply_is_due() {
    let mut g = greeter();
    type_text(&mut g, "erin");
    press(&mut g, Key::Enter);
    for key in [Key::Enter, Key::Enter, Key::Char('x'), Key::F(2), Key::Tab] {
        let out = press(&mut g, key);
        assert!(is_quiet(&out));
    }
    assert!(g.pending);
    assert_eq!(g.phase, Phase::AwaitingDaemon);
}

#[test]
fn cancel_resets_and_stale_reply_is_discarded() {
    let mut g = greeter();
    type_text(&mut g, "frank");
    press(&mut g, Key::Enter);
    let cancelled = g.attempt;

    let out = press(&mut g, Key::Esc);
    assert!(out.cancel);
    assert!(out.request.is_none());
    assert_eq!(g.mode, Mode::EnteringUsername);
    assert_eq!(g.phase, Phase::EnteringUsername);
    assert!(g.session.is_none());
    assert!(!g.pending);

    // the reply to the cancelled attempt arrives late
    let out = g.handle(Event::Reply { attempt: cancelled, response: Response::Success });
    assert!(is_quiet(&out));
    assert_eq!(g.mode, Mode::EnteringUsername);
    assert!(g.session.is_none());

    // and later still, when the next attempt is under way
    type_text(&mut g, "grace");
    press(&mut g, Key::Enter);
    assert_ne!(g.attempt, cancelled);
    let out = g.handle(Event::Reply { attempt: cancelled, response: Response::Success });
    assert!(is_quiet(&out));
    assert_eq!(g.phase, Phase::AwaitingDaemon);
    assert_eq!(g.session.as_ref().unwrap().username, "grace");
}

#[test]
fn cancel_without_session_sends_nothing() {
    let mut g = greeter();
    type_text(&mut g, "abc");
    let out = press(&mut g, Key::Esc);
    assert!(!out.cancel);
    assert!(out.request.is_none());
    assert!(g.input.chars.is_empty());
}

#[test]
fn cancel_from_a_prompt_and_from_a_menu() {
    let mut g = greeter();
    type_text(&mut g, "heidi");
    press(&mut g, Key::Enter);
    reply(&mut g, auth_message(AuthMessageType::Secret, "Password:"));
    press(&mut g, Key::F(3));
    assert_eq!(g.mode, Mode::Sessions);
    let out = press(&mut g, Key::Esc);
    assert!(out.cancel);
    assert_eq!(g.mode, Mode::EnteringUsername);
    assert!(g.session.is_none());
    assert!(g.is_valid());
}

#[test]
fn second_channel_failure_in_a_row_ends_the_process() {
    let mut g = greeter();
    type_text(&mut g, "ivan");
    press(&mut g, Key::Enter);
    let attempt = g.attempt;
    g.handle(Event::Failure { attempt, error: IpcError::Disconnected });
    press(&mut g, Key::Other);
    press(&mut g, Key::Enter);
    let attempt = g.attempt;
    let out = g.handle(Event::Failure { attempt, error: IpcError::Disconnected });
    assert_eq!(out.exit, Some(ExitReason::ChannelLost));
    assert_eq!(g.phase, Phase::Terminal);
    assert_eq!(ExitReason::ChannelLost.code(), 1);
}

#[test]
fn a_reply_between_two_channel_failures_clears_the_memory() {
    let mut g = greeter();
    type_text(&mut g, "judy");
    press(&mut g, Key::Enter);
    let attempt = g.attempt;
    g.handle(Event::Failure { attempt, error: IpcError::Io });
    assert!(g.channel_failed);
    press(&mut g, Key::Other);
    press(&mut g, Key::Enter);
    reply(&mut g, auth_message(AuthMessageType::Visible, "Code:"));
    assert!(!g.channel_failed);
    press(&mut g, Key::Enter);
    let attempt = g.attempt;
    let out = g.handle(Event::Failure { attempt, error: IpcError::Io });
    assert!(out.exit.is_none());
    assert!(out.reconnect);
    assert_eq!(g.mode, Mode::Error);
}

#[test]
fn protocol_failure_resets_the_attempt_without_reconnect() {
    let mut g = greeter();
    type_text(&mut g, "kim");
    press(&mut g, Key::Enter);
    let attempt = g.attempt;
    let out = g.handle(Event::Failure { attempt, error: IpcError::Protocol });
    assert!(!out.reconnect);
    assert!(out.cancel);
    assert!(out.exit.is_none());
    assert_eq!(g.mode, Mode::Error);
    assert!(matches!(g.notice, Some(Notice::Failure(IpcError::Protocol))));
    assert!(!g.channel_failed);
}

#[test]
fn unexpected_reply_while_launching_resets_the_attempt() {
    let mut g = greeter();
    type_text(&mut g, "leo");
    press(&mut g, Key::Enter);
    reply(&mut g, Response::Success);
    assert_eq!(g.phase, Phase::Launching);
    let out = reply(&mut g, auth_message(AuthMessageType::Visible, "Again?"));
    assert!(out.cancel);
    assert!(out.request.is_none());
    assert_eq!(g.mode, Mode::Error);
    assert!(matches!(g.notice, Some(Notice::Failure(IpcError::UnexpectedResponse))));
    assert!(g.session.is_none());
}

#[test]
fn launch_failure_returns_to_username_with_description() {
    let mut g = greeter();
    type_text(&mut g, "mia");
    press(&mut g, Key::Enter);
    reply(&mut g, Response::Success);
    let out = reply(
        &mut g,
        Response::Error { error_type: ErrorType::Error, description: "no such shell".to_string() },
    );
    assert!(out.exit.is_none());
    assert_eq!(g.mode, Mode::EnteringUsername);
    match &g.notice {
        Some(Notice::LaunchFailed(text)) => assert_eq!(text, "no such shell"),
        other => panic!("expected the description, got {:?}", other),
    }
}

#[test]
fn info_message_is_answered_at_once() {
    let mut g = greeter();
    type_text(&mut g, "nina");
    press(&mut g, Key::Enter);
    let out = reply(&mut g, auth_message(AuthMessageType::Info, "Touch the key"));
    match out.request {
        Some(Request::PostAuthMessageResponse { response }) => assert_eq!(response, None),
        other => panic!("expected an empty answer, got {:?}", other),
    }
    assert!(g.pending);
    assert_eq!(g.phase, Phase::AwaitingDaemon);
    assert_eq!(g.session.as_ref().unwrap().exchanges.len(), 1);
    match &g.notice {
        Some(Notice::Message(text)) => assert_eq!(text, "Touch the key"),
        other => panic!("expected the message, got {:?}", other),
    }
}

#[test]
fn username_is_retained_after_rejection_when_configured() {
    let mut config = config_with_command("/bin/bash");
    config.remember.username = true;
    let mut g = Greeter::new(config, Vec::new(), Vec::new());
    type_text(&mut g, "olga");
    press(&mut g, Key::Enter);
    reply(&mut g, auth_message(AuthMessageType::Secret, "Password:"));
    type_text(&mut g, "nope");
    press(&mut g, Key::Enter);
    reply(
        &mut g,
        Response::Error { error_type: ErrorType::AuthError, description: "denied".to_string() },
    );
    assert_eq!(g.input.text(), "olga");
    assert_eq!(g.input.cursor, 4);
}

#[test]
fn username_is_cleared_after_rejection_by_default() {
    let mut g = greeter();
    type_text(&mut g, "paul");
    press(&mut g, Key::Enter);
    reply(
        &mut g,
        Response::Error { error_type: ErrorType::AuthError, description: "denied".to_string() },
    );
    assert!(g.input.chars.is_empty());
}

#[test]
fn session_menu_changes_launch_target_without_traffic() {
    let sessions = vec![
        SessionEntry {
            name: "Sway".to_string(),
            command: vec!["sway".to_string()],
            environment: vec!["XDG_SESSION_TYPE=wayland".to_string()],
        },
        SessionEntry {
            name: "Fish".to_string(),
            command: vec!["/usr/bin/fish".to_string()],
            environment: Vec::new(),
        },
    ];
    let mut g = Greeter::new(config_with_command("/bin/bash"), sessions, Vec::new());
    type_text(&mut g, "quinn");
    press(&mut g, Key::Enter);
    reply(&mut g, auth_message(AuthMessageType::Secret, "Password:"));

    let out = press(&mut g, Key::F(3));
    assert!(out.request.is_none());
    assert_eq!(g.mode, Mode::Sessions);
    let out = press(&mut g, Key::Down);
    assert!(out.redraw);
    assert_eq!(g.selected, 1);
    let out = press(&mut g, Key::Down);
    assert!(is_quiet(&out));
    let out = press(&mut g, Key::Enter);
    assert!(out.request.is_none());
    assert!(!out.cancel);
    assert_eq!(g.mode, Mode::SecretPrompt);
    assert_eq!(g.command, vec!["/usr/bin/fish".to_string()]);
    assert!(g.command_chosen);
    assert!(g.is_valid());

    type_text(&mut g, "pw");
    press(&mut g, Key::Enter);
    let out = reply(&mut g, Response::Success);
    match out.request {
        Some(Request::StartSession { cmd, env }) => {
            assert_eq!(cmd, vec!["/usr/bin/fish".to_string()]);
            assert!(env.is_empty());
        },
        other => panic!("expected StartSession, got {:?}", other),
    }
}

#[test]
fn launch_uses_selection_made_between_attempts() {
    let sessions = vec![SessionEntry {
        name: "Sway".to_string(),
        command: vec!["sway".to_string()],
        environment: vec!["A=1".to_string()],
    }];
    let mut g = Greeter::new(config_with_command("/bin/bash"), sessions, Vec::new());
    // first attempt is cancelled
    type_text(&mut g, "rob");
    press(&mut g, Key::Enter);
    press(&mut g, Key::Esc);
    // selection changes before the second attempt
    press(&mut g, Key::F(3));
    press(&mut g, Key::Enter);
    type_text(&mut g, "rob");
    press(&mut g, Key::Enter);
    let out = reply(&mut g, Response::Success);
    match out.request {
        Some(Request::StartSession { cmd, env }) => {
            assert_eq!(cmd, vec!["sway".to_string()]);
            assert_eq!(env, vec!["A=1".to_string()]);
        },
        other => panic!("expected StartSession, got {:?}", other),
    }
}

#[test]
fn command_menu_sets_typed_command() {
    let mut g = greeter();
    let out = press(&mut g, Key::F(2));
    assert!(out.redraw);
    assert_eq!(g.mode, Mode::Command);
    type_text(&mut g, "zsh");
    // the name line is untouched by what is typed in the menu
    assert!(g.input.chars.is_empty());
    let out = press(&mut g, Key::Enter);
    assert!(out.request.is_none());
    assert_eq!(g.mode, Mode::EnteringUsername);
    assert_eq!(g.command, vec!["zsh".to_string()]);
    assert!(g.command_input.chars.is_empty());
}

#[test]
fn empty_command_keeps_the_launch_target() {
    let mut g = greeter();
    press(&mut g, Key::F(2));
    press(&mut g, Key::Enter);
    assert_eq!(g.mode, Mode::EnteringUsername);
    assert_eq!(g.command, vec!["/bin/bash".to_string()]);
    assert!(!g.command_chosen);
}

#[test]
fn power_menu_asks_for_power_action_and_keeps_session() {
    let mut g = greeter();
    type_text(&mut g, "sam");
    press(&mut g, Key::Enter);
    reply(&mut g, auth_message(AuthMessageType::Visible, "Code:"));
    press(&mut g, Key::F(12));
    assert_eq!(g.mode, Mode::Power);
    press(&mut g, Key::Down);
    let out = press(&mut g, Key::Enter);
    assert_eq!(out.power, Some(PowerChoice::Reboot));
    assert!(out.request.is_none());
    assert!(!out.cancel);
    assert_eq!(g.mode, Mode::VisiblePrompt);
    assert_eq!(g.phase, Phase::RelayingPrompt);
    assert_eq!(g.session.as_ref().unwrap().username, "sam");
}

#[test]
fn power_menu_first_entry_is_shutdown() {
    let mut g = greeter();
    press(&mut g, Key::F(12));
    let out = press(&mut g, Key::Enter);
    assert_eq!(out.power, Some(PowerChoice::Shutdown));
    assert_eq!(g.mode, Mode::EnteringUsername);
}

#[test]
fn users_menu_fills_in_the_name() {
    let mut config = config_with_command("/bin/bash");
    config.user_menu.enabled = true;
    let users = vec!["alice".to_string(), "bob".to_string()];
    let mut g = Greeter::new(config, Vec::new(), users);
    let out = press(&mut g, Key::Tab);
    assert!(out.redraw);
    assert_eq!(g.mode, Mode::Users);
    press(&mut g, Key::Down);
    let out = press(&mut g, Key::Enter);
    assert!(out.request.is_none());
    assert_eq!(g.mode, Mode::EnteringUsername);
    assert_eq!(g.input.text(), "bob");
}

#[test]
fn users_menu_stays_shut_when_disabled() {
    let mut g = greeter();
    let out = press(&mut g, Key::Tab);
    assert!(is_quiet(&out));
    assert_eq!(g.mode, Mode::EnteringUsername);
}

#[test]
fn editing_keys_move_and_change_the_line() {
    let mut g = greeter();
    type_text(&mut g, "abc");
    assert_eq!(g.input.cursor, 3);
    let out = press(&mut g, Key::Left);
    assert!(out.redraw);
    press(&mut g, Key::Char('X'));
    assert_eq!(g.input.text(), "abXc");
    press(&mut g, Key::Backspace);
    assert_eq!(g.input.text(), "abc");
    press(&mut g, Key::Delete);
    assert_eq!(g.input.text(), "ab");
    let out = press(&mut g, Key::Right);
    assert!(is_quiet(&out));
    press(&mut g, Key::Left);
    press(&mut g, Key::Left);
    let out = press(&mut g, Key::Left);
    assert!(is_quiet(&out));
    let out = press(&mut g, Key::Backspace);
    assert!(is_quiet(&out));
    assert_eq!(g.input.cursor, 0);
}

#[test]
fn reapplying_the_same_configuration_changes_nothing() {
    let mut config = config_with_command("/bin/zsh");
    config.keybindings.command = 5;
    config.keybindings.sessions = 6;
    config.keybindings.power = 7;
    let mut g = greeter();
    type_text(&mut g, "tina");
    press(&mut g, Key::Enter);
    reply(&mut g, auth_message(AuthMessageType::Secret, "Password:"));

    g.handle(Event::ConfigReloaded(config.clone()));
    let once = format!("{:?}", g);
    g.handle(Event::ConfigReloaded(config.clone()));
    let twice = format!("{:?}", g);
    assert_eq!(once, twice);
    assert_eq!(g.mode, Mode::SecretPrompt);
    assert_eq!(g.kb_command, 5);
    assert_eq!(g.command, vec!["/bin/zsh".to_string()]);
    assert_eq!(g.session.as_ref().unwrap().command, vec!["/bin/zsh".to_string()]);
    assert!(g.is_valid());

    // the new binding opens the menu, the old one does not
    let out = press(&mut g, Key::F(2));
    assert!(!matches!(g.mode, Mode::Command));
    assert!(out.request.is_none());
    press(&mut g, Key::Backspace);
    press(&mut g, Key::F(5));
    assert_eq!(g.mode, Mode::Command);
}

#[test]
fn configuration_does_not_override_a_chosen_command() {
    let mut g = greeter();
    press(&mut g, Key::F(2));
    type_text(&mut g, "fish");
    press(&mut g, Key::Enter);
    g.apply_config(config_with_command("/bin/zsh"));
    assert_eq!(g.command, vec!["fish".to_string()]);
}

#[test]
fn failure_leaves_the_screen_after_its_ticks() {
    let mut g = greeter();
    type_text(&mut g, "uma");
    press(&mut g, Key::Enter);
    let attempt = g.attempt;
    g.handle(Event::Failure { attempt, error: IpcError::Io });
    assert_eq!(g.error_ticks, 5);
    for _ in 0..4 {
        let out = g.handle(Event::Tick);
        assert!(!out.redraw);
        assert_eq!(g.mode, Mode::Error);
    }
    let out = g.handle(Event::Tick);
    assert!(out.redraw);
    assert_eq!(g.mode, Mode::EnteringUsername);
    assert!(g.notice.is_none());
}

#[test]
fn tick_redraws_only_when_a_clock_is_shown() {
    let mut g = greeter();
    assert!(!g.handle(Event::Tick).redraw);
    let mut config = config_with_command("/bin/bash");
    config.display.show_time = true;
    g.apply_config(config);
    assert!(g.handle(Event::Tick).redraw);
}

#[test]
fn resize_asks_for_a_redraw() {
    let mut g = greeter();
    let out = g.handle(Event::Resize(120, 40));
    assert!(out.redraw);
    assert!(out.request.is_none());
}

#[test]
fn terminate_ends_the_conversation_and_tells_the_daemon() {
    let mut g = greeter();
    type_text(&mut g, "vic");
    press(&mut g, Key::Enter);
    let out = g.handle(Event::Terminate);
    assert!(out.cancel);
    assert_eq!(out.exit, Some(ExitReason::Terminated));
    assert_eq!(g.phase, Phase::Terminal);
    assert_eq!(ExitReason::Terminated.code(), 1);
    let out = g.handle(Event::Terminate);
    assert!(is_quiet(&out));
}

#[test]
fn exhausted_attempt_numbers_end_the_process() {
    let mut g = greeter();
    g.attempt = u64::MAX;
    type_text(&mut g, "walt");
    let out = press(&mut g, Key::Enter);
    assert!(out.request.is_none());
    assert_eq!(out.exit, Some(ExitReason::Exhausted));
    assert_eq!(g.phase, Phase::Terminal);
    assert_eq!(ExitReason::Exhausted.code(), 1);
}

#[test]
fn no_request_is_sent_while_one_is_outstanding() {
    // whatever the daemon replies and whatever the user does, a request
    // only leaves when none is due or when the event answered the one due
    let mut g = greeter();
    let attempt_of = |g: &Greeter| g.attempt;
    let events = vec![
        Event::KeyPress(Key::Char('x')),
        Event::KeyPress(Key::Enter),
        Event::KeyPress(Key::Enter),
        Event::Tick,
        Event::Reply { attempt: 1, response: auth_message(AuthMessageType::Info, "hi") },
        Event::KeyPress(Key::Enter),
        Event::Reply { attempt: 1, response: auth_message(AuthMessageType::Visible, "PIN:") },
        Event::Reply { attempt: 1, response: Response::Success },
        Event::KeyPress(Key::Char('1')),
        Event::KeyPress(Key::Enter),
        Event::KeyPress(Key::Enter),
        Event::Reply { attempt: 0, response: Response::Success },
        Event::Reply { attempt: 1, response: Response::Success },
        Event::KeyPress(Key::Enter),
        Event::Reply { attempt: 1, response: Response::Success },
    ];
    for event in events {
        let was_pending = g.pending;
        let answers = matches!(&event, Event::Reply { attempt, .. } if *attempt == attempt_of(&g));
        let out = g.handle(event);
        if out.request.is_some() {
            assert!(!was_pending || answers);
            assert!(g.pending);
        }
        assert!(g.is_valid());
    }
    assert_eq!(g.phase, Phase::Terminal);
}

#[test]
fn scheduler_applies_events_in_arrival_order() {
    let mut s = Scheduler::new(greeter());
    s.post(Event::KeyPress(Key::Char('a')));
    s.post(Event::KeyPress(Key::Char('b')));
    s.post(Event::KeyPress(Key::Enter));
    s.post(Event::Reply { attempt: 1, response: Response::Success });
    assert_eq!(s.waiting(), 4);
    let outcomes = s.drain();
    assert_eq!(s.waiting(), 0);
    assert_eq!(outcomes.len(), 4);
    assert!(outcomes[0].request.is_none());
    match &outcomes[2].request {
        Some(Request::CreateSession { username }) => assert_eq!(username, "ab"),
        other => panic!("expected CreateSession, got {:?}", other),
    }
    assert!(matches!(outcomes[3].request, Some(Request::StartSession { .. })));
    assert_eq!(s.greeter.phase, Phase::Launching);
}

#[test]
fn scheduler_dispatches_one_event_at_a_time() {
    let mut s = Scheduler::new(greeter());
    assert!(s.dispatch().is_none());
    s.post(Event::KeyPress(Key::Char('z')));
    s.post(Event::Tick);
    let first = s.dispatch().unwrap();
    assert!(first.redraw);
    assert_eq!(s.waiting(), 1);
    assert_eq!(s.greeter.input.text(), "z");
    let second = s.dispatch().unwrap();
    assert!(!second.redraw);
    assert!(s.dispatch().is_none());
}

#[test]
fn desktop_entries_describe_sessions() {
    let content = "[Desktop Entry]\nName=Sway\nComment=A tiling compositor\nExec=sway --unsupported-gpu\nType=Application\n";
    let entry = session_from_desktop_entry(content, vec!["A=1".to_string()]).unwrap();
    assert_eq!(entry.name, "Sway");
    assert_eq!(entry.command, vec!["sway --unsupported-gpu".to_string()]);
    assert_eq!(entry.environment, vec!["A=1".to_string()]);

    let entry = session_from_desktop_entry(" Exec = i3 \r\nName= i3 wm\nName=other\n", Vec::new()).unwrap();
    assert_eq!(entry.name, "i3 wm");
    assert_eq!(entry.command, vec!["i3".to_string()]);

    assert!(session_from_desktop_entry("Name=NoExec\n", Vec::new()).is_none());
    assert!(session_from_desktop_entry("Exec=noname\n", Vec::new()).is_none());
    assert!(session_from_desktop_entry("Name=Empty\nExec=\n", Vec::new()).is_none());
    assert!(session_from_desktop_entry("", Vec::new()).is_none());
    // a key is matched as a whole
    assert!(session_from_desktop_entry("Name[de]=Sitzung\nExec=x\n", Vec::new()).is_none());
}

#[test]
fn password_lines_name_users_in_range() {
    let line = "alice:x:1000:1000:Alice:/home/alice:/bin/bash";
    assert_eq!(user_from_passwd_line(line, 1000, 60000), Some("alice".to_string()));
    assert_eq!(user_from_passwd_line(line, 1001, 60000), None);
    assert_eq!(user_from_passwd_line(line, 0, 999), None);
    assert_eq!(user_from_passwd_line(line, 1000, 1000), Some("alice".to_string()));
    assert_eq!(user_from_passwd_line("root:x:0:0::/root:/bin/sh", 1000, 60000), None);
    assert_eq!(user_from_passwd_line("root:x:0:0::/root:/bin/sh", 0, 0), Some("root".to_string()));
    assert_eq!(user_from_passwd_line("short:x", 0, 60000), None);
    assert_eq!(user_from_passwd_line(":x:1000", 0, 60000), None);
    assert_eq!(user_from_passwd_line("bad:x:abc:1", 0, 60000), None);
    assert_eq!(user_from_passwd_line("neg:x:-1:1", 0, 60000), None);
    assert_eq!(user_from_passwd_line("", 0, 60000), None);
    assert_eq!(user_from_passwd_line("min:x:1000", 1000, 60000), Some("min".to_string()));
}

fn rejected_greeter() -> Greeter {
    let mut g = greeter();
    type_text(&mut g, "xena");
    press(&mut g, Key::Enter);
    reply(
        &mut g,
        Response::Error { error_type: ErrorType::AuthError, description: "denied".to_string() },
    );
    assert!(matches!(g.notice, Some(Notice::AuthRejected(_))));
    assert_eq!(g.mode, Mode::EnteringUsername);
    g
}

#[test]
fn rejection_leaves_the_screen_with_the_next_key() {
    let mut g = rejected_greeter();
    let out = press(&mut g, Key::Char('y'));
    assert!(out.redraw);
    assert!(g.notice.is_none());
    assert_eq!(g.error_ticks, 0);
    // and the key did what it does
    assert_eq!(g.input.text(), "y");
    assert!(g.is_valid());

    // a key that does nothing else still takes the rejection away
    let mut g = rejected_greeter();
    let out = press(&mut g, Key::Left);
    assert!(out.redraw);
    assert!(g.notice.is_none());
}

#[test]
fn rejection_leaves_the_screen_after_its_ticks() {
    let mut g = rejected_greeter();
    for _ in 0..4 {
        g.handle(Event::Tick);
        assert!(g.notice.is_some());
    }
    let out = g.handle(Event::Tick);
    assert!(out.redraw);
    assert!(g.notice.is_none());
    assert_eq!(g.mode, Mode::EnteringUsername);
    let out = g.handle(Event::Tick);
    assert!(!out.redraw);
}

#[test]
fn a_message_of_the_daemon_stays_while_the_attempt_goes_on() {
    let mut g = greeter();
    type_text(&mut g, "yves");
    press(&mut g, Key::Enter);
    reply(&mut g, auth_message(AuthMessageType::Info, "Touch the key"));
    for _ in 0..10 {
        g.handle(Event::Tick);
    }
    assert!(matches!(g.notice, Some(Notice::Message(_))));
    assert!(g.pending);
}

#[test]
fn actions_spell_out_an_outcome_in_order() {
    let out = Outcome {
        request: Some(Request::CancelSession),
        cancel: true,
        power: Some(PowerChoice::Reboot),
        reconnect: true,
        redraw: true,
        exit: Some(ExitReason::ChannelLost),
    };
    let list = actions(out, 7);
    assert_eq!(list.len(), 8);
    assert!(matches!(list[0], Action::Cancel { attempt: 7 }));
    assert!(matches!(list[1], Action::Reconnect));
    assert!(matches!(list[2], Action::Send { attempt: 7, request: Request::CancelSession }));
    assert!(matches!(list[3], Action::Power(PowerChoice::Reboot)));
    assert!(matches!(list[4], Action::Redraw));
    assert!(matches!(list[5], Action::StopProducers));
    assert!(matches!(list[6], Action::CloseChannel));
    assert!(matches!(list[7], Action::Exit(1)));

    let quiet = Outcome {
        request: None,
        cancel: false,
        power: None,
        reconnect: false,
        redraw: false,
        exit: None,
    };
    assert!(actions(quiet, 0).is_empty());
}

#[test]
fn a_launch_ends_with_the_producers_stopped_and_the_channel_closed() {
    let mut g = greeter();
    type_text(&mut g, "zoe");
    press(&mut g, Key::Enter);
    reply(&mut g, Response::Success);
    let out = reply(&mut g, Response::Success);
    let list = actions(out, g.attempt);
    assert_eq!(list.len(), 4);
    assert!(matches!(list[0], Action::Redraw));
    assert!(matches!(list[1], Action::StopProducers));
    assert!(matches!(list[2], Action::CloseChannel));
    assert!(matches!(list[3], Action::Exit(0)));
}
