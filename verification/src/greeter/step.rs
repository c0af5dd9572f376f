//! What each event does to the state and what it asks of the outside
//! world, as mathematics: the functions here are what the executable
//! transitions are held to.

use vstd::prelude::*;
use crate::config::schema::{Config, ConfigView};
use crate::greeter::input::InputView;
use crate::greeter::state::{
    config_applied, is_menu, ExitReason, GreeterView, Mode, NoticeView, Phase, PowerChoice,
    PromptView, SessionView, ERROR_TICKS,
};
use crate::ipc::{AuthMessageType, IpcError, Request, RequestView, Response, ResponseView};

verus! {

/// A key, as far as the greeter tells keys apart.
#[derive(Debug, Clone, Copy, PartialEq, Eq, Structural)]
pub enum Key {
    Char(char),
    Enter,
    Esc,
    Backspace,
    Delete,
    Left,
    Right,
    Up,
    Down,
    Tab,
    /// A function key, by its number
    F(u8),
    /// Any key that means nothing to the greeter
    Other,
}

/// What can happen to the greeter.
#[derive(Debug, Clone)]
pub enum Event {
    /// A key was pressed.
    KeyPress(Key),
    /// The terminal changed its size to so many columns and rows.
    Resize(u16, u16),
    /// The clock ticked.
    Tick,
    /// A new configuration was read and is to be put in force.
    ConfigReloaded(Config),
    /// The daemon replied to a request of the attempt with this number.
    Reply { attempt: u64, response: Response },
    /// A request of the attempt with this number could not be exchanged.
    Failure { attempt: u64, error: IpcError },
    /// The process was told to end.
    Terminate,
}

pub enum EventView {
    KeyPress(Key),
    Resize(u16, u16),
    Tick,
    ConfigReloaded(ConfigView),
    Reply { attempt: u64, response: ResponseView },
    Failure { attempt: u64, error: IpcError },
    Terminate,
}

impl View for Event {
    type V = EventView;

    open spec fn view(&self) -> EventView {
        match self {
            Event::KeyPress(k) => EventView::KeyPress(*k),
            Event::Resize(w, h) => EventView::Resize(*w, *h),
            Event::Tick => EventView::Tick,
            Event::ConfigReloaded(c) => EventView::ConfigReloaded(c@),
            Event::Reply { attempt, response } => EventView::Reply {
                attempt: *attempt,
                response: response@,
            },
            Event::Failure { attempt, error } => EventView::Failure {
                attempt: *attempt,
                error: *error,
            },
            Event::Terminate => EventView::Terminate,
        }
    }
}

/// What the greeter asks of the outside world after an event.
#[derive(Debug, Clone)]
pub struct Outcome {
    /// A request to send to the daemon, whose reply is then due
    pub request: Option<Request>,
    /// Whether to tell the daemon, without waiting for an answer, that the
    /// attempt is off
    pub cancel: bool,
    /// A power action to carry out
    pub power: Option<PowerChoice>,
    /// Whether to open the channel to the daemon anew
    pub reconnect: bool,
    /// Whether the screen has to be drawn again
    pub redraw: bool,
    /// Whether to end the process, and why
    pub exit: Option<ExitReason>,
}

pub struct OutcomeView {
    pub request: Option<RequestView>,
    pub cancel: bool,
    pub power: Option<PowerChoice>,
    pub reconnect: bool,
    pub redraw: bool,
    pub exit: Option<ExitReason>,
}

impl View for Outcome {
    type V = OutcomeView;

    open spec fn view(&self) -> OutcomeView {
        OutcomeView {
            request: match self.request {
                Some(r) => Some(r@),
                None => None,
            },
            cancel: self.cancel,
            power: self.power,
            reconnect: self.reconnect,
            redraw: self.redraw,
            exit: self.exit,
        }
    }
}

/// Nothing is asked.
pub open spec fn quiet() -> OutcomeView {
    OutcomeView {
        request: None,
        cancel: false,
        power: None,
        reconnect: false,
        redraw: false,
        exit: None,
    }
}

/// Only a redraw is asked.
pub open spec fn drawn() -> OutcomeView {
    OutcomeView { redraw: true, ..quiet() }
}

/// A request is sent and the screen drawn again.
pub open spec fn sending(request: RequestView) -> OutcomeView {
    OutcomeView { request: Some(request), redraw: true, ..quiet() }
}

// ---------------------------------------------------------------------
// Ends of an attempt
// ---------------------------------------------------------------------

/// The conversation is over for good.
pub open spec fn ended(s: GreeterView, reason: ExitReason) -> GreeterView {
    GreeterView {
        phase: Phase::Terminal,
        exit: Some(reason),
        session: None,
        pending: false,
        mode: Mode::Processing,
        ..s
    }
}

/// The daemon turned the attempt down, at the authentication or at the
/// launch: the user is asked for a name again and told why. The name stays
/// in the line if the configuration says so.
pub open spec fn rejected(s: GreeterView, username: Seq<char>, notice: NoticeView)
    -> GreeterView {
    GreeterView {
        session: None,
        pending: false,
        phase: Phase::EnteringUsername,
        mode: Mode::EnteringUsername,
        notice: Some(notice),
        input: if s.remember_username {
            InputView::holding(username)
        } else {
            InputView::empty()
        },
        error_ticks: ERROR_TICKS,
        channel_failed: false,
        ..s
    }
}

/// The exchange itself failed: the attempt is dropped and the failure
/// shown until it is dismissed.
pub open spec fn failed(s: GreeterView, error: IpcError) -> GreeterView {
    GreeterView {
        session: None,
        pending: false,
        phase: Phase::EnteringUsername,
        mode: Mode::Error,
        notice: Some(NoticeView::Failure(error)),
        error_ticks: ERROR_TICKS,
        ..s
    }
}

/// Whether a failure or a rejection is on screen and due to leave it, by
/// a key or by time.
pub open spec fn shows_failure(s: GreeterView) -> bool {
    s.mode == Mode::Error || s.error_ticks > 0
}

/// A failure or a rejection leaves the screen. After a failure the user is
/// asked for a name again.
pub open spec fn dismissed(s: GreeterView) -> GreeterView {
    GreeterView {
        mode: if s.mode == Mode::Error {
            Mode::EnteringUsername
        } else {
            s.mode
        },
        notice: None,
        error_ticks: 0,
        ..s
    }
}

/// The user calls the attempt off, whatever its state: the daemon is told
/// if there is an attempt to call off, and the user is asked for a name.
pub open spec fn cancelled(s: GreeterView) -> (GreeterView, OutcomeView) {
    if s.is_terminal() {
        (s, quiet())
    } else {
        (
            GreeterView {
                session: None,
                pending: false,
                phase: Phase::EnteringUsername,
                mode: Mode::EnteringUsername,
                input: InputView::empty(),
                notice: None,
                error_ticks: 0,
                ..s
            },
            OutcomeView { cancel: s.session is Some, redraw: true, ..quiet() },
        )
    }
}

/// The process is told to end.
pub open spec fn terminated(s: GreeterView) -> (GreeterView, OutcomeView) {
    if s.is_terminal() {
        (s, quiet())
    } else {
        (
            ended(s, ExitReason::Terminated),
            OutcomeView {
                cancel: s.session is Some,
                exit: Some(ExitReason::Terminated),
                ..quiet()
            },
        )
    }
}

// ---------------------------------------------------------------------
// Submissions
// ---------------------------------------------------------------------

/// The user submits the name in the line. An empty name is not sent.
pub open spec fn username_submitted(s: GreeterView) -> (GreeterView, OutcomeView) {
    if s.input.chars.len() == 0 {
        (s, quiet())
    } else if s.attempt == u64::MAX {
        (
            ended(s, ExitReason::Exhausted),
            OutcomeView { exit: Some(ExitReason::Exhausted), redraw: true, ..quiet() },
        )
    } else {
        (
            GreeterView {
                session: Some(
                    SessionView {
                        username: s.input.chars,
                        prompt: None,
                        exchanges: Seq::empty(),
                        command: s.command,
                        environment: s.environment,
                    },
                ),
                pending: true,
                phase: Phase::AwaitingDaemon,
                mode: Mode::Processing,
                attempt: (s.attempt + 1) as u64,
                notice: None,
                error_ticks: 0,
                ..s
            },
            sending(RequestView::CreateSession { username: s.input.chars }),
        )
    }
}

/// The user submits the answer to the question that waits. The answer
/// leaves the line with the request and is kept nowhere.
pub open spec fn answer_submitted(s: GreeterView) -> (GreeterView, OutcomeView) {
    match s.session {
        Some(session) => match session.prompt {
            Some(p) => (
                GreeterView {
                    session: Some(
                        SessionView {
                            prompt: None,
                            exchanges: session.exchanges.push(p),
                            ..session
                        },
                    ),
                    pending: true,
                    phase: Phase::AwaitingDaemon,
                    mode: Mode::Processing,
                    input: InputView::empty(),
                    ..s
                },
                sending(RequestView::PostAuthMessageResponse { response: Some(s.input.chars) }),
            ),
            None => (s, quiet()),
        },
        None => (s, quiet()),
    }
}

// ---------------------------------------------------------------------
// Replies and failures
// ---------------------------------------------------------------------

/// Whether a reply or a failure tagged `attempt` belongs to a request that
/// is still waited for. What does not is dropped.
pub open spec fn is_current(s: GreeterView, attempt: u64) -> bool {
    !s.is_terminal() && s.pending && attempt == s.attempt && s.session is Some
}

/// The daemon replies.
pub open spec fn replied(s: GreeterView, attempt: u64, response: ResponseView) -> (
    GreeterView,
    OutcomeView,
) {
    if !is_current(s, attempt) {
        (s, quiet())
    } else {
        let session = s.session->0;
        match response {
            ResponseView::Error { error_type, description } => (
                rejected(
                    s,
                    session.username,
                    if s.phase == Phase::Launching {
                        NoticeView::LaunchFailed(description)
                    } else {
                        NoticeView::AuthRejected(description)
                    },
                ),
                drawn(),
            ),
            ResponseView::Success => {
                if s.phase == Phase::Launching {
                    (
                        GreeterView { channel_failed: false, ..ended(s, ExitReason::Launched) },
                        OutcomeView {
                            exit: Some(ExitReason::Launched),
                            redraw: true,
                            ..quiet()
                        },
                    )
                } else {
                    (
                        GreeterView { phase: Phase::Launching, channel_failed: false, ..s },
                        sending(
                            RequestView::StartSession {
                                cmd: session.command,
                                env: session.environment,
                            },
                        ),
                    )
                }
            },
            ResponseView::AuthMessage { auth_message_type, auth_message } => {
                let prompt = PromptView { kind: auth_message_type, text: auth_message };
                if s.phase == Phase::Launching {
                    (
                        failed(s, IpcError::UnexpectedResponse),
                        OutcomeView { cancel: true, redraw: true, ..quiet() },
                    )
                } else if auth_message_type == AuthMessageType::Visible || auth_message_type
                    == AuthMessageType::Secret {
                    (
                        GreeterView {
                            session: Some(SessionView { prompt: Some(prompt), ..session }),
                            pending: false,
                            phase: Phase::RelayingPrompt,
                            mode: if auth_message_type == AuthMessageType::Secret {
                                Mode::SecretPrompt
                            } else {
                                Mode::VisiblePrompt
                            },
                            input: InputView::empty(),
                            channel_failed: false,
                            ..s
                        },
                        drawn(),
                    )
                } else {
                    (
                        GreeterView {
                            session: Some(
                                SessionView {
                                    exchanges: session.exchanges.push(prompt),
                                    ..session
                                },
                            ),
                            notice: Some(NoticeView::Message(auth_message)),
                            channel_failed: false,
                            ..s
                        },
                        sending(RequestView::PostAuthMessageResponse { response: None }),
                    )
                }
            },
        }
    }
}

/// Whether a failure says that the channel itself is gone.
pub open spec fn is_channel_failure(error: IpcError) -> bool {
    error == IpcError::Io || error == IpcError::Disconnected
}

/// An exchange with the daemon fails.
pub open spec fn exchange_failed(s: GreeterView, attempt: u64, error: IpcError) -> (
    GreeterView,
    OutcomeView,
) {
    if !is_current(s, attempt) {
        (s, quiet())
    } else if is_channel_failure(error) {
        if s.channel_failed {
            (
                ended(s, ExitReason::ChannelLost),
                OutcomeView { exit: Some(ExitReason::ChannelLost), redraw: true, ..quiet() },
            )
        } else {
            (
                GreeterView { channel_failed: true, ..failed(s, error) },
                OutcomeView { reconnect: true, redraw: true, ..quiet() },
            )
        }
    } else {
        (failed(s, error), OutcomeView { cancel: true, redraw: true, ..quiet() })
    }
}

// ---------------------------------------------------------------------
// Time, size, configuration
// ---------------------------------------------------------------------

/// The clock ticks: a failure or a rejection on screen comes closer to
/// leaving it, and a clock on screen has to be drawn again.
pub open spec fn ticked(s: GreeterView) -> (GreeterView, OutcomeView) {
    if s.is_terminal() {
        (s, quiet())
    } else if shows_failure(s) {
        if s.error_ticks <= 1 {
            (dismissed(s), drawn())
        } else {
            (
                GreeterView { error_ticks: (s.error_ticks - 1) as u8, ..s },
                OutcomeView { redraw: s.time, ..quiet() },
            )
        }
    } else {
        (s, OutcomeView { redraw: s.time, ..quiet() })
    }
}

/// The terminal changes its size.
pub open spec fn resized(s: GreeterView) -> (GreeterView, OutcomeView) {
    if s.is_terminal() {
        (s, quiet())
    } else {
        (s, drawn())
    }
}

/// A new configuration is put in force.
pub open spec fn reconfigured(s: GreeterView, c: ConfigView) -> (GreeterView, OutcomeView) {
    if s.is_terminal() {
        (s, quiet())
    } else {
        (config_applied(s, c), drawn())
    }
}

// ---------------------------------------------------------------------
// Keys
// ---------------------------------------------------------------------

/// A line after a key that edits it; any other key leaves it alone.
pub open spec fn edited(line: InputView, key: Key) -> InputView {
    match key {
        Key::Char(c) => if line.chars.len() < usize::MAX {
            line.inserted(c)
        } else {
            line
        },
        Key::Backspace => line.backspaced(),
        Key::Delete => line.deleted(),
        Key::Left => line.moved_left(),
        Key::Right => line.moved_right(),
        _ => line,
    }
}

/// The menu that a function key opens, if it is bound to one. Of two
/// menus bound to one key the command menu goes before the sessions menu,
/// and that before the power menu.
pub open spec fn menu_for(s: GreeterView, n: u8) -> Option<Mode> {
    if n == s.kb_command {
        Some(Mode::Command)
    } else if n == s.kb_sessions {
        Some(Mode::Sessions)
    } else if n == s.kb_power {
        Some(Mode::Power)
    } else {
        None
    }
}

/// Number of entries of the list that a mode shows.
pub open spec fn list_len(s: GreeterView, mode: Mode) -> int {
    match mode {
        Mode::Sessions => s.sessions.len() as int,
        Mode::Power => 2,
        Mode::Users => s.users.len() as int,
        _ => 0,
    }
}

/// The state with a launch target picked by the user.
pub open spec fn target_picked(
    s: GreeterView,
    command: Seq<Seq<char>>,
    environment: Seq<Seq<char>>,
) -> GreeterView {
    GreeterView {
        command,
        environment,
        command_chosen: true,
        session: match s.session {
            Some(session) => Some(SessionView { command, environment, ..session }),
            None => None,
        },
        ..s
    }
}

/// The user confirms what a menu shows. The menu closes in any case.
pub open spec fn confirmed(s: GreeterView) -> (GreeterView, OutcomeView) {
    let back = s.base_mode();
    match s.mode {
        Mode::Command => {
            if s.command_input.chars.len() == 0 {
                (GreeterView { mode: back, ..s }, drawn())
            } else {
                (
                    GreeterView {
                        mode: back,
                        command_input: InputView::empty(),
                        ..target_picked(s, seq![s.command_input.chars], s.environment)
                    },
                    drawn(),
                )
            }
        },
        Mode::Sessions => {
            if s.selected < s.sessions.len() {
                let entry = s.sessions[s.selected as int];
                (
                    GreeterView { mode: back, ..target_picked(s, entry.command, entry.environment) },
                    drawn(),
                )
            } else {
                (GreeterView { mode: back, ..s }, drawn())
            }
        },
        Mode::Power => {
            (
                GreeterView { mode: back, ..s },
                OutcomeView {
                    power: if s.selected == 0 {
                        Some(PowerChoice::Shutdown)
                    } else if s.selected == 1 {
                        Some(PowerChoice::Reboot)
                    } else {
                        None
                    },
                    redraw: true,
                    ..quiet()
                },
            )
        },
        Mode::Users => {
            if s.selected < s.users.len() {
                (
                    GreeterView {
                        mode: back,
                        input: InputView::holding(s.users[s.selected as int]),
                        ..s
                    },
                    drawn(),
                )
            } else {
                (GreeterView { mode: back, ..s }, drawn())
            }
        },
        _ => (s, quiet()),
    }
}

/// A key is pressed in a menu.
pub open spec fn menu_key(s: GreeterView, key: Key) -> (GreeterView, OutcomeView) {
    if key == Key::Enter {
        confirmed(s)
    } else if s.mode == Mode::Command {
        let line = edited(s.command_input, key);
        (
            GreeterView { command_input: line, ..s },
            OutcomeView { redraw: line != s.command_input, ..quiet() },
        )
    } else if key == Key::Up && s.selected > 0 {
        (GreeterView { selected: (s.selected - 1) as usize, ..s }, drawn())
    } else if key == Key::Down && s.selected + 1 < list_len(s, s.mode) {
        (GreeterView { selected: (s.selected + 1) as usize, ..s }, drawn())
    } else {
        (s, quiet())
    }
}

/// A key is pressed while the user is asked for a name or an answer.
pub open spec fn line_key(s: GreeterView, key: Key) -> (GreeterView, OutcomeView) {
    if key == Key::Enter {
        if s.mode == Mode::EnteringUsername {
            username_submitted(s)
        } else {
            answer_submitted(s)
        }
    } else {
        let line = edited(s.input, key);
        (GreeterView { input: line, ..s }, OutcomeView { redraw: line != s.input, ..quiet() })
    }
}

/// A key is pressed while nothing stands in its way: it goes to the menu
/// on screen, opens a menu, or goes to the line.
pub open spec fn plain_key(s: GreeterView, key: Key) -> (GreeterView, OutcomeView) {
    if s.mode == Mode::Processing || s.mode == Mode::Error {
        (s, quiet())
    } else if is_menu(s.mode) {
        menu_key(s, key)
    } else if key matches Key::F(n) && menu_for(s, n) is Some {
        (GreeterView { mode: menu_for(s, key->F_0)->0, selected: 0, ..s }, drawn())
    } else if key == Key::Tab && s.mode == Mode::EnteringUsername && s.user_menu {
        (GreeterView { mode: Mode::Users, selected: 0, ..s }, drawn())
    } else {
        line_key(s, key)
    }
}

/// A key is pressed. `Esc` calls the attempt off. Any other key takes a
/// failure off the screen, and does nothing else; it takes a rejection off
/// the screen and then does what it would have done without it.
pub open spec fn key_pressed(s: GreeterView, key: Key) -> (GreeterView, OutcomeView) {
    if s.is_terminal() {
        (s, quiet())
    } else if key == Key::Esc {
        cancelled(s)
    } else if s.mode == Mode::Error {
        (dismissed(s), drawn())
    } else if s.error_ticks > 0 {
        let after = plain_key(dismissed(s), key);
        (after.0, OutcomeView { redraw: true, ..after.1 })
    } else {
        plain_key(s, key)
    }
}

/// What an event does to the state, and what it asks of the outside world.
pub open spec fn step(s: GreeterView, e: EventView) -> (GreeterView, OutcomeView) {
    match e {
        EventView::KeyPress(key) => key_pressed(s, key),
        EventView::Resize(_, _) => resized(s),
        EventView::Tick => ticked(s),
        EventView::ConfigReloaded(c) => reconfigured(s, c),
        EventView::Reply { attempt, response } => replied(s, attempt, response),
        EventView::Failure { attempt, error } => exchange_failed(s, attempt, error),
        EventView::Terminate => terminated(s),
    }
}

} // verus!
