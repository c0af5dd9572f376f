//! What the greeter holds between two events.

use vstd::prelude::*;
use crate::config::schema::{Config, ConfigView};
use crate::greeter::input::{InputBuffer, InputView};
use crate::ipc::{AuthMessageType, IpcError};
use crate::text::list_text;

verus! {

/// What the interaction surface currently shows.
#[derive(Debug, Clone, Copy, PartialEq, Eq, Structural)]
pub enum Mode {
    /// The user is asked for a name.
    EnteringUsername,
    /// A question of the daemon is shown; the answer is echoed.
    VisiblePrompt,
    /// A question of the daemon is shown; the answer is kept out of sight.
    SecretPrompt,
    /// The user types the command to launch.
    Command,
    /// The user picks a session from the list.
    Sessions,
    /// The user picks a power action.
    Power,
    /// The user picks a name from the list of users.
    Users,
    /// The daemon is at work; the user waits.
    Processing,
    /// A failure is shown until it is dismissed.
    Error,
}

/// Where the conversation with the daemon stands.
#[derive(Debug, Clone, Copy, PartialEq, Eq, Structural)]
pub enum Phase {
    /// No attempt is under way.
    EnteringUsername,
    /// A request of the authentication exchange is with the daemon.
    AwaitingDaemon,
    /// The daemon asked a question and the user has not answered yet.
    RelayingPrompt,
    /// The request to start the session is with the daemon.
    Launching,
    /// The conversation is over and the process yields.
    Terminal,
}

/// Why the process ends.
#[derive(Debug, Clone, Copy, PartialEq, Eq, Structural)]
pub enum ExitReason {
    /// The daemon accepted the session and takes over.
    Launched,
    /// The channel to the daemon failed twice in a row.
    ChannelLost,
    /// The process was told to end.
    Terminated,
    /// No number is left to tell a new attempt from the earlier ones.
    Exhausted,
}

impl ExitReason {
    /// The status the process ends with: zero after a launch, non-zero
    /// otherwise, so that a supervisor starts the greeter again.
    pub fn code(&self) -> (code: u8)
        ensures
            (code == 0) == (*self == ExitReason::Launched),
            code <= 1,
    {
        match self {
            ExitReason::Launched => 0,
            _ => 1,
        }
    }
}

/// A power action.
#[derive(Debug, Clone, Copy, PartialEq, Eq, Structural)]
pub enum PowerChoice {
    Shutdown,
    Reboot,
}

/// A message shown beside whatever else is on screen.
#[derive(Debug, Clone)]
pub enum Notice {
    /// Something the daemon wants the user to know during an attempt.
    Message(String),
    /// The daemon turned the authentication down, and said why.
    AuthRejected(String),
    /// The daemon could not start the session, and said why.
    LaunchFailed(String),
    /// A failure of the channel, to be put into words by whoever draws it.
    Failure(IpcError),
}

pub enum NoticeView {
    Message(Seq<char>),
    AuthRejected(Seq<char>),
    LaunchFailed(Seq<char>),
    Failure(IpcError),
}

impl View for Notice {
    type V = NoticeView;

    open spec fn view(&self) -> NoticeView {
        match self {
            Notice::Message(t) => NoticeView::Message(t@),
            Notice::AuthRejected(t) => NoticeView::AuthRejected(t@),
            Notice::LaunchFailed(t) => NoticeView::LaunchFailed(t@),
            Notice::Failure(e) => NoticeView::Failure(*e),
        }
    }
}

/// A message of the daemon within an attempt: its kind and its text.
#[derive(Debug, Clone)]
pub struct Prompt {
    pub kind: AuthMessageType,
    pub text: String,
}

pub struct PromptView {
    pub kind: AuthMessageType,
    pub text: Seq<char>,
}

impl View for Prompt {
    type V = PromptView;

    open spec fn view(&self) -> PromptView {
        PromptView { kind: self.kind, text: self.text@ }
    }
}

/// Views of a list of prompts, item by item.
pub open spec fn prompts_view(v: Seq<Prompt>) -> Seq<PromptView> {
    Seq::new(v.len(), |i: int| v[i]@)
}

/// The attempt in progress.
#[derive(Debug, Clone)]
pub struct Session {
    /// The name being authenticated
    pub username: String,
    /// The question that waits for the user's answer, if any
    pub prompt: Option<Prompt>,
    /// The daemon's messages that have been dealt with, oldest first
    pub exchanges: Vec<Prompt>,
    /// The command to launch on success
    pub command: Vec<String>,
    /// The environment to launch it in
    pub environment: Vec<String>,
}

pub struct SessionView {
    pub username: Seq<char>,
    pub prompt: Option<PromptView>,
    pub exchanges: Seq<PromptView>,
    pub command: Seq<Seq<char>>,
    pub environment: Seq<Seq<char>>,
}

impl View for Session {
    type V = SessionView;

    open spec fn view(&self) -> SessionView {
        SessionView {
            username: self.username@,
            prompt: match self.prompt {
                Some(p) => Some(p@),
                None => None,
            },
            exchanges: prompts_view(self.exchanges@),
            command: list_text(self.command@),
            environment: list_text(self.environment@),
        }
    }
}

/// A session that the user may pick: what the list shows and what is
/// launched for it.
#[derive(Debug, Clone)]
pub struct SessionEntry {
    pub name: String,
    pub command: Vec<String>,
    pub environment: Vec<String>,
}

pub struct SessionEntryView {
    pub name: Seq<char>,
    pub command: Seq<Seq<char>>,
    pub environment: Seq<Seq<char>>,
}

impl View for SessionEntry {
    type V = SessionEntryView;

    open spec fn view(&self) -> SessionEntryView {
        SessionEntryView {
            name: self.name@,
            command: list_text(self.command@),
            environment: list_text(self.environment@),
        }
    }
}

/// Views of a list of session entries, item by item.
pub open spec fn entries_view(v: Seq<SessionEntry>) -> Seq<SessionEntryView> {
    Seq::new(v.len(), |i: int| v[i]@)
}

/// Number of ticks for which a failure stays on screen if no key is
/// pressed.
pub const ERROR_TICKS: u8 = 5;

/// Everything the greeter holds between two events.
#[derive(Debug, Clone)]
pub struct Greeter {
    /// What the screen shows
    pub mode: Mode,
    /// Where the conversation with the daemon stands
    pub phase: Phase,
    /// Why the process ends, once it does
    pub exit: Option<ExitReason>,
    /// The attempt in progress
    pub session: Option<Session>,
    /// Whether a request is with the daemon and its reply still due
    pub pending: bool,
    /// The number of the current attempt, carried by its requests and by
    /// the replies to them
    pub attempt: u64,
    /// Whether the channel failed and has not worked since
    pub channel_failed: bool,
    /// The name or the answer being typed
    pub input: InputBuffer,
    /// The command being typed in the command menu
    pub command_input: InputBuffer,
    /// The entry under the cursor of a list
    pub selected: usize,
    /// The message shown beside the screen, if any
    pub notice: Option<Notice>,
    /// Ticks left before a failure leaves the screen by itself
    pub error_ticks: u8,
    /// The command that a launch would run
    pub command: Vec<String>,
    /// The environment that a launch would run it in
    pub environment: Vec<String>,
    /// Whether the user picked the launch target, rather than the
    /// configuration
    pub command_chosen: bool,
    /// The sessions on offer
    pub sessions: Vec<SessionEntry>,
    /// The users on offer
    pub users: Vec<String>,
    /// F-key that opens the command menu
    pub kb_command: u8,
    /// F-key that opens the sessions menu
    pub kb_sessions: u8,
    /// F-key that opens the power menu
    pub kb_power: u8,
    /// Whether the name stays in the line after a failed attempt
    pub remember_username: bool,
    /// Whether the list of users may be opened
    pub user_menu: bool,
    /// Whether a clock is shown
    pub time: bool,
    /// The configuration in force
    pub loaded_config: Option<Config>,
}

pub struct GreeterView {
    pub mode: Mode,
    pub phase: Phase,
    pub exit: Option<ExitReason>,
    pub session: Option<SessionView>,
    pub pending: bool,
    pub attempt: u64,
    pub channel_failed: bool,
    pub input: InputView,
    pub command_input: InputView,
    pub selected: usize,
    pub notice: Option<NoticeView>,
    pub error_ticks: u8,
    pub command: Seq<Seq<char>>,
    pub environment: Seq<Seq<char>>,
    pub command_chosen: bool,
    pub sessions: Seq<SessionEntryView>,
    pub users: Seq<Seq<char>>,
    pub kb_command: u8,
    pub kb_sessions: u8,
    pub kb_power: u8,
    pub remember_username: bool,
    pub user_menu: bool,
    pub time: bool,
    pub loaded_config: Option<ConfigView>,
}

impl View for Greeter {
    type V = GreeterView;

    open spec fn view(&self) -> GreeterView {
        GreeterView {
            mode: self.mode,
            phase: self.phase,
            exit: self.exit,
            session: match self.session {
                Some(s) => Some(s@),
                None => None,
            },
            pending: self.pending,
            attempt: self.attempt,
            channel_failed: self.channel_failed,
            input: self.input@,
            command_input: self.command_input@,
            selected: self.selected,
            notice: match self.notice {
                Some(n) => Some(n@),
                None => None,
            },
            error_ticks: self.error_ticks,
            command: list_text(self.command@),
            environment: list_text(self.environment@),
            command_chosen: self.command_chosen,
            sessions: entries_view(self.sessions@),
            users: list_text(self.users@),
            kb_command: self.kb_command,
            kb_sessions: self.kb_sessions,
            kb_power: self.kb_power,
            remember_username: self.remember_username,
            user_menu: self.user_menu,
            time: self.time,
            loaded_config: match self.loaded_config {
                Some(c) => Some(c@),
                None => None,
            },
        }
    }
}

/// Whether a mode is one of the menus laid over the conversation.
pub open spec fn is_menu(mode: Mode) -> bool {
    mode == Mode::Command || mode == Mode::Sessions || mode == Mode::Power || mode == Mode::Users
}

impl GreeterView {
    /// The mode that the conversation itself calls for, menus aside: the
    /// mode a menu returns to.
    pub open spec fn base_mode(self) -> Mode {
        match self.phase {
            Phase::EnteringUsername => Mode::EnteringUsername,
            Phase::RelayingPrompt => match self.session {
                Some(s) => match s.prompt {
                    Some(p) => if p.kind == AuthMessageType::Secret {
                        Mode::SecretPrompt
                    } else {
                        Mode::VisiblePrompt
                    },
                    None => Mode::VisiblePrompt,
                },
                None => Mode::VisiblePrompt,
            },
            _ => Mode::Processing,
        }
    }

    /// Whether the conversation is over.
    pub open spec fn is_terminal(self) -> bool {
        self.phase == Phase::Terminal
    }

    /// Whether a question waits for the user's answer.
    pub open spec fn has_prompt(self) -> bool {
        match self.session {
            Some(s) => s.prompt is Some,
            None => false,
        }
    }

    /// The attempt, if there is one, holds a question only if it is one
    /// that asks for an answer, and launches what is selected now.
    pub open spec fn session_wf(self) -> bool {
        match self.session {
            Some(s) => {
                &&& s.command == self.command
                &&& s.environment == self.environment
                &&& match s.prompt {
                    Some(p) => p.kind == AuthMessageType::Visible || p.kind
                        == AuthMessageType::Secret,
                    None => true,
                }
            },
            None => true,
        }
    }

    /// The screen follows the conversation, but for a menu or a failure
    /// laid over a point at which the user is asked for something.
    pub open spec fn mode_wf(self) -> bool {
        ||| self.mode == self.base_mode()
        ||| (is_menu(self.mode) && self.mode != Mode::Users && (self.phase
            == Phase::EnteringUsername || self.phase == Phase::RelayingPrompt))
        ||| (self.mode == Mode::Users && self.phase == Phase::EnteringUsername)
        ||| (self.mode == Mode::Error && self.phase == Phase::EnteringUsername)
    }

    /// What holds of the state between any two events.
    pub open spec fn wf(self) -> bool {
        &&& self.input.wf()
        &&& self.command_input.wf()
        // the process ends exactly when the conversation is over
        &&& (self.phase == Phase::Terminal <==> self.exit is Some)
        // a reply is due exactly while the daemon is at work
        &&& (self.pending <==> (self.phase == Phase::AwaitingDaemon || self.phase
            == Phase::Launching))
        // an attempt exists exactly from the first request to its end
        &&& (self.session is Some <==> (self.phase == Phase::AwaitingDaemon || self.phase
            == Phase::RelayingPrompt || self.phase == Phase::Launching))
        // a question waits exactly while it is relayed
        &&& (self.phase == Phase::RelayingPrompt <==> self.has_prompt())
        // a failure or a rejection is only on its way out between attempts
        &&& (self.error_ticks > 0 ==> self.session is None)
        &&& self.session_wf()
        &&& self.mode_wf()
    }
}

/// The launch target that a configuration names: its command, as the one
/// word of a command line, and its environment.
pub open spec fn configured_command(c: ConfigView) -> Seq<Seq<char>> {
    match c.session.command {
        Some(cmd) => seq![cmd],
        None => Seq::empty(),
    }
}

/// The state with a configuration put in force: key bindings and toggles
/// follow it, and so does the launch target unless the user picked one.
///
/// A configuration is put in force as a whole: nothing here can fail half
/// way, and a configuration that does not pass validation never gets this
/// far.
pub open spec fn config_applied(s: GreeterView, c: ConfigView) -> GreeterView {
    let command = if s.command_chosen {
        s.command
    } else {
        configured_command(c)
    };
    let environment = if s.command_chosen {
        s.environment
    } else {
        c.session.environments
    };
    GreeterView {
        kb_command: c.keybindings.command,
        kb_sessions: c.keybindings.sessions,
        kb_power: c.keybindings.power,
        remember_username: c.remember.username,
        user_menu: c.user_menu.enabled,
        time: c.display.show_time,
        command,
        environment,
        session: match s.session {
            Some(session) => Some(SessionView { command, environment, ..session }),
            None => None,
        },
        loaded_config: Some(c),
        ..s
    }
}

/// The state in which the greeter starts.
pub open spec fn initial(
    c: ConfigView,
    sessions: Seq<SessionEntryView>,
    users: Seq<Seq<char>>,
) -> GreeterView {
    GreeterView {
        mode: Mode::EnteringUsername,
        phase: Phase::EnteringUsername,
        exit: None,
        session: None,
        pending: false,
        attempt: 0,
        channel_failed: false,
        input: InputView::empty(),
        command_input: InputView::empty(),
        selected: 0,
        notice: None,
        error_ticks: 0,
        command: configured_command(c),
        environment: c.session.environments,
        command_chosen: false,
        sessions,
        users,
        kb_command: c.keybindings.command,
        kb_sessions: c.keybindings.sessions,
        kb_power: c.keybindings.power,
        remember_username: c.remember.username,
        user_menu: c.user_menu.enabled,
        time: c.display.show_time,
        loaded_config: Some(c),
    }
}

/// The command of a configuration, as a launch target.
pub fn command_of(config: &Config) -> (r: Vec<String>)
    ensures
        list_text(r@) == configured_command(config@),
{
    let mut r: Vec<String> = Vec::new();
    match &config.session.command {
        Some(cmd) => {
            r.push(cmd.clone());
            assert(list_text(r@) =~= seq![cmd@]);
        },
        None => {
            assert(list_text(r@) =~= Seq::<Seq<char>>::empty());
        },
    }
    r
}

} // verus!
