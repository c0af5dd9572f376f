//! The transitions, as they run: each is held to the function of the same
//! event in `step`.

use vstd::prelude::*;
use crate::config::schema::Config;
use crate::greeter::input::InputBuffer;
use crate::greeter::laws::lemma_step_preserves_wf;
use crate::greeter::state::{
    command_of, config_applied, entries_view, initial, ExitReason, Greeter, Mode, Notice, Phase,
    PowerChoice, Prompt, Session, SessionEntry, ERROR_TICKS, prompts_view,
};
use crate::greeter::step::{
    answer_submitted, cancelled, confirmed, dismissed, drawn, edited, ended, exchange_failed,
    failed, key_pressed, line_key, menu_for, menu_key, plain_key, quiet, reconfigured, rejected,
    replied,
    resized, sending, step, target_picked, terminated, ticked, username_submitted, Event, Key,
    Outcome,
};
use crate::ipc::{AuthMessageType, IpcError, Request, Response};
use crate::text::{clone_string_list, list_text, string_list_eq};

verus! {

impl Outcome {
    /// Nothing is asked.
    pub fn quiet() -> (out: Outcome)
        ensures
            out@ == quiet(),
    {
        Outcome {
            request: None,
            cancel: false,
            power: None,
            reconnect: false,
            redraw: false,
            exit: None,
        }
    }

    /// Only a redraw is asked.
    pub fn drawn() -> (out: Outcome)
        ensures
            out@ == drawn(),
    {
        Outcome {
            request: None,
            cancel: false,
            power: None,
            reconnect: false,
            redraw: true,
            exit: None,
        }
    }

    /// A request is sent and the screen drawn again.
    pub fn sending(request: Request) -> (out: Outcome)
        ensures
            out@ == sending(request@),
    {
        Outcome {
            request: Some(request),
            cancel: false,
            power: None,
            reconnect: false,
            redraw: true,
            exit: None,
        }
    }
}

/// Apply a key to a line and say whether the line changed.
pub fn edit(line: &mut InputBuffer, key: Key) -> (changed: bool)
    requires
        old(line)@.wf(),
    ensures
        final(line)@ == edited(old(line)@, key),
        final(line)@.wf(),
        changed == (final(line)@ != old(line)@),
{
    match key {
        Key::Char(c) => {
            let grows = line.chars.len() < usize::MAX;
            line.insert(c);
            assert(grows ==> line@.chars.len() != old(line)@.chars.len());
            grows
        },
        Key::Backspace => {
            let moves = line.cursor > 0;
            line.backspace();
            moves
        },
        Key::Delete => {
            let shrinks = line.cursor < line.chars.len();
            line.delete();
            assert(shrinks ==> line@.chars.len() != old(line)@.chars.len());
            shrinks
        },
        Key::Left => {
            let moves = line.cursor > 0;
            line.left();
            moves
        },
        Key::Right => {
            let moves = line.cursor < line.chars.len();
            line.right();
            moves
        },
        _ => false,
    }
}

impl Greeter {
    /// The greeter as it starts: the user is asked for a name, and the
    /// configuration is in force.
    pub fn new(config: Config, sessions: Vec<SessionEntry>, users: Vec<String>) -> (g: Greeter)
        ensures
            g@ == initial(config@, entries_view(sessions@), list_text(users@)),
            g@.wf(),
    {
        let command = command_of(&config);
        let environment = clone_string_list(&config.session.environments);
        Greeter {
            mode: Mode::EnteringUsername,
            phase: Phase::EnteringUsername,
            exit: None,
            session: None,
            pending: false,
            attempt: 0,
            channel_failed: false,
            input: InputBuffer::new(),
            command_input: InputBuffer::new(),
            selected: 0,
            notice: None,
            error_ticks: 0,
            command,
            environment,
            command_chosen: false,
            sessions,
            users,
            kb_command: config.keybindings.command,
            kb_sessions: config.keybindings.sessions,
            kb_power: config.keybindings.power,
            remember_username: config.remember.username,
            user_menu: config.user_menu.enabled,
            time: config.display.show_time,
            loaded_config: Some(config),
        }
    }

    /// Whether the conversation is over.
    pub fn is_terminal(&self) -> (r: bool)
        ensures
            r == self@.is_terminal(),
    {
        self.phase == Phase::Terminal
    }

    /// The mode that the conversation itself calls for, menus aside.
    pub fn base_mode(&self) -> (mode: Mode)
        ensures
            mode == self@.base_mode(),
    {
        match self.phase {
            Phase::EnteringUsername => Mode::EnteringUsername,
            Phase::RelayingPrompt => match &self.session {
                Some(s) => match &s.prompt {
                    Some(p) => if p.kind == AuthMessageType::Secret {
                        Mode::SecretPrompt
                    } else {
                        Mode::VisiblePrompt
                    },
                    None => Mode::VisiblePrompt,
                },
                None => Mode::VisiblePrompt,
            },
            _ => Mode::Processing,
        }
    }

    fn session_is_valid(&self) -> (r: bool)
        ensures
            r == self@.session_wf(),
    {
        match &self.session {
            Some(s) => {
                string_list_eq(&s.command, &self.command) && string_list_eq(
                    &s.environment,
                    &self.environment,
                ) && match &s.prompt {
                    Some(p) => p.kind == AuthMessageType::Visible || p.kind
                        == AuthMessageType::Secret,
                    None => true,
                }
            },
            None => true,
        }
    }

    fn mode_is_valid(&self) -> (r: bool)
        ensures
            r == self@.mode_wf(),
    {
        let asks = self.phase == Phase::EnteringUsername || self.phase == Phase::RelayingPrompt;
        let menu = self.mode == Mode::Command || self.mode == Mode::Sessions || self.mode
            == Mode::Power;
        self.mode == self.base_mode() || (menu && asks) || (self.mode == Mode::Users && self.phase
            == Phase::EnteringUsername) || (self.mode == Mode::Error && self.phase
            == Phase::EnteringUsername)
    }

    /// Whether the state is one that the transitions may be applied to.
    /// A state made by `new` and changed by the transitions alone always is.
    pub fn is_valid(&self) -> (r: bool)
        ensures
            r == self@.wf(),
    {
        let at_work = self.phase == Phase::AwaitingDaemon || self.phase == Phase::Launching;
        let has_prompt = match &self.session {
            Some(s) => s.prompt.is_some(),
            None => false,
        };
        self.input.is_valid() && self.command_input.is_valid() && ((self.phase
            == Phase::Terminal) == self.exit.is_some()) && (self.pending == at_work) && (
        self.session.is_some() == (at_work || self.phase == Phase::RelayingPrompt)) && ((
        self.phase == Phase::RelayingPrompt) == has_prompt) && (self.error_ticks == 0
            || self.session.is_none()) && self.session_is_valid() && self.mode_is_valid()
    }

    /// Put a configuration in force: key bindings and toggles follow it,
    /// and so does the launch target unless the user picked one.
    pub fn apply_config(&mut self, config: Config)
        ensures
            final(self)@ == config_applied(old(self)@, config@),
    {
        self.kb_command = config.keybindings.command;
        self.kb_sessions = config.keybindings.sessions;
        self.kb_power = config.keybindings.power;
        self.remember_username = config.remember.username;
        self.user_menu = config.user_menu.enabled;
        self.time = config.display.show_time;
        if !self.command_chosen {
            self.command = command_of(&config);
            self.environment = clone_string_list(&config.session.environments);
        }
        let session = self.session.take();
        match session {
            Some(mut s) => {
                s.command = clone_string_list(&self.command);
                s.environment = clone_string_list(&self.environment);
                self.session = Some(s);
            },
            None => {},
        }
        self.loaded_config = Some(config);
    }

    fn end(&mut self, reason: ExitReason)
        ensures
            final(self)@ == ended(old(self)@, reason),
    {
        self.phase = Phase::Terminal;
        self.exit = Some(reason);
        self.session = None;
        self.pending = false;
        self.mode = Mode::Processing;
    }

    fn reject(&mut self, username: String, notice: Notice)
        ensures
            final(self)@ == rejected(old(self)@, username@, notice@),
    {
        self.session = None;
        self.pending = false;
        self.phase = Phase::EnteringUsername;
        self.mode = Mode::EnteringUsername;
        self.notice = Some(notice);
        if self.remember_username {
            self.input = InputBuffer::holding(username.as_str());
        } else {
            self.input = InputBuffer::new();
        }
        self.error_ticks = ERROR_TICKS;
        self.channel_failed = false;
    }

    fn fail(&mut self, error: IpcError)
        ensures
            final(self)@ == failed(old(self)@, error),
    {
        self.session = None;
        self.pending = false;
        self.phase = Phase::EnteringUsername;
        self.mode = Mode::Error;
        self.notice = Some(Notice::Failure(error));
        self.error_ticks = ERROR_TICKS;
    }

    fn dismiss(&mut self)
        ensures
            final(self)@ == dismissed(old(self)@),
    {
        if self.mode == Mode::Error {
            self.mode = Mode::EnteringUsername;
        }
        self.notice = None;
        self.error_ticks = 0;
    }

    /// Call the attempt off and ask for a name again. The daemon is to be
    /// told if there was an attempt; nothing is waited for.
    pub fn cancel(&mut self) -> (out: Outcome)
        ensures
            (final(self)@, out@) == cancelled(old(self)@),
    {
        if self.is_terminal() {
            return Outcome::quiet();
        }
        let tell = self.session.is_some();
        self.session = None;
        self.pending = false;
        self.phase = Phase::EnteringUsername;
        self.mode = Mode::EnteringUsername;
        self.input = InputBuffer::new();
        self.notice = None;
        self.error_ticks = 0;
        Outcome {
            request: None,
            cancel: tell,
            power: None,
            reconnect: false,
            redraw: true,
            exit: None,
        }
    }

    /// End the conversation because the process was told to end.
    pub fn terminate(&mut self) -> (out: Outcome)
        ensures
            (final(self)@, out@) == terminated(old(self)@),
    {
        if self.is_terminal() {
            return Outcome::quiet();
        }
        let tell = self.session.is_some();
        self.end(ExitReason::Terminated);
        Outcome {
            request: None,
            cancel: tell,
            power: None,
            reconnect: false,
            redraw: false,
            exit: Some(ExitReason::Terminated),
        }
    }

    /// Submit the name in the line as the start of a new attempt.
    pub fn submit_username(&mut self) -> (out: Outcome)
        ensures
            (final(self)@, out@) == username_submitted(old(self)@),
    {
        if self.input.is_empty() {
            return Outcome::quiet();
        }
        if self.attempt == u64::MAX {
            self.end(ExitReason::Exhausted);
            return Outcome {
                request: None,
                cancel: false,
                power: None,
                reconnect: false,
                redraw: true,
                exit: Some(ExitReason::Exhausted),
            };
        }
        let username = self.input.text();
        let session = Session {
            username: username.clone(),
            prompt: None,
            exchanges: Vec::new(),
            command: clone_string_list(&self.command),
            environment: clone_string_list(&self.environment),
        };
        assert(session@.exchanges =~= Seq::empty());
        self.session = Some(session);
        self.pending = true;
        self.phase = Phase::AwaitingDaemon;
        self.mode = Mode::Processing;
        self.attempt = self.attempt + 1;
        self.notice = None;
        self.error_ticks = 0;
        Outcome::sending(Request::CreateSession { username })
    }

    /// Submit the line as the answer to the question that waits.
    pub fn submit_answer(&mut self) -> (out: Outcome)
        ensures
            (final(self)@, out@) == answer_submitted(old(self)@),
    {
        let taken = self.session.take();
        match taken {
            Some(mut session) => {
                let prompt = session.prompt.take();
                match prompt {
                    Some(p) => {
                        let ghost before = prompts_view(session.exchanges@);
                        session.exchanges.push(p);
                        assert(prompts_view(session.exchanges@) =~= before.push(p@));
                        self.session = Some(session);
                        self.pending = true;
                        self.phase = Phase::AwaitingDaemon;
                        self.mode = Mode::Processing;
                        let answer = self.input.text();
                        self.input = InputBuffer::new();
                        Outcome::sending(
                            Request::PostAuthMessageResponse { response: Some(answer) },
                        )
                    },
                    None => {
                        self.session = Some(session);
                        Outcome::quiet()
                    },
                }
            },
            None => Outcome::quiet(),
        }
    }

    /// Take a reply of the daemon to a request of the attempt numbered
    /// `attempt`. A reply that is not waited for is dropped.
    pub fn on_reply(&mut self, attempt: u64, response: Response) -> (out: Outcome)
        ensures
            (final(self)@, out@) == replied(old(self)@, attempt, response@),
    {
        if self.is_terminal() || !self.pending || attempt != self.attempt {
            return Outcome::quiet();
        }
        let taken = self.session.take();
        let mut session = match taken {
            Some(s) => s,
            None => {
                return Outcome::quiet();
            },
        };
        match response {
            Response::Error { error_type: _, description } => {
                let notice = if self.phase == Phase::Launching {
                    Notice::LaunchFailed(description)
                } else {
                    Notice::AuthRejected(description)
                };
                self.reject(session.username, notice);
                Outcome::drawn()
            },
            Response::Success => {
                if self.phase == Phase::Launching {
                    self.end(ExitReason::Launched);
                    self.channel_failed = false;
                    Outcome {
                        request: None,
                        cancel: false,
                        power: None,
                        reconnect: false,
                        redraw: true,
                        exit: Some(ExitReason::Launched),
                    }
                } else {
                    let cmd = clone_string_list(&session.command);
                    let env = clone_string_list(&session.environment);
                    self.session = Some(session);
                    self.phase = Phase::Launching;
                    self.channel_failed = false;
                    Outcome::sending(Request::StartSession { cmd, env })
                }
            },
            Response::AuthMessage { auth_message_type, auth_message } => {
                if self.phase == Phase::Launching {
                    self.fail(IpcError::UnexpectedResponse);
                    Outcome {
                        request: None,
                        cancel: true,
                        power: None,
                        reconnect: false,
                        redraw: true,
                        exit: None,
                    }
                } else if auth_message_type == AuthMessageType::Visible || auth_message_type
                    == AuthMessageType::Secret {
                    session.prompt = Some(Prompt { kind: auth_message_type, text: auth_message });
                    self.session = Some(session);
                    self.pending = false;
                    self.phase = Phase::RelayingPrompt;
                    self.mode = if auth_message_type == AuthMessageType::Secret {
                        Mode::SecretPrompt
                    } else {
                        Mode::VisiblePrompt
                    };
                    self.input = InputBuffer::new();
                    self.channel_failed = false;
                    Outcome::drawn()
                } else {
                    let ghost before = prompts_view(session.exchanges@);
                    let shown = auth_message.clone();
                    let p = Prompt { kind: auth_message_type, text: auth_message };
                    session.exchanges.push(p);
                    assert(prompts_view(session.exchanges@) =~= before.push(p@));
                    self.session = Some(session);
                    self.notice = Some(Notice::Message(shown));
                    self.channel_failed = false;
                    Outcome::sending(Request::PostAuthMessageResponse { response: None })
                }
            },
        }
    }

    /// Take the failure of an exchange with the daemon for the attempt
    /// numbered `attempt`. A failure that is not waited for is dropped.
    pub fn on_failure(&mut self, attempt: u64, error: IpcError) -> (out: Outcome)
        ensures
            (final(self)@, out@) == exchange_failed(old(self)@, attempt, error),
    {
        if self.is_terminal() || !self.pending || attempt != self.attempt
            || self.session.is_none() {
            return Outcome::quiet();
        }
        if error.is_channel_failure() {
            if self.channel_failed {
                self.end(ExitReason::ChannelLost);
                Outcome {
                    request: None,
                    cancel: false,
                    power: None,
                    reconnect: false,
                    redraw: true,
                    exit: Some(ExitReason::ChannelLost),
                }
            } else {
                self.fail(error);
                self.channel_failed = true;
                Outcome {
                    request: None,
                    cancel: false,
                    power: None,
                    reconnect: true,
                    redraw: true,
                    exit: None,
                }
            }
        } else {
            self.fail(error);
            Outcome {
                request: None,
                cancel: true,
                power: None,
                reconnect: false,
                redraw: true,
                exit: None,
            }
        }
    }

    /// Take a tick of the clock.
    pub fn on_tick(&mut self) -> (out: Outcome)
        ensures
            (final(self)@, out@) == ticked(old(self)@),
    {
        if self.is_terminal() {
            return Outcome::quiet();
        }
        if self.mode == Mode::Error || self.error_ticks > 0 {
            if self.error_ticks <= 1 {
                self.dismiss();
                return Outcome::drawn();
            }
            self.error_ticks = self.error_ticks - 1;
        }
        Outcome {
            request: None,
            cancel: false,
            power: None,
            reconnect: false,
            redraw: self.time,
            exit: None,
        }
    }

    /// Take a change of the terminal's size.
    pub fn on_resize(&mut self) -> (out: Outcome)
        ensures
            (final(self)@, out@) == resized(old(self)@),
    {
        if self.is_terminal() {
            Outcome::quiet()
        } else {
            Outcome::drawn()
        }
    }

    /// Take a configuration that was read anew.
    pub fn on_config(&mut self, config: Config) -> (out: Outcome)
        ensures
            (final(self)@, out@) == reconfigured(old(self)@, config@),
    {
        if self.is_terminal() {
            Outcome::quiet()
        } else {
            self.apply_config(config);
            Outcome::drawn()
        }
    }

    fn pick_target(&mut self, command: Vec<String>, environment: Vec<String>)
        ensures
            final(self)@ == target_picked(old(self)@, list_text(command@), list_text(environment@)),
    {
        let taken = self.session.take();
        match taken {
            Some(mut s) => {
                s.command = clone_string_list(&command);
                s.environment = clone_string_list(&environment);
                self.session = Some(s);
            },
            None => {},
        }
        self.command = command;
        self.environment = environment;
        self.command_chosen = true;
    }

    fn confirm_command(&mut self) -> (out: Outcome)
        requires
            old(self).mode == Mode::Command,
        ensures
            (final(self)@, out@) == confirmed(old(self)@),
    {
        let back = self.base_mode();
        if self.command_input.is_empty() {
            self.mode = back;
        } else {
            let mut command: Vec<String> = Vec::new();
            command.push(self.command_input.text());
            assert(list_text(command@) =~= seq![self.command_input@.chars]);
            let environment = clone_string_list(&self.environment);
            self.pick_target(command, environment);
            self.mode = back;
            self.command_input = InputBuffer::new();
        }
        Outcome::drawn()
    }

    fn confirm_session(&mut self) -> (out: Outcome)
        requires
            old(self).mode == Mode::Sessions,
        ensures
            (final(self)@, out@) == confirmed(old(self)@),
    {
        let back = self.base_mode();
        if self.selected < self.sessions.len() {
            let command = clone_string_list(&self.sessions[self.selected].command);
            let environment = clone_string_list(&self.sessions[self.selected].environment);
            self.pick_target(command, environment);
        }
        self.mode = back;
        Outcome::drawn()
    }

    fn confirm_power(&mut self) -> (out: Outcome)
        requires
            old(self).mode == Mode::Power,
        ensures
            (final(self)@, out@) == confirmed(old(self)@),
    {
        let back = self.base_mode();
        self.mode = back;
        Outcome {
            request: None,
            cancel: false,
            power: if self.selected == 0 {
                Some(PowerChoice::Shutdown)
            } else if self.selected == 1 {
                Some(PowerChoice::Reboot)
            } else {
                None
            },
            reconnect: false,
            redraw: true,
            exit: None,
        }
    }

    fn confirm_user(&mut self) -> (out: Outcome)
        requires
            old(self).mode == Mode::Users,
        ensures
            (final(self)@, out@) == confirmed(old(self)@),
    {
        let back = self.base_mode();
        if self.selected < self.users.len() {
            self.input = InputBuffer::holding(self.users[self.selected].as_str());
        }
        self.mode = back;
        Outcome::drawn()
    }

    /// Confirm what the menu on screen shows, and close the menu.
    pub fn confirm(&mut self) -> (out: Outcome)
        ensures
            (final(self)@, out@) == confirmed(old(self)@),
    {
        match self.mode {
            Mode::Command => self.confirm_command(),
            Mode::Sessions => self.confirm_session(),
            Mode::Power => self.confirm_power(),
            Mode::Users => self.confirm_user(),
            _ => Outcome::quiet(),
        }
    }

    fn list_len(&self) -> (n: usize)
        ensures
            n == crate::greeter::step::list_len(self@, self.mode),
    {
        match self.mode {
            Mode::Sessions => self.sessions.len(),
            Mode::Power => 2,
            Mode::Users => self.users.len(),
            _ => 0,
        }
    }

    fn on_menu_key(&mut self, key: Key) -> (out: Outcome)
        requires
            old(self)@.wf(),
        ensures
            (final(self)@, out@) == menu_key(old(self)@, key),
    {
        if key == Key::Enter {
            return self.confirm();
        }
        if self.mode == Mode::Command {
            let changed = edit(&mut self.command_input, key);
            return Outcome {
                request: None,
                cancel: false,
                power: None,
                reconnect: false,
                redraw: changed,
                exit: None,
            };
        }
        let n = self.list_len();
        if key == Key::Up && self.selected > 0 {
            self.selected = self.selected - 1;
            Outcome::drawn()
        } else if key == Key::Down && self.selected < n && self.selected + 1 < n {
            self.selected = self.selected + 1;
            Outcome::drawn()
        } else {
            Outcome::quiet()
        }
    }

    fn on_line_key(&mut self, key: Key) -> (out: Outcome)
        requires
            old(self)@.wf(),
        ensures
            (final(self)@, out@) == line_key(old(self)@, key),
    {
        if key == Key::Enter {
            if self.mode == Mode::EnteringUsername {
                self.submit_username()
            } else {
                self.submit_answer()
            }
        } else {
            let changed = edit(&mut self.input, key);
            Outcome {
                request: None,
                cancel: false,
                power: None,
                reconnect: false,
                redraw: changed,
                exit: None,
            }
        }
    }

    /// The menu that the function key numbered `n` opens, if any.
    pub fn menu_for(&self, n: u8) -> (menu: Option<Mode>)
        ensures
            menu == menu_for(self@, n),
    {
        if n == self.kb_command {
            Some(Mode::Command)
        } else if n == self.kb_sessions {
            Some(Mode::Sessions)
        } else if n == self.kb_power {
            Some(Mode::Power)
        } else {
            None
        }
    }

    fn on_plain_key(&mut self, key: Key) -> (out: Outcome)
        requires
            old(self)@.wf(),
        ensures
            (final(self)@, out@) == plain_key(old(self)@, key),
    {
        if self.mode == Mode::Processing || self.mode == Mode::Error {
            return Outcome::quiet();
        }
        if self.mode == Mode::Command || self.mode == Mode::Sessions || self.mode == Mode::Power
            || self.mode == Mode::Users {
            return self.on_menu_key(key);
        }
        if let Key::F(n) = key {
            if let Some(menu) = self.menu_for(n) {
                self.mode = menu;
                self.selected = 0;
                return Outcome::drawn();
            }
        }
        if key == Key::Tab && self.mode == Mode::EnteringUsername && self.user_menu {
            self.mode = Mode::Users;
            self.selected = 0;
            return Outcome::drawn();
        }
        self.on_line_key(key)
    }

    /// Take a key.
    pub fn on_key(&mut self, key: Key) -> (out: Outcome)
        requires
            old(self)@.wf(),
        ensures
            (final(self)@, out@) == key_pressed(old(self)@, key),
    {
        if self.is_terminal() {
            return Outcome::quiet();
        }
        if key == Key::Esc {
            return self.cancel();
        }
        if self.mode == Mode::Error {
            self.dismiss();
            return Outcome::drawn();
        }
        if self.error_ticks > 0 {
            self.dismiss();
            let mut out = self.on_plain_key(key);
            out.redraw = true;
            return out;
        }
        self.on_plain_key(key)
    }

    /// Take an event: change the state as the event demands and say what
    /// is to be done about it.
    pub fn handle(&mut self, event: Event) -> (out: Outcome)
        requires
            old(self)@.wf(),
        ensures
            (final(self)@, out@) == step(old(self)@, event@),
            final(self)@.wf(),
    {
        proof {
            lemma_step_preserves_wf(self@, event@);
        }
        match event {
            Event::KeyPress(key) => self.on_key(key),
            Event::Resize(_, _) => self.on_resize(),
            Event::Tick => self.on_tick(),
            Event::ConfigReloaded(config) => self.on_config(config),
            Event::Reply { attempt, response } => self.on_reply(attempt, response),
            Event::Failure { attempt, error } => self.on_failure(attempt, error),
            Event::Terminate => self.terminate(),
        }
    }
}

} // verus!
