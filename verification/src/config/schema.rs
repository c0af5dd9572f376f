//! The configuration schema: one struct per section, the value every field
//! takes when nothing sets it, and the mathematical view of each.

use vstd::prelude::*;
use crate::text::{list_text, opt_text};

verus! {

/// Greeting alignment options.
#[derive(Debug, Clone, Copy, PartialEq, Eq, Structural)]
pub enum AlignGreeting {
    Left,
    Center,
    Right,
}

impl Default for AlignGreeting {
    fn default() -> (r: Self)
        ensures
            r == AlignGreeting::Center,
    {
        AlignGreeting::Center
    }
}

/// Secret display modes.
#[derive(Debug, Clone, Copy, PartialEq, Eq, Structural)]
pub enum SecretMode {
    Hidden,
    Characters,
}

impl Default for SecretMode {
    fn default() -> (r: Self)
        ensures
            r == SecretMode::Hidden,
    {
        SecretMode::Hidden
    }
}

/// Widget position options.
#[derive(Debug, Clone, Copy, PartialEq, Eq, Structural)]
pub enum WidgetPosition {
    Default,
    Top,
    Bottom,
    Hidden,
}

impl Default for WidgetPosition {
    fn default() -> (r: Self)
        ensures
            r == WidgetPosition::Default,
    {
        WidgetPosition::Default
    }
}

/// General configuration options.
#[derive(Debug, Clone)]
pub struct GeneralConfig {
    /// Enable debug logging
    pub debug: bool,
    /// Log file path
    pub log_file: String,
}

pub struct GeneralConfigView {
    pub debug: bool,
    pub log_file: Seq<char>,
}

impl GeneralConfigView {
    pub open spec fn defaults() -> Self {
        GeneralConfigView { debug: false, log_file: "/tmp/tuigreet.log"@ }
    }
}

impl View for GeneralConfig {
    type V = GeneralConfigView;

    open spec fn view(&self) -> GeneralConfigView {
        GeneralConfigView { debug: self.debug, log_file: self.log_file@ }
    }
}

impl Default for GeneralConfig {
    fn default() -> (r: Self)
        ensures
            r@ == GeneralConfigView::defaults(),
    {
        GeneralConfig { debug: false, log_file: default_log_file() }
    }
}

/// Session management configuration.
#[derive(Debug, Clone)]
pub struct SessionConfig {
    /// Override session with a specific command
    pub command: Option<String>,
    /// Directories containing Wayland session files
    pub sessions_dirs: Vec<String>,
    /// Directories containing X11 session files
    pub xsessions_dirs: Vec<String>,
    /// Wrapper command for non-X11 sessions
    pub session_wrapper: Option<String>,
    /// Wrapper command for X11 sessions
    pub xsession_wrapper: Option<String>,
    /// Environment variables for default session
    pub environments: Vec<String>,
}

pub struct SessionConfigView {
    pub command: Option<Seq<char>>,
    pub sessions_dirs: Seq<Seq<char>>,
    pub xsessions_dirs: Seq<Seq<char>>,
    pub session_wrapper: Option<Seq<char>>,
    pub xsession_wrapper: Option<Seq<char>>,
    pub environments: Seq<Seq<char>>,
}

impl SessionConfigView {
    pub open spec fn defaults() -> Self {
        SessionConfigView {
            command: None,
            sessions_dirs: seq!["/usr/share/wayland-sessions"@],
            xsessions_dirs: seq!["/usr/share/xsessions"@],
            session_wrapper: None,
            xsession_wrapper: Some("startx"@),
            environments: Seq::empty(),
        }
    }
}

impl View for SessionConfig {
    type V = SessionConfigView;

    open spec fn view(&self) -> SessionConfigView {
        SessionConfigView {
            command: opt_text(self.command),
            sessions_dirs: list_text(self.sessions_dirs@),
            xsessions_dirs: list_text(self.xsessions_dirs@),
            session_wrapper: opt_text(self.session_wrapper),
            xsession_wrapper: opt_text(self.xsession_wrapper),
            environments: list_text(self.environments@),
        }
    }
}

impl Default for SessionConfig {
    fn default() -> (r: Self)
        ensures
            r@ == SessionConfigView::defaults(),
    {
        let r = SessionConfig {
            command: None,
            sessions_dirs: default_sessions_dirs(),
            xsessions_dirs: default_xsessions_dirs(),
            session_wrapper: None,
            xsession_wrapper: default_xsession_wrapper(),
            environments: Vec::new(),
        };
        assert(r@.environments =~= Seq::empty());
        r
    }
}

/// Display and visual configuration.
#[derive(Debug, Clone)]
pub struct DisplayConfig {
    /// Show current time
    pub show_time: bool,
    /// Custom time format (strftime)
    pub time_format: Option<String>,
    /// Custom greeting message
    pub greeting: Option<String>,
    /// Show /etc/issue file
    pub issue: bool,
    /// Greeting text alignment
    pub align_greeting: AlignGreeting,
}

pub struct DisplayConfigView {
    pub show_time: bool,
    pub time_format: Option<Seq<char>>,
    pub greeting: Option<Seq<char>>,
    pub issue: bool,
    pub align_greeting: AlignGreeting,
}

impl DisplayConfigView {
    pub open spec fn defaults() -> Self {
        DisplayConfigView {
            show_time: false,
            time_format: None,
            greeting: None,
            issue: false,
            align_greeting: AlignGreeting::Center,
        }
    }
}

impl View for DisplayConfig {
    type V = DisplayConfigView;

    open spec fn view(&self) -> DisplayConfigView {
        DisplayConfigView {
            show_time: self.show_time,
            time_format: opt_text(self.time_format),
            greeting: opt_text(self.greeting),
            issue: self.issue,
            align_greeting: self.align_greeting,
        }
    }
}

impl Default for DisplayConfig {
    fn default() -> (r: Self)
        ensures
            r@ == DisplayConfigView::defaults(),
    {
        DisplayConfig {
            show_time: false,
            time_format: None,
            greeting: None,
            issue: false,
            align_greeting: AlignGreeting::Center,
        }
    }
}

/// Remember/cache configuration.
#[derive(Debug, Clone)]
pub struct RememberConfig {
    /// Remember last logged-in username
    pub username: bool,
    /// Remember last selected session (global)
    pub session: bool,
    /// Remember last selected session per user
    pub user_session: bool,
}

pub struct RememberConfigView {
    pub username: bool,
    pub session: bool,
    pub user_session: bool,
}

impl RememberConfigView {
    pub open spec fn defaults() -> Self {
        RememberConfigView { username: false, session: false, user_session: false }
    }
}

impl View for RememberConfig {
    type V = RememberConfigView;

    open spec fn view(&self) -> RememberConfigView {
        RememberConfigView {
            username: self.username,
            session: self.session,
            user_session: self.user_session,
        }
    }
}

impl Default for RememberConfig {
    fn default() -> (r: Self)
        ensures
            r@ == RememberConfigView::defaults(),
    {
        RememberConfig { username: false, session: false, user_session: false }
    }
}

/// User menu configuration.
#[derive(Debug, Clone)]
pub struct UserMenuConfig {
    /// Enable user selection menu
    pub enabled: bool,
    /// Minimum UID to display in user menu
    pub min_uid: u32,
    /// Maximum UID to display in user menu
    pub max_uid: u32,
}

pub struct UserMenuConfigView {
    pub enabled: bool,
    pub min_uid: u32,
    pub max_uid: u32,
}

impl UserMenuConfigView {
    pub open spec fn defaults() -> Self {
        UserMenuConfigView { enabled: false, min_uid: 1000, max_uid: 60000 }
    }
}

impl View for UserMenuConfig {
    type V = UserMenuConfigView;

    open spec fn view(&self) -> UserMenuConfigView {
        UserMenuConfigView { enabled: self.enabled, min_uid: self.min_uid, max_uid: self.max_uid }
    }
}

impl Default for UserMenuConfig {
    fn default() -> (r: Self)
        ensures
            r@ == UserMenuConfigView::defaults(),
    {
        UserMenuConfig { enabled: false, min_uid: default_min_uid(), max_uid: default_max_uid() }
    }
}

/// Secret display configuration.
#[derive(Debug, Clone)]
pub struct SecretConfig {
    /// How to display secrets
    pub mode: SecretMode,
    /// Characters to use when mode is Characters
    pub characters: String,
}

pub struct SecretConfigView {
    pub mode: SecretMode,
    pub characters: Seq<char>,
}

impl SecretConfigView {
    pub open spec fn defaults() -> Self {
        SecretConfigView { mode: SecretMode::Hidden, characters: "*"@ }
    }
}

impl View for SecretConfig {
    type V = SecretConfigView;

    open spec fn view(&self) -> SecretConfigView {
        SecretConfigView { mode: self.mode, characters: self.characters@ }
    }
}

impl Default for SecretConfig {
    fn default() -> (r: Self)
        ensures
            r@ == SecretConfigView::defaults(),
    {
        SecretConfig { mode: SecretMode::Hidden, characters: default_secret_characters() }
    }
}

/// Widget positioning configuration.
#[derive(Debug, Clone)]
pub struct WidgetConfig {
    /// Position of time widget
    pub time_position: WidgetPosition,
    /// Position of status bar widget
    pub status_position: WidgetPosition,
}

pub struct WidgetConfigView {
    pub time_position: WidgetPosition,
    pub status_position: WidgetPosition,
}

impl WidgetConfigView {
    pub open spec fn defaults() -> Self {
        WidgetConfigView {
            time_position: WidgetPosition::Default,
            status_position: WidgetPosition::Default,
        }
    }
}

impl View for WidgetConfig {
    type V = WidgetConfigView;

    open spec fn view(&self) -> WidgetConfigView {
        WidgetConfigView {
            time_position: self.time_position,
            status_position: self.status_position,
        }
    }
}

impl Default for WidgetConfig {
    fn default() -> (r: Self)
        ensures
            r@ == WidgetConfigView::defaults(),
    {
        WidgetConfig {
            time_position: WidgetPosition::Default,
            status_position: WidgetPosition::Default,
        }
    }
}

/// Layout and sizing configuration.
#[derive(Debug, Clone)]
pub struct LayoutConfig {
    /// Width of the main prompt container
    pub width: u16,
    /// Padding around the terminal window
    pub window_padding: Option<u16>,
    /// Padding inside the main container
    pub container_padding: Option<u16>,
    /// Padding between prompt rows
    pub prompt_padding: Option<u16>,
    /// Widget positioning options
    pub widgets: WidgetConfig,
}

pub struct LayoutConfigView {
    pub width: u16,
    pub window_padding: Option<u16>,
    pub container_padding: Option<u16>,
    pub prompt_padding: Option<u16>,
    pub widgets: WidgetConfigView,
}

impl LayoutConfigView {
    pub open spec fn defaults() -> Self {
        LayoutConfigView {
            width: 80,
            window_padding: None,
            container_padding: None,
            prompt_padding: None,
            widgets: WidgetConfigView::defaults(),
        }
    }
}

impl View for LayoutConfig {
    type V = LayoutConfigView;

    open spec fn view(&self) -> LayoutConfigView {
        LayoutConfigView {
            width: self.width,
            window_padding: self.window_padding,
            container_padding: self.container_padding,
            prompt_padding: self.prompt_padding,
            widgets: self.widgets@,
        }
    }
}

impl Default for LayoutConfig {
    fn default() -> (r: Self)
        ensures
            r@ == LayoutConfigView::defaults(),
    {
        LayoutConfig {
            width: default_width(),
            window_padding: None,
            container_padding: None,
            prompt_padding: None,
            widgets: WidgetConfig::default(),
        }
    }
}

/// Power management configuration.
#[derive(Debug, Clone)]
pub struct PowerConfig {
    /// Custom shutdown command
    pub shutdown: Option<String>,
    /// Custom reboot command
    pub reboot: Option<String>,
    /// Use setsid to detach power commands
    pub use_setsid: bool,
}

pub struct PowerConfigView {
    pub shutdown: Option<Seq<char>>,
    pub reboot: Option<Seq<char>>,
    pub use_setsid: bool,
}

impl PowerConfigView {
    pub open spec fn defaults() -> Self {
        PowerConfigView { shutdown: None, reboot: None, use_setsid: true }
    }
}

impl View for PowerConfig {
    type V = PowerConfigView;

    open spec fn view(&self) -> PowerConfigView {
        PowerConfigView {
            shutdown: opt_text(self.shutdown),
            reboot: opt_text(self.reboot),
            use_setsid: self.use_setsid,
        }
    }
}

impl Default for PowerConfig {
    fn default() -> (r: Self)
        ensures
            r@ == PowerConfigView::defaults(),
    {
        PowerConfig { shutdown: None, reboot: None, use_setsid: default_use_setsid() }
    }
}

/// Keybindings configuration.
#[derive(Debug, Clone)]
pub struct KeybindingsConfig {
    /// F-key for command menu (1-12)
    pub command: u8,
    /// F-key for sessions menu (1-12)
    pub sessions: u8,
    /// F-key for power menu (1-12)
    pub power: u8,
}

pub struct KeybindingsConfigView {
    pub command: u8,
    pub sessions: u8,
    pub power: u8,
}

impl KeybindingsConfigView {
    pub open spec fn defaults() -> Self {
        KeybindingsConfigView { command: 2, sessions: 3, power: 12 }
    }
}

impl View for KeybindingsConfig {
    type V = KeybindingsConfigView;

    open spec fn view(&self) -> KeybindingsConfigView {
        KeybindingsConfigView { command: self.command, sessions: self.sessions, power: self.power }
    }
}

impl Default for KeybindingsConfig {
    fn default() -> (r: Self)
        ensures
            r@ == KeybindingsConfigView::defaults(),
    {
        KeybindingsConfig {
            command: default_kb_command(),
            sessions: default_kb_sessions(),
            power: default_kb_power(),
        }
    }
}

/// Theme/color configuration.
#[derive(Debug, Clone)]
pub struct ThemeConfig {
    /// Border color
    pub border: Option<String>,
    /// Base text color
    pub text: Option<String>,
    /// Time display color
    pub time: Option<String>,
    /// Container background color
    pub container: Option<String>,
    /// Container title color
    pub title: Option<String>,
    /// Greeting text color
    pub greet: Option<String>,
    /// Prompt text color
    pub prompt: Option<String>,
    /// User input color
    pub input: Option<String>,
    /// Action text color
    pub action: Option<String>,
    /// Action button color
    pub button: Option<String>,
}

pub struct ThemeConfigView {
    pub border: Option<Seq<char>>,
    pub text: Option<Seq<char>>,
    pub time: Option<Seq<char>>,
    pub container: Option<Seq<char>>,
    pub title: Option<Seq<char>>,
    pub greet: Option<Seq<char>>,
    pub prompt: Option<Seq<char>>,
    pub input: Option<Seq<char>>,
    pub action: Option<Seq<char>>,
    pub button: Option<Seq<char>>,
}

impl ThemeConfigView {
    pub open spec fn defaults() -> Self {
        ThemeConfigView {
            border: None,
            text: None,
            time: None,
            container: None,
            title: None,
            greet: None,
            prompt: None,
            input: None,
            action: None,
            button: None,
        }
    }
}

impl View for ThemeConfig {
    type V = ThemeConfigView;

    open spec fn view(&self) -> ThemeConfigView {
        ThemeConfigView {
            border: opt_text(self.border),
            text: opt_text(self.text),
            time: opt_text(self.time),
            container: opt_text(self.container),
            title: opt_text(self.title),
            greet: opt_text(self.greet),
            prompt: opt_text(self.prompt),
            input: opt_text(self.input),
            action: opt_text(self.action),
            button: opt_text(self.button),
        }
    }
}

impl Default for ThemeConfig {
    fn default() -> (r: Self)
        ensures
            r@ == ThemeConfigView::defaults(),
    {
        ThemeConfig {
            border: None,
            text: None,
            time: None,
            container: None,
            title: None,
            greet: None,
            prompt: None,
            input: None,
            action: None,
            button: None,
        }
    }
}

/// Root configuration structure.
#[derive(Debug, Clone)]
pub struct Config {
    pub general: GeneralConfig,
    pub session: SessionConfig,
    pub display: DisplayConfig,
    pub remember: RememberConfig,
    pub user_menu: UserMenuConfig,
    pub secret: SecretConfig,
    pub layout: LayoutConfig,
    pub power: PowerConfig,
    pub keybindings: KeybindingsConfig,
    pub theme: ThemeConfig,
}

pub struct ConfigView {
    pub general: GeneralConfigView,
    pub session: SessionConfigView,
    pub display: DisplayConfigView,
    pub remember: RememberConfigView,
    pub user_menu: UserMenuConfigView,
    pub secret: SecretConfigView,
    pub layout: LayoutConfigView,
    pub power: PowerConfigView,
    pub keybindings: KeybindingsConfigView,
    pub theme: ThemeConfigView,
}

impl ConfigView {
    pub open spec fn defaults() -> Self {
        ConfigView {
            general: GeneralConfigView::defaults(),
            session: SessionConfigView::defaults(),
            display: DisplayConfigView::defaults(),
            remember: RememberConfigView::defaults(),
            user_menu: UserMenuConfigView::defaults(),
            secret: SecretConfigView::defaults(),
            layout: LayoutConfigView::defaults(),
            power: PowerConfigView::defaults(),
            keybindings: KeybindingsConfigView::defaults(),
            theme: ThemeConfigView::defaults(),
        }
    }
}

impl View for Config {
    type V = ConfigView;

    open spec fn view(&self) -> ConfigView {
        ConfigView {
            general: self.general@,
            session: self.session@,
            display: self.display@,
            remember: self.remember@,
            user_menu: self.user_menu@,
            secret: self.secret@,
            layout: self.layout@,
            power: self.power@,
            keybindings: self.keybindings@,
            theme: self.theme@,
        }
    }
}

impl Default for Config {
    fn default() -> (r: Self)
        ensures
            r@ == ConfigView::defaults(),
    {
        Config {
            general: GeneralConfig::default(),
            session: SessionConfig::default(),
            display: DisplayConfig::default(),
            remember: RememberConfig::default(),
            user_menu: UserMenuConfig::default(),
            secret: SecretConfig::default(),
            layout: LayoutConfig::default(),
            power: PowerConfig::default(),
            keybindings: KeybindingsConfig::default(),
            theme: ThemeConfig::default(),
        }
    }
}

/// Where the log goes unless the configuration says otherwise.
pub fn default_log_file() -> (r: String)
    ensures
        r@ == "/tmp/tuigreet.log"@,
{
    String::from_str("/tmp/tuigreet.log")
}

/// Where Wayland sessions are looked for unless the configuration says otherwise.
pub fn default_sessions_dirs() -> (r: Vec<String>)
    ensures
        list_text(r@) == seq!["/usr/share/wayland-sessions"@],
{
    let mut r: Vec<String> = Vec::new();
    r.push(String::from_str("/usr/share/wayland-sessions"));
    assert(list_text(r@) =~= seq!["/usr/share/wayland-sessions"@]);
    r
}

/// Where X11 sessions are looked for unless the configuration says otherwise.
pub fn default_xsessions_dirs() -> (r: Vec<String>)
    ensures
        list_text(r@) == seq!["/usr/share/xsessions"@],
{
    let mut r: Vec<String> = Vec::new();
    r.push(String::from_str("/usr/share/xsessions"));
    assert(list_text(r@) =~= seq!["/usr/share/xsessions"@]);
    r
}

/// The command that starts an X11 session unless the configuration says otherwise.
pub fn default_xsession_wrapper() -> (r: Option<String>)
    ensures
        opt_text(r) == Some("startx"@),
{
    Some(String::from_str("startx"))
}

/// The lowest user id that the user menu shows by default.
pub fn default_min_uid() -> (r: u32)
    ensures
        r == 1000,
{
    1000
}

/// The highest user id that the user menu shows by default.
pub fn default_max_uid() -> (r: u32)
    ensures
        r == 60000,
{
    60000
}

/// The characters that stand for a secret by default.
pub fn default_secret_characters() -> (r: String)
    ensures
        r@ == "*"@,
{
    String::from_str("*")
}

/// The width of the main container by default.
pub fn default_width() -> (r: u16)
    ensures
        r == 80,
{
    80
}

/// Whether power commands are detached with `setsid` by default.
pub fn default_use_setsid() -> (r: bool)
    ensures
        r,
{
    true
}

/// The function key of the command menu by default.
pub fn default_kb_command() -> (r: u8)
    ensures
        r == 2,
{
    2
}

/// The function key of the sessions menu by default.
pub fn default_kb_sessions() -> (r: u8)
    ensures
        r == 3,
{
    3
}

/// The function key of the power menu by default.
pub fn default_kb_power() -> (r: u8)
    ensures
        r == 12,
{
    12
}

} // verus!
