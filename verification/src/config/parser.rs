//! Merging of configuration layers and the order in which they are loaded.

use vstd::prelude::*;
use crate::config::schema::{
    Config, ConfigView, DisplayConfig, DisplayConfigView, GeneralConfig, GeneralConfigView,
    KeybindingsConfig, KeybindingsConfigView, LayoutConfig, LayoutConfigView, PowerConfig,
    PowerConfigView, RememberConfig, RememberConfigView, SecretConfig, SecretConfigView,
    SessionConfig, SessionConfigView, ThemeConfig, ThemeConfigView, UserMenuConfig,
    UserMenuConfigView, WidgetConfigView,
};
use crate::config::error::{ConfigError, ConfigErrorView};
use crate::text::{
    decimal, decimal_string, list_text, opt_string_eq, pad_left, padded_decimal_string, spaces,
    spaces_string, split, split_on, string_list_eq,
};

verus! {

/// The value a merged field takes: the source's where the source differs
/// from the default, the destination's otherwise.
pub open spec fn pick<T>(src: T, default: T, dest: T) -> T {
    if src != default {
        src
    } else {
        dest
    }
}

pub open spec fn merged_general(dest: GeneralConfigView, src: GeneralConfigView) -> GeneralConfigView {
    let d = GeneralConfigView::defaults();
    GeneralConfigView {
        debug: pick(src.debug, d.debug, dest.debug),
        log_file: pick(src.log_file, d.log_file, dest.log_file),
    }
}

pub open spec fn merged_session(dest: SessionConfigView, src: SessionConfigView) -> SessionConfigView {
    let d = SessionConfigView::defaults();
    SessionConfigView {
        command: pick(src.command, d.command, dest.command),
        sessions_dirs: pick(src.sessions_dirs, d.sessions_dirs, dest.sessions_dirs),
        xsessions_dirs: pick(src.xsessions_dirs, d.xsessions_dirs, dest.xsessions_dirs),
        session_wrapper: pick(src.session_wrapper, d.session_wrapper, dest.session_wrapper),
        xsession_wrapper: pick(src.xsession_wrapper, d.xsession_wrapper, dest.xsession_wrapper),
        environments: pick(src.environments, d.environments, dest.environments),
    }
}

pub open spec fn merged_display(dest: DisplayConfigView, src: DisplayConfigView) -> DisplayConfigView {
    let d = DisplayConfigView::defaults();
    DisplayConfigView {
        show_time: pick(src.show_time, d.show_time, dest.show_time),
        time_format: pick(src.time_format, d.time_format, dest.time_format),
        greeting: pick(src.greeting, d.greeting, dest.greeting),
        issue: pick(src.issue, d.issue, dest.issue),
        align_greeting: pick(src.align_greeting, d.align_greeting, dest.align_greeting),
    }
}

pub open spec fn merged_remember(dest: RememberConfigView, src: RememberConfigView) -> RememberConfigView {
    let d = RememberConfigView::defaults();
    RememberConfigView {
        username: pick(src.username, d.username, dest.username),
        session: pick(src.session, d.session, dest.session),
        user_session: pick(src.user_session, d.user_session, dest.user_session),
    }
}

pub open spec fn merged_user_menu(dest: UserMenuConfigView, src: UserMenuConfigView) -> UserMenuConfigView {
    let d = UserMenuConfigView::defaults();
    UserMenuConfigView {
        enabled: pick(src.enabled, d.enabled, dest.enabled),
        min_uid: pick(src.min_uid, d.min_uid, dest.min_uid),
        max_uid: pick(src.max_uid, d.max_uid, dest.max_uid),
    }
}

pub open spec fn merged_secret(dest: SecretConfigView, src: SecretConfigView) -> SecretConfigView {
    let d = SecretConfigView::defaults();
    SecretConfigView {
        mode: pick(src.mode, d.mode, dest.mode),
        characters: pick(src.characters, d.characters, dest.characters),
    }
}

pub open spec fn merged_layout(dest: LayoutConfigView, src: LayoutConfigView) -> LayoutConfigView {
    let d = LayoutConfigView::defaults();
    LayoutConfigView {
        width: pick(src.width, d.width, dest.width),
        window_padding: pick(src.window_padding, d.window_padding, dest.window_padding),
        container_padding: pick(src.container_padding, d.container_padding, dest.container_padding),
        prompt_padding: pick(src.prompt_padding, d.prompt_padding, dest.prompt_padding),
        widgets: WidgetConfigView {
            time_position: pick(
                src.widgets.time_position,
                d.widgets.time_position,
                dest.widgets.time_position,
            ),
            status_position: pick(
                src.widgets.status_position,
                d.widgets.status_position,
                dest.widgets.status_position,
            ),
        },
    }
}

pub open spec fn merged_power(dest: PowerConfigView, src: PowerConfigView) -> PowerConfigView {
    let d = PowerConfigView::defaults();
    PowerConfigView {
        shutdown: pick(src.shutdown, d.shutdown, dest.shutdown),
        reboot: pick(src.reboot, d.reboot, dest.reboot),
        use_setsid: pick(src.use_setsid, d.use_setsid, dest.use_setsid),
    }
}

pub open spec fn merged_keybindings(
    dest: KeybindingsConfigView,
    src: KeybindingsConfigView,
) -> KeybindingsConfigView {
    let d = KeybindingsConfigView::defaults();
    KeybindingsConfigView {
        command: pick(src.command, d.command, dest.command),
        sessions: pick(src.sessions, d.sessions, dest.sessions),
        power: pick(src.power, d.power, dest.power),
    }
}

pub open spec fn merged_theme(dest: ThemeConfigView, src: ThemeConfigView) -> ThemeConfigView {
    let d = ThemeConfigView::defaults();
    ThemeConfigView {
        border: pick(src.border, d.border, dest.border),
        text: pick(src.text, d.text, dest.text),
        time: pick(src.time, d.time, dest.time),
        container: pick(src.container, d.container, dest.container),
        title: pick(src.title, d.title, dest.title),
        greet: pick(src.greet, d.greet, dest.greet),
        prompt: pick(src.prompt, d.prompt, dest.prompt),
        input: pick(src.input, d.input, dest.input),
        action: pick(src.action, d.action, dest.action),
        button: pick(src.button, d.button, dest.button),
    }
}

/// The view of a destination after a source has been merged into it.
///
/// Every field is overwritten exactly when the source's value differs from
/// that field's default, section by section.
pub open spec fn merged(dest: ConfigView, src: ConfigView) -> ConfigView {
    ConfigView {
        general: merged_general(dest.general, src.general),
        session: merged_session(dest.session, src.session),
        display: merged_display(dest.display, src.display),
        remember: merged_remember(dest.remember, src.remember),
        user_menu: merged_user_menu(dest.user_menu, src.user_menu),
        secret: merged_secret(dest.secret, src.secret),
        layout: merged_layout(dest.layout, src.layout),
        power: merged_power(dest.power, src.power),
        keybindings: merged_keybindings(dest.keybindings, src.keybindings),
        theme: merged_theme(dest.theme, src.theme),
    }
}

fn merge_general(dest: &mut GeneralConfig, src: GeneralConfig)
    ensures
        final(dest)@ == merged_general(old(dest)@, src@),
{
    let defaults = GeneralConfig::default();
    if src.debug != defaults.debug {
        dest.debug = src.debug;
    }
    if !(src.log_file == defaults.log_file) {
        dest.log_file = src.log_file;
    }
}

fn merge_session(dest: &mut SessionConfig, src: SessionConfig)
    ensures
        final(dest)@ == merged_session(old(dest)@, src@),
{
    let defaults = SessionConfig::default();
    if !opt_string_eq(&src.command, &defaults.command) {
        dest.command = src.command;
    }
    if !string_list_eq(&src.sessions_dirs, &defaults.sessions_dirs) {
        dest.sessions_dirs = src.sessions_dirs;
    }
    if !string_list_eq(&src.xsessions_dirs, &defaults.xsessions_dirs) {
        dest.xsessions_dirs = src.xsessions_dirs;
    }
    if !opt_string_eq(&src.session_wrapper, &defaults.session_wrapper) {
        dest.session_wrapper = src.session_wrapper;
    }
    if !opt_string_eq(&src.xsession_wrapper, &defaults.xsession_wrapper) {
        dest.xsession_wrapper = src.xsession_wrapper;
    }
    if !string_list_eq(&src.environments, &defaults.environments) {
        dest.environments = src.environments;
    }
}

fn merge_display(dest: &mut DisplayConfig, src: DisplayConfig)
    ensures
        final(dest)@ == merged_display(old(dest)@, src@),
{
    let defaults = DisplayConfig::default();
    if src.show_time != defaults.show_time {
        dest.show_time = src.show_time;
    }
    if !opt_string_eq(&src.time_format, &defaults.time_format) {
        dest.time_format = src.time_format;
    }
    if !opt_string_eq(&src.greeting, &defaults.greeting) {
        dest.greeting = src.greeting;
    }
    if src.issue != defaults.issue {
        dest.issue = src.issue;
    }
    if src.align_greeting != defaults.align_greeting {
        dest.align_greeting = src.align_greeting;
    }
}

fn merge_remember(dest: &mut RememberConfig, src: RememberConfig)
    ensures
        final(dest)@ == merged_remember(old(dest)@, src@),
{
    let defaults = RememberConfig::default();
    if src.username != defaults.username {
        dest.username = src.username;
    }
    if src.session != defaults.session {
        dest.session = src.session;
    }
    if src.user_session != defaults.user_session {
        dest.user_session = src.user_session;
    }
}

fn merge_user_menu(dest: &mut UserMenuConfig, src: UserMenuConfig)
    ensures
        final(dest)@ == merged_user_menu(old(dest)@, src@),
{
    let defaults = UserMenuConfig::default();
    if src.enabled != defaults.enabled {
        dest.enabled = src.enabled;
    }
    if src.min_uid != defaults.min_uid {
        dest.min_uid = src.min_uid;
    }
    if src.max_uid != defaults.max_uid {
        dest.max_uid = src.max_uid;
    }
}

fn merge_secret(dest: &mut SecretConfig, src: SecretConfig)
    ensures
        final(dest)@ == merged_secret(old(dest)@, src@),
{
    let defaults = SecretConfig::default();
    if src.mode != defaults.mode {
        dest.mode = src.mode;
    }
    if !(src.characters == defaults.characters) {
        dest.characters = src.characters;
    }
}

fn merge_layout(dest: &mut LayoutConfig, src: LayoutConfig)
    ensures
        final(dest)@ == merged_layout(old(dest)@, src@),
{
    let defaults = LayoutConfig::default();
    if src.width != defaults.width {
        dest.width = src.width;
    }
    if src.window_padding != defaults.window_padding {
        dest.window_padding = src.window_padding;
    }
    if src.container_padding != defaults.container_padding {
        dest.container_padding = src.container_padding;
    }
    if src.prompt_padding != defaults.prompt_padding {
        dest.prompt_padding = src.prompt_padding;
    }
    if src.widgets.time_position != defaults.widgets.time_position {
        dest.widgets.time_position = src.widgets.time_position;
    }
    if src.widgets.status_position != defaults.widgets.status_position {
        dest.widgets.status_position = src.widgets.status_position;
    }
}

fn merge_power(dest: &mut PowerConfig, src: PowerConfig)
    ensures
        final(dest)@ == merged_power(old(dest)@, src@),
{
    let defaults = PowerConfig::default();
    if !opt_string_eq(&src.shutdown, &defaults.shutdown) {
        dest.shutdown = src.shutdown;
    }
    if !opt_string_eq(&src.reboot, &defaults.reboot) {
        dest.reboot = src.reboot;
    }
    if src.use_setsid != defaults.use_setsid {
        dest.use_setsid = src.use_setsid;
    }
}

fn merge_keybindings(dest: &mut KeybindingsConfig, src: KeybindingsConfig)
    ensures
        final(dest)@ == merged_keybindings(old(dest)@, src@),
{
    let defaults = KeybindingsConfig::default();
    if src.command != defaults.command {
        dest.command = src.command;
    }
    if src.sessions != defaults.sessions {
        dest.sessions = src.sessions;
    }
    if src.power != defaults.power {
        dest.power = src.power;
    }
}

fn merge_theme(dest: &mut ThemeConfig, src: ThemeConfig)
    ensures
        final(dest)@ == merged_theme(old(dest)@, src@),
{
    let defaults = ThemeConfig::default();
    if !opt_string_eq(&src.border, &defaults.border) {
        dest.border = src.border;
    }
    if !opt_string_eq(&src.text, &defaults.text) {
        dest.text = src.text;
    }
    if !opt_string_eq(&src.time, &defaults.time) {
        dest.time = src.time;
    }
    if !opt_string_eq(&src.container, &defaults.container) {
        dest.container = src.container;
    }
    if !opt_string_eq(&src.title, &defaults.title) {
        dest.title = src.title;
    }
    if !opt_string_eq(&src.greet, &defaults.greet) {
        dest.greet = src.greet;
    }
    if !opt_string_eq(&src.prompt, &defaults.prompt) {
        dest.prompt = src.prompt;
    }
    if !opt_string_eq(&src.input, &defaults.input) {
        dest.input = src.input;
    }
    if !opt_string_eq(&src.action, &defaults.action) {
        dest.action = src.action;
    }
    if !opt_string_eq(&src.button, &defaults.button) {
        dest.button = src.button;
    }
}

/// Merge a source config into a destination config, keeping the
/// destination's value wherever the source only holds the default.
pub fn merge_configs(dest: &mut Config, src: Config)
    ensures
        final(dest)@ == merged(old(dest)@, src@),
{
    merge_general(&mut dest.general, src.general);
    merge_session(&mut dest.session, src.session);
    merge_display(&mut dest.display, src.display);
    merge_remember(&mut dest.remember, src.remember);
    merge_user_menu(&mut dest.user_menu, src.user_menu);
    merge_secret(&mut dest.secret, src.secret);
    merge_layout(&mut dest.layout, src.layout);
    merge_power(&mut dest.power, src.power);
    merge_keybindings(&mut dest.keybindings, src.keybindings);
    merge_theme(&mut dest.theme, src.theme);
}

/// Merging a configuration that holds nothing but defaults changes nothing.
pub proof fn lemma_merge_defaults_is_identity(dest: ConfigView)
    ensures
        merged(dest, ConfigView::defaults()) == dest,
{
}

/// Merging the same source a second time changes nothing more.
pub proof fn lemma_merge_idempotent(dest: ConfigView, src: ConfigView)
    ensures
        merged(merged(dest, src), src) == merged(dest, src),
{
    let once = merged(dest, src);
    let twice = merged(once, src);
    assert(twice.general == once.general);
    assert(twice.session == once.session);
    assert(twice.display == once.display);
    assert(twice.remember == once.remember);
    assert(twice.user_menu == once.user_menu);
    assert(twice.secret == once.secret);
    assert(twice.layout == once.layout);
    assert(twice.power == once.power);
    assert(twice.keybindings == once.keybindings);
    assert(twice.theme == once.theme);
}

/// Merged into the defaults, a source comes out as it went in.
pub proof fn lemma_merge_into_defaults(src: ConfigView)
    ensures
        merged(ConfigView::defaults(), src) == src,
{
    let m = merged(ConfigView::defaults(), src);
    assert(m.general == src.general);
    assert(m.session == src.session);
    assert(m.display == src.display);
    assert(m.remember == src.remember);
    assert(m.user_menu == src.user_menu);
    assert(m.secret == src.secret);
    assert(m.layout == src.layout);
    assert(m.power == src.power);
    assert(m.keybindings == src.keybindings);
    assert(m.theme == src.theme);
}

// ---------------------------------------------------------------------
// Loading order
// ---------------------------------------------------------------------

/// View of what reading one configuration file gave.
pub open spec fn outcome_view(r: Result<Config, ConfigError>) -> Result<
    ConfigView,
    ConfigErrorView,
> {
    match r {
        Ok(c) => Ok(c@),
        Err(e) => Err(e@),
    }
}

/// View of what reading an optional configuration file gave.
pub open spec fn opt_outcome_view(r: Option<Result<Config, ConfigError>>) -> Option<
    Result<ConfigView, ConfigErrorView>,
> {
    match r {
        Some(r) => Some(outcome_view(r)),
        None => None,
    }
}

/// What a file that may be absent stands for: itself if it was there, the
/// defaults if it was not.
pub open spec fn or_defaults(found: Option<Result<ConfigView, ConfigErrorView>>) -> Result<
    ConfigView,
    ConfigErrorView,
> {
    match found {
        Some(r) => r,
        None => Ok(ConfigView::defaults()),
    }
}

/// The configuration that the three sources give together.
///
/// A file named on the command line is used alone, and its failure is the
/// failure of the whole. Otherwise the system file is the base, defaults
/// standing in for one that failed, and the user file is merged over it
/// unless it failed.
pub open spec fn loaded(
    cli: Option<Result<ConfigView, ConfigErrorView>>,
    system: Result<ConfigView, ConfigErrorView>,
    user: Result<ConfigView, ConfigErrorView>,
) -> Result<ConfigView, ConfigErrorView> {
    match cli {
        Some(r) => r,
        None => {
            let base = match system {
                Ok(c) => c,
                Err(_) => ConfigView::defaults(),
            };
            match user {
                Ok(u) => Ok(merged(base, u)),
                Err(_) => Ok(base),
            }
        },
    }
}

/// Settle what the system-wide file contributes, given what reading it
/// gave, or `None` where there is no such file.
pub fn load_system_config(found: Option<Result<Config, ConfigError>>) -> (r: Result<
    Config,
    ConfigError,
>)
    ensures
        outcome_view(r) == or_defaults(opt_outcome_view(found)),
{
    match found {
        Some(r) => r,
        None => Ok(Config::default()),
    }
}

/// Settle what the user's file contributes, given what reading it gave, or
/// `None` where there is no such file.
pub fn load_user_config(found: Option<Result<Config, ConfigError>>) -> (r: Result<
    Config,
    ConfigError,
>)
    ensures
        outcome_view(r) == or_defaults(opt_outcome_view(found)),
{
    match found {
        Some(r) => r,
        None => Ok(Config::default()),
    }
}

/// Put together the configuration from what reading its sources gave:
/// `cli_config` for a file named on the command line, if one was named,
/// `system_config` and `user_config` for the two files that are looked for
/// otherwise.
pub fn load_config(
    cli_config: Option<Result<Config, ConfigError>>,
    system_config: Result<Config, ConfigError>,
    user_config: Result<Config, ConfigError>,
) -> (r: Result<Config, ConfigError>)
    ensures
        outcome_view(r) == loaded(
            opt_outcome_view(cli_config),
            outcome_view(system_config),
            outcome_view(user_config),
        ),
{
    if let Some(explicit) = cli_config {
        // A file named on the command line is the only one used
        return explicit;
    }
    // Start with system config (if available)

    let mut config = match system_config {
        Ok(c) => c,
        Err(_) => Config::default(),
    };

    // Merge user config over system config
    if let Ok(user_cfg) = user_config {
        merge_configs(&mut config, user_cfg);
    }
    Ok(config)
}

/// Without a file on the command line, loading never fails.
pub proof fn lemma_layered_load_succeeds(
    system: Result<ConfigView, ConfigErrorView>,
    user: Result<ConfigView, ConfigErrorView>,
)
    ensures
        loaded(None, system, user) is Ok,
{
}

/// Where neither file exists, the defaults are what is loaded.
pub proof fn lemma_no_files_gives_defaults()
    ensures
        loaded(None, or_defaults(None), or_defaults(None)) == Ok::<ConfigView, ConfigErrorView>(
            ConfigView::defaults(),
        ),
{
    lemma_merge_defaults_is_identity(ConfigView::defaults());
}

// ---------------------------------------------------------------------
// Parse errors in context
// ---------------------------------------------------------------------

/// A line without the carriage return that may end it.
pub open spec fn without_cr(line: Seq<char>) -> Seq<char> {
    if line.len() > 0 && line.last() == '\r' {
        line.drop_last()
    } else {
        line
    }
}

/// Every piece with the carriage return at its end taken off.
pub open spec fn all_without_cr(pieces: Seq<Seq<char>>) -> Seq<Seq<char>> {
    Seq::new(pieces.len(), |i: int| without_cr(pieces[i]))
}

/// The lines of a text. A line ends at a line feed, and a carriage return
/// before the line feed is no part of it; what follows the last line feed
/// is a line if it is not empty.
pub open spec fn lines_of(text: Seq<char>) -> Seq<Seq<char>> {
    let pieces = split_on(text, '\n');
    let closed = all_without_cr(pieces.drop_last());
    if pieces.last().len() == 0 {
        closed
    } else {
        closed.push(pieces.last())
    }
}

/// Split a text into its lines.
pub fn lines(text: &str) -> (r: Vec<String>)
    ensures
        list_text(r@) == lines_of(text@),
{
    let pieces = split(text, '\n');
    proof {
        crate::text::lemma_split_on_nonempty(text@, '\n');
    }
    let ghost all = list_text(pieces@);
    let n = pieces.len();
    let mut r: Vec<String> = Vec::new();
    let mut i: usize = 0;
    while i + 1 < n
        invariant
            n == pieces.len(),
            n >= 1,
            i <= n - 1,
            all == list_text(pieces@),
            r.len() == i,
            forall|k: int| 0 <= k < i ==> r@[k]@ == without_cr(all[k]),
        decreases n - i,
    {
        let piece = pieces[i].as_str();
        let cs = crate::text::chars_of(piece);
        let len = cs.len();
        if len > 0 && cs[len - 1] == '\r' {
            let line = piece.substring_char(0, len - 1);
            assert(line@ =~= all[i as int].drop_last());
            r.push(String::from_str(line));
        } else {
            r.push(pieces[i].clone());
        }
        i += 1;
    }
    assert(list_text(r@) =~= all_without_cr(all.drop_last()));
    let ghost closed = list_text(r@);
    if !pieces[n - 1].as_str().is_empty() {
        r.push(pieces[n - 1].clone());
        assert(list_text(r@) =~= closed.push(all.last()));
    }
    r
}

/// One more than `n`, or `n` itself where nothing larger can be held.
pub open spec fn succ_of(n: usize) -> usize {
    if n < usize::MAX {
        (n + 1) as usize
    } else {
        n
    }
}

fn succ(n: usize) -> (r: usize)
    ensures
        r == succ_of(n),
{
    if n < usize::MAX {
        n + 1
    } else {
        n
    }
}

/// What stands before a line that is shown for context only: its number
/// in a field of three columns.
pub open spec fn plain_prefix(number: usize) -> Seq<char> {
    "    "@ + pad_left(decimal(number as nat), 3) + ":    "@
}

/// What stands before the line that holds the error: a mark, the number of
/// the line in a field of three columns, and the number of the column.
pub open spec fn marked_prefix(number: usize, column: usize) -> Seq<char> {
    "  > "@ + pad_left(decimal(number as nat), 3) + ":"@ + decimal(column as nat) + "  "@
}

/// The rows of context for the line at index `i`: the line itself behind
/// its prefix, and under the line of the error, if the error is among the
/// first eighty columns, an arrow that points at the column behind the
/// prefix.
pub open spec fn context_rows(line: Seq<char>, i: usize, line_num: usize, col_num: usize) -> Seq<
    Seq<char>,
> {
    if i == line_num {
        let prefix = marked_prefix(succ_of(i), succ_of(col_num));
        if col_num < 80 {
            seq![prefix + line, spaces(prefix.len()) + "^"@]
        } else {
            seq![prefix + line]
        }
    } else {
        seq![plain_prefix(succ_of(i)) + line]
    }
}

/// The rows of context for the lines from index `start` up to, but not
/// including, index `end`.
pub open spec fn context_between(
    lines: Seq<Seq<char>>,
    start: usize,
    end: usize,
    line_num: usize,
    col_num: usize,
) -> Seq<Seq<char>>
    decreases end,
{
    if end <= start || end > lines.len() {
        Seq::empty()
    } else {
        context_between(lines, start, (end - 1) as usize, line_num, col_num) + context_rows(
            lines[end - 1],
            (end - 1) as usize,
            line_num,
            col_num,
        )
    }
}

/// Index of the first line shown: two before the line of the error.
pub open spec fn context_start(line_num: usize) -> usize {
    if line_num >= 2 {
        (line_num - 2) as usize
    } else {
        0
    }
}

/// Index behind the last line shown: three behind that of the error, or
/// the end of the text.
pub open spec fn context_end(line_num: usize, count: nat) -> usize {
    if line_num + 3 <= count {
        (line_num + 3) as usize
    } else {
        count as usize
    }
}

/// The error that a failure to parse a configuration file is reported as.
///
/// `before` is the part of the content that precedes the place of the
/// error, where the parser gave one. The line of the error is counted in
/// the lines of `before`, its column in the bytes behind the last line
/// feed of `before`. Without a place, the error is the parser's own
/// rendering.
pub open spec fn toml_error_of(
    path: Seq<char>,
    content: Seq<char>,
    before: Option<Seq<char>>,
    rendered: Seq<char>,
    message: Seq<char>,
) -> ConfigErrorView {
    match before {
        Some(b) => {
            let lines = lines_of(content);
            let line_num = lines_of(b).len() as usize;
            let col_num = vstd::utf8::encode_utf8(split_on(b, '\n').last()).len() as usize;
            ConfigErrorView::ParseWithContext {
                file: path,
                line: succ_of(line_num),
                column: succ_of(col_num),
                context: context_between(
                    lines,
                    context_start(line_num),
                    context_end(line_num, lines.len()),
                    line_num,
                    col_num,
                ),
                original_message: message,
            }
        },
        None => ConfigErrorView::Parse(rendered),
    }
}

fn push_context_rows(
    context: &mut Vec<String>,
    line: &str,
    i: usize,
    line_num: usize,
    col_num: usize,
)
    ensures
        list_text(final(context)@) == list_text(old(context)@) + context_rows(
            line@,
            i,
            line_num,
            col_num,
        ),
{
    let number = succ(i);
    if i == line_num {
        let mut prefix = String::from_str("  > ");
        prefix.append(padded_decimal_string(number as u64, 3).as_str());
        prefix.append(":");
        prefix.append(decimal_string(succ(col_num) as u64).as_str());
        prefix.append("  ");
        let prefix_len = prefix.as_str().unicode_len();
        let mut row = prefix.clone();
        row.append(line);
        context.push(row);
        if col_num < 80 {
            let mut arrow = spaces_string(prefix_len);
            arrow.append("^");
            context.push(arrow);
            assert(list_text(context@) =~= list_text(old(context)@) + seq![
                prefix@ + line@,
                spaces(prefix@.len()) + "^"@,
            ]);
        } else {
            assert(list_text(context@) =~= list_text(old(context)@) + seq![prefix@ + line@]);
        }
    } else {
        let mut row = String::from_str("    ");
        row.append(padded_decimal_string(number as u64, 3).as_str());
        row.append(":    ");
        row.append(line);
        context.push(row);
        assert(list_text(context@) =~= list_text(old(context)@) + seq![
            plain_prefix(succ_of(i)) + line@,
        ]);
    }
}

/// Create an enhanced parse error with file/line context.
pub fn toml_error(
    path: &str,
    content: &str,
    before: Option<&str>,
    rendered: &str,
    message: &str,
) -> (e: ConfigError)
    ensures
        e@ == toml_error_of(
            path@,
            content@,
            match before {
                Some(b) => Some(b@),
                None => None,
            },
            rendered@,
            message@,
        ),
{
    let b = match before {
        Some(b) => b,
        None => {
            // Fall back to the parser's rendering if there is no place
            return ConfigError::Parse(String::from_str(rendered));
        },
    };
    let all_lines = lines(content);
    let line_num = lines(b).len();
    let pieces = split(b, '\n');
    proof {
        crate::text::lemma_split_on_nonempty(b@, '\n');
    }
    let col_num = pieces[pieces.len() - 1].as_str().len();

    // Create context around the error
    let start = if line_num >= 2 {
        line_num - 2
    } else {
        0
    };
    let count = all_lines.len();
    let end = if line_num <= count && count - line_num >= 3 {
        line_num + 3
    } else {
        count
    };
    let ghost texts = list_text(all_lines@);
    let mut context_lines: Vec<String> = Vec::new();
    assert(list_text(context_lines@) =~= Seq::<Seq<char>>::empty());
    if start < end {
        let mut i: usize = start;
        while i < end
            invariant
                start <= i <= end,
                end <= count,
                count == all_lines.len(),
                texts == list_text(all_lines@),
                list_text(context_lines@) == context_between(texts, start, i, line_num, col_num),
            decreases end - i,
        {
            assert(texts[i as int] == all_lines@[i as int]@);
            push_context_rows(&mut context_lines, all_lines[i].as_str(), i, line_num, col_num);
            i += 1;
        }
    }
    ConfigError::ParseWithContext {
        file: String::from_str(path),
        line: succ(line_num),
        column: succ(col_num),
        context: context_lines,
        original_message: String::from_str(message),
    }
}

} // verus!
