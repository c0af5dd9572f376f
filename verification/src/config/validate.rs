//! Validation of a configuration: the rules that reject it outright, and
//! the warnings raised for values that are accepted but look wrong.

use vstd::prelude::*;
use crate::config::error::{ConfigError, ConfigErrorView};
use crate::config::schema::{Config, ConfigView, WidgetPosition};
use crate::text::{
    contains_text, decimal, decimal_string, list_text, occurs_in, run_forward, run_forward_len,
    trim, trimmed, white_flags, white_flags_of,
};

verus! {

/// The kinds of item that a time format string is made of.
#[derive(Debug, Clone, Copy, PartialEq, Eq, Structural)]
pub enum FormatItem {
    /// Text printed as it stands
    Literal,
    /// Text printed as it stands, owned by the item
    OwnedLiteral,
    /// White space
    Space,
    /// White space, owned by the item
    OwnedSpace,
    /// A number, such as the day of the month
    Numeric,
    /// A fixed-format item, such as the name of the month
    Fixed,
    /// Part of the string that is no valid format
    Error,
}

/// The items that `chrono` reads from a time format string, by kind and in
/// order.
pub uninterp spec fn strftime_items(format: Seq<char>) -> Seq<FormatItem>;

/// `chrono::format::StrftimeItems::new`, walked to its end. The contract
/// names the kinds of the items that come out; they depend on the format
/// string alone. Each item is mapped to its kind, variant by variant.
#[verifier::external_body]
fn parse_time_format(format: &str) -> (items: Vec<FormatItem>)
    ensures
        items@ == strftime_items(format@),
{
    chrono::format::StrftimeItems::new(format).map(|item| match item {
        chrono::format::Item::Literal(_) => FormatItem::Literal,
        chrono::format::Item::OwnedLiteral(_) => FormatItem::OwnedLiteral,
        chrono::format::Item::Space(_) => FormatItem::Space,
        chrono::format::Item::OwnedSpace(_) => FormatItem::OwnedSpace,
        chrono::format::Item::Numeric(_, _) => FormatItem::Numeric,
        chrono::format::Item::Fixed(_) => FormatItem::Fixed,
        chrono::format::Item::Error => FormatItem::Error,
    }).collect()
}

/// Whether one of the items marks an invalid part of the format.
pub open spec fn has_error(items: Seq<FormatItem>) -> bool {
    exists|i: int| 0 <= i < items.len() && #[trigger] items[i] == FormatItem::Error
}

/// Whether one of the items marks an invalid part of the format.
pub fn has_error_item(items: &Vec<FormatItem>) -> (found: bool)
    ensures
        found == has_error(items@),
{
    let mut i: usize = 0;
    while i < items.len()
        invariant
            i <= items.len(),
            forall|k: int| 0 <= k < i ==> #[trigger] items@[k] != FormatItem::Error,
        decreases items.len() - i,
    {
        if items[i] == FormatItem::Error {
            return true;
        }
        i += 1;
    }
    false
}

/// Whether `format` is a time format that can be used: none of the items it
/// is read as is an error.
pub fn time_format_is_valid(format: &str) -> (valid: bool)
    ensures
        valid == !has_error(strftime_items(format@)),
{
    let items = parse_time_format(format);
    !has_error_item(&items)
}

// ---------------------------------------------------------------------
// Wrapper commands
// ---------------------------------------------------------------------

/// The first word of a command: what stands before the first white space,
/// once the command is trimmed.
pub open spec fn first_word(command: Seq<char>) -> Seq<char> {
    let t = trimmed(command);
    t.take(run_forward(white_flags(t), 0, false))
}

/// Where the executable of a wrapper command has to be looked for.
#[derive(Debug)]
pub enum WrapperTarget {
    /// The command holds nothing but white space: there is nothing to find.
    Empty,
    /// The executable is named by an absolute path.
    Absolute(String),
    /// The executable is named by a bare name, to be searched in `PATH`.
    InPath(String),
}

pub enum WrapperTargetView {
    Empty,
    Absolute(Seq<char>),
    InPath(Seq<char>),
}

impl View for WrapperTarget {
    type V = WrapperTargetView;

    open spec fn view(&self) -> WrapperTargetView {
        match self {
            WrapperTarget::Empty => WrapperTargetView::Empty,
            WrapperTarget::Absolute(p) => WrapperTargetView::Absolute(p@),
            WrapperTarget::InPath(p) => WrapperTargetView::InPath(p@),
        }
    }
}

/// The target of a command: its first word, absolute if it starts with `/`.
pub open spec fn target_of(command: Seq<char>) -> WrapperTargetView {
    if trimmed(command).len() == 0 {
        WrapperTargetView::Empty
    } else if first_word(command).len() > 0 && first_word(command)[0] == '/' {
        WrapperTargetView::Absolute(first_word(command))
    } else {
        WrapperTargetView::InPath(first_word(command))
    }
}

/// Find out what has to be looked up on disk for a wrapper command.
pub fn wrapper_target(command: &str) -> (target: WrapperTarget)
    ensures
        target@ == target_of(command@),
{
    let t = trim(command);
    if t.is_empty() {
        return WrapperTarget::Empty;
    }
    let flags = white_flags_of(t);
    let n = run_forward_len(&flags, 0, false);
    let word = t.substring_char(0, n);
    assert(word@ =~= first_word(command@));
    if n > 0 && t.get_char(0) == '/' {
        WrapperTarget::Absolute(String::from_str(word))
    } else {
        WrapperTarget::InPath(String::from_str(word))
    }
}

/// The verdict on a wrapper command, given whether its executable was found.
pub open spec fn wrapper_check(command: Seq<char>, found: bool) -> Result<(), ConfigErrorView> {
    if trimmed(command).len() == 0 {
        Err(ConfigErrorView::WrapperExecutableNotFound(command))
    } else if !found {
        Err(ConfigErrorView::WrapperExecutableNotFound(first_word(command)))
    } else {
        Ok(())
    }
}

/// What a look on disk said of the two wrapper commands: whether the
/// executable of each exists and may be executed.
#[derive(Debug, Clone, Copy)]
pub struct WrapperProbe {
    pub session_wrapper_found: bool,
    pub xsession_wrapper_found: bool,
}

// ---------------------------------------------------------------------
// Warnings
// ---------------------------------------------------------------------

/// No warning, or one.
pub open spec fn warning_if(raised: bool, text: Seq<char>) -> Seq<Seq<char>> {
    if raised {
        seq![text]
    } else {
        Seq::empty()
    }
}

pub open spec fn high_padding(padding: Option<u16>) -> bool {
    padding matches Some(p) && p > 10
}

pub open spec fn padding_warning(name: Seq<char>, padding: Option<u16>) -> Seq<char> {
    name + " is very high ("@ + decimal(padding.unwrap_or(0) as nat)
        + "), this may cause display issues"@
}

pub open spec fn width_warning(width: u16) -> Seq<char> {
    "width is very high ("@ + decimal(width as nat)
        + "), this may cause display issues on smaller terminals"@
}

/// A power command that may fail: it runs without `setsid` and asks for no
/// privilege.
pub open spec fn risky_power_command(command: Option<Seq<char>>, use_setsid: bool) -> bool {
    command matches Some(c) && !use_setsid && !occurs_in(c, "sudo"@) && !occurs_in(c, "doas"@)
}

/// `earlier` followed by the warnings about sizes: paddings, width and the
/// range of user ids.
pub open spec fn size_warnings_after(earlier: Seq<Seq<char>>, c: ConfigView) -> Seq<Seq<char>> {
    earlier + warning_if(
        high_padding(c.layout.window_padding),
        padding_warning("window_padding"@, c.layout.window_padding),
    ) + warning_if(
        high_padding(c.layout.container_padding),
        padding_warning("container_padding"@, c.layout.container_padding),
    ) + warning_if(c.layout.width > 200, width_warning(c.layout.width)) + warning_if(
        c.user_menu.enabled && c.user_menu.min_uid > 65000,
        "user_menu.min_uid is very high, you may not see any users"@,
    )
}

/// `earlier` followed by the warnings about features that get in each
/// other's way: session directories named twice, a hidden clock, power
/// commands that may fail.
pub open spec fn conflict_warnings_after(earlier: Seq<Seq<char>>, c: ConfigView) -> Seq<
    Seq<char>,
> {
    earlier + warning_if(
        !(c.session.sessions_dirs + c.session.xsessions_dirs).no_duplicates(),
        "Duplicate session directories detected in sessions_dirs and xsessions_dirs"@,
    ) + warning_if(
        c.layout.widgets.time_position == WidgetPosition::Hidden && c.display.show_time,
        "time widget is hidden but show_time is enabled"@,
    ) + warning_if(
        risky_power_command(c.power.shutdown, c.power.use_setsid),
        "shutdown command without setsid or privilege escalation may fail"@,
    ) + warning_if(
        risky_power_command(c.power.reboot, c.power.use_setsid),
        "reboot command without setsid or privilege escalation may fail"@,
    )
}

/// `earlier` followed by the warnings about what is left empty or set
/// twice over.
pub open spec fn omission_warnings_after(earlier: Seq<Seq<char>>, c: ConfigView) -> Seq<
    Seq<char>,
> {
    earlier + warning_if(
        c.session.sessions_dirs.len() == 0 && c.session.xsessions_dirs.len() == 0,
        "No session directories configured, users may not be able to select sessions"@,
    ) + warning_if(
        c.display.time_format matches Some(f) && f.len() == 0,
        "time_format is empty, this will result in no time display"@,
    ) + warning_if(
        c.remember.session && c.remember.user_session,
        "Both remember.session and remember.user_session are enabled"@,
    )
}

/// `earlier` followed by the warnings that a configuration raises, in the
/// order in which they are reported.
pub open spec fn warnings_after(earlier: Seq<Seq<char>>, c: ConfigView) -> Seq<Seq<char>> {
    omission_warnings_after(conflict_warnings_after(size_warnings_after(earlier, c), c), c)
}

/// The warnings that a configuration raises.
pub open spec fn warnings_of(c: ConfigView) -> Seq<Seq<char>> {
    warnings_after(Seq::empty(), c)
}

fn push_warning_if(warnings: &mut Vec<String>, raised: bool, text: String)
    ensures
        list_text(final(warnings)@) == list_text(old(warnings)@) + warning_if(raised, text@),
{
    if raised {
        warnings.push(text);
        assert(list_text(warnings@) =~= list_text(old(warnings)@) + seq![text@]);
    } else {
        assert(list_text(warnings@) =~= list_text(old(warnings)@) + Seq::<Seq<char>>::empty());
    }
}

fn is_high_padding(padding: Option<u16>) -> (r: bool)
    ensures
        r == high_padding(padding),
{
    match padding {
        Some(p) => p > 10,
        None => false,
    }
}

fn padding_warning_text(name: &str, padding: Option<u16>) -> (r: String)
    ensures
        r@ == padding_warning(name@, padding),
{
    let value: u16 = match padding {
        Some(p) => p,
        None => 0,
    };
    let mut r = String::from_str(name);
    r.append(" is very high (");
    r.append(decimal_string(value as u64).as_str());
    r.append("), this may cause display issues");
    r
}

fn width_warning_text(width: u16) -> (r: String)
    ensures
        r@ == width_warning(width),
{
    let mut r = String::from_str("width is very high (");
    r.append(decimal_string(width as u64).as_str());
    r.append("), this may cause display issues on smaller terminals");
    r
}

fn is_risky_power_command(command: &Option<String>, use_setsid: bool) -> (r: bool)
    ensures
        r == risky_power_command(crate::text::opt_text(*command), use_setsid),
{
    match command {
        Some(c) => !use_setsid && !contains_text(c.as_str(), "sudo") && !contains_text(
            c.as_str(),
            "doas",
        ),
        None => false,
    }
}

/// Whether some string occurs twice in `first` followed by `second`.
pub fn has_duplicates(first: &Vec<String>, second: &Vec<String>) -> (found: bool)
    ensures
        found == !(list_text(first@) + list_text(second@)).no_duplicates(),
{
    let mut all: Vec<&String> = Vec::new();
    let ghost texts = list_text(first@) + list_text(second@);
    let mut k: usize = 0;
    while k < first.len()
        invariant
            k <= first.len(),
            all.len() == k,
            forall|i: int| 0 <= i < k ==> all@[i]@ == first@[i]@,
        decreases first.len() - k,
    {
        all.push(&first[k]);
        k += 1;
    }
    k = 0;
    while k < second.len()
        invariant
            k <= second.len(),
            all.len() == first.len() + k,
            forall|i: int| 0 <= i < first.len() ==> all@[i]@ == first@[i]@,
            forall|i: int| 0 <= i < k ==> all@[first.len() + i]@ == second@[i]@,
        decreases second.len() - k,
    {
        all.push(&second[k]);
        k += 1;
    }
    assert(texts.len() == all.len());
    assert forall|i: int| 0 <= i < all.len() implies all@[i]@ == texts[i] by {
        if i >= first.len() {
            assert(all@[first.len() + (i - first.len())]@ == second@[i - first.len()]@);
        }
    }
    let n = all.len();
    let mut i: usize = 0;
    while i < n
        invariant
            i <= n,
            n == all.len(),
            texts.len() == n,
            texts == list_text(first@) + list_text(second@),
            forall|a: int| 0 <= a < n ==> all@[a]@ == texts[a],
            forall|a: int, b: int| 0 <= a < i && a < b < n ==> texts[a] != texts[b],
        decreases n - i,
    {
        let mut j: usize = i + 1;
        while j < n
            invariant
                i < j <= n,
                n == all.len(),
                texts.len() == n,
                texts == list_text(first@) + list_text(second@),
                forall|a: int| 0 <= a < n ==> all@[a]@ == texts[a],
                forall|b: int| i < b < j ==> texts[i as int] != texts[b],
            decreases n - j,
        {
            if *all[i] == *all[j] {
                assert(texts[i as int] == texts[j as int]);
                return true;
            }
            j += 1;
        }
        i += 1;
    }
    assert forall|a: int, b: int| 0 <= a < n && 0 <= b < n && a != b implies texts[a]
        != texts[b] by {
        if a < b {
        } else {
            assert(texts[b] != texts[a]);
        }
    }
    false
}

fn is_empty_format(format: &Option<String>) -> (r: bool)
    ensures
        r == (crate::text::opt_text(*format) matches Some(f) && f.len() == 0),
{
    match format {
        Some(f) => f.as_str().is_empty(),
        None => false,
    }
}

impl Config {
    fn size_warnings(&self, warnings: &mut Vec<String>)
        ensures
            list_text(final(warnings)@) == size_warnings_after(list_text(old(warnings)@), self@),
    {
        push_warning_if(
            warnings,
            is_high_padding(self.layout.window_padding),
            padding_warning_text("window_padding", self.layout.window_padding),
        );
        push_warning_if(
            warnings,
            is_high_padding(self.layout.container_padding),
            padding_warning_text("container_padding", self.layout.container_padding),
        );
        push_warning_if(warnings, self.layout.width > 200, width_warning_text(self.layout.width));
        push_warning_if(
            warnings,
            self.user_menu.enabled && self.user_menu.min_uid > 65000,
            String::from_str("user_menu.min_uid is very high, you may not see any users"),
        );
    }

    fn conflict_warnings(&self, warnings: &mut Vec<String>)
        ensures
            list_text(final(warnings)@) == conflict_warnings_after(
                list_text(old(warnings)@),
                self@,
            ),
    {
        push_warning_if(
            warnings,
            has_duplicates(&self.session.sessions_dirs, &self.session.xsessions_dirs),
            String::from_str(
                "Duplicate session directories detected in sessions_dirs and xsessions_dirs",
            ),
        );
        push_warning_if(
            warnings,
            self.layout.widgets.time_position == WidgetPosition::Hidden && self.display.show_time,
            String::from_str("time widget is hidden but show_time is enabled"),
        );
        push_warning_if(
            warnings,
            is_risky_power_command(&self.power.shutdown, self.power.use_setsid),
            String::from_str("shutdown command without setsid or privilege escalation may fail"),
        );
        push_warning_if(
            warnings,
            is_risky_power_command(&self.power.reboot, self.power.use_setsid),
            String::from_str("reboot command without setsid or privilege escalation may fail"),
        );
    }

    fn omission_warnings(&self, warnings: &mut Vec<String>)
        ensures
            list_text(final(warnings)@) == omission_warnings_after(
                list_text(old(warnings)@),
                self@,
            ),
    {
        push_warning_if(
            warnings,
            self.session.sessions_dirs.len() == 0 && self.session.xsessions_dirs.len() == 0,
            String::from_str(
                "No session directories configured, users may not be able to select sessions",
            ),
        );
        push_warning_if(
            warnings,
            is_empty_format(&self.display.time_format),
            String::from_str("time_format is empty, this will result in no time display"),
        );
        push_warning_if(
            warnings,
            self.remember.session && self.remember.user_session,
            String::from_str("Both remember.session and remember.user_session are enabled"),
        );
    }

    /// Append the warnings that this configuration raises.
    pub fn check_warnings(&self, warnings: &mut Vec<String>)
        ensures
            list_text(final(warnings)@) == warnings_after(list_text(old(warnings)@), self@),
    {
        self.size_warnings(warnings);
        self.conflict_warnings(warnings);
        self.omission_warnings(warnings);
    }
}

// ---------------------------------------------------------------------
// The rules
// ---------------------------------------------------------------------

/// Whether a key number names one of the function keys F1 to F12.
pub open spec fn is_fkey(key: u8) -> bool {
    1 <= key <= 12
}

/// The verdict on an optional wrapper command: one that is absent passes.
pub open spec fn opt_wrapper_check(command: Option<Seq<char>>, found: bool) -> Result<
    (),
    ConfigErrorView,
> {
    match command {
        Some(w) => wrapper_check(w, found),
        None => Ok(()),
    }
}

/// The verdict on the two wrapper commands, the session wrapper first.
pub open spec fn wrappers_check(c: ConfigView, probe: WrapperProbe) -> Result<
    (),
    ConfigErrorView,
> {
    if opt_wrapper_check(c.session.session_wrapper, probe.session_wrapper_found) is Err {
        opt_wrapper_check(c.session.session_wrapper, probe.session_wrapper_found)
    } else {
        opt_wrapper_check(c.session.xsession_wrapper, probe.xsession_wrapper_found)
    }
}

/// The outcome of validation: the first rule that the configuration breaks,
/// in the order below, or the warnings it raises if it breaks none.
pub open spec fn validation_of(c: ConfigView, validate_wrappers: bool, probe: WrapperProbe)
    -> Result<Seq<Seq<char>>, ConfigErrorView> {
    if c.display.issue && c.display.greeting is Some {
        Err(ConfigErrorView::MutuallyExclusive("display.issue"@, "display.greeting"@))
    } else if c.remember.session && c.remember.user_session {
        Err(ConfigErrorView::MutuallyExclusive("remember.session"@, "remember.user_session"@))
    } else if c.remember.user_session && !c.remember.username {
        Err(ConfigErrorView::Dependency("remember.user_session requires remember.username"@))
    } else if c.user_menu.min_uid > c.user_menu.max_uid {
        Err(
            ConfigErrorView::InvalidRange(
                "user_menu.min_uid must not exceed user_menu.max_uid"@,
            ),
        )
    } else if c.keybindings.command == c.keybindings.sessions || c.keybindings.command
        == c.keybindings.power || c.keybindings.sessions == c.keybindings.power {
        Err(ConfigErrorView::DuplicateKeybindings)
    } else if !is_fkey(c.keybindings.command) {
        Err(ConfigErrorView::InvalidFKey("command"@, c.keybindings.command))
    } else if !is_fkey(c.keybindings.sessions) {
        Err(ConfigErrorView::InvalidFKey("sessions"@, c.keybindings.sessions))
    } else if !is_fkey(c.keybindings.power) {
        Err(ConfigErrorView::InvalidFKey("power"@, c.keybindings.power))
    } else if c.display.time_format matches Some(f) && has_error(strftime_items(f)) {
        Err(ConfigErrorView::InvalidTimeFormat)
    } else if validate_wrappers && wrappers_check(c, probe) is Err {
        Err(wrappers_check(c, probe)->Err_0)
    } else {
        Ok(warnings_of(c))
    }
}

impl Config {
    /// Validate that a wrapper command names an executable, given whether
    /// the executable that `wrapper_target` points at was found.
    pub fn validate_wrapper_command(&self, command: &str, found: bool) -> (r: Result<
        (),
        ConfigError,
    >)
        ensures
            match r {
                Ok(_) => wrapper_check(command@, found) is Ok,
                Err(e) => wrapper_check(command@, found) == Err::<(), ConfigErrorView>(e@),
            },
    {
        match wrapper_target(command) {
            WrapperTarget::Empty => Err(
                ConfigError::WrapperExecutableNotFound(String::from_str(command)),
            ),
            WrapperTarget::Absolute(path) => {
                if found {
                    Ok(())
                } else {
                    Err(ConfigError::WrapperExecutableNotFound(path))
                }
            },
            WrapperTarget::InPath(name) => {
                if found {
                    Ok(())
                } else {
                    Err(ConfigError::WrapperExecutableNotFound(name))
                }
            },
        }
    }

    fn validate_wrappers(&self, probe: WrapperProbe) -> (r: Result<(), ConfigError>)
        ensures
            match r {
                Ok(_) => wrappers_check(self@, probe) is Ok,
                Err(e) => wrappers_check(self@, probe) == Err::<(), ConfigErrorView>(e@),
            },
    {
        if let Some(wrapper) = &self.session.session_wrapper {
            match self.validate_wrapper_command(wrapper.as_str(), probe.session_wrapper_found) {
                Err(e) => {
                    return Err(e);
                },
                Ok(_) => {},
            }
        }
        if let Some(wrapper) = &self.session.xsession_wrapper {
            match self.validate_wrapper_command(wrapper.as_str(), probe.xsession_wrapper_found) {
                Err(e) => {
                    return Err(e);
                },
                Ok(_) => {},
            }
        }
        Ok(())
    }

    /// Validate the configuration. With `validate_wrappers` set, the wrapper
    /// commands are held against `probe`, which says whether the executable
    /// of each was found.
    pub fn validate(&self, validate_wrappers: bool, probe: WrapperProbe) -> (r: Result<
        Vec<String>,
        ConfigError,
    >)
        ensures
            match r {
                Ok(warnings) => validation_of(self@, validate_wrappers, probe) == Ok::<
                    Seq<Seq<char>>,
                    ConfigErrorView,
                >(list_text(warnings@)),
                Err(e) => validation_of(self@, validate_wrappers, probe) == Err::<
                    Seq<Seq<char>>,
                    ConfigErrorView,
                >(e@),
            },
    {
        let mut warnings: Vec<String> = Vec::new();

        // Check mutually exclusive options
        if self.display.issue && self.display.greeting.is_some() {
            return Err(
                ConfigError::MutuallyExclusive(
                    String::from_str("display.issue"),
                    String::from_str("display.greeting"),
                ),
            );
        }
        if self.remember.session && self.remember.user_session {
            return Err(
                ConfigError::MutuallyExclusive(
                    String::from_str("remember.session"),
                    String::from_str("remember.user_session"),
                ),
            );
        }
        // Check dependencies

        if self.remember.user_session && !self.remember.username {
            return Err(
                ConfigError::Dependency(
                    String::from_str("remember.user_session requires remember.username"),
                ),
            );
        }
        // Check UID ranges

        if self.user_menu.min_uid > self.user_menu.max_uid {
            return Err(
                ConfigError::InvalidRange(
                    String::from_str("user_menu.min_uid must not exceed user_menu.max_uid"),
                ),
            );
        }
        // Check keybindings are distinct

        let command = self.keybindings.command;
        let sessions = self.keybindings.sessions;
        let power = self.keybindings.power;
        if command == sessions || command == power || sessions == power {
            return Err(ConfigError::DuplicateKeybindings);
        }
        // Check F-key ranges

        if !(1 <= command && command <= 12) {
            return Err(ConfigError::InvalidFKey(String::from_str("command"), command));
        }
        if !(1 <= sessions && sessions <= 12) {
            return Err(ConfigError::InvalidFKey(String::from_str("sessions"), sessions));
        }
        if !(1 <= power && power <= 12) {
            return Err(ConfigError::InvalidFKey(String::from_str("power"), power));
        }
        // Validate time format if provided

        if let Some(format) = &self.display.time_format {
            if !time_format_is_valid(format.as_str()) {
                return Err(ConfigError::InvalidTimeFormat);
            }
        }
        // Validate session wrapper executables if requested

        if validate_wrappers {
            match self.validate_wrappers(probe) {
                Err(e) => {
                    return Err(e);
                },
                Ok(_) => {},
            }
        }
        // Add validation warnings for potentially problematic configurations

        assert(list_text(warnings@) =~= Seq::<Seq<char>>::empty());
        self.check_warnings(&mut warnings);
        Ok(warnings)
    }
}

/// What a configuration that passed validation can be relied on for.
pub proof fn lemma_valid_config(c: ConfigView, validate_wrappers: bool, probe: WrapperProbe)
    requires
        validation_of(c, validate_wrappers, probe) is Ok,
    ensures
        !(c.display.issue && c.display.greeting is Some),
        !(c.remember.session && c.remember.user_session),
        c.remember.user_session ==> c.remember.username,
        c.user_menu.min_uid <= c.user_menu.max_uid,
        is_fkey(c.keybindings.command),
        is_fkey(c.keybindings.sessions),
        is_fkey(c.keybindings.power),
        c.keybindings.command != c.keybindings.sessions,
        c.keybindings.command != c.keybindings.power,
        c.keybindings.sessions != c.keybindings.power,
        c.display.time_format matches Some(f) ==> !has_error(strftime_items(f)),
        validate_wrappers ==> wrappers_check(c, probe) is Ok,
        validation_of(c, validate_wrappers, probe) == Ok::<Seq<Seq<char>>, ConfigErrorView>(
            warnings_of(c),
        ),
{
}

/// Looking the wrappers up can only turn a configuration down, never let
/// one pass that fails without it.
pub proof fn lemma_wrappers_only_restrict(c: ConfigView, probe: WrapperProbe)
    requires
        validation_of(c, true, probe) is Ok,
    ensures
        validation_of(c, false, probe) == validation_of(c, true, probe),
{
}

/// A configuration that holds nothing but defaults passes validation as
/// long as the wrappers are not looked up.
pub proof fn lemma_defaults_are_valid(probe: WrapperProbe)
    ensures
        validation_of(ConfigView::defaults(), false, probe) is Ok,
{
}

} // verus!
