//! Overrides taken from the process environment.
//!
//! The environment is handed in as a list of name/value pairs, so that what
//! an override does is a function of the configuration and of that list
//! alone. A variable whose value cannot be read as what its field holds
//! leaves the field alone and is reported by name.

use vstd::prelude::*;
use crate::config::schema::{
    AlignGreeting, Config, ConfigView, DisplayConfig, DisplayConfigView, GeneralConfig,
    GeneralConfigView, KeybindingsConfig, KeybindingsConfigView, LayoutConfig, LayoutConfigView,
    PowerConfig, PowerConfigView, RememberConfig, RememberConfigView, SecretConfig,
    SecretConfigView, SecretMode, SessionConfig, SessionConfigView, ThemeConfig, ThemeConfigView,
    UserMenuConfig, UserMenuConfigView, WidgetConfigView, WidgetPosition,
};
use crate::text::{
    list_text, lowercase, lowercase_of, opt_text, parse_u16, parse_u32, parse_u8, parse_unsigned,
    split, split_on, split_once, split_once_at, str_eq, trim, trimmed,
};

verus! {

/// The environment as the contracts see it: names paired with values.
pub type EnvView = Seq<(Seq<char>, Seq<char>)>;

/// View of a list of name/value pairs.
pub open spec fn env_view(vars: Seq<(String, String)>) -> EnvView {
    Seq::new(vars.len(), |i: int| (vars[i].0@, vars[i].1@))
}

/// The value of the first pair named `name`, if there is one.
pub open spec fn env_value(vars: EnvView, name: Seq<char>) -> Option<Seq<char>>
    decreases vars.len(),
{
    if vars.len() == 0 {
        None
    } else if vars[0].0 == name {
        Some(vars[0].1)
    } else {
        env_value(vars.drop_first(), name)
    }
}

/// Look a variable up by name.
pub fn lookup<'a>(vars: &'a Vec<(String, String)>, name: &str) -> (r: Option<&'a str>)
    ensures
        match r {
            Some(v) => env_value(env_view(vars@), name@) == Some(v@),
            None => env_value(env_view(vars@), name@) is None,
        },
{
    let mut i: usize = 0;
    let ghost env = env_view(vars@);
    assert(env.skip(0) =~= env);
    while i < vars.len()
        invariant
            i <= vars.len(),
            env == env_view(vars@),
            env_value(env, name@) == env_value(env.skip(i as int), name@),
        decreases vars.len() - i,
    {
        assert(env.skip(i as int)[0] == env[i as int]);
        if str_eq(vars[i].0.as_str(), name) {
            return Some(vars[i].1.as_str());
        }
        assert(env.skip(i as int).drop_first() =~= env.skip(i as int + 1));
        i += 1;
    }
    assert(env.skip(vars.len() as int).len() == 0);
    None
}

/// The truth value that a lowercased word spells.
pub open spec fn bool_of(lower: Seq<char>) -> Result<bool, ()> {
    if lower == "true"@ || lower == "1"@ || lower == "yes"@ {
        Ok(true)
    } else if lower == "false"@ || lower == "0"@ || lower == "no"@ {
        Ok(false)
    } else {
        Err(())
    }
}

/// Read an already lowercased word as a truth value: `true`, `1` and `yes`
/// stand for true; `false`, `0` and `no` for false; nothing else is accepted.
pub fn bool_from_lowercase(lower: &str) -> (r: Result<bool, ()>)
    ensures
        r == bool_of(lower@),
{
    if str_eq(lower, "true") || str_eq(lower, "1") || str_eq(lower, "yes") {
        Ok(true)
    } else if str_eq(lower, "false") || str_eq(lower, "0") || str_eq(lower, "no") {
        Ok(false)
    } else {
        Err(())
    }
}

/// Parse a boolean value from a string, whatever its letter case.
/// Accepts "true", "1", "yes" for true; "false", "0", "no" for false.
pub fn parse_bool(value: &str) -> (r: Result<bool, ()>)
    ensures
        r == bool_of(lowercase_of(value@)),
{
    let lower = lowercase(value);
    bool_from_lowercase(lower.as_str())
}

/// The alignment that a lowercased word names.
pub open spec fn align_of(lower: Seq<char>) -> Option<AlignGreeting> {
    if lower == "left"@ {
        Some(AlignGreeting::Left)
    } else if lower == "center"@ {
        Some(AlignGreeting::Center)
    } else if lower == "right"@ {
        Some(AlignGreeting::Right)
    } else {
        None
    }
}

/// Read an already lowercased word as a greeting alignment.
pub fn align_from_lowercase(lower: &str) -> (r: Option<AlignGreeting>)
    ensures
        r == align_of(lower@),
{
    if str_eq(lower, "left") {
        Some(AlignGreeting::Left)
    } else if str_eq(lower, "center") {
        Some(AlignGreeting::Center)
    } else if str_eq(lower, "right") {
        Some(AlignGreeting::Right)
    } else {
        None
    }
}

/// The secret display mode that a lowercased word names.
pub open spec fn secret_mode_of(lower: Seq<char>) -> Option<SecretMode> {
    if lower == "hidden"@ {
        Some(SecretMode::Hidden)
    } else if lower == "character"@ || lower == "characters"@ {
        Some(SecretMode::Characters)
    } else {
        None
    }
}

/// Read an already lowercased word as a secret display mode.
pub fn secret_mode_from_lowercase(lower: &str) -> (r: Option<SecretMode>)
    ensures
        r == secret_mode_of(lower@),
{
    if str_eq(lower, "hidden") {
        Some(SecretMode::Hidden)
    } else if str_eq(lower, "character") || str_eq(lower, "characters") {
        Some(SecretMode::Characters)
    } else {
        None
    }
}

/// The widget position that a lowercased word names.
pub open spec fn position_of(lower: Seq<char>) -> Option<WidgetPosition> {
    if lower == "default"@ {
        Some(WidgetPosition::Default)
    } else if lower == "top"@ {
        Some(WidgetPosition::Top)
    } else if lower == "bottom"@ {
        Some(WidgetPosition::Bottom)
    } else if lower == "hidden"@ {
        Some(WidgetPosition::Hidden)
    } else {
        None
    }
}

/// Read an already lowercased word as a widget position.
pub fn position_from_lowercase(lower: &str) -> (r: Option<WidgetPosition>)
    ensures
        r == position_of(lower@),
{
    if str_eq(lower, "default") {
        Some(WidgetPosition::Default)
    } else if str_eq(lower, "top") {
        Some(WidgetPosition::Top)
    } else if str_eq(lower, "bottom") {
        Some(WidgetPosition::Bottom)
    } else if str_eq(lower, "hidden") {
        Some(WidgetPosition::Hidden)
    } else {
        None
    }
}

/// The trimmed pieces of a list that are not empty, in order.
pub open spec fn kept_items(pieces: Seq<Seq<char>>) -> Seq<Seq<char>>
    decreases pieces.len(),
{
    if pieces.len() == 0 {
        Seq::empty()
    } else {
        let init = kept_items(pieces.drop_last());
        let item = trimmed(pieces.last());
        if item.len() > 0 {
            init.push(item)
        } else {
            init
        }
    }
}

/// The entries of a colon-separated list: each piece trimmed, empty ones
/// left out.
pub open spec fn colon_list_of(value: Seq<char>) -> Seq<Seq<char>> {
    kept_items(split_on(value, ':'))
}

/// Read a colon-separated list.
pub fn colon_list(value: &str) -> (items: Vec<String>)
    ensures
        list_text(items@) == colon_list_of(value@),
{
    let pieces = split(value, ':');
    let mut items: Vec<String> = Vec::new();
    let mut i: usize = 0;
    let ghost all = list_text(pieces@);
    assert(all.take(0) =~= Seq::<Seq<char>>::empty());
    assert(list_text(items@) =~= Seq::<Seq<char>>::empty());
    while i < pieces.len()
        invariant
            i <= pieces.len(),
            all == list_text(pieces@),
            list_text(items@) == kept_items(all.take(i as int)),
        decreases pieces.len() - i,
    {
        let ghost before = list_text(items@);
        proof {
            assert(all.take(i as int + 1).drop_last() =~= all.take(i as int));
            assert(all.take(i as int + 1).last() == pieces@[i as int]@);
        }
        let item = trim(pieces[i].as_str());
        if !item.is_empty() {
            items.push(String::from_str(item));
            assert(list_text(items@) =~= before.push(item@));
        }
        i += 1;
    }
    assert(all.take(pieces.len() as int) =~= all);
    items
}

// ---------------------------------------------------------------------
// What one variable does to one field
// ---------------------------------------------------------------------

pub open spec fn env_bool(vars: EnvView, name: Seq<char>, old: bool) -> bool {
    match env_value(vars, name) {
        Some(v) => match bool_of(lowercase_of(v)) {
            Ok(b) => b,
            Err(_) => old,
        },
        None => old,
    }
}

pub open spec fn env_text(vars: EnvView, name: Seq<char>, old: Seq<char>) -> Seq<char> {
    match env_value(vars, name) {
        Some(v) => v,
        None => old,
    }
}

pub open spec fn env_opt_text(vars: EnvView, name: Seq<char>, old: Option<Seq<char>>) -> Option<
    Seq<char>,
> {
    match env_value(vars, name) {
        Some(v) => Some(v),
        None => old,
    }
}

pub open spec fn env_list(vars: EnvView, name: Seq<char>, old: Seq<Seq<char>>) -> Seq<Seq<char>> {
    match env_value(vars, name) {
        Some(v) => colon_list_of(v),
        None => old,
    }
}

pub open spec fn env_u32(vars: EnvView, name: Seq<char>, old: u32) -> u32 {
    match env_value(vars, name) {
        Some(v) => match parse_unsigned(v, u32::MAX as nat) {
            Some(n) => n as u32,
            None => old,
        },
        None => old,
    }
}

pub open spec fn env_u16(vars: EnvView, name: Seq<char>, old: u16) -> u16 {
    match env_value(vars, name) {
        Some(v) => match parse_unsigned(v, u16::MAX as nat) {
            Some(n) => n as u16,
            None => old,
        },
        None => old,
    }
}

pub open spec fn env_opt_u16(vars: EnvView, name: Seq<char>, old: Option<u16>) -> Option<u16> {
    match env_value(vars, name) {
        Some(v) => match parse_unsigned(v, u16::MAX as nat) {
            Some(n) => Some(n as u16),
            None => old,
        },
        None => old,
    }
}

/// A function key is only taken if it lies between F1 and F12.
pub open spec fn env_fkey(vars: EnvView, name: Seq<char>, old: u8) -> u8 {
    match env_value(vars, name) {
        Some(v) => match parse_unsigned(v, u8::MAX as nat) {
            Some(n) => if 1 <= n <= 12 {
                n as u8
            } else {
                old
            },
            None => old,
        },
        None => old,
    }
}

pub open spec fn env_align(vars: EnvView, name: Seq<char>, old: AlignGreeting) -> AlignGreeting {
    match env_value(vars, name) {
        Some(v) => match align_of(lowercase_of(v)) {
            Some(a) => a,
            None => old,
        },
        None => old,
    }
}

pub open spec fn env_secret_mode(vars: EnvView, name: Seq<char>, old: SecretMode) -> SecretMode {
    match env_value(vars, name) {
        Some(v) => match secret_mode_of(lowercase_of(v)) {
            Some(m) => m,
            None => old,
        },
        None => old,
    }
}

pub open spec fn env_position(vars: EnvView, name: Seq<char>, old: WidgetPosition)
    -> WidgetPosition {
    match env_value(vars, name) {
        Some(v) => match position_of(lowercase_of(v)) {
            Some(p) => p,
            None => old,
        },
        None => old,
    }
}

/// Whether a variable is set to something that is no truth value.
pub open spec fn bool_rejected(vars: EnvView, name: Seq<char>) -> bool {
    match env_value(vars, name) {
        Some(v) => bool_of(lowercase_of(v)) is Err,
        None => false,
    }
}

/// Whether a variable is set to something that is no number of at most
/// `max`.
pub open spec fn number_rejected(vars: EnvView, name: Seq<char>, max: nat) -> bool {
    match env_value(vars, name) {
        Some(v) => parse_unsigned(v, max) is None,
        None => false,
    }
}

/// Whether a variable is set to something that names no function key
/// from F1 to F12.
pub open spec fn fkey_rejected(vars: EnvView, name: Seq<char>) -> bool {
    match env_value(vars, name) {
        Some(v) => match parse_unsigned(v, u8::MAX as nat) {
            Some(n) => !(1 <= n <= 12),
            None => true,
        },
        None => false,
    }
}

/// Whether a variable is set to something that names no alignment.
pub open spec fn align_rejected(vars: EnvView, name: Seq<char>) -> bool {
    match env_value(vars, name) {
        Some(v) => align_of(lowercase_of(v)) is None,
        None => false,
    }
}

/// Whether a variable is set to something that names no secret mode.
pub open spec fn secret_mode_rejected(vars: EnvView, name: Seq<char>) -> bool {
    match env_value(vars, name) {
        Some(v) => secret_mode_of(lowercase_of(v)) is None,
        None => false,
    }
}

/// Whether a variable is set to something that names no widget position.
pub open spec fn position_rejected(vars: EnvView, name: Seq<char>) -> bool {
    match env_value(vars, name) {
        Some(v) => position_of(lowercase_of(v)) is None,
        None => false,
    }
}

/// `earlier`, followed by `name` if its value was rejected.
pub open spec fn reported(earlier: Seq<Seq<char>>, rejected: bool, name: Seq<char>) -> Seq<
    Seq<char>,
> {
    if rejected {
        earlier.push(name)
    } else {
        earlier
    }
}

fn report(rejects: &mut Vec<String>, rejected: bool, name: &str)
    ensures
        list_text(final(rejects)@) == reported(list_text(old(rejects)@), rejected, name@),
{
    if rejected {
        rejects.push(String::from_str(name));
        assert(list_text(rejects@) =~= list_text(old(rejects)@).push(name@));
    }
}

fn apply_bool(field: &mut bool, vars: &Vec<(String, String)>, name: &str) -> (rejected: bool)
    ensures
        *final(field) == env_bool(env_view(vars@), name@, *old(field)),
        rejected == bool_rejected(env_view(vars@), name@),
{
    if let Some(value) = lookup(vars, name) {
        if let Ok(b) = parse_bool(value) {
            *field = b;
            false
        } else {
            true
        }
    } else {
        false
    }
}

fn apply_text(field: &mut String, vars: &Vec<(String, String)>, name: &str)
    ensures
        final(field)@ == env_text(env_view(vars@), name@, old(field)@),
{
    if let Some(value) = lookup(vars, name) {
        *field = String::from_str(value);
    }
}

fn apply_opt_text(field: &mut Option<String>, vars: &Vec<(String, String)>, name: &str)
    ensures
        opt_text(*final(field)) == env_opt_text(env_view(vars@), name@, opt_text(*old(field))),
{
    if let Some(value) = lookup(vars, name) {
        *field = Some(String::from_str(value));
    }
}

fn apply_list(field: &mut Vec<String>, vars: &Vec<(String, String)>, name: &str)
    ensures
        list_text(final(field)@) == env_list(env_view(vars@), name@, list_text(old(field)@)),
{
    if let Some(value) = lookup(vars, name) {
        *field = colon_list(value);
    }
}

fn apply_u32(field: &mut u32, vars: &Vec<(String, String)>, name: &str) -> (rejected: bool)
    ensures
        *final(field) == env_u32(env_view(vars@), name@, *old(field)),
        rejected == number_rejected(env_view(vars@), name@, u32::MAX as nat),
{
    if let Some(value) = lookup(vars, name) {
        if let Some(n) = parse_u32(value) {
            *field = n;
            false
        } else {
            true
        }
    } else {
        false
    }
}

fn apply_u16(field: &mut u16, vars: &Vec<(String, String)>, name: &str) -> (rejected: bool)
    ensures
        *final(field) == env_u16(env_view(vars@), name@, *old(field)),
        rejected == number_rejected(env_view(vars@), name@, u16::MAX as nat),
{
    if let Some(value) = lookup(vars, name) {
        if let Some(n) = parse_u16(value) {
            *field = n;
            false
        } else {
            true
        }
    } else {
        false
    }
}

fn apply_opt_u16(field: &mut Option<u16>, vars: &Vec<(String, String)>, name: &str) -> (rejected:
    bool)
    ensures
        *final(field) == env_opt_u16(env_view(vars@), name@, *old(field)),
        rejected == number_rejected(env_view(vars@), name@, u16::MAX as nat),
{
    if let Some(value) = lookup(vars, name) {
        if let Some(n) = parse_u16(value) {
            *field = Some(n);
            false
        } else {
            true
        }
    } else {
        false
    }
}

fn apply_fkey(field: &mut u8, vars: &Vec<(String, String)>, name: &str) -> (rejected: bool)
    ensures
        *final(field) == env_fkey(env_view(vars@), name@, *old(field)),
        rejected == fkey_rejected(env_view(vars@), name@),
{
    if let Some(value) = lookup(vars, name) {
        if let Some(n) = parse_u8(value) {
            if 1 <= n && n <= 12 {
                *field = n;
                false
            } else {
                true
            }
        } else {
            true
        }
    } else {
        false
    }
}

fn apply_align(field: &mut AlignGreeting, vars: &Vec<(String, String)>, name: &str) -> (rejected:
    bool)
    ensures
        *final(field) == env_align(env_view(vars@), name@, *old(field)),
        rejected == align_rejected(env_view(vars@), name@),
{
    if let Some(value) = lookup(vars, name) {
        let lower = lowercase(value);
        if let Some(a) = align_from_lowercase(lower.as_str()) {
            *field = a;
            false
        } else {
            true
        }
    } else {
        false
    }
}

fn apply_secret_mode(field: &mut SecretMode, vars: &Vec<(String, String)>, name: &str) -> (rejected:
    bool)
    ensures
        *final(field) == env_secret_mode(env_view(vars@), name@, *old(field)),
        rejected == secret_mode_rejected(env_view(vars@), name@),
{
    if let Some(value) = lookup(vars, name) {
        let lower = lowercase(value);
        if let Some(m) = secret_mode_from_lowercase(lower.as_str()) {
            *field = m;
            false
        } else {
            true
        }
    } else {
        false
    }
}

fn apply_position(field: &mut WidgetPosition, vars: &Vec<(String, String)>, name: &str) -> (rejected:
    bool)
    ensures
        *final(field) == env_position(env_view(vars@), name@, *old(field)),
        rejected == position_rejected(env_view(vars@), name@),
{
    if let Some(value) = lookup(vars, name) {
        let lower = lowercase(value);
        if let Some(p) = position_from_lowercase(lower.as_str()) {
            *field = p;
            false
        } else {
            true
        }
    } else {
        false
    }
}

// ---------------------------------------------------------------------
// The theme specification: `component=color` directives between `;`
// ---------------------------------------------------------------------

/// `theme` with the colour of the component named `key` set to `color`.
/// A key that names no component changes nothing.
pub open spec fn theme_with(theme: ThemeConfigView, key: Seq<char>, color: Seq<char>)
    -> ThemeConfigView {
    if key == "border"@ {
        ThemeConfigView { border: Some(color), ..theme }
    } else if key == "text"@ {
        ThemeConfigView { text: Some(color), ..theme }
    } else if key == "time"@ {
        ThemeConfigView { time: Some(color), ..theme }
    } else if key == "container"@ {
        ThemeConfigView { container: Some(color), ..theme }
    } else if key == "title"@ {
        ThemeConfigView { title: Some(color), ..theme }
    } else if key == "greet"@ {
        ThemeConfigView { greet: Some(color), ..theme }
    } else if key == "prompt"@ {
        ThemeConfigView { prompt: Some(color), ..theme }
    } else if key == "input"@ {
        ThemeConfigView { input: Some(color), ..theme }
    } else if key == "action"@ {
        ThemeConfigView { action: Some(color), ..theme }
    } else if key == "button"@ {
        ThemeConfigView { button: Some(color), ..theme }
    } else {
        theme
    }
}

/// Whether a key names a component of the theme.
pub open spec fn is_component(key: Seq<char>) -> bool {
    key == "border"@ || key == "text"@ || key == "time"@ || key == "container"@ || key == "title"@
        || key == "greet"@ || key == "prompt"@ || key == "input"@ || key == "action"@ || key
        == "button"@
}

/// Whether a directive is one that sets a colour: it holds `=`, and what
/// stands before it names a component.
pub open spec fn directive_understood(directive: Seq<char>) -> bool {
    match split_once_at(directive, '=') {
        Some((key, _)) => is_component(trimmed(key)),
        None => false,
    }
}

/// Whether every directive of a run is understood.
pub open spec fn directives_understood(directives: Seq<Seq<char>>) -> bool
    decreases directives.len(),
{
    if directives.len() == 0 {
        true
    } else {
        directives_understood(directives.drop_last()) && directive_understood(directives.last())
    }
}

/// Whether every directive of a specification is understood.
pub open spec fn spec_understood(spec: Seq<char>) -> bool {
    directives_understood(split_on(spec, ';'))
}

/// `theme` after one directive. A directive without `=` changes nothing;
/// key and colour are trimmed.
pub open spec fn directive_applied(theme: ThemeConfigView, directive: Seq<char>)
    -> ThemeConfigView {
    match split_once_at(directive, '=') {
        Some((key, color)) => theme_with(theme, trimmed(key), trimmed(color)),
        None => theme,
    }
}

/// `theme` after a run of directives, applied first to last.
pub open spec fn directives_applied(theme: ThemeConfigView, directives: Seq<Seq<char>>)
    -> ThemeConfigView
    decreases directives.len(),
{
    if directives.len() == 0 {
        theme
    } else {
        directive_applied(directives_applied(theme, directives.drop_last()), directives.last())
    }
}

/// `theme` after a whole specification such as `border=red;text=blue`.
pub open spec fn theme_spec_applied(theme: ThemeConfigView, spec: Seq<char>) -> ThemeConfigView {
    directives_applied(theme, split_on(spec, ';'))
}

/// Set the colour of the component that `key` names, if it names one, and
/// say whether it does.
pub fn set_theme_component(theme: &mut ThemeConfig, key: &str, color: &str) -> (known: bool)
    ensures
        final(theme)@ == theme_with(old(theme)@, key@, color@),
        known == is_component(key@),
{
    if str_eq(key, "border") {
        theme.border = Some(String::from_str(color));
    } else if str_eq(key, "text") {
        theme.text = Some(String::from_str(color));
    } else if str_eq(key, "time") {
        theme.time = Some(String::from_str(color));
    } else if str_eq(key, "container") {
        theme.container = Some(String::from_str(color));
    } else if str_eq(key, "title") {
        theme.title = Some(String::from_str(color));
    } else if str_eq(key, "greet") {
        theme.greet = Some(String::from_str(color));
    } else if str_eq(key, "prompt") {
        theme.prompt = Some(String::from_str(color));
    } else if str_eq(key, "input") {
        theme.input = Some(String::from_str(color));
    } else if str_eq(key, "action") {
        theme.action = Some(String::from_str(color));
    } else if str_eq(key, "button") {
        theme.button = Some(String::from_str(color));
    } else {
        return false;
    }
    true
}

/// Apply a theme specification to `theme`, directive by directive, and
/// say whether every directive was understood.
pub fn apply_theme_spec(theme: &mut ThemeConfig, spec: &str) -> (understood: bool)
    ensures
        final(theme)@ == theme_spec_applied(old(theme)@, spec@),
        understood == spec_understood(spec@),
{
    let directives = split(spec, ';');
    let ghost all = list_text(directives@);
    let ghost start = theme@;
    let mut understood = true;
    let mut i: usize = 0;
    assert(all.take(0) =~= Seq::<Seq<char>>::empty());
    while i < directives.len()
        invariant
            i <= directives.len(),
            all == list_text(directives@),
            theme@ == directives_applied(start, all.take(i as int)),
            understood == directives_understood(all.take(i as int)),
        decreases directives.len() - i,
    {
        proof {
            assert(all.take(i as int + 1).drop_last() =~= all.take(i as int));
            assert(all.take(i as int + 1).last() == directives@[i as int]@);
        }
        if let Some((key, color)) = split_once(directives[i].as_str(), '=') {
            let known = set_theme_component(theme, trim(key), trim(color));
            understood = understood && known;
        } else {
            understood = false;
        }
        i += 1;
    }
    assert(all.take(directives.len() as int) =~= all);
    understood
}

// ---------------------------------------------------------------------
// Section by section
// ---------------------------------------------------------------------

pub open spec fn env_general(c: GeneralConfigView, vars: EnvView) -> GeneralConfigView {
    GeneralConfigView {
        debug: env_bool(vars, "TUIGREET_DEBUG"@, c.debug),
        log_file: env_text(vars, "TUIGREET_LOG_FILE"@, c.log_file),
    }
}

pub open spec fn env_session(c: SessionConfigView, vars: EnvView) -> SessionConfigView {
    SessionConfigView {
        command: env_opt_text(vars, "TUIGREET_SESSION_COMMAND"@, c.command),
        sessions_dirs: env_list(vars, "TUIGREET_SESSIONS_DIRS"@, c.sessions_dirs),
        xsessions_dirs: env_list(vars, "TUIGREET_XSESSIONS_DIRS"@, c.xsessions_dirs),
        session_wrapper: env_opt_text(vars, "TUIGREET_SESSION_WRAPPER"@, c.session_wrapper),
        xsession_wrapper: env_opt_text(vars, "TUIGREET_XSESSION_WRAPPER"@, c.xsession_wrapper),
        environments: env_list(vars, "TUIGREET_ENVIRONMENTS"@, c.environments),
    }
}

pub open spec fn env_display(c: DisplayConfigView, vars: EnvView) -> DisplayConfigView {
    DisplayConfigView {
        show_time: env_bool(vars, "TUIGREET_TIME"@, c.show_time),
        time_format: env_opt_text(vars, "TUIGREET_TIME_FORMAT"@, c.time_format),
        greeting: env_opt_text(vars, "TUIGREET_GREETING"@, c.greeting),
        issue: env_bool(vars, "TUIGREET_ISSUE"@, c.issue),
        align_greeting: env_align(vars, "TUIGREET_ALIGN_GREETING"@, c.align_greeting),
    }
}

pub open spec fn env_remember(c: RememberConfigView, vars: EnvView) -> RememberConfigView {
    RememberConfigView {
        username: env_bool(vars, "TUIGREET_REMEMBER"@, c.username),
        session: env_bool(vars, "TUIGREET_REMEMBER_SESSION"@, c.session),
        user_session: env_bool(vars, "TUIGREET_REMEMBER_USER_SESSION"@, c.user_session),
    }
}

pub open spec fn env_user_menu(c: UserMenuConfigView, vars: EnvView) -> UserMenuConfigView {
    UserMenuConfigView {
        enabled: env_bool(vars, "TUIGREET_USER_MENU"@, c.enabled),
        min_uid: env_u32(vars, "TUIGREET_USER_MENU_MIN_UID"@, c.min_uid),
        max_uid: env_u32(vars, "TUIGREET_USER_MENU_MAX_UID"@, c.max_uid),
    }
}

pub open spec fn env_secret(c: SecretConfigView, vars: EnvView) -> SecretConfigView {
    SecretConfigView {
        mode: env_secret_mode(vars, "TUIGREET_SECRET_MODE"@, c.mode),
        characters: env_text(vars, "TUIGREET_SECRET_CHARACTERS"@, c.characters),
    }
}

pub open spec fn env_layout(c: LayoutConfigView, vars: EnvView) -> LayoutConfigView {
    LayoutConfigView {
        width: env_u16(vars, "TUIGREET_WIDTH"@, c.width),
        window_padding: env_opt_u16(vars, "TUIGREET_WINDOW_PADDING"@, c.window_padding),
        container_padding: env_opt_u16(vars, "TUIGREET_CONTAINER_PADDING"@, c.container_padding),
        prompt_padding: env_opt_u16(vars, "TUIGREET_PROMPT_PADDING"@, c.prompt_padding),
        widgets: WidgetConfigView {
            time_position: env_position(
                vars,
                "TUIGREET_TIME_POSITION"@,
                c.widgets.time_position,
            ),
            status_position: env_position(
                vars,
                "TUIGREET_STATUS_POSITION"@,
                c.widgets.status_position,
            ),
        },
    }
}

pub open spec fn env_power(c: PowerConfigView, vars: EnvView) -> PowerConfigView {
    PowerConfigView {
        shutdown: env_opt_text(vars, "TUIGREET_POWER_SHUTDOWN"@, c.shutdown),
        reboot: env_opt_text(vars, "TUIGREET_POWER_REBOOT"@, c.reboot),
        use_setsid: env_bool(vars, "TUIGREET_POWER_USE_SETSID"@, c.use_setsid),
    }
}

pub open spec fn env_keybindings(c: KeybindingsConfigView, vars: EnvView) -> KeybindingsConfigView {
    KeybindingsConfigView {
        command: env_fkey(vars, "TUIGREET_KB_COMMAND"@, c.command),
        sessions: env_fkey(vars, "TUIGREET_KB_SESSIONS"@, c.sessions),
        power: env_fkey(vars, "TUIGREET_KB_POWER"@, c.power),
    }
}

/// The whole specification in `TUIGREET_THEME` comes first; a variable for
/// a single component then overrides what the specification said of it.
pub open spec fn env_theme(c: ThemeConfigView, vars: EnvView) -> ThemeConfigView {
    let base = match env_value(vars, "TUIGREET_THEME"@) {
        Some(spec) => theme_spec_applied(c, spec),
        None => c,
    };
    ThemeConfigView {
        border: env_opt_text(vars, "TUIGREET_THEME_BORDER"@, base.border),
        text: env_opt_text(vars, "TUIGREET_THEME_TEXT"@, base.text),
        time: env_opt_text(vars, "TUIGREET_THEME_TIME"@, base.time),
        container: env_opt_text(vars, "TUIGREET_THEME_CONTAINER"@, base.container),
        title: env_opt_text(vars, "TUIGREET_THEME_TITLE"@, base.title),
        greet: env_opt_text(vars, "TUIGREET_THEME_GREET"@, base.greet),
        prompt: env_opt_text(vars, "TUIGREET_THEME_PROMPT"@, base.prompt),
        input: env_opt_text(vars, "TUIGREET_THEME_INPUT"@, base.input),
        action: env_opt_text(vars, "TUIGREET_THEME_ACTION"@, base.action),
        button: env_opt_text(vars, "TUIGREET_THEME_BUTTON"@, base.button),
    }
}

/// The configuration after every override in `vars` has been applied.
pub open spec fn env_applied(c: ConfigView, vars: EnvView) -> ConfigView {
    ConfigView {
        general: env_general(c.general, vars),
        session: env_session(c.session, vars),
        display: env_display(c.display, vars),
        remember: env_remember(c.remember, vars),
        user_menu: env_user_menu(c.user_menu, vars),
        secret: env_secret(c.secret, vars),
        layout: env_layout(c.layout, vars),
        power: env_power(c.power, vars),
        keybindings: env_keybindings(c.keybindings, vars),
        theme: env_theme(c.theme, vars),
    }
}

/// Whether the theme specification of the environment holds a directive
/// that is not understood.
pub open spec fn theme_rejected(vars: EnvView) -> bool {
    match env_value(vars, "TUIGREET_THEME"@) {
        Some(spec) => !spec_understood(spec),
        None => false,
    }
}

/// `earlier`, followed by the variables of the first sections whose
/// values were rejected: general, display, remember and user menu.
pub open spec fn first_rejects_after(earlier: Seq<Seq<char>>, vars: EnvView) -> Seq<Seq<char>> {
    let r1 = reported(earlier, bool_rejected(vars, "TUIGREET_DEBUG"@), "TUIGREET_DEBUG"@);
    let r2 = reported(r1, bool_rejected(vars, "TUIGREET_TIME"@), "TUIGREET_TIME"@);
    let r3 = reported(r2, bool_rejected(vars, "TUIGREET_ISSUE"@), "TUIGREET_ISSUE"@);
    let r4 = reported(
        r3,
        align_rejected(vars, "TUIGREET_ALIGN_GREETING"@),
        "TUIGREET_ALIGN_GREETING"@,
    );
    let r5 = reported(r4, bool_rejected(vars, "TUIGREET_REMEMBER"@), "TUIGREET_REMEMBER"@);
    let r6 = reported(
        r5,
        bool_rejected(vars, "TUIGREET_REMEMBER_SESSION"@),
        "TUIGREET_REMEMBER_SESSION"@,
    );
    let r7 = reported(
        r6,
        bool_rejected(vars, "TUIGREET_REMEMBER_USER_SESSION"@),
        "TUIGREET_REMEMBER_USER_SESSION"@,
    );
    let r8 = reported(r7, bool_rejected(vars, "TUIGREET_USER_MENU"@), "TUIGREET_USER_MENU"@);
    let r9 = reported(
        r8,
        number_rejected(vars, "TUIGREET_USER_MENU_MIN_UID"@, u32::MAX as nat),
        "TUIGREET_USER_MENU_MIN_UID"@,
    );
    reported(
        r9,
        number_rejected(vars, "TUIGREET_USER_MENU_MAX_UID"@, u32::MAX as nat),
        "TUIGREET_USER_MENU_MAX_UID"@,
    )
}

/// `earlier`, followed by the variables of the last sections whose values
/// were rejected: secret, layout, power, key bindings and theme.
pub open spec fn last_rejects_after(earlier: Seq<Seq<char>>, vars: EnvView) -> Seq<Seq<char>> {
    let r1 = reported(
        earlier,
        secret_mode_rejected(vars, "TUIGREET_SECRET_MODE"@),
        "TUIGREET_SECRET_MODE"@,
    );
    let r2 = reported(
        r1,
        number_rejected(vars, "TUIGREET_WIDTH"@, u16::MAX as nat),
        "TUIGREET_WIDTH"@,
    );
    let r3 = reported(
        r2,
        number_rejected(vars, "TUIGREET_WINDOW_PADDING"@, u16::MAX as nat),
        "TUIGREET_WINDOW_PADDING"@,
    );
    let r4 = reported(
        r3,
        number_rejected(vars, "TUIGREET_CONTAINER_PADDING"@, u16::MAX as nat),
        "TUIGREET_CONTAINER_PADDING"@,
    );
    let r5 = reported(
        r4,
        number_rejected(vars, "TUIGREET_PROMPT_PADDING"@, u16::MAX as nat),
        "TUIGREET_PROMPT_PADDING"@,
    );
    let r6 = reported(
        r5,
        position_rejected(vars, "TUIGREET_TIME_POSITION"@),
        "TUIGREET_TIME_POSITION"@,
    );
    let r7 = reported(
        r6,
        position_rejected(vars, "TUIGREET_STATUS_POSITION"@),
        "TUIGREET_STATUS_POSITION"@,
    );
    let r8 = reported(
        r7,
        bool_rejected(vars, "TUIGREET_POWER_USE_SETSID"@),
        "TUIGREET_POWER_USE_SETSID"@,
    );
    let r9 = reported(r8, fkey_rejected(vars, "TUIGREET_KB_COMMAND"@), "TUIGREET_KB_COMMAND"@);
    let r10 = reported(r9, fkey_rejected(vars, "TUIGREET_KB_SESSIONS"@), "TUIGREET_KB_SESSIONS"@);
    let r11 = reported(r10, fkey_rejected(vars, "TUIGREET_KB_POWER"@), "TUIGREET_KB_POWER"@);
    reported(r11, theme_rejected(vars), "TUIGREET_THEME"@)
}

/// The variables that are set to a value that was not taken, in the order
/// of the sections they belong to. The theme specification is among them
/// if one of its directives is not understood.
pub open spec fn env_rejects(vars: EnvView) -> Seq<Seq<char>> {
    last_rejects_after(first_rejects_after(Seq::empty(), vars), vars)
}

fn apply_general_env(c: &mut GeneralConfig, vars: &Vec<(String, String)>, rejects: &mut Vec<String>)
    ensures
        final(c)@ == env_general(old(c)@, env_view(vars@)),
        list_text(final(rejects)@) == reported(
            list_text(old(rejects)@),
            bool_rejected(env_view(vars@), "TUIGREET_DEBUG"@),
            "TUIGREET_DEBUG"@,
        ),
{
    let rejected = apply_bool(&mut c.debug, vars, "TUIGREET_DEBUG");
    report(rejects, rejected, "TUIGREET_DEBUG");
    apply_text(&mut c.log_file, vars, "TUIGREET_LOG_FILE");
}

fn apply_session_env(c: &mut SessionConfig, vars: &Vec<(String, String)>)
    ensures
        final(c)@ == env_session(old(c)@, env_view(vars@)),
{
    apply_opt_text(&mut c.command, vars, "TUIGREET_SESSION_COMMAND");
    apply_list(&mut c.sessions_dirs, vars, "TUIGREET_SESSIONS_DIRS");
    apply_list(&mut c.xsessions_dirs, vars, "TUIGREET_XSESSIONS_DIRS");
    apply_opt_text(&mut c.session_wrapper, vars, "TUIGREET_SESSION_WRAPPER");
    apply_opt_text(&mut c.xsession_wrapper, vars, "TUIGREET_XSESSION_WRAPPER");
    apply_list(&mut c.environments, vars, "TUIGREET_ENVIRONMENTS");
}

fn apply_display_env(c: &mut DisplayConfig, vars: &Vec<(String, String)>, rejects: &mut Vec<String>)
    ensures
        final(c)@ == env_display(old(c)@, env_view(vars@)),
        list_text(final(rejects)@) == ({
            let vars = env_view(vars@);
            let r1 = reported(
                list_text(old(rejects)@),
                bool_rejected(vars, "TUIGREET_TIME"@),
                "TUIGREET_TIME"@,
            );
            let r2 = reported(r1, bool_rejected(vars, "TUIGREET_ISSUE"@), "TUIGREET_ISSUE"@);
            reported(r2, align_rejected(vars, "TUIGREET_ALIGN_GREETING"@), "TUIGREET_ALIGN_GREETING"@)
        }),
{
    let rejected = apply_bool(&mut c.show_time, vars, "TUIGREET_TIME");
    report(rejects, rejected, "TUIGREET_TIME");
    apply_opt_text(&mut c.time_format, vars, "TUIGREET_TIME_FORMAT");
    apply_opt_text(&mut c.greeting, vars, "TUIGREET_GREETING");
    let rejected = apply_bool(&mut c.issue, vars, "TUIGREET_ISSUE");
    report(rejects, rejected, "TUIGREET_ISSUE");
    let rejected = apply_align(&mut c.align_greeting, vars, "TUIGREET_ALIGN_GREETING");
    report(rejects, rejected, "TUIGREET_ALIGN_GREETING");
}

fn apply_remember_env(c: &mut RememberConfig, vars: &Vec<(String, String)>, rejects: &mut Vec<String>)
    ensures
        final(c)@ == env_remember(old(c)@, env_view(vars@)),
        list_text(final(rejects)@) == ({
            let vars = env_view(vars@);
            let r1 = reported(
                list_text(old(rejects)@),
                bool_rejected(vars, "TUIGREET_REMEMBER"@),
                "TUIGREET_REMEMBER"@,
            );
            let r2 = reported(
                r1,
                bool_rejected(vars, "TUIGREET_REMEMBER_SESSION"@),
                "TUIGREET_REMEMBER_SESSION"@,
            );
            reported(
                r2,
                bool_rejected(vars, "TUIGREET_REMEMBER_USER_SESSION"@),
                "TUIGREET_REMEMBER_USER_SESSION"@,
            )
        }),
{
    let rejected = apply_bool(&mut c.username, vars, "TUIGREET_REMEMBER");
    report(rejects, rejected, "TUIGREET_REMEMBER");
    let rejected = apply_bool(&mut c.session, vars, "TUIGREET_REMEMBER_SESSION");
    report(rejects, rejected, "TUIGREET_REMEMBER_SESSION");
    let rejected = apply_bool(&mut c.user_session, vars, "TUIGREET_REMEMBER_USER_SESSION");
    report(rejects, rejected, "TUIGREET_REMEMBER_USER_SESSION");
}

fn apply_user_menu_env(c: &mut UserMenuConfig, vars: &Vec<(String, String)>, rejects: &mut Vec<String>)
    ensures
        final(c)@ == env_user_menu(old(c)@, env_view(vars@)),
        list_text(final(rejects)@) == ({
            let vars = env_view(vars@);
            let r1 = reported(
                list_text(old(rejects)@),
                bool_rejected(vars, "TUIGREET_USER_MENU"@),
                "TUIGREET_USER_MENU"@,
            );
            let r2 = reported(
                r1,
                number_rejected(vars, "TUIGREET_USER_MENU_MIN_UID"@, u32::MAX as nat),
                "TUIGREET_USER_MENU_MIN_UID"@,
            );
            reported(
                r2,
                number_rejected(vars, "TUIGREET_USER_MENU_MAX_UID"@, u32::MAX as nat),
                "TUIGREET_USER_MENU_MAX_UID"@,
            )
        }),
{
    let rejected = apply_bool(&mut c.enabled, vars, "TUIGREET_USER_MENU");
    report(rejects, rejected, "TUIGREET_USER_MENU");
    let rejected = apply_u32(&mut c.min_uid, vars, "TUIGREET_USER_MENU_MIN_UID");
    report(rejects, rejected, "TUIGREET_USER_MENU_MIN_UID");
    let rejected = apply_u32(&mut c.max_uid, vars, "TUIGREET_USER_MENU_MAX_UID");
    report(rejects, rejected, "TUIGREET_USER_MENU_MAX_UID");
}

fn apply_secret_env(c: &mut SecretConfig, vars: &Vec<(String, String)>, rejects: &mut Vec<String>)
    ensures
        final(c)@ == env_secret(old(c)@, env_view(vars@)),
        list_text(final(rejects)@) == reported(
            list_text(old(rejects)@),
            secret_mode_rejected(env_view(vars@), "TUIGREET_SECRET_MODE"@),
            "TUIGREET_SECRET_MODE"@,
        ),
{
    let rejected = apply_secret_mode(&mut c.mode, vars, "TUIGREET_SECRET_MODE");
    report(rejects, rejected, "TUIGREET_SECRET_MODE");
    apply_text(&mut c.characters, vars, "TUIGREET_SECRET_CHARACTERS");
}

fn apply_layout_env(c: &mut LayoutConfig, vars: &Vec<(String, String)>, rejects: &mut Vec<String>)
    ensures
        final(c)@ == env_layout(old(c)@, env_view(vars@)),
        list_text(final(rejects)@) == ({
            let vars = env_view(vars@);
            let r2 = reported(
                list_text(old(rejects)@),
                number_rejected(vars, "TUIGREET_WIDTH"@, u16::MAX as nat),
                "TUIGREET_WIDTH"@,
            );
            let r3 = reported(
                r2,
                number_rejected(vars, "TUIGREET_WINDOW_PADDING"@, u16::MAX as nat),
                "TUIGREET_WINDOW_PADDING"@,
            );
            let r4 = reported(
                r3,
                number_rejected(vars, "TUIGREET_CONTAINER_PADDING"@, u16::MAX as nat),
                "TUIGREET_CONTAINER_PADDING"@,
            );
            let r5 = reported(
                r4,
                number_rejected(vars, "TUIGREET_PROMPT_PADDING"@, u16::MAX as nat),
                "TUIGREET_PROMPT_PADDING"@,
            );
            let r6 = reported(
                r5,
                position_rejected(vars, "TUIGREET_TIME_POSITION"@),
                "TUIGREET_TIME_POSITION"@,
            );
            reported(
                r6,
                position_rejected(vars, "TUIGREET_STATUS_POSITION"@),
                "TUIGREET_STATUS_POSITION"@,
            )
        }),
{
    let rejected = apply_u16(&mut c.width, vars, "TUIGREET_WIDTH");
    report(rejects, rejected, "TUIGREET_WIDTH");
    let rejected = apply_opt_u16(&mut c.window_padding, vars, "TUIGREET_WINDOW_PADDING");
    report(rejects, rejected, "TUIGREET_WINDOW_PADDING");
    let rejected = apply_opt_u16(&mut c.container_padding, vars, "TUIGREET_CONTAINER_PADDING");
    report(rejects, rejected, "TUIGREET_CONTAINER_PADDING");
    let rejected = apply_opt_u16(&mut c.prompt_padding, vars, "TUIGREET_PROMPT_PADDING");
    report(rejects, rejected, "TUIGREET_PROMPT_PADDING");
    let rejected = apply_position(&mut c.widgets.time_position, vars, "TUIGREET_TIME_POSITION");
    report(rejects, rejected, "TUIGREET_TIME_POSITION");
    let rejected = apply_position(&mut c.widgets.status_position, vars, "TUIGREET_STATUS_POSITION");
    report(rejects, rejected, "TUIGREET_STATUS_POSITION");
}

fn apply_power_env(c: &mut PowerConfig, vars: &Vec<(String, String)>, rejects: &mut Vec<String>)
    ensures
        final(c)@ == env_power(old(c)@, env_view(vars@)),
        list_text(final(rejects)@) == reported(
            list_text(old(rejects)@),
            bool_rejected(env_view(vars@), "TUIGREET_POWER_USE_SETSID"@),
            "TUIGREET_POWER_USE_SETSID"@,
        ),
{
    apply_opt_text(&mut c.shutdown, vars, "TUIGREET_POWER_SHUTDOWN");
    apply_opt_text(&mut c.reboot, vars, "TUIGREET_POWER_REBOOT");
    let rejected = apply_bool(&mut c.use_setsid, vars, "TUIGREET_POWER_USE_SETSID");
    report(rejects, rejected, "TUIGREET_POWER_USE_SETSID");
}

fn apply_keybindings_env(
    c: &mut KeybindingsConfig,
    vars: &Vec<(String, String)>,
    rejects: &mut Vec<String>,
)
    ensures
        final(c)@ == env_keybindings(old(c)@, env_view(vars@)),
        list_text(final(rejects)@) == ({
            let vars = env_view(vars@);
            let r9 = reported(
                list_text(old(rejects)@),
                fkey_rejected(vars, "TUIGREET_KB_COMMAND"@),
                "TUIGREET_KB_COMMAND"@,
            );
            let r10 = reported(
                r9,
                fkey_rejected(vars, "TUIGREET_KB_SESSIONS"@),
                "TUIGREET_KB_SESSIONS"@,
            );
            reported(r10, fkey_rejected(vars, "TUIGREET_KB_POWER"@), "TUIGREET_KB_POWER"@)
        }),
{
    let rejected = apply_fkey(&mut c.command, vars, "TUIGREET_KB_COMMAND");
    report(rejects, rejected, "TUIGREET_KB_COMMAND");
    let rejected = apply_fkey(&mut c.sessions, vars, "TUIGREET_KB_SESSIONS");
    report(rejects, rejected, "TUIGREET_KB_SESSIONS");
    let rejected = apply_fkey(&mut c.power, vars, "TUIGREET_KB_POWER");
    report(rejects, rejected, "TUIGREET_KB_POWER");
}

fn apply_theme_env(c: &mut ThemeConfig, vars: &Vec<(String, String)>, rejects: &mut Vec<String>)
    ensures
        final(c)@ == env_theme(old(c)@, env_view(vars@)),
        list_text(final(rejects)@) == reported(
            list_text(old(rejects)@),
            theme_rejected(env_view(vars@)),
            "TUIGREET_THEME"@,
        ),
{
    let mut understood = true;
    if let Some(spec) = lookup(vars, "TUIGREET_THEME") {
        understood = apply_theme_spec(c, spec);
    }
    report(rejects, !understood, "TUIGREET_THEME");
    apply_opt_text(&mut c.border, vars, "TUIGREET_THEME_BORDER");
    apply_opt_text(&mut c.text, vars, "TUIGREET_THEME_TEXT");
    apply_opt_text(&mut c.time, vars, "TUIGREET_THEME_TIME");
    apply_opt_text(&mut c.container, vars, "TUIGREET_THEME_CONTAINER");
    apply_opt_text(&mut c.title, vars, "TUIGREET_THEME_TITLE");
    apply_opt_text(&mut c.greet, vars, "TUIGREET_THEME_GREET");
    apply_opt_text(&mut c.prompt, vars, "TUIGREET_THEME_PROMPT");
    apply_opt_text(&mut c.input, vars, "TUIGREET_THEME_INPUT");
    apply_opt_text(&mut c.action, vars, "TUIGREET_THEME_ACTION");
    apply_opt_text(&mut c.button, vars, "TUIGREET_THEME_BUTTON");
}

fn apply_first_sections(config: &mut Config, vars: &Vec<(String, String)>, rejects: &mut Vec<String>)
    ensures
        final(config)@ == (ConfigView {
            general: env_general(old(config)@.general, env_view(vars@)),
            session: env_session(old(config)@.session, env_view(vars@)),
            display: env_display(old(config)@.display, env_view(vars@)),
            remember: env_remember(old(config)@.remember, env_view(vars@)),
            user_menu: env_user_menu(old(config)@.user_menu, env_view(vars@)),
            ..old(config)@
        }),
        list_text(final(rejects)@) == first_rejects_after(
            list_text(old(rejects)@),
            env_view(vars@),
        ),
{
    apply_general_env(&mut config.general, vars, rejects);
    apply_session_env(&mut config.session, vars);
    apply_display_env(&mut config.display, vars, rejects);
    apply_remember_env(&mut config.remember, vars, rejects);
    apply_user_menu_env(&mut config.user_menu, vars, rejects);
}

fn apply_last_sections(config: &mut Config, vars: &Vec<(String, String)>, rejects: &mut Vec<String>)
    ensures
        final(config)@ == (ConfigView {
            secret: env_secret(old(config)@.secret, env_view(vars@)),
            layout: env_layout(old(config)@.layout, env_view(vars@)),
            power: env_power(old(config)@.power, env_view(vars@)),
            keybindings: env_keybindings(old(config)@.keybindings, env_view(vars@)),
            theme: env_theme(old(config)@.theme, env_view(vars@)),
            ..old(config)@
        }),
        list_text(final(rejects)@) == last_rejects_after(
            list_text(old(rejects)@),
            env_view(vars@),
        ),
{
    apply_secret_env(&mut config.secret, vars, rejects);
    apply_layout_env(&mut config.layout, vars, rejects);
    apply_power_env(&mut config.power, vars, rejects);
    apply_keybindings_env(&mut config.keybindings, vars, rejects);
    apply_theme_env(&mut config.theme, vars, rejects);
}

/// Apply the overrides found in `vars` to the configuration, and name the
/// variables whose value was not taken. A variable whose value cannot be
/// read as what its field holds leaves the field as it was.
pub fn apply_env_vars(config: &mut Config, vars: &Vec<(String, String)>) -> (rejects: Vec<String>)
    ensures
        final(config)@ == env_applied(old(config)@, env_view(vars@)),
        list_text(rejects@) == env_rejects(env_view(vars@)),
{
    let mut rejects: Vec<String> = Vec::new();
    assert(list_text(rejects@) =~= Seq::<Seq<char>>::empty());
    apply_first_sections(config, vars, &mut rejects);
    apply_last_sections(config, vars, &mut rejects);
    rejects
}

/// A value that is rejected changes nothing: the field keeps what it
/// held.
pub proof fn lemma_rejected_values_change_nothing(vars: EnvView, name: Seq<char>)
    ensures
        forall|old: bool| bool_rejected(vars, name) ==> #[trigger] env_bool(vars, name, old) == old,
        forall|old: u32|
            number_rejected(vars, name, u32::MAX as nat) ==> #[trigger] env_u32(vars, name, old)
                == old,
        forall|old: u16|
            number_rejected(vars, name, u16::MAX as nat) ==> #[trigger] env_u16(vars, name, old)
                == old,
        forall|old: Option<u16>|
            number_rejected(vars, name, u16::MAX as nat) ==> #[trigger] env_opt_u16(
                vars,
                name,
                old,
            ) == old,
        forall|old: u8| fkey_rejected(vars, name) ==> #[trigger] env_fkey(vars, name, old) == old,
        forall|old: AlignGreeting|
            align_rejected(vars, name) ==> #[trigger] env_align(vars, name, old) == old,
        forall|old: SecretMode|
            secret_mode_rejected(vars, name) ==> #[trigger] env_secret_mode(vars, name, old)
                == old,
        forall|old: WidgetPosition|
            position_rejected(vars, name) ==> #[trigger] env_position(vars, name, old) == old,
{
}

/// A function key taken from the environment always lies between F1 and
/// F12, if the one it replaces did.
pub proof fn lemma_env_keeps_fkeys_in_range(vars: EnvView, name: Seq<char>, old: u8)
    requires
        1 <= old <= 12,
    ensures
        1 <= env_fkey(vars, name, old) <= 12,
{
}

/// An environment that sets nothing leaves the configuration as it was,
/// and nothing is rejected.
pub proof fn lemma_empty_env_changes_nothing(c: ConfigView)
    ensures
        env_applied(c, Seq::empty()) == c,
        env_rejects(Seq::empty()) == Seq::<Seq<char>>::empty(),
{
    let e: EnvView = Seq::empty();
    assert(forall|name: Seq<char>| env_value(e, name) is None);
    assert(env_applied(c, e).theme == c.theme);
    assert(env_applied(c, e).layout == c.layout);
    assert(env_applied(c, e).session == c.session);
}

} // verus!
