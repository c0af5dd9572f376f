//! Reloading the configuration when its file changes: which file to
//! watch, which changes count, and what a reload gives.

use vstd::prelude::*;
use crate::config::env::{apply_env_vars, env_applied, env_rejects, env_view, EnvView};
use crate::config::error::{message_of, ConfigError, ConfigErrorView};
use crate::config::schema::{Config, ConfigView};
use crate::config::validate::{validation_of, WrapperProbe};
use crate::text::{list_text, opt_text, str_eq};

verus! {

/// What happened to the watched files, as far as a reload cares.
#[derive(Debug, Clone, Copy, PartialEq, Eq, Structural)]
pub enum WatchKind {
    /// Something happened, and it is not known what
    Any,
    /// A file was read or opened
    Access,
    /// A file came into being
    Create,
    /// A file was written or renamed
    Modify,
    /// A file was deleted
    Remove,
    /// Anything else
    Other,
}

/// A change that the file watcher reports.
#[derive(Debug, Clone)]
pub struct WatchEvent {
    pub kind: WatchKind,
    pub paths: Vec<String>,
}

/// Whether one of `paths` is the configuration file. Paths are compared
/// as they are written.
pub open spec fn names_config(paths: Seq<Seq<char>>, config_path: Seq<char>) -> bool {
    exists|i: int| 0 <= i < paths.len() && #[trigger] paths[i] == config_path
}

/// Whether a change calls for a reload: the configuration file was
/// created or modified.
pub open spec fn is_config_event_of(
    kind: WatchKind,
    paths: Seq<Seq<char>>,
    config_path: Seq<char>,
) -> bool {
    (kind == WatchKind::Modify || kind == WatchKind::Create) && names_config(paths, config_path)
}

/// Whether a reported change calls for a reload of the configuration.
pub fn is_config_event(event: &WatchEvent, config_path: &str) -> (r: bool)
    ensures
        r == is_config_event_of(event.kind, list_text(event.paths@), config_path@),
{
    match event.kind {
        WatchKind::Modify | WatchKind::Create => {
            let ghost paths = list_text(event.paths@);
            let mut i: usize = 0;
            while i < event.paths.len()
                invariant
                    i <= event.paths.len(),
                    event.kind == WatchKind::Modify || event.kind == WatchKind::Create,
                    paths == list_text(event.paths@),
                    forall|k: int| 0 <= k < i ==> #[trigger] paths[k] != config_path@,
                decreases event.paths.len() - i,
            {
                assert(paths[i as int] == event.paths@[i as int]@);
                if str_eq(event.paths[i].as_str(), config_path) {
                    return true;
                }
                i += 1;
            }
            false
        },
        _ => false,
    }
}

/// The file that is watched: the one named on the command line, else the
/// user's own if it exists, else the system-wide one.
pub open spec fn watch_path_of(config_path: Option<Seq<char>>, user_config: Option<Seq<char>>)
    -> Seq<char> {
    match config_path {
        Some(path) => path,
        None => match user_config {
            Some(path) => path,
            None => "/etc/tuigreet/config.toml"@,
        },
    }
}

/// Determine which config file to watch. `user_config` is the user's own
/// file, given only if that file exists.
pub fn watch_path(config_path: Option<String>, user_config: Option<String>) -> (path: String)
    ensures
        path@ == watch_path_of(opt_text(config_path), opt_text(user_config)),
{
    match config_path {
        Some(path) => path,
        None => match user_config {
            Some(path) => path,
            None => String::from_str("/etc/tuigreet/config.toml"),
        },
    }
}

/// What a reload gives.
#[derive(Debug, Clone)]
pub struct Reloaded {
    /// The configuration to put in force
    pub config: Config,
    /// The variables of the environment whose value was not taken
    pub rejected: Vec<String>,
    /// The warnings that the configuration raises
    pub warnings: Vec<String>,
}

pub struct ReloadedView {
    pub config: ConfigView,
    pub rejected: Seq<Seq<char>>,
    pub warnings: Seq<Seq<char>>,
}

impl View for Reloaded {
    type V = ReloadedView;

    open spec fn view(&self) -> ReloadedView {
        ReloadedView {
            config: self.config@,
            rejected: list_text(self.rejected@),
            warnings: list_text(self.warnings@),
        }
    }
}

/// What a reload gives: the configuration to put in force with what there
/// is to say about it, or the message that says why it is turned down.
pub open spec fn reloaded_of(loaded: Result<ConfigView, ConfigErrorView>, vars: EnvView) -> Result<
    ReloadedView,
    Seq<char>,
> {
    match loaded {
        Err(e) => Err(message_of(e)),
        Ok(c) => {
            let config = env_applied(c, vars);
            let probe = WrapperProbe { session_wrapper_found: false, xsession_wrapper_found: false };
            match validation_of(config, false, probe) {
                Ok(warnings) => Ok(ReloadedView { config, rejected: env_rejects(vars), warnings }),
                Err(e) => Err("Config validation failed after reload: "@ + message_of(e)),
            }
        },
    }
}

/// Make of a file that was read anew the configuration to put in force:
/// the overrides of the environment are applied to it, and it has to pass
/// validation, wrappers aside.
pub fn reload_config(loaded: Result<Config, ConfigError>, vars: &Vec<(String, String)>) -> (r: Result<
    Reloaded,
    String,
>)
    ensures
        match r {
            Ok(reloaded) => reloaded_of(
                crate::config::parser::outcome_view(loaded),
                env_view(vars@),
            ) == Ok::<ReloadedView, Seq<char>>(reloaded@),
            Err(message) => reloaded_of(
                crate::config::parser::outcome_view(loaded),
                env_view(vars@),
            ) == Err::<ReloadedView, Seq<char>>(message@),
        },
{
    let mut config = match loaded {
        Ok(c) => c,
        Err(e) => {
            return Err(e.message());
        },
    };

    // Apply environment variables
    let rejected = apply_env_vars(&mut config, vars);

    // Validate config
    let probe = WrapperProbe { session_wrapper_found: false, xsession_wrapper_found: false };
    match config.validate(false, probe) {
        Ok(warnings) => Ok(Reloaded { config, rejected, warnings }),
        Err(e) => {
            let mut message = String::from_str("Config validation failed after reload: ");
            message.append(e.message().as_str());
            Err(message)
        },
    }
}

} // verus!
