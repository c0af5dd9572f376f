//! What can go wrong while a configuration is loaded or validated.

use vstd::prelude::*;
use crate::text::{decimal, decimal_string, list_text};

verus! {

/// Errors that can occur during configuration loading or validation.
#[derive(Debug)]
pub enum ConfigError {
    /// I/O error when reading config files, as the system described it
    Io(String),
    /// TOML parsing error, as the parser rendered it
    Parse(String),
    /// TOML parsing error with file context
    ParseWithContext {
        file: String,
        line: usize,
        column: usize,
        context: Vec<String>,
        original_message: String,
    },
    /// General validation error with description
    Validation(String),
    /// Two options that cannot be used together
    MutuallyExclusive(String, String),
    /// Option that depends on another option
    Dependency(String),
    /// Invalid range (e.g., min_uid >= max_uid)
    InvalidRange(String),
    /// Duplicate keybindings
    DuplicateKeybindings,
    /// Invalid F-key value
    InvalidFKey(String, u8),
    /// Invalid time format string
    InvalidTimeFormat,
    /// Session wrapper executable not found
    WrapperExecutableNotFound(String),
}

pub enum ConfigErrorView {
    Io(Seq<char>),
    Parse(Seq<char>),
    ParseWithContext {
        file: Seq<char>,
        line: usize,
        column: usize,
        context: Seq<Seq<char>>,
        original_message: Seq<char>,
    },
    Validation(Seq<char>),
    MutuallyExclusive(Seq<char>, Seq<char>),
    Dependency(Seq<char>),
    InvalidRange(Seq<char>),
    DuplicateKeybindings,
    InvalidFKey(Seq<char>, u8),
    InvalidTimeFormat,
    WrapperExecutableNotFound(Seq<char>),
}

impl View for ConfigError {
    type V = ConfigErrorView;

    open spec fn view(&self) -> ConfigErrorView {
        match self {
            ConfigError::Io(e) => ConfigErrorView::Io(e@),
            ConfigError::Parse(e) => ConfigErrorView::Parse(e@),
            ConfigError::ParseWithContext { file, line, column, context, original_message } => {
                ConfigErrorView::ParseWithContext {
                    file: file@,
                    line: *line,
                    column: *column,
                    context: list_text(context@),
                    original_message: original_message@,
                }
            },
            ConfigError::Validation(m) => ConfigErrorView::Validation(m@),
            ConfigError::MutuallyExclusive(a, b) => ConfigErrorView::MutuallyExclusive(a@, b@),
            ConfigError::Dependency(m) => ConfigErrorView::Dependency(m@),
            ConfigError::InvalidRange(m) => ConfigErrorView::InvalidRange(m@),
            ConfigError::DuplicateKeybindings => ConfigErrorView::DuplicateKeybindings,
            ConfigError::InvalidFKey(name, key) => ConfigErrorView::InvalidFKey(name@, *key),
            ConfigError::InvalidTimeFormat => ConfigErrorView::InvalidTimeFormat,
            ConfigError::WrapperExecutableNotFound(p) => {
                ConfigErrorView::WrapperExecutableNotFound(p@)
            },
        }
    }
}

/// Every line of `lines`, each followed by a line feed.
pub open spec fn lines_text(lines: Seq<Seq<char>>) -> Seq<char>
    decreases lines.len(),
{
    if lines.len() == 0 {
        Seq::empty()
    } else {
        lines_text(lines.drop_last()) + lines.last() + seq!['\n']
    }
}

/// The message that describes an error to the user.
pub open spec fn message_of(e: ConfigErrorView) -> Seq<char> {
    match e {
        ConfigErrorView::Io(err) => "I/O error: "@ + err,
        ConfigErrorView::Parse(err) => "TOML parse error: "@ + err,
        ConfigErrorView::ParseWithContext { file, line, column, context, original_message } => {
            "TOML parse error: "@ + original_message + seq!['\n'] + "File: "@ + file + seq!['\n']
                + "Line: "@ + decimal(line as nat) + ", Column: "@ + decimal(column as nat)
                + seq!['\n'] + seq!['\n'] + lines_text(context)
        },
        ConfigErrorView::Validation(msg) => "Validation error: "@ + msg,
        ConfigErrorView::MutuallyExclusive(a, b) => {
            "Options '"@ + a + "' and '"@ + b + "' are mutually exclusive"@
        },
        ConfigErrorView::Dependency(msg) => "Dependency error: "@ + msg,
        ConfigErrorView::InvalidRange(msg) => "Invalid range: "@ + msg,
        ConfigErrorView::DuplicateKeybindings => "Duplicate keybindings detected"@,
        ConfigErrorView::InvalidFKey(name, key) => {
            "Invalid F-key value for '"@ + name + "': F"@ + decimal(key as nat)
                + " (must be F1-F12)"@
        },
        ConfigErrorView::InvalidTimeFormat => "Invalid time format string"@,
        ConfigErrorView::WrapperExecutableNotFound(path) => {
            "Session wrapper executable not found: "@ + path
        },
    }
}

fn context_text(context: &Vec<String>) -> (r: String)
    ensures
        r@ == lines_text(list_text(context@)),
{
    let mut r = String::new();
    let mut i: usize = 0;
    let ghost all = list_text(context@);
    proof {
        reveal_strlit("\n");
        assert(all.take(0) =~= Seq::<Seq<char>>::empty());
    }
    while i < context.len()
        invariant
            i <= context.len(),
            all == list_text(context@),
            r@ == lines_text(all.take(i as int)),
            "\n"@ =~= seq!['\n'],
        decreases context.len() - i,
    {
        proof {
            assert(all.take(i as int + 1).drop_last() =~= all.take(i as int));
            assert(all.take(i as int + 1).last() == context@[i as int]@);
        }
        r.append(context[i].as_str());
        r.append("\n");
        i += 1;
    }
    assert(all.take(context.len() as int) =~= all);
    r
}

impl ConfigError {
    /// The message that describes this error to the user.
    pub fn message(&self) -> (r: String)
        ensures
            r@ == message_of(self@),
    {
        proof {
            reveal_strlit("\n");
        }
        match self {
            ConfigError::Io(err) => String::from_str("I/O error: ").concat(err.as_str()),
            ConfigError::Parse(err) => String::from_str("TOML parse error: ").concat(err.as_str()),
            ConfigError::ParseWithContext { file, line, column, context, original_message } => {
                let mut r = String::from_str("TOML parse error: ");
                r.append(original_message.as_str());
                r.append("\n");
                r.append("File: ");
                r.append(file.as_str());
                r.append("\n");
                r.append("Line: ");
                r.append(decimal_string(*line as u64).as_str());
                r.append(", Column: ");
                r.append(decimal_string(*column as u64).as_str());
                r.append("\n");
                r.append("\n");
                r.append(context_text(context).as_str());
                r
            },
            ConfigError::Validation(msg) => {
                String::from_str("Validation error: ").concat(msg.as_str())
            },
            ConfigError::MutuallyExclusive(a, b) => {
                let mut r = String::from_str("Options '");
                r.append(a.as_str());
                r.append("' and '");
                r.append(b.as_str());
                r.append("' are mutually exclusive");
                r
            },
            ConfigError::Dependency(msg) => {
                String::from_str("Dependency error: ").concat(msg.as_str())
            },
            ConfigError::InvalidRange(msg) => {
                String::from_str("Invalid range: ").concat(msg.as_str())
            },
            ConfigError::DuplicateKeybindings => String::from_str("Duplicate keybindings detected"),
            ConfigError::InvalidFKey(name, key) => {
                let mut r = String::from_str("Invalid F-key value for '");
                r.append(name.as_str());
                r.append("': F");
                r.append(decimal_string(*key as u64).as_str());
                r.append(" (must be F1-F12)");
                r
            },
            ConfigError::InvalidTimeFormat => String::from_str("Invalid time format string"),
            ConfigError::WrapperExecutableNotFound(path) => {
                String::from_str("Session wrapper executable not found: ").concat(path.as_str())
            },
        }
    }
}

} // verus!
