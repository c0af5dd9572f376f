//! Configuration: schema, loading order, merging, overrides and validation.

pub mod env;
pub mod error;
pub mod parser;
pub mod schema;
pub mod theme;
pub mod validate;
pub mod watcher;

pub use error::{ConfigError, ConfigErrorView};
pub use schema::{
    AlignGreeting, Config, ConfigView, DisplayConfig, DisplayConfigView, GeneralConfig,
    GeneralConfigView, KeybindingsConfig, KeybindingsConfigView, LayoutConfig, LayoutConfigView,
    PowerConfig, PowerConfigView, RememberConfig, RememberConfigView, SecretConfig,
    SecretConfigView, SecretMode, SessionConfig, SessionConfigView, ThemeConfig, ThemeConfigView,
    UserMenuConfig, UserMenuConfigView, WidgetConfig, WidgetConfigView, WidgetPosition,
};
