//! The authentication and session conversation: its state, and what each
//! event does to it.

pub mod input;
pub mod laws;
pub mod machine;
pub mod menu;
pub mod state;
pub mod step;

pub use input::{InputBuffer, InputView};
pub use state::{
    ExitReason, Greeter, GreeterView, Mode, Notice, NoticeView, Phase, PowerChoice, Prompt,
    PromptView, Session, SessionEntry, SessionEntryView, SessionView, ERROR_TICKS,
};
pub use step::{Event, EventView, Key, Outcome, OutcomeView};
