//! A mouse-jiggler core: a duration parser and a jiggle scheduler.
//!
//! The parser turns a compact textual duration (`"5:minutes"`, `"max"`)
//! into a [`cli::CustomDuration`].  The scheduler, [`jiggler::Jiggler`], is a
//! state machine that decides when to sleep, when to move the cursor and
//! when to stop; a thin driver performs those actions and feeds the
//! outcomes back in.

pub mod cli;
pub mod error;
pub mod jiggler;

pub use cli::Args;
pub use cli::CustomDuration;
pub use error::JigglerError;
pub use error::JigglerResult;
pub use jiggler::Action;
pub use jiggler::Event;
pub use jiggler::JiggleConfig;
pub use jiggler::Jiggler;
pub use jiggler::Phase;
