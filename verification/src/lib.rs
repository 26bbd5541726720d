//! Verified core of a desktop speed-test front end: the decisions the
//! application makes about where the measuring tool lives, which lines of the
//! tool's JSON output carry which message, the provider's run state, and how
//! the main window reacts to each message.

pub mod utils;
pub mod provider;
pub mod window;
pub mod providers;
pub mod progress_bar;
