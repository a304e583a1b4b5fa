//! The application that shows the headlines: its state, the worker that
//! fetches for it, and what passes between the two.

pub mod card;
pub mod config;
pub mod flow;
pub mod state;
pub mod theme;
pub mod worker;

pub use card::NewsCardData;
pub use config::HeadlinesConfig;
pub use state::Headlines;
pub use worker::{Msg, Worker};
