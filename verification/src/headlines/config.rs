//! What the application keeps from one run to the next.

use vstd::prelude::*;

verus! {

/// The name under which the configuration is kept.
pub const APP_NAME: &'static str = "headlines";

/// A configuration, as contracts speak of it.
pub struct ConfigView {
    pub dark_mode: bool,
    pub api_key: Seq<char>,
}

impl ConfigView {
    /// Whether the configuration holds a key.
    pub open spec fn has_key(self) -> bool {
        self.api_key.len() > 0
    }
}

/// The configuration: whether the dark theme is on, and the key of the API.
#[derive(Debug, PartialEq, Eq)]
pub struct HeadlinesConfig {
    pub dark_mode: bool,
    pub api_key: String,
}

impl View for HeadlinesConfig {
    type V = ConfigView;

    open spec fn view(&self) -> ConfigView {
        ConfigView { dark_mode: self.dark_mode, api_key: self.api_key@ }
    }
}

impl Default for HeadlinesConfig {
    /// The configuration of a first run: the light theme, and no key.
    fn default() -> (config: HeadlinesConfig)
        ensures
            config@ == (ConfigView { dark_mode: false, api_key: Seq::empty() }),
    {
        HeadlinesConfig { dark_mode: false, api_key: String::new() }
    }
}

impl HeadlinesConfig {
    /// Whether the configuration holds a key.
    pub fn has_key(&self) -> (has: bool)
        ensures
            has == self@.has_key(),
    {
        !self.api_key.as_str().is_empty()
    }
}

} // verus!
