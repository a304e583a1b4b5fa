//! The state of the application: the cards it shows, its configuration, and
//! whether it has a key.

use vstd::prelude::*;
use vstd::string::StringExecFns;
use crate::headlines::card::{card_views, NewsCardData, NewsCardView};
use crate::headlines::config::{ConfigView, HeadlinesConfig};
use crate::headlines::worker::{Msg, MsgView, Worker, WorkerView};

verus! {

/// What the application shows.
#[derive(Clone, Copy, Debug, PartialEq, Eq)]
pub enum Screen {
    /// The form that asks for a key.
    KeyEntry,
    /// The header, the list of cards and the footer.
    News,
}

/// The application, as contracts speak of it.
pub struct HeadlinesView {
    pub articles: Seq<NewsCardView>,
    pub config: ConfigView,
    pub api_key_initialized: bool,
}

impl HeadlinesView {
    /// The application is in one of two states, and its configuration says
    /// in which: it has a key exactly where the configuration holds one.
    pub open spec fn well_formed(self) -> bool {
        self.api_key_initialized == self.config.has_key()
    }

    /// What the application shows in this state.
    pub open spec fn screen(self) -> Screen {
        if self.api_key_initialized {
            Screen::News
        } else {
            Screen::KeyEntry
        }
    }

    /// The application at its start, with the configuration that was kept.
    pub open spec fn start(config: ConfigView) -> HeadlinesView {
        HeadlinesView { articles: Seq::empty(), config, api_key_initialized: config.has_key() }
    }

    /// Whether the entry of a key is taken: the application has none yet,
    /// and what was entered is not empty.
    pub open spec fn accepts(self, key: Seq<char>) -> bool {
        !self.api_key_initialized && key.len() > 0
    }

    /// The application after the entry of a key.
    pub open spec fn after_key(self, key: Seq<char>) -> HeadlinesView {
        if self.accepts(key) {
            HeadlinesView {
                config: ConfigView { api_key: key, ..self.config },
                api_key_initialized: true,
                ..self
            }
        } else {
            self
        }
    }

    /// The application after the theme's button was pressed.
    pub open spec fn after_toggle(self) -> HeadlinesView {
        HeadlinesView {
            config: ConfigView { dark_mode: !self.config.dark_mode, ..self.config },
            ..self
        }
    }

    /// The application after one look at what the worker sent: the card
    /// that was found goes to the end of the list.
    pub open spec fn after_poll(self, incoming: Option<NewsCardView>) -> HeadlinesView {
        HeadlinesView { articles: shown_after(self.articles, incoming), ..self }
    }
}

/// The list of cards after one look at what the worker sent.
pub open spec fn shown_after(shown: Seq<NewsCardView>, incoming: Option<NewsCardView>) -> Seq<
    NewsCardView,
> {
    match incoming {
        Some(card) => shown.push(card),
        None => shown,
    }
}

/// What one look at what the worker sent found, as contracts speak of it.
pub open spec fn incoming_view(incoming: Option<NewsCardData>) -> Option<NewsCardView> {
    match incoming {
        Some(card) => Some(card@),
        None => None,
    }
}

/// What the entry of a key asks of the one who runs the application, as
/// contracts speak of it.
pub struct SubmissionView {
    pub stored: ConfigView,
    pub notice: MsgView,
}

/// What the entry of a key asks of the one who runs the application.
#[derive(Debug, PartialEq, Eq)]
pub struct KeySubmission {
    /// The configuration to keep for the next run.
    pub stored: HeadlinesConfig,
    /// The message to send to the worker.
    pub notice: Msg,
}

impl View for KeySubmission {
    type V = SubmissionView;

    open spec fn view(&self) -> SubmissionView {
        SubmissionView { stored: self.stored@, notice: self.notice@ }
    }
}

/// What the entry of a key asks for, where the entry is taken.
pub open spec fn submission_of(app: HeadlinesView, key: Seq<char>) -> Option<SubmissionView> {
    if app.accepts(key) {
        Some(
            SubmissionView {
                stored: ConfigView { api_key: key, ..app.config },
                notice: MsgView::ApiKeySet(key),
            },
        )
    } else {
        None
    }
}

/// The application's state.
#[derive(Debug)]
pub struct Headlines {
    articles: Vec<NewsCardData>,
    config: HeadlinesConfig,
    api_key_initialized: bool,
}

impl View for Headlines {
    type V = HeadlinesView;

    closed spec fn view(&self) -> HeadlinesView {
        HeadlinesView {
            articles: card_views(self.articles@),
            config: self.config@,
            api_key_initialized: self.api_key_initialized,
        }
    }
}

impl Default for Headlines {
    /// The application of a first run: no cards, no key, the light theme.
    fn default() -> (app: Headlines)
        ensures
            app@ == HeadlinesView::start(ConfigView { dark_mode: false, api_key: Seq::empty() }),
            app@.well_formed(),
            app@.screen() == Screen::KeyEntry,
    {
        Headlines::new(HeadlinesConfig::default())
    }
}

impl Headlines {
    /// The application at its start: no cards, and a key where the
    /// configuration that was kept holds one.
    pub fn new(config: HeadlinesConfig) -> (app: Headlines)
        ensures
            app@ == HeadlinesView::start(config@),
            app@.well_formed(),
    {
        let api_key_initialized = config.has_key();
        let articles: Vec<NewsCardData> = Vec::new();
        assert(card_views(articles@) =~= Seq::<NewsCardView>::empty());
        Headlines { articles, config, api_key_initialized }
    }

    /// The worker that fetches for the application, at its start: it
    /// fetches at once where the application has a key, and waits for one
    /// where it has none.
    pub fn worker(&self) -> (worker: Worker)
        ensures
            worker@ == WorkerView::start(self@.config.api_key),
    {
        Worker::start(self.config.api_key.as_str())
    }

    /// The cards that the application shows, in the order in which they
    /// came.
    pub fn articles(&self) -> (articles: &Vec<NewsCardData>)
        ensures
            card_views(articles@) == self@.articles,
    {
        &self.articles
    }

    pub fn config(&self) -> (config: &HeadlinesConfig)
        ensures
            config@ == self@.config,
    {
        &self.config
    }

    pub fn dark_mode(&self) -> (dark: bool)
        ensures
            dark == self@.config.dark_mode,
    {
        self.config.dark_mode
    }

    /// Whether the application has a key.
    pub fn api_key_initialized(&self) -> (initialized: bool)
        ensures
            initialized == self@.api_key_initialized,
    {
        self.api_key_initialized
    }

    /// What the application shows: the form while it has no key, the news
    /// once it has one.
    pub fn screen(&self) -> (screen: Screen)
        ensures
            screen == self@.screen(),
    {
        if self.api_key_initialized {
            Screen::News
        } else {
            Screen::KeyEntry
        }
    }

    /// Takes the key that was entered in the form. Where the application has
    /// no key yet and the entry is not empty, the key goes into the
    /// configuration, the application has a key from now on, and the result
    /// says what to keep and what to tell the worker. Any other entry
    /// changes nothing and asks for nothing.
    pub fn submit_api_key(&mut self, key: &str) -> (submitted: Option<KeySubmission>)
        ensures
            final(self)@ == old(self)@.after_key(key@),
            old(self)@.well_formed() ==> final(self)@.well_formed(),
            match submitted {
                Some(submission) => submission_of(old(self)@, key@) == Some(submission@),
                None => submission_of(old(self)@, key@) is None,
            },
    {
        if self.api_key_initialized || key.is_empty() {
            return None;
        }
        self.config.api_key = String::from_str(key);
        self.api_key_initialized = true;
        Some(
            KeySubmission {
                stored: HeadlinesConfig {
                    dark_mode: self.config.dark_mode,
                    api_key: String::from_str(key),
                },
                notice: Msg::ApiKeySet(String::from_str(key)),
            },
        )
    }

    /// Takes a press of the theme's button: the other theme is on from now
    /// on. Nothing is asked to be kept.
    pub fn toggle_dark_mode(&mut self)
        ensures
            final(self)@ == old(self)@.after_toggle(),
            old(self)@.well_formed() ==> final(self)@.well_formed(),
    {
        self.config.dark_mode = !self.config.dark_mode;
    }

    /// Takes what one look at what the worker sent found: a card, which
    /// goes to the end of the list, or nothing, which is no failure.
    pub fn preload_articles(&mut self, incoming: Option<NewsCardData>)
        ensures
            final(self)@ == old(self)@.after_poll(incoming_view(incoming)),
            old(self)@.well_formed() ==> final(self)@.well_formed(),
    {
        match incoming {
            Some(news) => {
                self.articles.push(news);
                assert(card_views(self.articles@) =~= card_views(old(self).articles@).push(news@));
            },
            None => {},
        }
    }
}

} // verus!
