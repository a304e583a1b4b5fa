//! The worker that fetches for the application, as a machine: what it does
//! next in each state, and the state that each outcome leaves.
//!
//! The one who runs the worker asks `step` what to do, does it, and hands
//! back what came of it: a message to `notified`, a fetch to `fetched`.

use vstd::prelude::*;
use vstd::string::StringExecFns;
use crate::headlines::card::{card_views, cards_sent, fetch_news, outcome_view, NewsCardData, NewsCardView};
use crate::newsapi::error::{ErrorView, NewsAPIError};
use crate::newsapi::response::{NewsAPIResponse, ResponseView};

verus! {

/// A message of the application to its worker, as contracts speak of it.
pub enum MsgView {
    ApiKeySet(Seq<char>),
}

/// What the application tells its worker.
#[derive(Debug, PartialEq, Eq)]
pub enum Msg {
    /// A key has been entered.
    ApiKeySet(String),
}

impl View for Msg {
    type V = MsgView;

    open spec fn view(&self) -> MsgView {
        match *self {
            Msg::ApiKeySet(key) => MsgView::ApiKeySet(key@),
        }
    }
}

/// What a wait for a message came to, as contracts speak of it.
pub open spec fn message_view(message: Option<Msg>) -> Option<MsgView> {
    match message {
        Some(m) => Some(m@),
        None => None,
    }
}

/// What the worker does next, as contracts speak of it.
pub enum StepView {
    Fetch(Seq<char>),
    AwaitMessage,
    Stop,
}

/// What the worker does next.
#[derive(Debug, PartialEq, Eq)]
pub enum WorkerStep {
    /// Fetch once, with this key.
    Fetch(String),
    /// Wait until the application tells of a key.
    AwaitMessage,
    /// Nothing is left to do.
    Stop,
}

impl View for WorkerStep {
    type V = StepView;

    open spec fn view(&self) -> StepView {
        match *self {
            WorkerStep::Fetch(key) => StepView::Fetch(key@),
            WorkerStep::AwaitMessage => StepView::AwaitMessage,
            WorkerStep::Stop => StepView::Stop,
        }
    }
}

/// A worker, as contracts speak of it.
pub enum WorkerView {
    Immediate(Seq<char>),
    AwaitingKey,
    Notified(Seq<char>),
    Finished,
}

/// The worker's state.
#[derive(Debug, PartialEq, Eq)]
pub enum Worker {
    /// A key was configured at the start: one fetch with it is due, and
    /// nothing after it.
    Immediate(String),
    /// No key is known: the worker waits to be told of one.
    AwaitingKey,
    /// A key has been told: one fetch with it is due, and then the worker
    /// waits again.
    Notified(String),
    /// The one fetch of a worker that started with a key is over.
    Finished,
}

impl View for Worker {
    type V = WorkerView;

    open spec fn view(&self) -> WorkerView {
        match *self {
            Worker::Immediate(key) => WorkerView::Immediate(key@),
            Worker::AwaitingKey => WorkerView::AwaitingKey,
            Worker::Notified(key) => WorkerView::Notified(key@),
            Worker::Finished => WorkerView::Finished,
        }
    }
}

impl WorkerView {
    /// The worker at its start: it fetches at once where a key is
    /// configured, and waits for one where none is.
    pub open spec fn start(api_key: Seq<char>) -> WorkerView {
        if api_key.len() > 0 {
            WorkerView::Immediate(api_key)
        } else {
            WorkerView::AwaitingKey
        }
    }

    /// What the worker does next.
    pub open spec fn step(self) -> StepView {
        match self {
            WorkerView::Immediate(key) => StepView::Fetch(key),
            WorkerView::AwaitingKey => StepView::AwaitMessage,
            WorkerView::Notified(key) => StepView::Fetch(key),
            WorkerView::Finished => StepView::Stop,
        }
    }

    /// The worker after a wait for a message: a worker that waited and was
    /// told of a key has a fetch with that key due. A wait that brought no
    /// message, and a message to a worker that did not wait, change nothing.
    pub open spec fn after_message(self, message: Option<MsgView>) -> WorkerView {
        match (self, message) {
            (WorkerView::AwaitingKey, Some(MsgView::ApiKeySet(key))) => WorkerView::Notified(key),
            _ => self,
        }
    }

    /// The worker after a fetch: at its end where it started with a key,
    /// waiting again where it was told of one. Where no fetch was due,
    /// nothing changes.
    pub open spec fn after_fetch(self) -> WorkerView {
        match self {
            WorkerView::Immediate(_) => WorkerView::Finished,
            WorkerView::Notified(_) => WorkerView::AwaitingKey,
            _ => self,
        }
    }

    /// The cards that the worker sends when a fetch is over: those of the
    /// fetch where one was due, none where none was.
    pub open spec fn cards_after(self, outcome: Result<ResponseView, ErrorView>) -> Seq<
        NewsCardView,
    > {
        match self {
            WorkerView::Immediate(_) | WorkerView::Notified(_) => cards_sent(outcome),
            _ => Seq::empty(),
        }
    }
}

impl Worker {
    /// The worker at its start.
    pub fn start(api_key: &str) -> (worker: Worker)
        ensures
            worker@ == WorkerView::start(api_key@),
    {
        if api_key.is_empty() {
            Worker::AwaitingKey
        } else {
            Worker::Immediate(String::from_str(api_key))
        }
    }

    /// What the worker does next.
    pub fn step(&self) -> (step: WorkerStep)
        ensures
            step@ == self@.step(),
    {
        match self {
            Worker::Immediate(key) => WorkerStep::Fetch(key.clone()),
            Worker::AwaitingKey => WorkerStep::AwaitMessage,
            Worker::Notified(key) => WorkerStep::Fetch(key.clone()),
            Worker::Finished => WorkerStep::Stop,
        }
    }

    /// Takes what a wait for a message came to: the message, or nothing
    /// where the wait failed.
    pub fn notified(&mut self, message: Option<Msg>)
        ensures
            final(self)@ == old(self)@.after_message(message_view(message)),
    {
        match message {
            Some(Msg::ApiKeySet(key)) => {
                if let Worker::AwaitingKey = self {
                    *self = Worker::Notified(key);
                }
            },
            None => {},
        }
    }

    /// Takes what a fetch came to, and gives the cards to send, in the order
    /// in which they are to be sent.
    pub fn fetched(&mut self, outcome: &Result<NewsAPIResponse, NewsAPIError>) -> (cards: Vec<
        NewsCardData,
    >)
        ensures
            final(self)@ == old(self)@.after_fetch(),
            card_views(cards@) == old(self)@.cards_after(outcome_view(*outcome)),
    {
        match self {
            Worker::Immediate(_) => {
                *self = Worker::Finished;
                fetch_news(outcome)
            },
            Worker::Notified(_) => {
                *self = Worker::AwaitingKey;
                fetch_news(outcome)
            },
            _ => {
                let cards: Vec<NewsCardData> = Vec::new();
                assert(card_views(cards@) =~= Seq::<NewsCardView>::empty());
                cards
            },
        }
    }
}

} // verus!
