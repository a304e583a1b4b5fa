//! What holds of the way from the worker to the list of cards, whatever the
//! order in which the two sides take their turns.

use vstd::prelude::*;
use crate::headlines::card::{cards_sent, NewsCardView};
use crate::headlines::state::shown_after;
use crate::headlines::worker::{MsgView, StepView, WorkerView};
use crate::newsapi::error::ErrorView;
use crate::newsapi::response::ResponseView;

verus! {

/// One turn on the way from the worker to the list.
pub enum LinkStep {
    /// The worker sends the next of its cards, if it has one left.
    Send,
    /// The application looks once for a card, as it does in every frame.
    Poll,
}

/// The way from the worker to the list: the cards that the worker has yet
/// to send, those that were sent and not yet looked for, and those that the
/// application shows. What is sent first is found first.
pub struct Link {
    pub unsent: Seq<NewsCardView>,
    pub queued: Seq<NewsCardView>,
    pub shown: Seq<NewsCardView>,
}

impl Link {
    /// The way before anything was sent.
    pub open spec fn begin(cards: Seq<NewsCardView>) -> Link {
        Link { unsent: cards, queued: Seq::empty(), shown: Seq::empty() }
    }

    /// What a look finds: the card that has waited longest, or nothing.
    pub open spec fn found(self) -> Option<NewsCardView> {
        if self.queued.len() > 0 {
            Some(self.queued[0])
        } else {
            None
        }
    }

    /// The way after one turn.
    pub open spec fn after(self, step: LinkStep) -> Link {
        match step {
            LinkStep::Send => if self.unsent.len() > 0 {
                Link {
                    unsent: self.unsent.drop_first(),
                    queued: self.queued.push(self.unsent[0]),
                    ..self
                }
            } else {
                self
            },
            LinkStep::Poll => Link {
                queued: if self.queued.len() > 0 {
                    self.queued.drop_first()
                } else {
                    self.queued
                },
                shown: shown_after(self.shown, self.found()),
                ..self
            },
        }
    }

    /// The way after a run of turns.
    pub open spec fn run(self, steps: Seq<LinkStep>) -> Link
        decreases steps.len(),
    {
        if steps.len() == 0 {
            self
        } else {
            self.run(steps.drop_last()).after(steps.last())
        }
    }

    /// All the cards on the way, from the first shown to the last unsent.
    pub open spec fn all(self) -> Seq<NewsCardView> {
        self.shown + self.queued + self.unsent
    }
}

/// A run of looks, with no sending between them.
pub open spec fn polls(n: nat) -> Seq<LinkStep> {
    Seq::new(n, |i: int| LinkStep::Poll)
}

/// One turn moves a card along the way, or none, and changes no order.
pub proof fn law_turn_keeps_order(link: Link, step: LinkStep)
    ensures
        link.after(step).all() == link.all(),
{
    assert(link.after(step).all() =~= link.all());
}

/// The cards reach the list in the order in which the worker had them,
/// whatever the order of the turns: after any run, the cards shown, those
/// on the way and those unsent are, in this order, the cards of the start.
pub proof fn law_order_is_kept(link: Link, steps: Seq<LinkStep>)
    ensures
        link.run(steps).all() == link.all(),
    decreases steps.len(),
{
    if steps.len() > 0 {
        law_order_is_kept(link, steps.drop_last());
        law_turn_keeps_order(link.run(steps.drop_last()), steps.last());
    }
}

/// What the application shows of the cards of a fetch is, after any run of
/// turns, the first of them in their order, and never more than were sent.
pub proof fn law_shown_is_prefix(cards: Seq<NewsCardView>, steps: Seq<LinkStep>)
    ensures
        ({
            let end = Link::begin(cards).run(steps);
            &&& end.shown.len() <= cards.len()
            &&& end.shown == cards.take(end.shown.len() as int)
        }),
{
    let end = Link::begin(cards).run(steps);
    law_order_is_kept(Link::begin(cards), steps);
    assert(Link::begin(cards).all() =~= cards);
    assert(end.all().len() == end.shown.len() + end.queued.len() + end.unsent.len());
    assert(end.shown =~= end.all().take(end.shown.len() as int));
}

/// A run of looks shows the cards that were on the way, the oldest first,
/// one with each look, until none is left.
pub proof fn law_polls_drain(link: Link, n: nat)
    ensures
        ({
            let taken = if n <= link.queued.len() {
                n as int
            } else {
                link.queued.len() as int
            };
            &&& link.run(polls(n)).shown == link.shown + link.queued.take(taken)
            &&& link.run(polls(n)).queued == link.queued.skip(taken)
            &&& link.run(polls(n)).unsent == link.unsent
        }),
    decreases n,
{
    if n == 0 {
        assert(link.shown =~= link.shown + link.queued.take(0));
        assert(link.queued =~= link.queued.skip(0));
    } else {
        let before = (n - 1) as nat;
        law_polls_drain(link, before);
        assert(polls(n).drop_last() =~= polls(before));
        assert(polls(n).last() == LinkStep::Poll);
        let mid = link.run(polls(before));
        let taken = if n <= link.queued.len() {
            n as int
        } else {
            link.queued.len() as int
        };
        assert(link.run(polls(n)) == mid.after(LinkStep::Poll));
        assert(mid.after(LinkStep::Poll).shown =~= link.shown + link.queued.take(taken));
        assert(mid.after(LinkStep::Poll).queued =~= link.queued.skip(taken));
    }
}

/// Once the worker has sent all its cards, as many looks as there are cards
/// show them all, in the worker's order.
pub proof fn law_sent_cards_are_shown(cards: Seq<NewsCardView>, n: nat)
    requires
        n >= cards.len(),
    ensures
        (Link { unsent: Seq::empty(), queued: cards, shown: Seq::empty() }).run(polls(n)).shown
            == cards,
{
    let link = Link { unsent: Seq::empty(), queued: cards, shown: Seq::empty() };
    law_polls_drain(link, n);
    assert(link.shown + link.queued.take(cards.len() as int) =~= cards);
}

/// What the one who runs the worker hands back to it.
pub enum WorkerInput {
    /// What a wait for a message came to.
    Message(Option<MsgView>),
    /// What a fetch came to.
    Outcome(Result<ResponseView, ErrorView>),
}

/// A worker and what it has done so far: the keys that it fetched with and
/// the cards that it sent, both in their order.
pub struct WorkerTrace {
    pub state: WorkerView,
    pub fetched_with: Seq<Seq<char>>,
    pub sent: Seq<NewsCardView>,
}

impl WorkerTrace {
    /// A worker that has done nothing yet.
    pub open spec fn begin(api_key: Seq<char>) -> WorkerTrace {
        WorkerTrace {
            state: WorkerView::start(api_key),
            fetched_with: Seq::empty(),
            sent: Seq::empty(),
        }
    }

    /// The worker after it was handed one thing. What the worker did not
    /// ask for changes nothing.
    pub open spec fn after(self, input: WorkerInput) -> WorkerTrace {
        match (self.state.step(), input) {
            (StepView::Fetch(key), WorkerInput::Outcome(outcome)) => WorkerTrace {
                state: self.state.after_fetch(),
                fetched_with: self.fetched_with.push(key),
                sent: self.sent + self.state.cards_after(outcome),
            },
            (StepView::AwaitMessage, WorkerInput::Message(message)) => WorkerTrace {
                state: self.state.after_message(message),
                ..self
            },
            _ => self,
        }
    }

    /// The worker after it was handed one thing after the other.
    pub open spec fn run(self, inputs: Seq<WorkerInput>) -> WorkerTrace
        decreases inputs.len(),
    {
        if inputs.len() == 0 {
            self
        } else {
            self.run(inputs.drop_last()).after(inputs.last())
        }
    }
}

/// Whether the worker was told of this key.
pub open spec fn told(inputs: Seq<WorkerInput>, key: Seq<char>) -> bool {
    exists|i: int|
        0 <= i < inputs.len() && #[trigger] inputs[i] == WorkerInput::Message(
            Some(MsgView::ApiKeySet(key)),
        )
}

/// Whether the worker was told of any key.
pub open spec fn told_of_a_key(inputs: Seq<WorkerInput>) -> bool {
    exists|i: int|
        0 <= i < inputs.len() && (#[trigger] inputs[i] matches WorkerInput::Message(Some(_)))
}

/// A worker that started without a key and was told of none has fetched
/// nothing and sent nothing, and still waits, whatever it was handed.
pub proof fn law_silent_until_told(inputs: Seq<WorkerInput>)
    requires
        !told_of_a_key(inputs),
    ensures
        WorkerTrace::begin(Seq::empty()).run(inputs) == WorkerTrace::begin(Seq::empty()),
        WorkerTrace::begin(Seq::empty()).run(inputs).state == WorkerView::AwaitingKey,
        WorkerTrace::begin(Seq::empty()).run(inputs).sent.len() == 0,
        WorkerTrace::begin(Seq::empty()).run(inputs).fetched_with.len() == 0,
    decreases inputs.len(),
{
    if inputs.len() > 0 {
        let earlier = inputs.drop_last();
        assert forall|i: int| 0 <= i < earlier.len() implies !(#[trigger] earlier[i]
            matches WorkerInput::Message(Some(_))) by {
            assert(earlier[i] == inputs[i]);
        }
        law_silent_until_told(earlier);
        assert(inputs.last() == inputs[inputs.len() - 1]);
    }
}

/// A worker that started without a key fetches with no key but one that it
/// was told of: each key that it has fetched with, and the key of the fetch
/// that is due, stands in a message that it was handed.
pub proof fn law_fetches_with_told_keys(inputs: Seq<WorkerInput>)
    ensures
        ({
            let end = WorkerTrace::begin(Seq::empty()).run(inputs);
            &&& forall|i: int|
                0 <= i < end.fetched_with.len() ==> told(inputs, #[trigger] end.fetched_with[i])
            &&& end.state.step() matches StepView::Fetch(key) ==> told(inputs, key)
            &&& end.state is AwaitingKey || end.state is Notified
        }),
    decreases inputs.len(),
{
    if inputs.len() > 0 {
        let earlier = inputs.drop_last();
        let mid = WorkerTrace::begin(Seq::empty()).run(earlier);
        let end = mid.after(inputs.last());
        law_fetches_with_told_keys(earlier);
        assert forall|key: Seq<char>| told(earlier, key) implies told(inputs, key) by {
            let i = choose|i: int|
                0 <= i < earlier.len() && #[trigger] earlier[i] == WorkerInput::Message(
                    Some(MsgView::ApiKeySet(key)),
                );
            assert(inputs[i] == earlier[i]);
        }
        assert(inputs[inputs.len() - 1] == inputs.last());
        assert forall|i: int| 0 <= i < end.fetched_with.len() implies told(
            inputs,
            #[trigger] end.fetched_with[i],
        ) by {
            if i < mid.fetched_with.len() {
                assert(end.fetched_with[i] == mid.fetched_with[i]);
            }
        }
    }
}

/// A worker that waits, and is told of a key after any number of waits
/// that brought no message, has a fetch with exactly that key due, and has
/// sent nothing.
pub proof fn law_told_key_is_fetched(waits: nat, key: Seq<char>)
    ensures
        ({
            let inputs = Seq::new(waits, |i: int| WorkerInput::Message(None)).push(
                WorkerInput::Message(Some(MsgView::ApiKeySet(key))),
            );
            let end = WorkerTrace::begin(Seq::empty()).run(inputs);
            &&& end.state.step() == StepView::Fetch(key)
            &&& end.sent.len() == 0
            &&& end.fetched_with.len() == 0
        }),
{
    let quiet = Seq::new(waits, |i: int| WorkerInput::Message(None));
    let inputs = quiet.push(WorkerInput::Message(Some(MsgView::ApiKeySet(key))));
    assert(inputs.drop_last() =~= quiet);
    law_silent_until_told(quiet);
}

/// A worker that started with a key fetches once, with that key, sends the
/// cards of that fetch, and does nothing after it, whatever it is handed.
pub proof fn law_one_fetch_with_configured_key(api_key: Seq<char>, inputs: Seq<WorkerInput>)
    requires
        api_key.len() > 0,
    ensures
        ({
            let end = WorkerTrace::begin(api_key).run(inputs);
            ||| end == WorkerTrace::begin(api_key)
            ||| exists|outcome: Result<ResponseView, ErrorView>|
                end == (WorkerTrace {
                    state: WorkerView::Finished,
                    fetched_with: seq![api_key],
                    sent: #[trigger] cards_sent(outcome),
                })
        }),
    decreases inputs.len(),
{
    if inputs.len() > 0 {
        let mid = WorkerTrace::begin(api_key).run(inputs.drop_last());
        let end = mid.after(inputs.last());
        law_one_fetch_with_configured_key(api_key, inputs.drop_last());
        if mid == WorkerTrace::begin(api_key) {
            match inputs.last() {
                WorkerInput::Outcome(outcome) => {
                    assert(end.fetched_with =~= seq![api_key]);
                    assert(end.sent =~= cards_sent(outcome));
                },
                _ => {},
            }
        }
    }
}

} // verus!
