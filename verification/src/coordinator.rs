//! The debounce coordinator: collapses bursts of camera edges into a
//! single settled intent, applied once per settle.
//!
//! Every edge stores the newest intent, cancels the pending delayed
//! action, and schedules a fresh one under a fresh token. When a delayed
//! action expires, its token is checked against the pending one: only the
//! most recently scheduled action may fire, and firing takes the intent
//! (so that nothing stale can be applied twice). The caller sleeps for the
//! settle delay between `on_edge` and `on_timer`, and performs the device
//! apply exactly when `on_timer` hands an intent back.

use vstd::prelude::*;

verus! {

/// The coordinator's state: the most recently requested intent (`None`
/// once it has been taken by a fired action), the token of the one pending
/// delayed action, and the counter fresh tokens come from.
#[derive(Debug, Clone, Copy, PartialEq, Eq, Structural)]
pub struct Debouncer {
    /// The last requested power state, not yet taken by a fired action.
    pub intent: Option<bool>,
    /// The token of the pending delayed action, if one is scheduled.
    pub pending: Option<u64>,
    /// The source of fresh tokens; every issued token is below it.
    pub next_token: u64,
}

/// One input to the coordinator: a camera edge, or the expiry of the
/// delayed action that was scheduled under the given token.
pub enum CoordEvent {
    /// The camera turned on (`true`) or off (`false`).
    Edge(bool),
    /// The delayed action with this token reached its settle delay.
    Timer(u64),
}

impl Debouncer {
    /// Every pending token was issued earlier, so a fresh token can never
    /// collide with it.
    pub open spec fn wf(self) -> bool {
        self.pending matches Some(g) ==> g < self.next_token
    }

    /// A coordinator with no intent and nothing scheduled.
    pub fn new() -> (r: Debouncer)
        ensures
            r == spec_new_debouncer(),
            r.wf(),
    {
        Debouncer { intent: None, pending: None, next_token: 0 }
    }

    /// Takes one camera edge: stores it as the newest intent, withdraws
    /// the pending action's token (cancelling it), and schedules a new
    /// delayed action under the returned fresh token.
    pub fn on_edge(&mut self, active: bool) -> (token: u64)
        requires
            old(self).wf(),
            old(self).next_token < u64::MAX,
        ensures
            *final(self) == spec_on_edge(*old(self), active),
            token == old(self).next_token,
            final(self).wf(),
    {
        self.intent = Some(active);
        let token = self.next_token;
        self.pending = Some(token);
        self.next_token = token + 1;
        token
    }

    /// Takes the expiry of the delayed action scheduled under `token`.
    /// Only the pending token fires: it takes the intent — which the
    /// caller must now apply to the devices — and clears the pending
    /// slot. A cancelled or superseded token leaves the state untouched
    /// and applies nothing.
    pub fn on_timer(&mut self, token: u64) -> (r: Option<bool>)
        requires
            old(self).wf(),
        ensures
            *final(self) == spec_on_timer(*old(self), token).0,
            r == spec_on_timer(*old(self), token).1,
            final(self).wf(),
    {
        let fire = match self.pending {
            Some(g) => g == token,
            None => false,
        };
        if fire {
            let r = self.intent.take();
            self.pending = None;
            r
        } else {
            None
        }
    }
}

/// The state a fresh coordinator starts in.
pub open spec fn spec_new_debouncer() -> Debouncer {
    Debouncer { intent: None, pending: None, next_token: 0 }
}

/// What one edge does to the state.
pub open spec fn spec_on_edge(s: Debouncer, active: bool) -> Debouncer {
    Debouncer {
        intent: Some(active),
        pending: Some(s.next_token),
        next_token: (s.next_token + 1) as u64,
    }
}

/// What one timer expiry does to the state, and the intent it applies
/// (`None` when nothing fires).
pub open spec fn spec_on_timer(s: Debouncer, token: u64) -> (Debouncer, Option<bool>) {
    if s.pending == Some(token) {
        (Debouncer { intent: None, pending: None, next_token: s.next_token }, s.intent)
    } else {
        (s, None)
    }
}

/// One coordinator step.
pub open spec fn spec_step(s: Debouncer, e: CoordEvent) -> (Debouncer, Option<bool>) {
    match e {
        CoordEvent::Edge(b) => (spec_on_edge(s, b), None),
        CoordEvent::Timer(t) => spec_on_timer(s, t),
    }
}

/// Runs a sequence of events and collects the applied intents in order.
pub open spec fn spec_run(s: Debouncer, events: Seq<CoordEvent>) -> (Debouncer, Seq<bool>)
    decreases events.len(),
{
    if events.len() == 0 {
        (s, Seq::empty())
    } else {
        let first = spec_step(s, events.first());
        let rest = spec_run(first.0, events.drop_first());
        (
            rest.0,
            match first.1 {
                Some(b) => seq![b] + rest.1,
                None => rest.1,
            },
        )
    }
}

/// A sequence of edges, as coordinator events.
pub open spec fn spec_edges(bs: Seq<bool>) -> Seq<CoordEvent> {
    bs.map_values(|b: bool| CoordEvent::Edge(b))
}

/// A sequence of timer expiries, as coordinator events.
pub open spec fn spec_timers(tokens: Seq<u64>) -> Seq<CoordEvent> {
    tokens.map_values(|t: u64| CoordEvent::Timer(t))
}

/// Running a burst of edges applies nothing, keeps only the last edge as
/// the intent, and leaves exactly the last edge's action pending.
pub proof fn lemma_edges_run(s: Debouncer, bs: Seq<bool>)
    requires
        s.wf(),
        bs.len() > 0,
        s.next_token + bs.len() <= u64::MAX,
    ensures
        spec_run(s, spec_edges(bs)).1 =~= Seq::<bool>::empty(),
        spec_run(s, spec_edges(bs)).0 == (Debouncer {
            intent: Some(bs.last()),
            pending: Some((s.next_token + bs.len() - 1) as u64),
            next_token: (s.next_token + bs.len()) as u64,
        }),
        spec_run(s, spec_edges(bs)).0.wf(),
    decreases bs.len(),
{
    assert(spec_edges(bs).first() == CoordEvent::Edge(bs.first()));
    let after = spec_on_edge(s, bs.first());
    assert(spec_step(s, CoordEvent::Edge(bs.first())) == (after, None::<bool>));
    if bs.len() == 1 {
        assert(spec_edges(bs).drop_first() =~= Seq::<CoordEvent>::empty());
        assert(spec_run(after, Seq::<CoordEvent>::empty()) == (after, Seq::<bool>::empty()));
        assert(spec_run(s, spec_edges(bs)).0 == after);
        assert(bs.last() == bs.first());
    } else {
        assert(spec_edges(bs).drop_first() =~= spec_edges(bs.drop_first()));
        lemma_edges_run(after, bs.drop_first());
        assert(spec_run(s, spec_edges(bs)).0 == spec_run(after, spec_edges(bs.drop_first())).0);
        assert(spec_run(s, spec_edges(bs)).1 =~= spec_run(after, spec_edges(bs.drop_first())).1);
        assert(bs.drop_first().last() == bs.last());
    }
}

/// A cancelled or superseded timer is a no-op: it neither applies an
/// intent nor changes the state.
pub proof fn lemma_stale_timer_is_noop(s: Debouncer, token: u64)
    requires
        s.pending != Some(token),
    ensures
        spec_on_timer(s, token) == (s, None::<bool>),
{
}

/// With nothing pending, no amount of timer expiries applies anything.
pub proof fn lemma_timers_without_pending_are_noops(s: Debouncer, tokens: Seq<u64>)
    requires
        s.pending is None,
    ensures
        spec_run(s, spec_timers(tokens)) == (s, Seq::<bool>::empty()),
    decreases tokens.len(),
{
    if tokens.len() > 0 {
        assert(spec_timers(tokens).first() == CoordEvent::Timer(tokens.first()));
        assert(spec_timers(tokens).drop_first() =~= spec_timers(tokens.drop_first()));
        lemma_timers_without_pending_are_noops(s, tokens.drop_first());
    }
}

/// Of all scheduled actions, only the pending one can ever fire, and it
/// fires at most once: however many timer expiries arrive, at most one
/// apply happens; it happens exactly when the pending action's token is
/// among them and an intent is stored, and it applies that intent.
pub proof fn lemma_timers_apply_at_most_once(s: Debouncer, tokens: Seq<u64>)
    ensures
        spec_run(s, spec_timers(tokens)).1.len() <= 1,
        (s.pending matches Some(g) && tokens.contains(g) && s.intent matches Some(b)) ==> spec_run(
            s,
            spec_timers(tokens),
        ).1 =~= seq![s.intent->0],
        (s.pending matches Some(g) && !tokens.contains(g)) ==> spec_run(s, spec_timers(tokens))
            == (s, Seq::<bool>::empty()),
        s.pending is None ==> spec_run(s, spec_timers(tokens)) == (s, Seq::<bool>::empty()),
    decreases tokens.len(),
{
    if tokens.len() == 0 {
    } else {
        assert(spec_timers(tokens).first() == CoordEvent::Timer(tokens.first()));
        assert(spec_timers(tokens).drop_first() =~= spec_timers(tokens.drop_first()));
        match s.pending {
            None => {
                lemma_timers_without_pending_are_noops(s, tokens);
            },
            Some(g) => {
                if tokens.first() == g {
                    let fired = spec_on_timer(s, g).0;
                    assert(fired.pending is None);
                    lemma_timers_without_pending_are_noops(fired, tokens.drop_first());
                } else {
                    lemma_timers_apply_at_most_once(s, tokens.drop_first());
                    if tokens.contains(g) {
                        let j = choose|j: int| 0 <= j < tokens.len() && tokens[j] == g;
                        assert(tokens.drop_first()[j - 1] == g);
                        assert(tokens.drop_first().contains(g));
                    }
                    assert(!tokens.contains(g) ==> !tokens.drop_first().contains(g)) by {
                        if tokens.drop_first().contains(g) {
                            let j = choose|j: int|
                                0 <= j < tokens.drop_first().len() && tokens.drop_first()[j] == g;
                            assert(tokens[j + 1] == g);
                        }
                    }
                }
            },
        }
    }
}

/// Running one event sequence after another runs them back to back, and
/// the applies concatenate.
pub proof fn lemma_run_concat(s: Debouncer, es1: Seq<CoordEvent>, es2: Seq<CoordEvent>)
    ensures
        spec_run(s, es1 + es2).0 == spec_run(spec_run(s, es1).0, es2).0,
        spec_run(s, es1 + es2).1 =~= spec_run(s, es1).1 + spec_run(spec_run(s, es1).0, es2).1,
    decreases es1.len(),
{
    if es1.len() == 0 {
        assert(es1 + es2 =~= es2);
    } else {
        assert((es1 + es2).first() == es1.first());
        assert((es1 + es2).drop_first() =~= es1.drop_first() + es2);
        let after = spec_step(s, es1.first()).0;
        lemma_run_concat(after, es1.drop_first(), es2);
    }
}

/// The debounce law: for a burst of edges arriving faster than the settle
/// delay, followed by any set of timer expiries, the apply happens at most
/// once, and when the surviving action's expiry is among the timers it
/// happens exactly once, applying only the last edge of the burst.
pub proof fn lemma_burst_applies_last_edge_once(s: Debouncer, bs: Seq<bool>, tokens: Seq<u64>)
    requires
        s.wf(),
        bs.len() > 0,
        s.next_token + bs.len() <= u64::MAX,
    ensures
        ({
            let settled = spec_run(s, spec_edges(bs)).0;
            let applies = spec_run(s, spec_edges(bs) + spec_timers(tokens)).1;
            &&& applies.len() <= 1
            &&& (tokens.contains(settled.pending->0) ==> applies =~= seq![bs.last()])
            &&& (!tokens.contains(settled.pending->0) ==> applies =~= Seq::<bool>::empty())
        }),
{
    lemma_edges_run(s, bs);
    lemma_run_concat(s, spec_edges(bs), spec_timers(tokens));
    let settled = spec_run(s, spec_edges(bs)).0;
    lemma_timers_apply_at_most_once(settled, tokens);
}

/// Idempotence: handling the same intent twice in two full rounds (edge,
/// then the matching expiry) applies that intent both times and leaves
/// the coordinator observably where the first round left it — no error,
/// no residue, only the internal token counter has moved on.
pub proof fn lemma_same_intent_twice(s: Debouncer, b: bool)
    requires
        s.wf(),
        s.next_token + 2 <= u64::MAX,
    ensures
        ({
            let s1 = spec_on_edge(s, b);
            let first = spec_on_timer(s1, s1.pending->0);
            let s3 = spec_on_edge(first.0, b);
            let second = spec_on_timer(s3, s3.pending->0);
            &&& first.1 == Some(b)
            &&& second.1 == Some(b)
            &&& second.0.intent == first.0.intent
            &&& second.0.pending == first.0.pending
        }),
{
}

} // verus!
