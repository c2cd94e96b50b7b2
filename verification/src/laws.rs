//! Laws of the credential cache and its refresh scheduler, stated over the
//! trace semantics of the state machine and proved once and for all.

use vstd::prelude::*;

use crate::scheduler::Action;
use crate::scheduler::EventV;
use crate::scheduler::RefreshConfig;
use crate::scheduler::SchedulerState;
use crate::scheduler::action_of;
use crate::scheduler::next_state;
use crate::scheduler::run_actions;
use crate::scheduler::run_state;
use crate::scheduler::run_token;
use crate::scheduler::token_after;

verus! {

/// Non-empty invariant: however the machine is driven, a stored token that
/// is non-empty stays non-empty, so a read after any sequence of events
/// returns a non-empty value.
pub proof fn lemma_non_empty_invariant(s: SchedulerState, tok: Seq<char>, evs: Seq<EventV>)
    requires
        tok.len() > 0,
    ensures
        run_token(s, tok, evs).len() > 0,
    decreases evs.len(),
{
    if evs.len() > 0 {
        lemma_non_empty_invariant(
            next_state(s, evs[0]),
            token_after(s, evs[0], tok),
            evs.drop_first(),
        );
    }
}

/// No tearing: one step of the machine leaves the stored token either
/// exactly as it was or exactly equal to the token a successful exchange
/// returned — never a mixture of the two.
pub proof fn lemma_no_tearing(s: SchedulerState, e: EventV, tok: Seq<char>)
    ensures
        token_after(s, e, tok) == tok || (e matches EventV::FetchSucceeded(t)
            && token_after(s, e, tok) == t),
{
}

/// Shutdown latency: while the machine waits — in `Waiting` or in
/// `RetryBackoff` — the shutdown signal moves it to `ShuttingDown` at once,
/// with `Stop` as the action rather than any wait; whatever event follows
/// then reaches `Terminated`, again without waiting, and no step from
/// `ShuttingDown` or `Terminated` ever writes the token.
pub proof fn lemma_shutdown_latency(
    s: SchedulerState,
    tok: Seq<char>,
    c: RefreshConfig,
    e: EventV,
)
    requires
        s == SchedulerState::Waiting || s == SchedulerState::RetryBackoff,
    ensures
        next_state(s, EventV::ShutdownRequested) == SchedulerState::ShuttingDown,
        action_of(s, EventV::ShutdownRequested, c) == Action::Stop,
        token_after(s, EventV::ShutdownRequested, tok) == tok,
        next_state(SchedulerState::ShuttingDown, e) == SchedulerState::Terminated,
        action_of(SchedulerState::ShuttingDown, e, c) == Action::Stop,
        token_after(SchedulerState::ShuttingDown, e, tok) == tok,
        next_state(SchedulerState::Terminated, e) == SchedulerState::Terminated,
        token_after(SchedulerState::Terminated, e, tok) == tok,
{
}

/// A run of `2 * n` events standing for `n` failed refresh attempts in a
/// row: a failed exchange, then the end of the short backoff wait, over
/// and over.
pub open spec fn is_retry_segment(evs: Seq<EventV>) -> bool {
    &&& evs.len() % 2 == 0
    &&& forall|i: int| 0 <= i < evs.len() && i % 2 == 0 ==> (#[trigger] evs[i]) is FetchFailed
    &&& forall|i: int| 0 <= i < evs.len() && i % 2 == 1 ==> (#[trigger] evs[i]) is WaitElapsed
}

/// The actions of `n` failed attempts, seen from the retry: a short
/// backoff wait, then another fetch, `n` times over.
pub open spec fn retry_actions(n: nat, c: RefreshConfig) -> Seq<Action>
    decreases n,
{
    if n == 0 {
        Seq::empty()
    } else {
        seq![Action::Sleep(c.backoff_ms), Action::Fetch] + retry_actions((n - 1) as nat, c)
    }
}

/// How many of the actions start a credential exchange.
pub open spec fn fetch_count(acts: Seq<Action>) -> nat
    decreases acts.len(),
{
    if acts.len() == 0 {
        0
    } else {
        (if acts[0] is Fetch {
            1nat
        } else {
            0nat
        }) + fetch_count(acts.drop_first())
    }
}

proof fn lemma_run_state_append(s: SchedulerState, a: Seq<EventV>, b: Seq<EventV>)
    ensures
        run_state(s, a + b) == run_state(run_state(s, a), b),
    decreases a.len(),
{
    if a.len() == 0 {
        assert(a + b =~= b);
    } else {
        assert((a + b)[0] == a[0]);
        assert((a + b).drop_first() =~= a.drop_first() + b);
        lemma_run_state_append(next_state(s, a[0]), a.drop_first(), b);
    }
}

proof fn lemma_run_token_append(s: SchedulerState, tok: Seq<char>, a: Seq<EventV>, b: Seq<EventV>)
    ensures
        run_token(s, tok, a + b) == run_token(run_state(s, a), run_token(s, tok, a), b),
    decreases a.len(),
{
    if a.len() == 0 {
        assert(a + b =~= b);
    } else {
        assert((a + b)[0] == a[0]);
        assert((a + b).drop_first() =~= a.drop_first() + b);
        lemma_run_token_append(
            next_state(s, a[0]),
            token_after(s, a[0], tok),
            a.drop_first(),
            b,
        );
    }
}

proof fn lemma_run_actions_append(
    s: SchedulerState,
    a: Seq<EventV>,
    b: Seq<EventV>,
    c: RefreshConfig,
)
    ensures
        run_actions(s, a + b, c) == run_actions(s, a, c) + run_actions(run_state(s, a), b, c),
    decreases a.len(),
{
    if a.len() == 0 {
        assert(a + b =~= b);
        assert(run_actions(s, a, c) + run_actions(run_state(s, a), b, c) =~= run_actions(
            s,
            b,
            c,
        ));
    } else {
        assert((a + b)[0] == a[0]);
        assert((a + b).drop_first() =~= a.drop_first() + b);
        lemma_run_actions_append(next_state(s, a[0]), a.drop_first(), b, c);
        assert(run_actions(s, a + b, c) =~= run_actions(s, a, c) + run_actions(
            run_state(s, a),
            b,
            c,
        ));
    }
}

proof fn lemma_fetch_count_append(a: Seq<Action>, b: Seq<Action>)
    ensures
        fetch_count(a + b) == fetch_count(a) + fetch_count(b),
    decreases a.len(),
{
    if a.len() == 0 {
        assert(a + b =~= b);
    } else {
        assert((a + b)[0] == a[0]);
        assert((a + b).drop_first() =~= a.drop_first() + b);
        lemma_fetch_count_append(a.drop_first(), b);
    }
}

proof fn lemma_fetch_count_retry_actions(n: nat, c: RefreshConfig)
    ensures
        fetch_count(retry_actions(n, c)) == n,
    decreases n,
{
    if n > 0 {
        let pair = seq![Action::Sleep(c.backoff_ms), Action::Fetch];
        let single = seq![Action::Fetch];
        assert(pair.drop_first() =~= single);
        assert(single.drop_first() =~= Seq::<Action>::empty());
        assert(fetch_count(Seq::<Action>::empty()) == 0);
        assert(fetch_count(single) == 1);
        assert(fetch_count(pair) == fetch_count(single));
        lemma_fetch_count_append(pair, retry_actions((n - 1) as nat, c));
        lemma_fetch_count_retry_actions((n - 1) as nat, c);
    }
}

proof fn lemma_retry_segment_run(seg: Seq<EventV>, tok: Seq<char>, c: RefreshConfig)
    requires
        is_retry_segment(seg),
    ensures
        run_state(SchedulerState::Refreshing, seg) == SchedulerState::Refreshing,
        run_token(SchedulerState::Refreshing, tok, seg) == tok,
        forall|k: int|
            0 <= k <= seg.len() ==> run_token(
                SchedulerState::Refreshing,
                tok,
                #[trigger] seg.take(k),
            ) == tok,
        run_actions(SchedulerState::Refreshing, seg, c) == retry_actions(seg.len() / 2, c),
    decreases seg.len(),
{
    if seg.len() == 0 {
        assert(seg.take(0) =~= seg);
    } else {
        assert(seg.len() >= 2);
        assert(seg[0] is FetchFailed);
        assert(seg[1] is WaitElapsed);
        let seg2 = seg.subrange(2, seg.len() as int);
        assert(is_retry_segment(seg2)) by {
            assert forall|i: int| 0 <= i < seg2.len() && i % 2 == 0 implies (#[trigger] seg2[i])
                is FetchFailed by {
                assert(seg2[i] == seg[i + 2]);
            }
            assert forall|i: int| 0 <= i < seg2.len() && i % 2 == 1 implies (#[trigger] seg2[i])
                is WaitElapsed by {
                assert(seg2[i] == seg[i + 2]);
            }
        }
        assert(seg.drop_first()[0] == seg[1]);
        assert(seg.drop_first().drop_first() =~= seg2);
        lemma_retry_segment_run(seg2, tok, c);

        // One failed attempt: Refreshing -> RetryBackoff -> Refreshing,
        // with the token untouched.
        assert(run_state(SchedulerState::Refreshing, seg) == run_state(
            SchedulerState::RetryBackoff,
            seg.drop_first(),
        ));
        assert(run_state(SchedulerState::RetryBackoff, seg.drop_first()) == run_state(
            SchedulerState::Refreshing,
            seg2,
        ));
        assert(run_token(SchedulerState::Refreshing, tok, seg) == run_token(
            SchedulerState::RetryBackoff,
            tok,
            seg.drop_first(),
        ));
        assert(run_token(SchedulerState::RetryBackoff, tok, seg.drop_first()) == run_token(
            SchedulerState::Refreshing,
            tok,
            seg2,
        ));

        assert forall|k: int| 0 <= k <= seg.len() implies run_token(
            SchedulerState::Refreshing,
            tok,
            #[trigger] seg.take(k),
        ) == tok by {
            if k == 0 {
                assert(seg.take(0) =~= Seq::<EventV>::empty());
            } else if k == 1 {
                assert(seg.take(1)[0] == seg[0]);
                assert(seg.take(1).drop_first() =~= Seq::<EventV>::empty());
                assert(run_token(SchedulerState::Refreshing, tok, seg.take(1)) == run_token(
                    SchedulerState::RetryBackoff,
                    tok,
                    seg.take(1).drop_first(),
                ));
            } else {
                assert(seg.take(k)[0] == seg[0]);
                assert(seg.take(k).drop_first()[0] == seg[1]);
                assert(seg.take(k).drop_first().drop_first() =~= seg2.take(k - 2));
                assert(run_token(SchedulerState::Refreshing, tok, seg.take(k)) == run_token(
                    SchedulerState::RetryBackoff,
                    tok,
                    seg.take(k).drop_first(),
                ));
                assert(run_token(SchedulerState::RetryBackoff, tok, seg.take(k).drop_first())
                    == run_token(SchedulerState::Refreshing, tok, seg2.take(k - 2)));
            }
        }

        assert(seg.len() / 2 >= 1);
        assert(seg2.len() / 2 == seg.len() / 2 - 1);
        assert(run_actions(SchedulerState::Refreshing, seg, c) == seq![
            Action::Sleep(c.backoff_ms),
        ] + run_actions(SchedulerState::RetryBackoff, seg.drop_first(), c));
        assert(run_actions(SchedulerState::RetryBackoff, seg.drop_first(), c) == seq![
            Action::Fetch,
        ] + run_actions(SchedulerState::Refreshing, seg2, c));
        assert(run_actions(SchedulerState::Refreshing, seg, c) =~= seq![
            Action::Sleep(c.backoff_ms),
            Action::Fetch,
        ] + retry_actions(seg2.len() / 2, c));
        assert(retry_actions(seg.len() / 2, c) == seq![
            Action::Sleep(c.backoff_ms),
            Action::Fetch,
        ] + retry_actions((seg.len() / 2 - 1) as nat, c));
    }
}

/// Failure isolation: starting a refresh cycle in `Waiting` with stored
/// token `tok0`, let the interval elapse, let the exchange fail `n` times
/// in a row and then succeed with the non-empty token `t`. Then the machine
/// is back in `Waiting` with `t` stored; the stored token was `tok0` at
/// every step before the success, so readers saw the last good token
/// throughout; and the actions were exactly one fetch, then `n` times a
/// short backoff wait followed by another fetch — `n + 1` fetch attempts,
/// with no interval-length wait between them — and one full-interval wait
/// after the success.
pub proof fn lemma_failure_isolation(
    seg: Seq<EventV>,
    tok0: Seq<char>,
    t: Seq<char>,
    c: RefreshConfig,
)
    requires
        is_retry_segment(seg),
        t.len() > 0,
    ensures
        ({
            let evs = seq![EventV::WaitElapsed] + seg + seq![EventV::FetchSucceeded(t)];
            let acts = run_actions(SchedulerState::Waiting, evs, c);
            &&& run_state(SchedulerState::Waiting, evs) == SchedulerState::Waiting
            &&& run_token(SchedulerState::Waiting, tok0, evs) == t
            &&& forall|k: int|
                0 <= k < evs.len() ==> run_token(
                    SchedulerState::Waiting,
                    tok0,
                    #[trigger] evs.take(k),
                ) == tok0
            &&& acts == seq![Action::Fetch] + retry_actions(seg.len() / 2, c) + seq![
                Action::Sleep(c.interval_ms),
            ]
            &&& fetch_count(acts) == seg.len() / 2 + 1
        }),
{
    let first = seq![EventV::WaitElapsed];
    let last = seq![EventV::FetchSucceeded(t)];
    let evs = first + seg + last;
    let n = seg.len() / 2;

    assert(first.drop_first() =~= Seq::<EventV>::empty());
    assert(last.drop_first() =~= Seq::<EventV>::empty());
    assert(run_state(SchedulerState::Waiting, first) == run_state(
        SchedulerState::Refreshing,
        first.drop_first(),
    ));
    assert(run_state(SchedulerState::Waiting, first) == SchedulerState::Refreshing);
    assert(run_token(SchedulerState::Waiting, tok0, first) == run_token(
        SchedulerState::Refreshing,
        tok0,
        first.drop_first(),
    ));
    assert(run_token(SchedulerState::Waiting, tok0, first) == tok0);
    assert(run_actions(SchedulerState::Waiting, first, c) == seq![Action::Fetch] + run_actions(
        SchedulerState::Refreshing,
        first.drop_first(),
        c,
    ));
    assert(run_actions(SchedulerState::Waiting, first, c) =~= seq![Action::Fetch]);
    assert(run_state(SchedulerState::Refreshing, last) == run_state(
        SchedulerState::Waiting,
        last.drop_first(),
    ));
    assert(run_state(SchedulerState::Refreshing, last) == SchedulerState::Waiting);
    assert(run_token(SchedulerState::Refreshing, tok0, last) == run_token(
        SchedulerState::Waiting,
        t,
        last.drop_first(),
    ));
    assert(run_token(SchedulerState::Refreshing, tok0, last) == t);
    assert(run_actions(SchedulerState::Refreshing, last, c) == seq![
        Action::Sleep(c.interval_ms),
    ] + run_actions(SchedulerState::Waiting, last.drop_first(), c));
    assert(run_actions(SchedulerState::Refreshing, last, c) =~= seq![
        Action::Sleep(c.interval_ms),
    ]);

    lemma_retry_segment_run(seg, tok0, c);

    lemma_run_state_append(SchedulerState::Waiting, first, seg);
    lemma_run_token_append(SchedulerState::Waiting, tok0, first, seg);
    lemma_run_actions_append(SchedulerState::Waiting, first, seg, c);
    lemma_run_state_append(SchedulerState::Waiting, first + seg, last);
    lemma_run_token_append(SchedulerState::Waiting, tok0, first + seg, last);
    lemma_run_actions_append(SchedulerState::Waiting, first + seg, last, c);

    assert(run_state(SchedulerState::Waiting, evs) == SchedulerState::Waiting);
    assert(run_token(SchedulerState::Waiting, tok0, evs) == t);

    let acts = run_actions(SchedulerState::Waiting, evs, c);
    assert(acts =~= seq![Action::Fetch] + retry_actions(n, c) + seq![
        Action::Sleep(c.interval_ms),
    ]);

    assert forall|k: int| 0 <= k < evs.len() implies run_token(
        SchedulerState::Waiting,
        tok0,
        #[trigger] evs.take(k),
    ) == tok0 by {
        if k == 0 {
            assert(evs.take(0) =~= Seq::<EventV>::empty());
        } else {
            assert(evs.take(k) =~= first + seg.take(k - 1));
            lemma_run_token_append(SchedulerState::Waiting, tok0, first, seg.take(k - 1));
            lemma_run_state_append(SchedulerState::Waiting, first, seg.take(k - 1));
        }
    }

    lemma_fetch_count_append(seq![Action::Fetch] + retry_actions(n, c), seq![
        Action::Sleep(c.interval_ms),
    ]);
    lemma_fetch_count_append(seq![Action::Fetch], retry_actions(n, c));
    lemma_fetch_count_retry_actions(n, c);
    assert(seq![Action::Fetch].drop_first() =~= Seq::<Action>::empty());
    assert(seq![Action::Sleep(c.interval_ms)].drop_first() =~= Seq::<Action>::empty());
    assert(fetch_count(Seq::<Action>::empty()) == 0);
    assert(fetch_count(seq![Action::Fetch]) == 1);
    assert(fetch_count(seq![Action::Sleep(c.interval_ms)]) == 0);
    assert(fetch_count(acts) == n + 1);
}

} // verus!
