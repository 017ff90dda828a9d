//! What holds of every authenticated call, over the step function of
//! `client`.
use vstd::prelude::*;
use crate::client::{
    call_request, in_phase, initial, next, refresh_request, run, unauthorized, ActionView,
    CallView, EventView, Phase, TargetView,
};
use crate::credentials::{with_tokens, CredentialView, TokensView};
use crate::error::ErrorView;
use crate::http::{is_success, ReplyView, NETWORK_AUTHENTICATION_REQUIRED, UNAUTHORIZED};

verus! {

/// Running a call on one event followed by others.
pub proof fn lemma_run_cons(s: CallView, e: EventView, rest: Seq<EventView>)
    ensures
        run(s, seq![e] + rest) == (
            run(next(s, e).0, rest).0,
            seq![next(s, e).1] + run(next(s, e).0, rest).1,
        ),
{
    let events = seq![e] + rest;
    assert(events[0] == e);
    assert(events.drop_first() =~= rest);
}

/// A call that is over asks for nothing more than to report an end.
pub proof fn lemma_done_is_quiet(s: CallView, events: Seq<EventView>)
    requires
        s.phase == Phase::Done,
    ensures
        forall|i: int| 0 <= i < run(s, events).1.len() ==> run(s, events).1[i] is Finish,
    decreases events.len(),
{
    if events.len() > 0 {
        let step = next(s, events[0]);
        lemma_done_is_quiet(step.0, events.drop_first());
        let rest = run(step.0, events.drop_first()).1;
        assert forall|i: int| 0 <= i < run(s, events).1.len() implies run(s, events).1[i] is Finish by {
            if i > 0 {
                assert(run(s, events).1[i] == rest[i - 1]);
            }
        }
    }
}

pub open spec fn received(status: u16, body: Seq<char>) -> EventView {
    EventView::Response(ReplyView::Received { status, body })
}

/// With stored credentials and a 2xx answer, the call ends at once with the
/// body exactly as the server sent it, for the caller to decode.
pub proof fn success_returns_body(t: TargetView, c: CredentialView, status: u16, body: Seq<char>)
    requires
        is_success(status),
    ensures
        run(initial(t, c), seq![received(status, body)]) == (
            in_phase(initial(t, c), Phase::Done),
            seq![ActionView::Finish(Ok(body))],
        ),
{
    lemma_run_cons(initial(t, c), received(status, body), Seq::empty());
    assert(seq![received(status, body)] + Seq::<EventView>::empty() =~= seq![received(status, body)]);
    assert(seq![ActionView::Finish(Ok(body))] + Seq::<ActionView>::empty() =~= seq![
        ActionView::Finish(Ok(body)),
    ]);
}

/// When the server asks once for a refresh and then succeeds, the call asks
/// to store the record with the new pair, replays the original call with the
/// new access token, and ends with the replayed call's body.
pub proof fn refresh_once_then_success(
    t: TargetView,
    c: CredentialView,
    first: Seq<char>,
    refresh_status: u16,
    refresh_body: Seq<char>,
    tokens: TokensView,
    final_status: u16,
    final_body: Seq<char>,
)
    requires
        is_success(refresh_status),
        is_success(final_status),
    ensures
        run(
            initial(t, c),
            seq![
                received(NETWORK_AUTHENTICATION_REQUIRED, first),
                received(refresh_status, refresh_body),
                EventView::Tokens(Ok(tokens)),
                EventView::Stored(Ok(())),
                received(final_status, final_body),
            ],
        ).1 == seq![
            ActionView::Send(refresh_request(c)),
            ActionView::DecodeTokens(refresh_body),
            ActionView::Store(with_tokens(c, tokens)),
            ActionView::Send(call_request(t, with_tokens(c, tokens))),
            ActionView::Finish(Ok(final_body)),
        ],
        with_tokens(c, tokens).access_token == tokens.access_token,
        with_tokens(c, tokens).refresh_token == tokens.refresh_token,
        with_tokens(c, tokens).username == c.username,
        with_tokens(c, tokens).server_ip == c.server_ip,
{
    let e0 = received(NETWORK_AUTHENTICATION_REQUIRED, first);
    let e1 = received(refresh_status, refresh_body);
    let e2 = EventView::Tokens(Ok(tokens));
    let e3 = EventView::Stored(Ok(()));
    let e4 = received(final_status, final_body);
    let s0 = initial(t, c);
    let s1 = next(s0, e0).0;
    let s2 = next(s1, e1).0;
    let s3 = next(s2, e2).0;
    let s4 = next(s3, e3).0;
    let s5 = next(s4, e4).0;
    let empty = Seq::<EventView>::empty();
    lemma_run_cons(s4, e4, empty);
    lemma_run_cons(s3, e3, seq![e4]);
    lemma_run_cons(s2, e2, seq![e3, e4]);
    lemma_run_cons(s1, e1, seq![e2, e3, e4]);
    lemma_run_cons(s0, e0, seq![e1, e2, e3, e4]);
    assert(seq![e4] + empty =~= seq![e4]);
    assert(seq![e3] + seq![e4] =~= seq![e3, e4]);
    assert(seq![e2] + seq![e3, e4] =~= seq![e2, e3, e4]);
    assert(seq![e1] + seq![e2, e3, e4] =~= seq![e1, e2, e3, e4]);
    assert(seq![e0] + seq![e1, e2, e3, e4] =~= seq![e0, e1, e2, e3, e4]);
    assert(run(
        s0,
        seq![e0, e1, e2, e3, e4],
    ).1 =~= seq![next(s0, e0).1, next(s1, e1).1, next(s2, e2).1, next(s3, e3).1, next(s4, e4).1]);
}

/// When the refresh request itself is answered with the re-authenticate
/// status, the call ends with `LoginExpired` and never asks to store a
/// record, whatever comes after.
pub proof fn expired_refresh_keeps_credentials(
    t: TargetView,
    c: CredentialView,
    first: Seq<char>,
    second: Seq<char>,
    later: Seq<EventView>,
)
    ensures
        ({
            let actions = run(
                initial(t, c),
                seq![
                    received(NETWORK_AUTHENTICATION_REQUIRED, first),
                    received(NETWORK_AUTHENTICATION_REQUIRED, second),
                ] + later,
            ).1;
            &&& actions[0] == ActionView::Send(refresh_request(c))
            &&& actions[1] == ActionView::Finish(Err(ErrorView::LoginExpired))
            &&& forall|i: int| 0 <= i < actions.len() ==> !(actions[i] is Store)
        }),
{
    let e0 = received(NETWORK_AUTHENTICATION_REQUIRED, first);
    let e1 = received(NETWORK_AUTHENTICATION_REQUIRED, second);
    let s0 = initial(t, c);
    let s1 = next(s0, e0).0;
    let s2 = next(s1, e1).0;
    lemma_run_cons(s1, e1, later);
    lemma_run_cons(s0, e0, seq![e1] + later);
    assert(seq![e0, e1] + later =~= seq![e0] + (seq![e1] + later));
    lemma_done_is_quiet(s2, later);
    let actions = run(s0, seq![e0, e1] + later).1;
    let tail = run(s2, later).1;
    assert forall|i: int| 0 <= i < actions.len() implies !(actions[i] is Store) by {
        if i >= 2 {
            assert(actions[i] == tail[i - 2]);
        }
    }
}

/// A token rejected outright (401) ends the call with `Server("Unauthorized")`:
/// no refresh request, and no request at all, follows.
pub proof fn rejected_token_is_not_refreshed(
    t: TargetView,
    c: CredentialView,
    body: Seq<char>,
    later: Seq<EventView>,
)
    ensures
        ({
            let actions = run(initial(t, c), seq![received(UNAUTHORIZED, body)] + later).1;
            &&& actions[0] == ActionView::Finish(Err(unauthorized()))
            &&& forall|i: int| 0 <= i < actions.len() ==> !(actions[i] is Send)
        }),
{
    let e0 = received(UNAUTHORIZED, body);
    let s0 = initial(t, c);
    let s1 = next(s0, e0).0;
    lemma_run_cons(s0, e0, later);
    lemma_done_is_quiet(s1, later);
    let actions = run(s0, seq![e0] + later).1;
    let tail = run(s1, later).1;
    assert forall|i: int| 0 <= i < actions.len() implies !(actions[i] is Send) by {
        if i >= 1 {
            assert(actions[i] == tail[i - 1]);
        }
    }
}

/// Two calls with the same target and record, each answered with a 2xx and
/// the same body, end alike: each after its one request, with that body, and
/// neither asks for a refresh.
pub proof fn repeated_success_is_identical(
    t: TargetView,
    c: CredentialView,
    status1: u16,
    status2: u16,
    body: Seq<char>,
)
    requires
        is_success(status1),
        is_success(status2),
    ensures
        run(initial(t, c), seq![received(status1, body)]) == run(
            initial(t, c),
            seq![received(status2, body)],
        ),
        run(initial(t, c), seq![received(status1, body)]).1 == seq![ActionView::Finish(Ok(body))],
{
    success_returns_body(t, c, status1, body);
    success_returns_body(t, c, status2, body);
}

/// How many times a run moves from the original request to a refresh.
pub open spec fn refresh_count(s: CallView, events: Seq<EventView>) -> nat
    decreases events.len(),
{
    if events.len() == 0 {
        0
    } else {
        let s1 = next(s, events[0]).0;
        (if s.phase == Phase::Initial && s1.phase == Phase::Refreshing {
            1nat
        } else {
            0nat
        }) + refresh_count(s1, events.drop_first())
    }
}

/// No step leads back to the original request's phase.
pub proof fn lemma_never_back_to_initial(s: CallView, e: EventView)
    ensures
        next(s, e).0.phase != Phase::Initial,
{
}

pub proof fn lemma_no_refresh_after_initial(s: CallView, events: Seq<EventView>)
    requires
        s.phase != Phase::Initial,
    ensures
        refresh_count(s, events) == 0,
    decreases events.len(),
{
    if events.len() > 0 {
        lemma_never_back_to_initial(s, events[0]);
        lemma_no_refresh_after_initial(next(s, events[0]).0, events.drop_first());
    }
}

/// Whatever the server and the store answer, a call refreshes its token at
/// most once.
pub proof fn refresh_at_most_once(t: TargetView, c: CredentialView, events: Seq<EventView>)
    ensures
        refresh_count(initial(t, c), events) <= 1,
{
    if events.len() > 0 {
        let s1 = next(initial(t, c), events[0]).0;
        lemma_never_back_to_initial(initial(t, c), events[0]);
        lemma_no_refresh_after_initial(s1, events.drop_first());
    }
}

} // verus!
