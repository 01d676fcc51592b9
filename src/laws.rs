use vstd::prelude::*;

use crate::cursor::{
    batch_values, close_action, closed_state, run_cursor, Action, CursorState,
};
use crate::frame::{frame_bytes, le_bytes, le_value, pow256};
use crate::protocol::ResponseType;
use crate::session::{
    break_step, connect_step, is_feed, mark_feed_step, release_step, stop_answered_step, DriverError,
    SessionModel,
};

verus! {

/// Something that happens to a session: a call of `connection()`, the drop
/// of the connection of a token, the opening of a changefeed under a token,
/// or the outcome of a `Stop` sent for a token.
pub enum SessionEvent {
    Connect,
    Release(u64),
    MarkFeed(u64),
    StopAnswered(u64, bool),
}

/// The session after `e`, and the result when `e` is a `connection()` call.
pub open spec fn event_step(m: SessionModel, e: SessionEvent) -> (
    SessionModel,
    Option<Result<u64, DriverError>>,
) {
    match e {
        SessionEvent::Connect => (connect_step(m).0, Some(connect_step(m).1)),
        SessionEvent::Release(t) => (release_step(m, t), None),
        SessionEvent::MarkFeed(t) => (mark_feed_step(m, t), None),
        SessionEvent::StopAnswered(t, ok) => (stop_answered_step(m, t, ok), None),
    }
}

/// The session and the results, one per event, after the events `evs` from `s`.
pub open spec fn session_run(s: SessionModel, evs: Seq<SessionEvent>) -> (
    SessionModel,
    Seq<Option<Result<u64, DriverError>>>,
)
    decreases evs.len(),
{
    if evs.len() == 0 {
        (s, Seq::empty())
    } else {
        let (s1, rs) = session_run(s, evs.subrange(0, evs.len() - 1));
        let (s2, res) = event_step(s1, evs[evs.len() - 1]);
        (s2, rs.push(res))
    }
}

/// Whether the `i`-th result is a token handed out.
pub open spec fn issued(rs: Seq<Option<Result<u64, DriverError>>>, i: int) -> bool {
    rs[i] is Some && rs[i]->Some_0 is Ok
}

pub open spec fn token_at(rs: Seq<Option<Result<u64, DriverError>>>, i: int) -> u64 {
    rs[i]->Some_0->Ok_0
}

proof fn lemma_issued_below_next(s: SessionModel, evs: Seq<SessionEvent>)
    ensures
        session_run(s, evs).1.len() == evs.len(),
        s.broken ==> session_run(s, evs).0.broken,
        !session_run(s, evs).0.broken ==> forall|i: int|
            0 <= i < evs.len() && #[trigger] issued(session_run(s, evs).1, i) ==> token_at(
                session_run(s, evs).1,
                i,
            ) < session_run(s, evs).0.next_token,
        session_run(s, evs).0.broken ==> s.broken || exists|i: int|
            0 <= i < evs.len() && #[trigger] issued(session_run(s, evs).1, i),
    decreases evs.len(),
{
    if evs.len() > 0 {
        let front = evs.subrange(0, evs.len() - 1);
        lemma_issued_below_next(s, front);
        let (s1, rs) = session_run(s, front);
        let (s2, res) = event_step(s1, evs[evs.len() - 1]);
        let all = rs.push(res);
        assert(session_run(s, evs).1 == all);
        assert forall|i: int| 0 <= i < front.len() implies #[trigger] issued(all, i) == issued(
            rs,
            i,
        ) && token_at(all, i) == token_at(rs, i) by {
            assert(all[i] == rs[i]);
        }
        if s1.broken && !s.broken {
            let i = choose|i: int| 0 <= i < front.len() && #[trigger] issued(rs, i);
            assert(issued(all, i));
        }
        if s2.broken && !s.broken && !s1.broken {
            assert(issued(all, evs.len() - 1));
        }
    }
}

/// Tokens are strictly increasing: along any sequence of `connection()` calls
/// on one session, interleaved with drops of connections, openings of
/// changefeeds and outcomes of `Stop`s, each token handed out is greater than
/// every one before it, so that none is handed out twice.
pub proof fn law_tokens_strictly_increase(s: SessionModel, evs: Seq<SessionEvent>)
    ensures
        forall|i: int, j: int|
            0 <= i < j < evs.len() && #[trigger] issued(session_run(s, evs).1, i) && #[trigger] issued(
                session_run(s, evs).1,
                j,
            ) ==> token_at(session_run(s, evs).1, i) < token_at(session_run(s, evs).1, j),
    decreases evs.len(),
{
    lemma_issued_below_next(s, evs);
    if evs.len() > 0 {
        let front = evs.subrange(0, evs.len() - 1);
        law_tokens_strictly_increase(s, front);
        lemma_issued_below_next(s, front);
        let (s1, rs) = session_run(s, front);
        let all = session_run(s, evs).1;
        assert(all == rs.push(event_step(s1, evs[evs.len() - 1]).1));
        assert forall|i: int, j: int|
            0 <= i < j < evs.len() && #[trigger] issued(all, i) && #[trigger] issued(all, j) implies token_at(
                all,
                i,
            ) < token_at(all, j) by {
            assert(all[i] == rs[i]);
            assert(issued(rs, i));
            if j < evs.len() - 1 {
                assert(all[j] == rs[j]);
                assert(issued(rs, j));
            } else {
                assert(!s1.broken);
                assert(token_at(all, j) == s1.next_token);
            }
        }
    }
}

/// Fail fast on a broken session: whatever happens to it, every later
/// `connection()` call is refused with `ConnectionBroken`, and the session
/// stays broken.
pub proof fn law_broken_session_refuses(s: SessionModel, evs: Seq<SessionEvent>)
    requires
        s.broken,
    ensures
        session_run(s, evs).0.broken,
        session_run(s, evs).0.next_token == s.next_token,
        session_run(s, evs).1.len() == evs.len(),
        forall|i: int|
            0 <= i < evs.len() && (#[trigger] session_run(s, evs).1[i]) is Some ==> session_run(
                s,
                evs,
            ).1[i] == Some(Err::<u64, DriverError>(DriverError::ConnectionBroken)),
    decreases evs.len(),
{
    if evs.len() > 0 {
        let front = evs.subrange(0, evs.len() - 1);
        law_broken_session_refuses(s, front);
        let rs = session_run(s, front).1;
        let all = session_run(s, evs).1;
        assert forall|i: int| 0 <= i < evs.len() && (#[trigger] all[i]) is Some implies all[i]
            == Some(Err::<u64, DriverError>(DriverError::ConnectionBroken)) by {
            if i < evs.len() - 1 {
                assert(all[i] == rs[i]);
            }
        }
    }
}

/// After a transport error, whatever happens next, every `connection()` call
/// is refused with `ConnectionBroken`.
pub proof fn law_transport_error_refuses(s: SessionModel, evs: Seq<SessionEvent>)
    ensures
        break_step(s).live == Set::<u64>::empty(),
        forall|i: int|
            0 <= i < evs.len() && (#[trigger] session_run(break_step(s), evs).1[i]) is Some
                ==> session_run(break_step(s), evs).1[i] == Some(
                Err::<u64, DriverError>(DriverError::ConnectionBroken),
            ),
{
    law_broken_session_refuses(break_step(s), evs);
}

/// Cancellation at the session: once the connection holding the open
/// changefeed is dropped, its token is no longer registered, so no response
/// for it is delivered any more, and the session is free for new queries.
pub proof fn law_dropped_feed_is_silenced(m: SessionModel, token: u64)
    requires
        is_feed(m, token),
    ensures
        !release_step(m, token).live.contains(token),
        !release_step(m, token).change_feed,
{
}

/// Order within a query: when every response but the last is a partial batch
/// and the last completes the sequence, the cursor hands on exactly the
/// values of the batches, batch after batch and each in its order, and is
/// then done.
pub proof fn law_batches_in_order<T>(rs: Seq<(ResponseType, Seq<T>)>)
    requires
        rs.len() > 0,
        forall|i: int| 0 <= i < rs.len() - 1 ==> (#[trigger] rs[i]).0 is SuccessPartial,
        !(rs[rs.len() - 1].0 is SuccessPartial),
        !rs[rs.len() - 1].0.is_error(),
    ensures
        run_cursor(CursorState::Open, rs) == (CursorState::Done, batch_values(rs)),
{
    lemma_partial_batches(rs.subrange(0, rs.len() - 1));
    assert(rs.subrange(0, rs.len() - 1).len() == rs.len() - 1);
}

proof fn lemma_partial_batches<T>(rs: Seq<(ResponseType, Seq<T>)>)
    requires
        forall|i: int| 0 <= i < rs.len() ==> (#[trigger] rs[i]).0 is SuccessPartial,
    ensures
        run_cursor(CursorState::Open, rs) == (CursorState::Open, batch_values(rs)),
    decreases rs.len(),
{
    if rs.len() > 0 {
        let front = rs.subrange(0, rs.len() - 1);
        assert forall|i: int| 0 <= i < front.len() implies (#[trigger] front[i]).0 is SuccessPartial by {
            assert(front[i] == rs[i]);
        }
        lemma_partial_batches(front);
    }
}

/// Cancellation: closing an open cursor sends `Stop`, and afterwards no
/// response hands on any value, whatever the server still sends.
pub proof fn law_cancelled_cursor_is_silent<T>(rs: Seq<(ResponseType, Seq<T>)>)
    ensures
        close_action(CursorState::Open) == Action::SendStop,
        run_cursor(closed_state(CursorState::Open), rs) == (
            CursorState::Stopped,
            Seq::<T>::empty(),
        ),
    decreases rs.len(),
{
    if rs.len() > 0 {
        law_cancelled_cursor_is_silent(rs.subrange(0, rs.len() - 1));
        assert(Seq::<T>::empty() + Seq::<T>::empty() =~= Seq::<T>::empty());
    }
}

proof fn lemma_le_round_trip(n: nat, k: nat)
    requires
        n < pow256(k),
    ensures
        le_bytes(n, k).len() == k,
        le_value(le_bytes(n, k)) == n,
    decreases k,
{
    if k > 0 {
        let p = pow256((k - 1) as nat);
        assert(n / 256 < p) by (nonlinear_arith)
            requires
                n < 256 * p,
        ;
        lemma_le_round_trip(n / 256, (k - 1) as nat);
        let s = le_bytes(n, k);
        assert(s.subrange(1, s.len() as int) =~= le_bytes(n / 256, (k - 1) as nat));
        assert(n == n % 256 + 256 * (n / 256)) by (nonlinear_arith);
    }
}

/// Framing round trip: the header of the frame built for `token` and `body`
/// reads back as that token and the length of that body.
pub proof fn law_frame_header_round_trip(token: u64, body: Seq<u8>)
    requires
        body.len() <= u32::MAX,
    ensures
        frame_bytes(token, body).len() == 12 + body.len(),
        le_value(frame_bytes(token, body).subrange(0, 8)) == token,
        le_value(frame_bytes(token, body).subrange(8, 12)) == body.len(),
        frame_bytes(token, body).subrange(12, 12 + body.len() as int) == body,
{
    reveal_with_fuel(pow256, 9);
    assert(pow256(8) == 0x1_0000_0000_0000_0000);
    assert(pow256(4) == 0x1_0000_0000);
    lemma_le_round_trip(token as nat, 8);
    lemma_le_round_trip(body.len(), 4);
    let f = frame_bytes(token, body);
    assert(f.subrange(0, 8) =~= le_bytes(token as nat, 8));
    assert(f.subrange(8, 12) =~= le_bytes(body.len(), 4));
    assert(f.subrange(12, 12 + body.len() as int) =~= body);
}

} // verus!
