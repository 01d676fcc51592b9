use vstd::prelude::*;

use crate::protocol::{ErrorType, ResponseType};

verus! {

/// Where the stream of one query stands.
#[derive(Clone, Copy, Debug, PartialEq, Eq, Structural)]
pub enum CursorState {
    /// Waiting for a (first or next) batch.
    Open,
    /// The sequence is complete.
    Done,
    /// The server reported an error.
    Failed,
    /// The consumer cancelled the query.
    Stopped,
}

/// What the driver must send to the server for this query.
#[derive(Clone, Copy, Debug, PartialEq, Eq, Structural)]
pub enum Action {
    Nothing,
    /// Ask for the next batch.
    SendContinue,
    /// Cancel the query.
    SendStop,
}

/// An error that the server reported for one query.
#[derive(Clone, Copy, Debug, PartialEq, Eq, Structural)]
pub enum QueryError {
    Client,
    Compile,
    /// A runtime error, with its class when the server named a known one.
    Runtime(Option<ErrorType>),
}

/// What one response makes the cursor do: the values to hand to the
/// consumer, in order, what to send, and the error to report.
pub struct Step<T> {
    pub items: Vec<T>,
    pub action: Action,
    pub error: Option<QueryError>,
}

/// The stream decoder of one query.
pub struct Cursor {
    pub state: CursorState,
}

/// The state after a response of kind `kind` arrives in state `s`.
pub open spec fn next_state(s: CursorState, kind: ResponseType) -> CursorState {
    if !(s is Open) {
        s
    } else if kind is SuccessPartial {
        CursorState::Open
    } else if kind.is_error() {
        CursorState::Failed
    } else {
        CursorState::Done
    }
}

/// The values handed on when a response of kind `kind` carrying `items`
/// arrives in state `s`: all of them, in order, while the cursor is open and
/// the response is not an error; none otherwise.
pub open spec fn yields<T>(s: CursorState, kind: ResponseType, items: Seq<T>) -> Seq<T> {
    if s is Open && !kind.is_error() {
        items
    } else {
        Seq::empty()
    }
}

/// What to send after a response: `Continue` after a partial batch.
pub open spec fn action_after(s: CursorState, kind: ResponseType) -> Action {
    if s is Open && kind is SuccessPartial {
        Action::SendContinue
    } else {
        Action::Nothing
    }
}

/// The error reported for a response, if it is an error and the cursor is open.
pub open spec fn error_after(s: CursorState, kind: ResponseType, class: Option<ErrorType>) -> Option<
    QueryError,
> {
    if !(s is Open) {
        None
    } else {
        match kind {
            ResponseType::ClientError => Some(QueryError::Client),
            ResponseType::CompileError => Some(QueryError::Compile),
            ResponseType::RuntimeError => Some(QueryError::Runtime(class)),
            _ => None,
        }
    }
}

/// The state after the consumer closes (or drops) the cursor.
pub open spec fn closed_state(s: CursorState) -> CursorState {
    if s is Open {
        CursorState::Stopped
    } else {
        s
    }
}

/// What to send when the consumer closes (or drops) the cursor: `Stop` while
/// the query is still open on the server.
pub open spec fn close_action(s: CursorState) -> Action {
    if s is Open {
        Action::SendStop
    } else {
        Action::Nothing
    }
}

impl Cursor {
    /// A cursor waiting for the first batch.
    pub fn new() -> (res: Cursor)
        ensures
            res.state == CursorState::Open,
    {
        Cursor { state: CursorState::Open }
    }

    /// Whether the consumer may still receive values.
    pub fn is_open(&self) -> (res: bool)
        ensures
            res == (self.state is Open),
    {
        match self.state {
            CursorState::Open => true,
            _ => false,
        }
    }

    /// Takes in one response of the query: its kind, the values it carries,
    /// and the error class it names, if any.
    pub fn on_response<T>(&mut self, kind: ResponseType, items: Vec<T>, class: Option<ErrorType>) -> (step: Step<T>)
        ensures
            final(self).state == next_state(old(self).state, kind),
            step.items@ == yields(old(self).state, kind, items@),
            step.action == action_after(old(self).state, kind),
            step.error == error_after(old(self).state, kind, class),
    {
        match self.state {
            CursorState::Open => {},
            _ => {
                return Step { items: Vec::new(), action: Action::Nothing, error: None };
            },
        }
        match kind {
            ResponseType::SuccessPartial => Step {
                items,
                action: Action::SendContinue,
                error: None,
            },
            ResponseType::ClientError => {
                self.state = CursorState::Failed;
                Step { items: Vec::new(), action: Action::Nothing, error: Some(QueryError::Client) }
            },
            ResponseType::CompileError => {
                self.state = CursorState::Failed;
                Step { items: Vec::new(), action: Action::Nothing, error: Some(QueryError::Compile) }
            },
            ResponseType::RuntimeError => {
                self.state = CursorState::Failed;
                Step {
                    items: Vec::new(),
                    action: Action::Nothing,
                    error: Some(QueryError::Runtime(class)),
                }
            },
            _ => {
                self.state = CursorState::Done;
                Step { items, action: Action::Nothing, error: None }
            },
        }
    }

    /// Takes in the responses `rs`, in order (see `on_response`), and returns
    /// every value handed on, in order.
    pub fn on_responses<T>(&mut self, rs: Vec<(ResponseType, Vec<T>)>) -> (out: Vec<T>)
        ensures
            (final(self).state, out@) == run_cursor(old(self).state, responses_model(rs@)),
    {
        let ghost all = responses_model(rs@);
        let ghost start = self.state;
        let mut rest = rs;
        let mut out: Vec<T> = Vec::new();
        let ghost mut i: int = 0;
        proof {
            assert(all.subrange(0, 0) =~= Seq::<(ResponseType, Seq<T>)>::empty());
            assert(responses_model(rest@) =~= all.subrange(0, all.len() as int));
        }
        while rest.len() > 0
            invariant
                0 <= i <= all.len(),
                rest@.len() == all.len() - i,
                responses_model(rest@) =~= all.subrange(i, all.len() as int),
                (self.state, out@) == run_cursor(start, all.subrange(0, i)),
            decreases rest.len(),
        {
            let ghost before = rest@;
            let (kind, items) = rest.remove(0);
            proof {
                assert(responses_model(before)[0] == (kind, items@));
                assert(all[i] == responses_model(before)[0]);
                assert forall|k: int| 0 <= k < rest@.len() implies #[trigger] responses_model(
                    rest@,
                )[k] == all.subrange(i + 1, all.len() as int)[k] by {
                    assert(rest@[k] == before[k + 1]);
                    assert(responses_model(before)[k + 1] == all.subrange(i, all.len() as int)[k
                        + 1]);
                }
                assert(responses_model(rest@) =~= all.subrange(i + 1, all.len() as int));
                let t = all.subrange(0, i + 1);
                assert(t.subrange(0, t.len() - 1) =~= all.subrange(0, i));
            }
            let mut step = self.on_response(kind, items, None);
            out.append(&mut step.items);
            proof {
                i = i + 1;
            }
        }
        proof {
            assert(all.subrange(0, i) =~= all);
        }
        out
    }

    /// The consumer closes (or drops) the cursor.
    pub fn close(&mut self) -> (action: Action)
        ensures
            final(self).state == closed_state(old(self).state),
            action == close_action(old(self).state),
    {
        match self.state {
            CursorState::Open => {
                self.state = CursorState::Stopped;
                Action::SendStop
            },
            _ => Action::Nothing,
        }
    }
}

/// The state and the values handed on after the responses `rs` (kind and
/// values of each), from state `s`.
pub open spec fn run_cursor<T>(s: CursorState, rs: Seq<(ResponseType, Seq<T>)>) -> (
    CursorState,
    Seq<T>,
)
    decreases rs.len(),
{
    if rs.len() == 0 {
        (s, Seq::empty())
    } else {
        let (s1, out) = run_cursor(s, rs.subrange(0, rs.len() - 1));
        let last = rs[rs.len() - 1];
        (next_state(s1, last.0), out + yields(s1, last.0, last.1))
    }
}

/// The kind and values of each response of `rs`.
pub open spec fn responses_model<T>(rs: Seq<(ResponseType, Vec<T>)>) -> Seq<(ResponseType, Seq<T>)> {
    Seq::new(rs.len(), |i: int| (rs[i].0, rs[i].1@))
}

/// The values of the batches `rs`, one batch after another.
pub open spec fn batch_values<T>(rs: Seq<(ResponseType, Seq<T>)>) -> Seq<T>
    decreases rs.len(),
{
    if rs.len() == 0 {
        Seq::empty()
    } else {
        batch_values(rs.subrange(0, rs.len() - 1)) + rs[rs.len() - 1].1
    }
}

} // verus!
