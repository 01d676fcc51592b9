use vstd::prelude::*;

use dashmap::DashMap;
use futures::channel::mpsc::{UnboundedReceiver, UnboundedSender};

use crate::command::{option_models, Command, Term};
use crate::datum::{owned, lemma_member_models, member_models, Datum, Json};
use crate::frame::{query_text, query_wire};
use crate::protocol::QueryType;

verus! {

#[verifier::external_type_specification]
#[verifier::external_body]
#[verifier::reject_recursive_types(K)]
#[verifier::reject_recursive_types(V)]
#[verifier::reject_recursive_types(S)]
pub struct ExDashMap<K, V, S>(DashMap<K, V, S>);

#[verifier::external_type_specification]
#[verifier::external_body]
#[verifier::reject_recursive_types(T)]
pub struct ExUnboundedSender<T>(UnboundedSender<T>);

#[verifier::external_type_specification]
#[verifier::external_body]
#[verifier::reject_recursive_types(T)]
pub struct ExUnboundedReceiver<T>(UnboundedReceiver<T>);

/// The sending half of the channel that carries one query's response bodies.
pub type ReplySender = UnboundedSender<Vec<u8>>;

/// The receiving half of the channel that carries one query's response bodies.
pub type ReplyReceiver = UnboundedReceiver<Vec<u8>>;

/// Registry of the channels of the queries in flight, by token.
pub type Channels = DashMap<u64, ReplySender>;

/// The tokens that have a channel in the registry.
pub uninterp spec fn registered_tokens(m: Channels) -> Set<u64>;

/// Relies on `DashMap::new`: a map without entries.
#[verifier::external_body]
fn channels_new() -> (m: Channels)
    ensures
        registered_tokens(m) == Set::<u64>::empty(),
{
    DashMap::new()
}

/// Relies on `DashMap::insert`: afterwards `token` has an entry, and the
/// other keys are as they were.
#[verifier::external_body]
fn channels_insert(m: &mut Channels, token: u64, tx: ReplySender)
    ensures
        registered_tokens(*final(m)) == registered_tokens(*old(m)).insert(token),
{
    m.insert(token, tx);
}

/// Relies on `DashMap::remove`: afterwards `token` has no entry, and the
/// other keys are as they were.
#[verifier::external_body]
fn channels_remove(m: &mut Channels, token: u64)
    ensures
        registered_tokens(*final(m)) == registered_tokens(*old(m)).remove(token),
{
    m.remove(&token);
}

/// Relies on `DashMap::contains_key`: whether `token` has an entry.
#[verifier::external_body]
fn channels_contains(m: &Channels, token: u64) -> (b: bool)
    ensures
        b == registered_tokens(*m).contains(token),
{
    m.contains_key(&token)
}

/// Relies on `DashMap::clear`: afterwards the map has no entries. Dropping
/// the senders closes each channel, so that its receiver sees the end.
#[verifier::external_body]
fn channels_clear(m: &mut Channels)
    ensures
        registered_tokens(*final(m)) == Set::<u64>::empty(),
{
    m.clear();
}

/// Relies on `futures::channel::mpsc::unbounded`: a new channel.
#[verifier::external_body]
fn new_channel() -> (ReplySender, ReplyReceiver) {
    futures::channel::mpsc::unbounded()
}

/// Why a session refused to open a connection.
#[derive(Clone, Copy, Debug, PartialEq, Eq, Structural)]
pub enum DriverError {
    /// A transport error has occurred, or the tokens are exhausted.
    ConnectionBroken,
    /// A changefeed is open on the session.
    ConnectionLocked,
}

/// Mathematical model of a session.
pub struct SessionModel {
    pub db: Seq<char>,
    pub next_token: u64,
    pub broken: bool,
    /// Whether a changefeed is open, and under which token.
    pub change_feed: bool,
    pub feed_token: u64,
    pub live: Set<u64>,
}

/// The state shared by the queries on one server connection: the default
/// database, the next token, whether the session is broken, which changefeed
/// is open, and the registry of the queries in flight.
pub struct Session {
    db: String,
    next_token: u64,
    broken: bool,
    change_feed: bool,
    feed_token: u64,
    channels: Channels,
}

/// A handle on one query: its token, the receiving end of its channel, and
/// whether it was closed.
pub struct Connection {
    pub token: u64,
    pub rx: ReplyReceiver,
    pub closed: bool,
}

impl View for Session {
    type V = SessionModel;

    closed spec fn view(&self) -> SessionModel {
        SessionModel {
            db: self.db@,
            next_token: self.next_token,
            broken: self.broken,
            change_feed: self.change_feed,
            feed_token: self.feed_token,
            live: registered_tokens(self.channels),
        }
    }
}

/// A fresh session on the default database `db`.
pub open spec fn fresh_session(db: Seq<char>) -> SessionModel {
    SessionModel {
        db,
        next_token: 0,
        broken: false,
        change_feed: false,
        feed_token: 0,
        live: Set::empty(),
    }
}

/// What `connection()` does: refuse on a broken session, then on one with an
/// open changefeed; else hand out the next token and register it. Handing out
/// the last token breaks the session.
pub open spec fn connect_step(m: SessionModel) -> (SessionModel, Result<u64, DriverError>) {
    if m.broken {
        (m, Err(DriverError::ConnectionBroken))
    } else if m.change_feed {
        (m, Err(DriverError::ConnectionLocked))
    } else if m.next_token == u64::MAX {
        (SessionModel { broken: true, live: m.live.insert(m.next_token), ..m }, Ok(m.next_token))
    } else {
        (
            SessionModel {
                next_token: (m.next_token + 1) as u64,
                live: m.live.insert(m.next_token),
                ..m
            },
            Ok(m.next_token),
        )
    }
}

/// What a transport error does to a session: it is broken, and every channel
/// is closed.
pub open spec fn break_step(m: SessionModel) -> SessionModel {
    SessionModel { broken: true, live: Set::empty(), ..m }
}

/// Whether the changefeed of the session runs under `token`.
pub open spec fn is_feed(m: SessionModel, token: u64) -> bool {
    m.change_feed && m.feed_token == token
}

/// What dropping the connection of `token` does: its channel leaves the
/// registry, and if it held the changefeed, the changefeed mark is cleared.
pub open spec fn release_step(m: SessionModel, token: u64) -> SessionModel {
    SessionModel {
        change_feed: m.change_feed && m.feed_token != token,
        live: m.live.remove(token),
        ..m
    }
}

/// What opening a changefeed under `token` does to the session.
pub open spec fn mark_feed_step(m: SessionModel, token: u64) -> SessionModel {
    SessionModel { change_feed: true, feed_token: token, ..m }
}

/// What the outcome of a `Stop` sent for `token` does: once the server has
/// answered it, the changefeed of that token is no longer open; otherwise
/// nothing changes.
pub open spec fn stop_answered_step(m: SessionModel, token: u64, answered: bool) -> SessionModel {
    if answered && is_feed(m, token) {
        SessionModel { change_feed: false, ..m }
    } else {
        m
    }
}

/// The term sent with a `Stop` that does not wait for no-reply writes.
pub open spec fn no_wait_term() -> Term {
    Term::Literal(Json::Object(seq![("noreply"@, Json::Bool(false))]))
}

/// The body of a `Stop` query: with `{"noreply":false}` unless `noreply_wait`.
pub open spec fn stop_body(noreply_wait: bool) -> Seq<char> {
    query_wire(
        QueryType::Stop,
        if noreply_wait {
            None
        } else {
            Some(no_wait_term())
        },
        Seq::empty(),
    )
}

pub open spec fn token_result(res: Result<Connection, DriverError>) -> Result<u64, DriverError> {
    match res {
        Ok(c) => Ok(c.token),
        Err(e) => Err(e),
    }
}

/// The body of a `Stop` query (see `stop_body`).
fn stop_text(noreply_wait: bool) -> (res: String)
    ensures
        res@ == stop_body(noreply_wait),
{
    let none: Vec<(String, Command)> = Vec::new();
    proof {
        assert(option_models(none@) =~= Seq::<(Seq<char>, Term)>::empty());
    }
    if noreply_wait {
        query_text(QueryType::Stop, None, &none)
    } else {
        let members = vec![(owned("noreply"), Datum::Bool(false))];
        let arg = Command::from_json(Datum::Object(members));
        proof {
            lemma_member_models(members@);
            assert(member_models(members@) =~= seq![("noreply"@, Json::Bool(false))]);
        }
        query_text(QueryType::Stop, Some(&arg), &none)
    }
}

impl Connection {
    /// Closes this connection. Nothing is sent unless it holds the open
    /// changefeed; then the result is the body of the `Stop` query to send
    /// under its token, and the connection is closed. The changefeed mark is
    /// cleared once the server answers (see `Session::stop_answered`).
    pub fn close(&mut self, session: &Session, noreply_wait: bool) -> (stop: Option<String>)
        ensures
            is_feed(session@, old(self).token) ==> stop is Some && stop->Some_0@ == stop_body(
                noreply_wait,
            ) && final(self).closed,
            !is_feed(session@, old(self).token) ==> stop is None && final(self).closed == old(
                self,
            ).closed,
            final(self).token == old(self).token,
    {
        if !session.holds_feed(self.token) {
            return None;
        }
        self.closed = true;
        Some(stop_text(noreply_wait))
    }
}

impl Session {
    /// A session on the default database `db`, with no query in flight.
    pub fn new(db: &str) -> (res: Session)
        ensures
            res@ == fresh_session(db@),
    {
        Session {
            db: owned(db),
            next_token: 0,
            broken: false,
            change_feed: false,
            feed_token: 0,
            channels: channels_new(),
        }
    }

    /// Opens a connection for one query: see `connect_step`. The new
    /// connection is not closed.
    pub fn connection(&mut self) -> (res: Result<Connection, DriverError>)
        ensures
            (final(self)@, token_result(res)) == connect_step(old(self)@),
            res is Ok ==> !res->Ok_0.closed,
    {
        if self.broken {
            return Err(DriverError::ConnectionBroken);
        }
        if self.change_feed {
            return Err(DriverError::ConnectionLocked);
        }
        let token = self.next_token;
        if token == u64::MAX {
            self.broken = true;
        } else {
            self.next_token = token + 1;
        }
        let (tx, rx) = new_channel();
        channels_insert(&mut self.channels, token, tx);
        Ok(Connection { token, rx, closed: false })
    }

    /// Records a transport error: the session is broken for good, and the
    /// channels of the queries in flight are closed.
    pub fn mark_broken(&mut self)
        ensures
            final(self)@ == break_step(old(self)@),
    {
        self.broken = true;
        channels_clear(&mut self.channels);
    }

    /// Forgets the connection of `token` (it was dropped). When its query is
    /// still open on the server (`open`), or it holds the open changefeed,
    /// the result is the body of the `Stop` to send, best effort, under
    /// `token`.
    pub fn release(&mut self, token: u64, open: bool) -> (stop: Option<String>)
        ensures
            final(self)@ == release_step(old(self)@, token),
            (open || is_feed(old(self)@, token)) ==> stop is Some && stop->Some_0@ == stop_body(
                true,
            ),
            !(open || is_feed(old(self)@, token)) ==> stop is None,
    {
        let feed = self.holds_feed(token);
        channels_remove(&mut self.channels, token);
        if feed {
            self.change_feed = false;
        }
        if open || feed {
            Some(stop_text(true))
        } else {
            None
        }
    }

    /// Records that the changefeed of the query under `token` is open.
    pub fn mark_change_feed(&mut self, token: u64)
        ensures
            final(self)@ == mark_feed_step(old(self)@, token),
    {
        self.change_feed = true;
        self.feed_token = token;
    }

    /// Records the outcome of a `Stop` sent for `token`: see
    /// `stop_answered_step`.
    pub fn stop_answered(&mut self, token: u64, answered: bool)
        ensures
            final(self)@ == stop_answered_step(old(self)@, token, answered),
    {
        if answered && self.holds_feed(token) {
            self.change_feed = false;
        }
    }

    /// The token of the open changefeed and the body of the `Stop` that
    /// cancels it, when one is open (closing a session cancels it).
    pub fn close_feed(&self, noreply_wait: bool) -> (res: Option<(u64, String)>)
        ensures
            self@.change_feed ==> res is Some && res->Some_0.0 == self@.feed_token
                && res->Some_0.1@ == stop_body(noreply_wait),
            !self@.change_feed ==> res is None,
    {
        if self.change_feed {
            Some((self.feed_token, stop_text(noreply_wait)))
        } else {
            None
        }
    }

    /// Whether the open changefeed runs under `token`.
    pub fn holds_feed(&self, token: u64) -> (res: bool)
        ensures
            res == is_feed(self@, token),
    {
        self.change_feed && self.feed_token == token
    }

    /// Changes the default database.
    pub fn use_(&mut self, db_name: &str)
        ensures
            final(self)@ == (SessionModel { db: db_name@, ..old(self)@ }),
    {
        self.db = owned(db_name);
    }

    /// The default database.
    pub fn db(&self) -> (res: &str)
        ensures
            res@ == self@.db,
    {
        self.db.as_str()
    }

    /// Whether a transport error has occurred.
    pub fn is_broken(&self) -> (res: bool)
        ensures
            res == self@.broken,
    {
        self.broken
    }

    /// Whether a changefeed is open.
    pub fn is_change_feed(&self) -> (res: bool)
        ensures
            res == self@.change_feed,
    {
        self.change_feed
    }

    /// Whether a response for `token` has a query waiting for it; a response
    /// for any other token is stale and is dropped.
    pub fn accepts(&self, token: u64) -> (res: bool)
        ensures
            res == self@.live.contains(token),
    {
        channels_contains(&self.channels, token)
    }

    /// The registry, for the reader that delivers response bodies. It is
    /// only to be read: entries come and go through `connection`, `release`
    /// and `mark_broken`.
    pub fn channels(&self) -> (res: &Channels)
        ensures
            registered_tokens(*res) == self@.live,
    {
        &self.channels
    }
}

} // verus!
