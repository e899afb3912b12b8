//! The live notification connection: who is let in, what an error looks
//! like on the wire, and what a connection does with each thing that
//! happens to it.

use crate::auth::jwt::{Claims, JwtError};
use crate::ident::{parsed_uuid, UserId};
use vstd::prelude::*;
use vstd::string::*;

verus! {

/// Seconds between two keep-alive pulses on a live connection.
pub const HEARTBEAT_SECONDS: u64 = 30;

/// How many outgoing messages a connection holds before the sender waits.
pub const OUTBOX_CAPACITY: usize = 100;

/// Query parameters of a connection request.
#[derive(Debug, PartialEq, Eq)]
pub struct WebSocketParams {
    pub token: Option<String>,
}

impl WebSocketParams {
    /// The token to check: the one given, or the empty text.
    pub fn token_or_empty(self) -> (r: String)
        ensures
            r@ == match self.token {
                Some(t) => t@,
                None => Seq::<char>::empty(),
            },
    {
        match self.token {
            Some(t) => t,
            None => String::new(),
        }
    }
}

/// The error payload for a message.
pub open spec fn error_text(message: Seq<char>) -> Seq<char> {
    "{\"error\": \""@ + message + "\"}"@
}

/// Spells the payload that tells a client why it is turned away.
pub fn error_payload(message: &str) -> (r: String)
    ensures
        r@ == error_text(message@),
{
    let mut out = String::from_str("{\"error\": \"");
    out.append(message);
    out.append("\"}");
    out
}

/// Whom a checked token lets in, or why it lets nobody in: the token must
/// be good, and its subject must be the text of a user identifier.
pub open spec fn welcomed(validated: Result<Claims, JwtError>) -> Result<UserId, Seq<char>> {
    match validated {
        Err(e) => Err("Invalid token: "@ + e.sentence()),
        Ok(claims) => match parsed_uuid(claims.sub@) {
            Ok(value) => Ok(UserId { value }),
            Err(message) => Err("Invalid user ID in token: "@ + message),
        },
    }
}

/// Whom a token's subject lets in, the subject having been read already.
pub open spec fn welcomed_subject(subject: Result<UserId, String>) -> Result<UserId, Seq<char>> {
    match subject {
        Ok(user) => Ok(user),
        Err(message) => Err("Invalid user ID in token: "@ + message@),
    }
}

/// Decides on a connection from what reading the token's subject gave.
pub fn welcome_subject(subject: Result<UserId, String>) -> (r: Result<UserId, String>)
    ensures
        r is Ok == welcomed_subject(subject) is Ok,
        r is Ok ==> r->Ok_0 == welcomed_subject(subject)->Ok_0,
        r is Err ==> r->Err_0@ == welcomed_subject(subject)->Err_0,
{
    match subject {
        Ok(user) => Ok(user),
        Err(message) => {
            let mut out = String::from_str("Invalid user ID in token: ");
            out.append(message.as_str());
            Err(out)
        },
    }
}

/// Decides on a connection from the outcome of checking its token. The
/// message of a refusal is what the client is sent before the connection
/// is closed.
pub fn welcome(validated: Result<Claims, JwtError>) -> (r: Result<UserId, String>)
    ensures
        r is Ok == welcomed(validated) is Ok,
        r is Ok ==> r->Ok_0 == welcomed(validated)->Ok_0,
        r is Err ==> r->Err_0@ == welcomed(validated)->Err_0,
{
    match validated {
        Err(e) => {
            let mut out = String::from_str("Invalid token: ");
            let why = e.message();
            out.append(why.as_str());
            Err(out)
        },
        Ok(claims) => welcome_subject(UserId::parse(claims.sub.as_str())),
    }
}

/// What can happen to a connection.
#[derive(Debug, PartialEq, Eq)]
pub enum SocketEvent {
    /// An event was published on the user's channel; this is its payload.
    Published(String),
    /// The keep-alive interval has passed.
    Tick,
    /// The client answered a pulse.
    Pong,
    /// The client sent something else.
    Other,
    /// The client closed the connection.
    Closed,
    /// Reading from the client failed.
    ReadFailed,
    /// Writing to the client failed.
    WriteFailed,
}

/// What a connection does in response.
#[derive(Debug, PartialEq, Eq)]
pub enum SocketAction {
    /// Nothing.
    Idle,
    /// Send the payload to the client as text.
    SendText(String),
    /// Send a keep-alive pulse.
    SendPing,
    /// Drop the subscription, stop the keep-alive, close.
    TearDown,
}

/// The mathematical content of a [`SocketAction`].
pub enum SocketActionView {
    Idle,
    SendText(Seq<char>),
    SendPing,
    TearDown,
}

impl View for SocketAction {
    type V = SocketActionView;

    open spec fn view(&self) -> SocketActionView {
        match self {
            SocketAction::Idle => SocketActionView::Idle,
            SocketAction::SendText(t) => SocketActionView::SendText(t@),
            SocketAction::SendPing => SocketActionView::SendPing,
            SocketAction::TearDown => SocketActionView::TearDown,
        }
    }
}

/// A connection: live for a user, or over.
#[derive(Clone, Copy, Debug, PartialEq, Eq, Structural)]
pub enum Session {
    Live(UserId),
    Over,
}

impl Session {
    /// The state after an event: a close or a failed read or write ends the
    /// connection, and nothing brings it back.
    pub open spec fn after(self, event: SocketEvent) -> Session {
        match self {
            Session::Live(user) => match event {
                SocketEvent::Closed | SocketEvent::ReadFailed | SocketEvent::WriteFailed => {
                    Session::Over
                },
                _ => self,
            },
            Session::Over => Session::Over,
        }
    }

    /// What is done about an event: a live connection forwards what is
    /// published and pulses on every tick; the end of a connection tears
    /// everything down at once; a connection that is over does nothing.
    pub open spec fn response(self, event: SocketEvent) -> SocketActionView {
        match self {
            Session::Live(_) => match event {
                SocketEvent::Published(payload) => SocketActionView::SendText(payload@),
                SocketEvent::Tick => SocketActionView::SendPing,
                SocketEvent::Closed | SocketEvent::ReadFailed | SocketEvent::WriteFailed => {
                    SocketActionView::TearDown
                },
                _ => SocketActionView::Idle,
            },
            Session::Over => SocketActionView::Idle,
        }
    }

    /// A connection for a user who was let in.
    pub fn open(user: UserId) -> (r: Session)
        ensures
            r == Session::Live(user),
    {
        Session::Live(user)
    }

    /// Takes an event and says what to do about it.
    pub fn handle(self, event: SocketEvent) -> (r: (Session, SocketAction))
        ensures
            r.0 == self.after(event),
            r.1@ == self.response(event),
    {
        match self {
            Session::Live(_) => match event {
                SocketEvent::Published(payload) => (self, SocketAction::SendText(payload)),
                SocketEvent::Tick => (self, SocketAction::SendPing),
                SocketEvent::Closed => (Session::Over, SocketAction::TearDown),
                SocketEvent::ReadFailed => (Session::Over, SocketAction::TearDown),
                SocketEvent::WriteFailed => (Session::Over, SocketAction::TearDown),
                SocketEvent::Pong => (self, SocketAction::Idle),
                SocketEvent::Other => (self, SocketAction::Idle),
            },
            Session::Over => (Session::Over, SocketAction::Idle),
        }
    }

    /// Whether the connection is live.
    pub fn is_live(&self) -> (r: bool)
        ensures
            r == (*self is Live),
    {
        match self {
            Session::Live(_) => true,
            Session::Over => false,
        }
    }
}

/// Once a connection is over it stays over and does nothing more, whatever
/// happens.
pub proof fn law_over_is_over(event: SocketEvent)
    ensures
        Session::Over.after(event) == Session::Over,
        Session::Over.response(event) == SocketActionView::Idle,
{
}

} // verus!
