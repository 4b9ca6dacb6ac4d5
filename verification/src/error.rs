//! Errors of the transports, the peers and the rooms.

use vstd::prelude::*;
use vstd::string::StringExecFns;

verus! {

/// Error generated while interacting with a transport.
#[derive(Debug, Clone)]
pub enum TransportError {
    /// The transport has already been closed.
    Closed,
    /// Any other transport level failure.
    Failure(String),
}

/// Error produced when a request is explicitly rejected by the remote peer.
#[derive(Debug, Clone)]
pub struct RequestError {
    /// The error code indicated by the remote peer.
    pub code: u16,
    /// The error reason indicated by the remote peer.
    pub reason: String,
}

impl RequestError {
    /// Builds the rejection that carries `code` and `reason`.
    pub fn new(code: u16, reason: String) -> (err: Self)
        ensures
            err.code == code,
            err.reason@ == reason@,
    {
        RequestError { code, reason }
    }
}

/// Error produced by peer level operations.
#[derive(Debug, Clone)]
pub enum PeerError {
    /// Operation attempted on a closed peer.
    Closed,
    /// The underlying transport failed.
    Transport(TransportError),
    /// A request timed out waiting for a response.
    Timeout,
    /// The request was explicitly rejected by the remote peer.
    Rejected(RequestError),
}

impl From<TransportError> for PeerError {
    fn from(error: TransportError) -> (res: Self) {
        PeerError::Transport(error)
    }
}

impl vstd::std_specs::convert::FromSpecImpl<TransportError> for PeerError {
    open spec fn obeys_from_spec() -> bool {
        true
    }

    open spec fn from_spec(v: TransportError) -> Self {
        PeerError::Transport(v)
    }
}

impl From<RequestError> for PeerError {
    fn from(error: RequestError) -> (res: Self) {
        PeerError::Rejected(error)
    }
}

impl vstd::std_specs::convert::FromSpecImpl<RequestError> for PeerError {
    open spec fn obeys_from_spec() -> bool {
        true
    }

    open spec fn from_spec(v: RequestError) -> Self {
        PeerError::Rejected(v)
    }
}

/// Errors that can happen while manipulating a room.
#[derive(Debug, Clone)]
pub enum RoomError {
    /// The room has already been closed.
    Closed,
    /// The provided peer identifier is invalid.
    InvalidPeerId,
    /// A peer with the same identifier already exists.
    DuplicatePeer(String),
}

/// The character of the decimal digit `d`.
pub open spec fn digit_char(d: nat) -> char {
    (48 + d) as char
}

/// The decimal digits of `n`, most significant first, with no leading zero.
pub open spec fn decimal(n: nat) -> Seq<char>
    decreases n,
{
    if n < 10 {
        seq![digit_char(n)]
    } else {
        decimal(n / 10).push(digit_char(n % 10))
    }
}

/// Writes `n` in decimal with its `ToString`. Trusted: the text is the
/// decimal digits of `n`, as the `Display` of integers writes them.
#[verifier::external_body]
fn decimal_text(n: u16) -> (text: String)
    ensures
        text@ == decimal(n as nat),
{
    n.to_string()
}

impl TransportError {
    /// The text that describes this error.
    pub open spec fn text(&self) -> Seq<char> {
        match self {
            TransportError::Closed => "transport closed"@,
            TransportError::Failure(s) => "transport failure: "@ + s@,
        }
    }

    /// The text that describes this error.
    pub fn message(&self) -> (text: String)
        ensures
            text@ == self.text(),
    {
        match self {
            TransportError::Closed => "transport closed".to_string(),
            TransportError::Failure(s) => {
                let mut text = "transport failure: ".to_string();
                text.append(s.as_str());
                text
            },
        }
    }
}

impl RequestError {
    /// The text that describes this error.
    pub open spec fn text(&self) -> Seq<char> {
        "request rejected with code "@ + decimal(self.code as nat) + ": "@ + self.reason@
    }

    /// The text that describes this error.
    pub fn message(&self) -> (text: String)
        ensures
            text@ == self.text(),
    {
        let mut text = "request rejected with code ".to_string();
        let code = decimal_text(self.code);
        text.append(code.as_str());
        text.append(": ");
        text.append(self.reason.as_str());
        text
    }
}

impl PeerError {
    /// The text that describes this error; a transport failure and a
    /// rejection are described by their own text.
    pub open spec fn text(&self) -> Seq<char> {
        match self {
            PeerError::Closed => "peer closed"@,
            PeerError::Transport(e) => e.text(),
            PeerError::Timeout => "request timeout"@,
            PeerError::Rejected(e) => e.text(),
        }
    }

    /// The text that describes this error.
    pub fn message(&self) -> (text: String)
        ensures
            text@ == self.text(),
    {
        match self {
            PeerError::Closed => "peer closed".to_string(),
            PeerError::Transport(e) => e.message(),
            PeerError::Timeout => "request timeout".to_string(),
            PeerError::Rejected(e) => e.message(),
        }
    }
}

impl RoomError {
    /// The text that describes this error.
    pub open spec fn text(&self) -> Seq<char> {
        match self {
            RoomError::Closed => "room closed"@,
            RoomError::InvalidPeerId => "peer id cannot be empty"@,
            RoomError::DuplicatePeer(id) => "peer with id "@ + id@ + " already exists"@,
        }
    }

    /// The text that describes this error.
    pub fn message(&self) -> (text: String)
        ensures
            text@ == self.text(),
    {
        match self {
            RoomError::Closed => "room closed".to_string(),
            RoomError::InvalidPeerId => "peer id cannot be empty".to_string(),
            RoomError::DuplicatePeer(id) => {
                let mut text = "peer with id ".to_string();
                text.append(id.as_str());
                text.append(" already exists");
                text
            },
        }
    }
}

} // verus!
