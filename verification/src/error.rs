//! Why a connection is not served.

use vstd::prelude::*;

use crate::text;
use crate::text::{append_decimal, append_listed};

verus! {

/// Errors that reject an already-negotiated connection before HTTP dispatch.
#[derive(Debug)]
#[non_exhaustive]
pub enum ConnectionServeError {
    /// A runtime option could not be enforced safely.
    InvalidOptions {
        /// Name of the invalid option.
        option: &'static str,
        /// Stable explanation of the rejected value.
        reason: &'static str,
    },
    /// The connection did not negotiate the HTTP protocol.
    UnexpectedAlpn {
        /// Raw negotiated protocol name, which need not be UTF-8.
        actual: Vec<u8>,
    },
    /// The shared runtime reached its total connection bound.
    TotalConnectionLimitReached {
        /// Configured total connection maximum.
        maximum: usize,
    },
    /// The authenticated peer reached its per-peer connection bound.
    PeerConnectionLimitReached {
        /// Configured maximum for one peer.
        maximum: usize,
    },
}

impl ConnectionServeError {
    /// The text of [`ConnectionServeError::message`].
    pub open spec fn text(self) -> Seq<char> {
        match self {
            ConnectionServeError::InvalidOptions { option, reason } => {
                "invalid connection serve option "@ + option@ + ": "@ + reason@
            },
            ConnectionServeError::UnexpectedAlpn { actual } => {
                "connection negotiated an unexpected ALPN: ["@ + text::listed(actual@) + "]"@
            },
            ConnectionServeError::TotalConnectionLimitReached { maximum } => {
                "total connection limit reached ("@ + text::decimal(maximum as nat) + ")"@
            },
            ConnectionServeError::PeerConnectionLimitReached { maximum } => {
                "per-peer connection limit reached ("@ + text::decimal(maximum as nat) + ")"@
            },
        }
    }

    /// A one-line description for people.
    pub fn message(&self) -> (message: String)
        ensures
            message@ == self.text(),
    {
        let mut message = String::new();
        match self {
            ConnectionServeError::InvalidOptions { option, reason } => {
                message.append("invalid connection serve option ");
                message.append(option);
                message.append(": ");
                message.append(reason);
            },
            ConnectionServeError::UnexpectedAlpn { actual } => {
                message.append("connection negotiated an unexpected ALPN: [");
                append_listed(&mut message, actual);
                message.append("]");
            },
            ConnectionServeError::TotalConnectionLimitReached { maximum } => {
                message.append("total connection limit reached (");
                append_decimal(&mut message, *maximum);
                message.append(")");
            },
            ConnectionServeError::PeerConnectionLimitReached { maximum } => {
                message.append("per-peer connection limit reached (");
                append_decimal(&mut message, *maximum);
                message.append(")");
            },
        }
        assert(message@ =~= self.text());
        message
    }
}

/// A message about a full bound tells the bound: two of them are the same only
/// where the bounds are.
pub proof fn law_messages_tell_the_bound(a: usize, b: usize)
    ensures
        (ConnectionServeError::TotalConnectionLimitReached { maximum: a }).text() == (
        ConnectionServeError::TotalConnectionLimitReached { maximum: b }).text() <==> a == b,
        (ConnectionServeError::PeerConnectionLimitReached { maximum: a }).text() == (
        ConnectionServeError::PeerConnectionLimitReached { maximum: b }).text() <==> a == b,
{
    let x = text::decimal(a as nat);
    let y = text::decimal(b as nat);
    text::law_decimal_spells_the_number(a as nat);
    text::law_decimal_spells_the_number(b as nat);
    lemma_same_middle("total connection limit reached ("@, x, y, ")"@);
    lemma_same_middle("per-peer connection limit reached ("@, x, y, ")"@);
}

/// What stands between the same two texts can be told from the whole.
proof fn lemma_same_middle(before: Seq<char>, x: Seq<char>, y: Seq<char>, after: Seq<char>)
    ensures
        before + x + after == before + y + after <==> x == y,
{
    let p = before + x + after;
    let q = before + y + after;
    if p == q {
        assert(p.len() == before.len() + x.len() + after.len());
        assert(q.len() == before.len() + y.len() + after.len());
        assert(p.subrange(before.len() as int, (before.len() + x.len()) as int) =~= x);
        assert(q.subrange(before.len() as int, (before.len() + y.len()) as int) =~= y);
    }
}

/// The text of a message holds what went wrong: the option and the reason, the
/// bytes of the protocol that was negotiated, or the bound.
pub proof fn law_messages_hold_their_cause(error: ConnectionServeError)
    ensures
        match error {
            ConnectionServeError::InvalidOptions { option, reason } => error.text()
                =~= "invalid connection serve option "@ + option@ + ": "@ + reason@,
            ConnectionServeError::UnexpectedAlpn { actual } => error.text()
                =~= "connection negotiated an unexpected ALPN: ["@ + text::listed(actual@) + "]"@,
            ConnectionServeError::TotalConnectionLimitReached { maximum } => error.text()
                =~= "total connection limit reached ("@ + text::decimal(maximum as nat) + ")"@,
            ConnectionServeError::PeerConnectionLimitReached { maximum } => error.text()
                =~= "per-peer connection limit reached ("@ + text::decimal(maximum as nat) + ")"@,
        },
{
}

} // verus!
