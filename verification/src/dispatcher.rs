//! Inbound-event classification: one relay event becomes one `Command`.
//!
//! Only channel messages are examined; every other event is ignored. A
//! channel message yields a reply command only when the sender's
//! identity can be read from the event's origin metadata, that is, when
//! the origin is a user prefix.

use vstd::prelude::*;

verus! {

/// The origin metadata a relay event may carry.
pub enum SenderPrefix {
    /// A user origin: nickname, username, host.
    Nickname(String, String, String),
    /// A server origin.
    ServerName(String),
}

/// One inbound relay event, reduced to what classification reads.
pub enum RelayEvent {
    /// A message to a channel: origin metadata, target channel, raw text.
    ChannelMessage { prefix: Option<SenderPrefix>, channel: String, text: String },
    /// Any other protocol event.
    Other,
}

/// What the dispatcher decides for one event.
pub enum Command {
    /// The event asks for no reply.
    Ignored,
    /// A channel message from an identified user: who asked, where to
    /// answer, and the raw command text.
    Reply { requester: String, channel: String, text: String },
}

/// The classification rule: a channel message whose origin names a user
/// becomes a reply command carrying that user's nickname; everything
/// else is ignored.
pub open spec fn spec_classify(ev: RelayEvent) -> Command {
    match ev {
        RelayEvent::ChannelMessage { prefix, channel, text } => match prefix {
            Some(SenderPrefix::Nickname(nick, _user, _host)) => Command::Reply {
                requester: nick,
                channel,
                text,
            },
            _ => Command::Ignored,
        },
        RelayEvent::Other => Command::Ignored,
    }
}

/// Classifies one inbound event, with no side effect.
pub fn classify(ev: RelayEvent) -> (r: Command)
    ensures
        r == spec_classify(ev),
{
    match ev {
        RelayEvent::ChannelMessage { prefix, channel, text } => match prefix {
            Some(SenderPrefix::Nickname(nick, _user, _host)) => Command::Reply {
                requester: nick,
                channel,
                text,
            },
            _ => Command::Ignored,
        },
        RelayEvent::Other => Command::Ignored,
    }
}

} // verus!
