//! The reply pipeline: one inbound event becomes at most one reply job,
//! and a fetched forecast (or a fetch failure) becomes the outbound
//! messages, chunked to the protocol's size limit and sent in order.

use vstd::prelude::*;
use vstd::string::StringExecFns;
use crate::chunker::CHUNK_LIMIT;
use crate::chunker::chunk_message;
use crate::chunker::spec_chunks;
use crate::dispatcher::Command;
use crate::dispatcher::RelayEvent;
use crate::dispatcher::classify;
use crate::dispatcher::spec_classify;
use crate::memory::UserLocationMemory;
use crate::resolver::resolve;
use crate::resolver::spec_resolve_memory;
use crate::resolver::spec_resolve_query;

verus! {

/// A successful reply: the requester, a possessive label, the body.
pub open spec fn spec_success_text(nick: Seq<char>, rendered: Seq<char>) -> Seq<char> {
    nick + "'s weather: "@ + rendered
}

/// The single message sent when fetching or rendering fails.
pub open spec fn spec_error_text(query: Seq<char>, cause: Seq<char>) -> Seq<char> {
    "Error: Could not get weather data for "@ + query + ". "@ + cause
}

/// The outbound pieces of a successful reply: the prefixed body, split
/// to the protocol limit, content-complete and in order.
pub fn build_success_reply(nick: &str, rendered: &str) -> (r: Vec<String>)
    ensures
        r@.map_values(|c: String| c@) == spec_chunks(
            spec_success_text(nick@, rendered@),
            CHUNK_LIMIT as nat,
        ),
{
    let mut full = String::new();
    full.append(nick);
    full.append("'s weather: ");
    full.append(rendered);
    chunk_message(full.as_str(), CHUNK_LIMIT)
}

/// The single outbound message reporting a failed fetch: the query and
/// the failure's descriptive text.
pub fn build_error_reply(query: &str, cause: &str) -> (r: String)
    ensures
        r@ == spec_error_text(query@, cause@),
{
    let mut s = String::new();
    s.append("Error: Could not get weather data for ");
    s.append(query);
    s.append(". ");
    s.append(cause);
    s
}

/// What one inbound event asks the runner to do: fetch `query` and
/// answer `requester` in `channel`.
pub struct ReplyJob {
    pub requester: String,
    pub channel: String,
    pub query: String,
}

/// Classifies one inbound event and resolves its command against the
/// memory: an ignored event or an unresolvable command plans nothing; a
/// resolved command plans one reply job. The memory changes exactly as
/// the resolver's rules say, and only for reply commands.
pub fn plan_reply(ev: RelayEvent, mem: &mut UserLocationMemory) -> (r: Option<ReplyJob>)
    requires
        old(mem).inv(),
    ensures
        final(mem).inv(),
        match spec_classify(ev) {
            Command::Ignored => {
                &&& r is None
                &&& final(mem)@ == old(mem)@
            },
            Command::Reply { requester, channel, text } => {
                &&& final(mem)@ == spec_resolve_memory(text@, requester@, old(mem)@)
                &&& match r {
                    Some(job) => {
                        &&& job.requester@ == requester@
                        &&& job.channel@ == channel@
                        &&& spec_resolve_query(text@, requester@, old(mem)@) == Some(job.query@)
                    },
                    None => spec_resolve_query(text@, requester@, old(mem)@) is None,
                }
            },
        },
{
    match classify(ev) {
        Command::Ignored => None,
        Command::Reply { requester, channel, text } => {
            match resolve(text.as_str(), requester.as_str(), mem) {
                Some(query) => Some(ReplyJob { requester, channel, query }),
                None => None,
            }
        },
    }
}

} // verus!
