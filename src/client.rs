//! The decisions of the client façade and the internal client.
use crate::error::AgentError;
use crate::types::Message;
use vstd::prelude::*;

verus! {

/// What the façade does with one frame of a streamed answer.
#[derive(Debug)]
pub enum SinkStep {
    /// Hand the message to the sink; stop after it when `last`.
    Deliver { message: Message, last: bool },
    /// The frame is not a conversation message: it is the answer, verbatim.
    ReturnFrame(serde_json::Value),
}

/// Decides the façade's next step for a frame, given its decoding as a
/// conversation message if it has one. The sink sees every decoded message, and
/// the one that ends the exchange is the last it sees.
pub fn sink_step(decoded: Option<Message>, raw: serde_json::Value) -> (r: SinkStep)
    ensures
        match decoded {
            Some(m) => r == (SinkStep::Deliver { message: m, last: m is Result }),
            None => r == SinkStep::ReturnFrame(raw),
        },
{
    match decoded {
        Some(m) => {
            let last = m.is_terminal();
            SinkStep::Deliver { message: m, last }
        },
        None => SinkStep::ReturnFrame(raw),
    }
}

/// The messages a sink is handed when the decoded frames `ms` arrive in order and
/// each step follows [`sink_step`]: every message up to and including the first
/// that ends the exchange.
pub open spec fn sink_deliveries(ms: Seq<Message>) -> Seq<Message>
    decreases ms.len(),
{
    if ms.len() == 0 {
        Seq::empty()
    } else if ms[0] is Result {
        seq![ms[0]]
    } else {
        seq![ms[0]] + sink_deliveries(ms.drop_first())
    }
}

/// A streamed answer whose first `Result` message is its `k`-th stops there: the
/// sink is handed exactly the first `k + 1` messages, in arrival order, and
/// nothing that follows. (Three other messages, then a `Result`: four
/// deliveries, never a fifth.)
pub proof fn lemma_stream_stops_at_first_result(ms: Seq<Message>, k: int)
    requires
        0 <= k < ms.len(),
        ms[k] is Result,
        forall|i: int| 0 <= i < k ==> !(ms[i] is Result),
    ensures
        sink_deliveries(ms) == ms.take(k + 1),
        sink_deliveries(ms).len() == k + 1,
    decreases k,
{
    if k > 0 {
        let rest = ms.drop_first();
        assert forall|i: int| 0 <= i < k - 1 implies !(rest[i] is Result) by {
            assert(rest[i] == ms[i + 1]);
        }
        lemma_stream_stops_at_first_result(rest, k - 1);
        assert(!(ms[0] is Result));
        assert(seq![ms[0]] + rest.take(k) =~= ms.take(k + 1));
    } else {
        assert(seq![ms[0]] =~= ms.take(1));
    }
}

#[derive(Debug, Clone, Copy, Default)]
pub struct InternalClient;

impl InternalClient {
    pub fn new() -> (r: Self) {
        InternalClient
    }

    /// Answers a prompt with no messages.
    pub fn process_query(&self, prompt: String) -> (r: Result<Vec<Message>, AgentError>)
        ensures
            r matches Ok(v) && v@.len() == 0,
    {
        Ok(Vec::new())
    }
}

} // verus!
