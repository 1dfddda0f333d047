//! The ingress listener's rules: what a well-formed message produces
//! (a rendered history entry and an acknowledging response), what a
//! malformed body produces (a client error, no history change), and the
//! liveness probe (a fixed payload, no history change).

use vstd::prelude::*;
use crate::store::CAPACITY;
use crate::store::HistoryStore;
use crate::store::push_bounded;

verus! {

/// An inbound request: a free-form identifier, a free-form method name,
/// and optional structured parameters carried as their JSON text.
pub struct Message {
    pub id: String,
    pub method: String,
    pub params: Option<String>,
}

/// The reply to a message: the identifier echoed back, and either a
/// result or an error, each carried as JSON text. The ingress rules
/// never populate `error`: every well-formed message is acknowledged
/// with a fixed success result, whatever its method.
pub struct Response {
    pub id: String,
    pub result: Option<String>,
    pub error: Option<String>,
}

/// The fixed success payload set as the result of every acknowledgment.
pub open spec fn success_result() -> Seq<char> {
    "{\"status\":\"success\"}"@
}

/// The fixed payload returned by the liveness probe.
pub open spec fn alive_status() -> Seq<char> {
    "ok"@
}

/// The human-legible history entry recorded for a message: one line
/// naming all three fields, with absent parameters shown as `None`.
pub open spec fn rendered(msg: Message) -> Seq<char> {
    "Message { id: \""@ + msg.id@ + "\", method: \""@ + msg.method@ + "\", params: "@ + (
    match msg.params {
        Some(p) => "Some("@ + p@ + ")"@,
        None => "None"@,
    }) + " }"@
}

/// Builds the history entry recorded for `msg`.
pub fn render_message(msg: &Message) -> (entry: String)
    ensures
        entry@ == rendered(*msg),
{
    let mut entry = String::from_str("Message { id: \"");
    entry.append(msg.id.as_str());
    entry.append("\", method: \"");
    entry.append(msg.method.as_str());
    entry.append("\", params: ");
    match &msg.params {
        Some(p) => {
            entry.append("Some(");
            entry.append(p.as_str());
            entry.append(")");
        },
        None => {
            entry.append("None");
        },
    }
    entry.append(" }");
    proof {
        assert(entry@ =~= rendered(*msg));
    }
    entry
}

/// Records `msg` in the history and builds its acknowledgment: the
/// identifier is echoed, the result is the fixed success payload, and
/// the error is left empty.
pub fn handle_message(msg: Message, history: &mut HistoryStore) -> (resp: Response)
    ensures
        final(history)@ == push_bounded(old(history)@, rendered(msg)),
        final(history)@.len() <= CAPACITY,
        resp.id@ == msg.id@,
        resp.result matches Some(r) && r@ == success_result(),
        resp.error is None,
{
    let entry = render_message(&msg);
    history.append(entry);
    Response {
        id: msg.id,
        result: Some(String::from_str("{\"status\":\"success\"}")),
        error: None,
    }
}

/// One request arriving at the ingress listener: a message body that
/// either parsed into a [`Message`] or did not, or a liveness probe.
pub enum IngressRequest {
    /// The message endpoint: `Some` for a body that parsed into a
    /// well-formed message, `None` for a malformed body.
    Mcp(Option<Message>),
    /// The liveness probe endpoint.
    Health,
}

/// What the ingress listener replies with.
pub enum IngressReply {
    /// Acknowledgment of a well-formed message.
    Ack(Response),
    /// A malformed body: surfaced to the client as an error status,
    /// with nothing recorded.
    MalformedRequest,
    /// The liveness probe's fixed status payload.
    Alive(String),
}

/// Decides the ingress listener's reply to one request, and how the
/// shared history changes: a well-formed message is recorded and
/// acknowledged; a malformed body is rejected and the history is left
/// untouched; the liveness probe never touches the history.
pub fn handle_ingress(req: IngressRequest, history: &mut HistoryStore) -> (reply: IngressReply)
    ensures
        match req {
            IngressRequest::Mcp(Some(msg)) => {
                &&& final(history)@ == push_bounded(old(history)@, rendered(msg))
                &&& reply matches IngressReply::Ack(resp) && resp.id@ == msg.id@
                    && (resp.result matches Some(r) && r@ == success_result())
                    && resp.error is None
            },
            IngressRequest::Mcp(None) => {
                &&& final(history)@ == old(history)@
                &&& reply is MalformedRequest
            },
            IngressRequest::Health => {
                &&& final(history)@ == old(history)@
                &&& reply matches IngressReply::Alive(s) && s@ == alive_status()
            },
        },
{
    match req {
        IngressRequest::Mcp(Some(msg)) => {
            let resp = handle_message(msg, history);
            IngressReply::Ack(resp)
        },
        IngressRequest::Mcp(None) => IngressReply::MalformedRequest,
        IngressRequest::Health => IngressReply::Alive(String::from_str("ok")),
    }
}

} // verus!
