//! The per-connection protocol lifecycle: uninitialized, initialized,
//! terminated; which requests each state admits, and what each inbound
//! message does to the serve loop.

use vstd::prelude::*;

use crate::strutil::str_eq;

verus! {

/// Per-connection session state.
#[derive(Debug, PartialEq, Eq, Clone, Copy)]
pub struct Session {
    pub initialized: bool,
}

/// The list methods that are admitted before the `initialized`
/// notification.
pub open spec fn spec_allowed_pre_init(m: Seq<char>) -> bool {
    m == "tools/list"@ || m == "prompts/list"@ || m == "resources/list"@
}

pub fn allowed_pre_init(m: &str) -> (r: bool)
    ensures
        r == spec_allowed_pre_init(m@),
{
    str_eq(m, "tools/list") || str_eq(m, "prompts/list") || str_eq(m, "resources/list")
}

/// What the engine does with an inbound request.
#[derive(Debug, PartialEq, Eq, Clone, Copy)]
pub enum RequestDisposition {
    /// A first `initialize`: answer with the initialize result.
    DoInitialize,
    /// `initialize` on an already initialized session: fail the exchange.
    AlreadyInitialized,
    /// `shutdown` on an initialized session: acknowledge.
    DoShutdown,
    /// Any request the current state does not admit: fail the exchange
    /// with a server-not-initialized error.
    NotInitialized,
    /// Forward to the method dispatcher.
    Dispatch,
}

/// The admission rule of the session lifecycle: `initialize` only once;
/// before the handshake only the always-allowed list methods pass;
/// everything else is dispatched.
pub open spec fn spec_gate(initialized: bool, m: Seq<char>) -> RequestDisposition {
    if m == "initialize"@ {
        if initialized {
            RequestDisposition::AlreadyInitialized
        } else {
            RequestDisposition::DoInitialize
        }
    } else if m == "shutdown"@ {
        if initialized {
            RequestDisposition::DoShutdown
        } else {
            RequestDisposition::NotInitialized
        }
    } else if initialized || spec_allowed_pre_init(m) {
        RequestDisposition::Dispatch
    } else {
        RequestDisposition::NotInitialized
    }
}

pub fn gate_request(session: &Session, method: &str) -> (r: RequestDisposition)
    ensures
        r == spec_gate(session.initialized, method@),
{
    if str_eq(method, "initialize") {
        if session.initialized {
            RequestDisposition::AlreadyInitialized
        } else {
            RequestDisposition::DoInitialize
        }
    } else if str_eq(method, "shutdown") {
        if session.initialized {
            RequestDisposition::DoShutdown
        } else {
            RequestDisposition::NotInitialized
        }
    } else if session.initialized || allowed_pre_init(method) {
        RequestDisposition::Dispatch
    } else {
        RequestDisposition::NotInitialized
    }
}

/// What an inbound notification does to the serve loop.
#[derive(Debug, PartialEq, Eq, Clone, Copy)]
pub enum NotificationAction {
    /// `exit`: the serve loop ends.
    Stop,
    /// `initialized`: the session flag is set.
    MarkInitialized,
    /// Anything else is ignored.
    Ignore,
}

pub open spec fn spec_on_notification(m: Seq<char>) -> NotificationAction {
    if m == "exit"@ {
        NotificationAction::Stop
    } else if m == "initialized"@ {
        NotificationAction::MarkInitialized
    } else {
        NotificationAction::Ignore
    }
}

pub fn on_notification(method: &str) -> (r: NotificationAction)
    ensures
        r == spec_on_notification(method@),
{
    if str_eq(method, "exit") {
        NotificationAction::Stop
    } else if str_eq(method, "initialized") {
        NotificationAction::MarkInitialized
    } else {
        NotificationAction::Ignore
    }
}

/// The session after a notification: `initialized` sets the flag and
/// nothing else changes it.
pub fn apply_notification(session: &mut Session, method: &str) -> (r: NotificationAction)
    ensures
        r == spec_on_notification(method@),
        final(session).initialized == (old(session).initialized || spec_on_notification(method@)
            is MarkInitialized),
{
    let act = on_notification(method);
    if matches!(act, NotificationAction::MarkInitialized) {
        session.initialized = true;
    }
    act
}

/// What the streaming HTTP endpoint does with one decoded message, given
/// what it knows of the session named in the request headers.
#[derive(Debug, PartialEq, Eq, Clone, Copy)]
pub enum HttpDecision {
    /// `initialize`: mint a fresh session and reply; the session starts
    /// uninitialized and the `initialized` notification sets its flag.
    StartSession,
    /// The `initialized` notification: set the session flag, acknowledge
    /// without a body.
    MarkInitialized,
    /// A request on a known, uninitialized session outside the
    /// always-allowed list: a server-not-initialized error reply.
    RejectUninitialized,
    /// Any other notification: handle best-effort, acknowledge without a
    /// body.
    AcceptNotification,
    /// A request to dispatch and answer.
    DispatchRequest,
}

pub open spec fn spec_http_gate(
    session_known: bool,
    session_initialized: bool,
    m: Seq<char>,
    has_id: bool,
) -> HttpDecision {
    if m == "initialize"@ {
        HttpDecision::StartSession
    } else if m == "initialized"@ {
        HttpDecision::MarkInitialized
    } else if session_known && !session_initialized && !spec_allowed_pre_init(m) {
        HttpDecision::RejectUninitialized
    } else if !has_id {
        HttpDecision::AcceptNotification
    } else {
        HttpDecision::DispatchRequest
    }
}

/// The streaming HTTP gate: `initialize` always starts a session; a known
/// session that has not finished the handshake admits only the
/// always-allowed list methods; notifications are acknowledged without a
/// reply.
pub fn http_gate(session_known: bool, session_initialized: bool, method: &str, has_id: bool) -> (r:
    HttpDecision)
    ensures
        r == spec_http_gate(session_known, session_initialized, method@, has_id),
{
    if str_eq(method, "initialize") {
        HttpDecision::StartSession
    } else if str_eq(method, "initialized") {
        HttpDecision::MarkInitialized
    } else if session_known && !session_initialized && !allowed_pre_init(method) {
        HttpDecision::RejectUninitialized
    } else if !has_id {
        HttpDecision::AcceptNotification
    } else {
        HttpDecision::DispatchRequest
    }
}

/// How the engine takes one decoded inbound message: a request is gated
/// by the session state, a notification is applied to it, and an inbound
/// response is a protocol violation — clients never send one.
#[derive(Debug, PartialEq, Eq, Clone, Copy)]
pub enum MessageAction {
    GateRequest,
    ApplyNotification,
    ProtocolViolation,
}

pub fn on_message(m: &crate::jsonrpc::Message) -> (r: MessageAction)
    ensures
        (r == MessageAction::GateRequest) == (*m matches crate::jsonrpc::Message::Request(_)),
        (r == MessageAction::ApplyNotification) == (*m matches crate::jsonrpc::Message::Notification(_)),
        (r == MessageAction::ProtocolViolation) == (*m matches crate::jsonrpc::Message::Response(_)),
{
    match m {
        crate::jsonrpc::Message::Request(_) => MessageAction::GateRequest,
        crate::jsonrpc::Message::Notification(_) => MessageAction::ApplyNotification,
        crate::jsonrpc::Message::Response(_) => MessageAction::ProtocolViolation,
    }
}

/// A second `initialize` on an initialized session fails; any request
/// outside the always-allowed list fails before the handshake with a
/// server-not-initialized disposition; and `exit` ends the serve loop.
pub proof fn lemma_session_lifecycle(m: Seq<char>)
    ensures
        spec_gate(true, "initialize"@) == RequestDisposition::AlreadyInitialized,
        m != "initialize"@ && !spec_allowed_pre_init(m) ==> spec_gate(false, m)
            == RequestDisposition::NotInitialized,
        spec_on_notification("exit"@) == NotificationAction::Stop,
        spec_gate(false, "initialize"@) == RequestDisposition::DoInitialize,
{
}

} // verus!
