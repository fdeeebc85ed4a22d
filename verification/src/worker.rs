use vstd::prelude::*;

verus! {

use crate::containers::container_views;
use crate::messages::{KantoRequest, KantoResponse, RequestV, ResponseV, response_opt_view};

/// One backend operation, spelled out with every argument the remote call
/// takes. The worker derives it from a command and hands it to the backend
/// client; the client owns the single connection and performs calls one at a
/// time, so the daemon never sees concurrent calls from this client.
pub enum BackendCall {
    List,
    Create { name: String, registry: String },
    Start { id: String },
    Stop { id: String, timeout: i64, force: bool, signal: String },
    Remove { id: String, force: bool },
    ReadLogs { id: String },
}

/// A backend operation as the contracts see it.
#[verifier::ext_equal]
pub enum CallV {
    List,
    Create { name: Seq<char>, registry: Seq<char> },
    Start { id: Seq<char> },
    Stop { id: Seq<char>, timeout: int, force: bool, signal: Seq<char> },
    Remove { id: Seq<char>, force: bool },
    ReadLogs { id: Seq<char> },
}

impl View for BackendCall {
    type V = CallV;

    open spec fn view(&self) -> CallV {
        match self {
            BackendCall::List => CallV::List,
            BackendCall::Create { name, registry } => CallV::Create {
                name: name@,
                registry: registry@,
            },
            BackendCall::Start { id } => CallV::Start { id: id@ },
            BackendCall::Stop { id, timeout, force, signal } => CallV::Stop {
                id: id@,
                timeout: *timeout as int,
                force: *force,
                signal: signal@,
            },
            BackendCall::Remove { id, force } => CallV::Remove { id: id@, force: *force },
            BackendCall::ReadLogs { id } => CallV::ReadLogs { id: id@ },
        }
    }
}

/// The backend operation each command dispatches to. A stop request carries
/// the operator's grace period and the fixed policy of this client: the
/// container is asked to stop with SIGTERM and forced down when the grace
/// period runs out. Log retrieval is out of band: it reads a local file
/// derived from the id rather than going over the connection.
pub open spec fn call_of(r: RequestV) -> CallV {
    match r {
        RequestV::ListContainers => CallV::List,
        RequestV::CreateContainer(name, registry) => CallV::Create { name, registry },
        RequestV::StartContainer(id) => CallV::Start { id },
        RequestV::StopContainer(id, timeout) => CallV::Stop {
            id,
            timeout,
            force: true,
            signal: "SIGTERM"@,
        },
        RequestV::RemoveContainer(id, force) => CallV::Remove { id, force },
        RequestV::GetLogs(id) => CallV::ReadLogs { id },
    }
}

/// What one backend call came back with, as the worker sees it after the
/// call returned.
pub enum CallOutcome {
    /// A listing arrived.
    Listing(Vec<crate::containers::Container>),
    /// Log text was read.
    LogText(String),
    /// The log file could not be read.
    LogsUnavailable,
    /// A mutating call succeeded.
    Done,
    /// The call failed: a transient, per-command error.
    CallFailed,
}

/// A call outcome as the contracts see it.
#[verifier::ext_equal]
pub enum OutcomeV {
    Listing(Seq<crate::containers::ContainerV>),
    LogText(Seq<char>),
    LogsUnavailable,
    Done,
    CallFailed,
}

impl View for CallOutcome {
    type V = OutcomeV;

    open spec fn view(&self) -> OutcomeV {
        match self {
            CallOutcome::Listing(items) => OutcomeV::Listing(container_views(items@)),
            CallOutcome::LogText(text) => OutcomeV::LogText(text@),
            CallOutcome::LogsUnavailable => OutcomeV::LogsUnavailable,
            CallOutcome::Done => OutcomeV::Done,
            CallOutcome::CallFailed => OutcomeV::CallFailed,
        }
    }
}

/// What the worker publishes after a command's call returned: a listing and
/// log text go back to the UI; an unreadable log file is reported as a fixed
/// message rather than raw error text; a mutating command publishes nothing,
/// and a failed call is absorbed — never an error value across the queue, and
/// never the end of the worker loop.
pub open spec fn publish_of(r: RequestV, o: OutcomeV) -> Option<ResponseV> {
    match (r, o) {
        (RequestV::ListContainers, OutcomeV::Listing(items)) => Option::Some(
            ResponseV::ListContainers(items),
        ),
        (RequestV::GetLogs(_id), OutcomeV::LogText(text)) => Option::Some(
            ResponseV::GetLogs(text),
        ),
        (RequestV::GetLogs(_id), OutcomeV::LogsUnavailable) => Option::Some(
            ResponseV::GetLogs("Could not obtain logs"@),
        ),
        _ => Option::None,
    }
}

/// Translate one command into the backend operation the worker performs for
/// it.
pub fn request_to_call(req: &KantoRequest) -> (c: BackendCall)
    ensures
        c@ == call_of(req@),
{
    match req {
        KantoRequest::ListContainers => BackendCall::List,
        KantoRequest::CreateContainer(name, registry) => BackendCall::Create {
            name: name.clone(),
            registry: registry.clone(),
        },
        KantoRequest::StartContainer(id) => BackendCall::Start { id: id.clone() },
        KantoRequest::StopContainer(id, timeout) => BackendCall::Stop {
            id: id.clone(),
            timeout: *timeout,
            force: true,
            signal: "SIGTERM".to_owned(),
        },
        KantoRequest::RemoveContainer(id, force) => BackendCall::Remove {
            id: id.clone(),
            force: *force,
        },
        KantoRequest::GetLogs(id) => BackendCall::ReadLogs { id: id.clone() },
    }
}

/// Decide what one finished command publishes to the result queue. Total in
/// both arguments: whatever came back, the worker has an answer and the loop
/// goes on — a failed command can never take the control plane down.
pub fn outcome_to_response(req: &KantoRequest, outcome: CallOutcome) -> (r: Option<KantoResponse>)
    ensures
        response_opt_view(r) == publish_of(req@, outcome@),
{
    match (req, outcome) {
        (KantoRequest::ListContainers, CallOutcome::Listing(items)) => Option::Some(
            KantoResponse::ListContainers(items),
        ),
        (KantoRequest::GetLogs(_), CallOutcome::LogText(text)) => Option::Some(
            KantoResponse::GetLogs(text),
        ),
        (KantoRequest::GetLogs(_), CallOutcome::LogsUnavailable) => Option::Some(
            KantoResponse::GetLogs("Could not obtain logs".to_owned()),
        ),
        _ => Option::None,
    }
}

} // verus!
