use vstd::prelude::*;

verus! {

use crate::containers::{Container, ContainerV, container_views};

/// A command: a single operator- or poll-triggered intent, carried from the
/// UI context to the worker over the command queue. Immutable once built,
/// consumed exactly once by the worker.
pub enum KantoRequest {
    ListContainers,
    CreateContainer(String, String),  // name, registry
    StartContainer(String),  // id
    StopContainer(String, i64),  // id, timeout in seconds
    RemoveContainer(String, bool),  // id, force
    GetLogs(String),  // id
}

/// A command as the contracts see it.
#[verifier::ext_equal]
pub enum RequestV {
    ListContainers,
    CreateContainer(Seq<char>, Seq<char>),
    StartContainer(Seq<char>),
    StopContainer(Seq<char>, int),
    RemoveContainer(Seq<char>, bool),
    GetLogs(Seq<char>),
}

impl View for KantoRequest {
    type V = RequestV;

    open spec fn view(&self) -> RequestV {
        match self {
            KantoRequest::ListContainers => RequestV::ListContainers,
            KantoRequest::CreateContainer(name, registry) => RequestV::CreateContainer(
                name@,
                registry@,
            ),
            KantoRequest::StartContainer(id) => RequestV::StartContainer(id@),
            KantoRequest::StopContainer(id, timeout) => RequestV::StopContainer(id@, *timeout as int),
            KantoRequest::RemoveContainer(id, force) => RequestV::RemoveContainer(id@, *force),
            KantoRequest::GetLogs(id) => RequestV::GetLogs(id@),
        }
    }
}

/// The commands of a queue, as the contracts see them.
pub open spec fn request_views(s: Seq<KantoRequest>) -> Seq<RequestV> {
    s.map_values(|r: KantoRequest| r@)
}

/// A result: the outcome published back to the UI context after a command
/// that produces user-visible output completed. Errors never cross the queue:
/// the worker absorbs them, so the UI only ever sees successful results.
pub enum KantoResponse {
    ListContainers(Vec<Container>),
    GetLogs(String),
}

/// A result as the contracts see it.
#[verifier::ext_equal]
pub enum ResponseV {
    ListContainers(Seq<ContainerV>),
    GetLogs(Seq<char>),
}

impl View for KantoResponse {
    type V = ResponseV;

    open spec fn view(&self) -> ResponseV {
        match self {
            KantoResponse::ListContainers(items) => ResponseV::ListContainers(
                container_views(items@),
            ),
            KantoResponse::GetLogs(text) => ResponseV::GetLogs(text@),
        }
    }
}

/// An optional command as the contracts see it.
pub open spec fn request_opt_view(r: Option<KantoRequest>) -> Option<RequestV> {
    match r {
        Option::Some(req) => Option::Some(req@),
        Option::None => Option::None,
    }
}

/// An optional result as the contracts see it.
pub open spec fn response_opt_view(r: Option<KantoResponse>) -> Option<ResponseV> {
    match r {
        Option::Some(resp) => Option::Some(resp@),
        Option::None => Option::None,
    }
}

} // verus!
