use kantocurses::containers::{Container, Image, State};
use kantocurses::messages::{KantoRequest, KantoResponse};
use kantocurses::worker::{outcome_to_response, request_to_call, BackendCall, CallOutcome};

fn cont(id: &str) -> Container {
    Container {
        id: id.to_string(),
        name: format!("name-{}", id),
        image: Some(Image { name: format!("img-{}", id) }),
        state: Some(State { status: "Running".to_string() }),
    }
}

#[test]
fn list_request_dispatches_to_list_call() {
    match request_to_call(&KantoRequest::ListContainers) {
        BackendCall::List => {}
        _ => panic!("a list request must dispatch to the list call"),
    }
}

#[test]
fn create_request_carries_name_and_registry() {
    let req = KantoRequest::CreateContainer("web".to_string(), "registry/img:1".to_string());
    match request_to_call(&req) {
        BackendCall::Create { name, registry } => {
            assert_eq!(name, "web");
            assert_eq!(registry, "registry/img:1");
        }
        _ => panic!("a create request must dispatch to the create call"),
    }
}

#[test]
fn stop_request_carries_grace_period_and_sigterm_policy() {
    let req = KantoRequest::StopContainer("x".to_string(), 5);
    match request_to_call(&req) {
        BackendCall::Stop { id, timeout, force, signal } => {
            assert_eq!(id, "x");
            assert_eq!(timeout, 5);
            assert!(force);
            assert_eq!(signal, "SIGTERM");
        }
        _ => panic!("a stop request must dispatch to the stop call"),
    }
}

#[test]
fn remove_request_carries_force_flag() {
    let req = KantoRequest::RemoveContainer("x".to_string(), true);
    match request_to_call(&req) {
        BackendCall::Remove { id, force } => {
            assert_eq!(id, "x");
            assert!(force);
        }
        _ => panic!("a remove request must dispatch to the remove call"),
    }
}

#[test]
fn logs_request_reads_out_of_band() {
    let req = KantoRequest::GetLogs("x".to_string());
    match request_to_call(&req) {
        BackendCall::ReadLogs { id } => assert_eq!(id, "x"),
        _ => panic!("a logs request must dispatch to the log read"),
    }
}

#[test]
fn successful_listing_is_published() {
    let req = KantoRequest::ListContainers;
    let outcome = CallOutcome::Listing(vec![cont("a"), cont("b")]);
    match outcome_to_response(&req, outcome) {
        Some(KantoResponse::ListContainers(items)) => {
            assert_eq!(items.len(), 2);
            assert_eq!(items[0].id, "a");
            assert_eq!(items[1].id, "b");
        }
        _ => panic!("a successful listing must be published"),
    }
}

#[test]
fn failed_listing_is_absorbed() {
    let req = KantoRequest::ListContainers;
    assert!(outcome_to_response(&req, CallOutcome::CallFailed).is_none());
}

#[test]
fn successful_mutation_publishes_nothing() {
    let req = KantoRequest::StartContainer("x".to_string());
    assert!(outcome_to_response(&req, CallOutcome::Done).is_none());
}

#[test]
fn failed_mutation_is_absorbed() {
    let req = KantoRequest::StopContainer("x".to_string(), 5);
    assert!(outcome_to_response(&req, CallOutcome::CallFailed).is_none());
}

#[test]
fn log_text_is_published() {
    let req = KantoRequest::GetLogs("x".to_string());
    match outcome_to_response(&req, CallOutcome::LogText("hello".to_string())) {
        Some(KantoResponse::GetLogs(text)) => assert_eq!(text, "hello"),
        _ => panic!("fetched log text must be published"),
    }
}

#[test]
fn unreadable_logs_surface_a_fixed_message() {
    let req = KantoRequest::GetLogs("x".to_string());
    match outcome_to_response(&req, CallOutcome::LogsUnavailable) {
        Some(KantoResponse::GetLogs(text)) => assert_eq!(text, "Could not obtain logs"),
        _ => panic!("an unreadable log file must surface the fixed message"),
    }
}
