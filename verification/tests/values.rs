//! The plain values of the library: the record, its wire form, the address
//! and the states of the service.

use backend::health::{health_handler, health_payload};
use backend::startup::{bind_address, BindOutcome, ServerState};

#[test]
fn the_record_reports_ok() {
    assert_eq!(health_handler().status, "ok");
}

#[test]
fn the_record_is_the_same_on_every_call() {
    let first = health_handler();
    let second = health_handler();
    assert_eq!(first.status, second.status);
}

#[test]
fn the_record_as_json_has_one_member() {
    assert_eq!(health_handler().to_json(), "{\"status\":\"ok\"}");
    assert_eq!(health_handler().to_json().len(), 15);
}

#[test]
fn the_payload_is_json() {
    let payload = health_payload();
    assert_eq!(payload.content_type, "application/json");
    assert_eq!(payload.body, "{\"status\":\"ok\"}");
    assert_eq!(payload.body.as_bytes(), b"{\"status\":\"ok\"}");
}

#[test]
fn the_service_binds_every_interface_on_8080() {
    let addr = bind_address();
    assert_eq!(addr.octets, [0, 0, 0, 0]);
    assert_eq!(addr.port, 8080);
}

#[test]
fn a_bound_listener_starts_serving() {
    assert_eq!(ServerState::Starting.after_bind(BindOutcome::Bound), ServerState::Serving);
}

#[test]
fn a_failed_bind_ends_the_service() {
    assert_eq!(ServerState::Starting.after_bind(BindOutcome::Failed), ServerState::Terminated);
}

#[test]
fn a_serving_service_stays_serving() {
    assert_eq!(ServerState::Serving.after_bind(BindOutcome::Bound), ServerState::Serving);
    assert_eq!(ServerState::Serving.after_bind(BindOutcome::Failed), ServerState::Serving);
}

#[test]
fn an_ended_service_stays_ended() {
    assert_eq!(ServerState::Terminated.after_bind(BindOutcome::Bound), ServerState::Terminated);
    assert_eq!(ServerState::Terminated.after_bind(BindOutcome::Failed), ServerState::Terminated);
}
