use graphql_server::errors::BindCause;
use graphql_server::errors::GraphQLServeError;
use graphql_server::identity::NodeId;
use graphql_server::logging::ComponentLoggerConfig;
use graphql_server::logging::ElasticComponentLoggerConfig;
use graphql_server::logging::LogLevel;
use graphql_server::logging::Logger;
use graphql_server::logging::LoggerFactory;
use graphql_server::logging::startup_record;
use graphql_server::logging::server_error_record;
use graphql_server::server::bind_target;
use graphql_server::server::BindOutcome;
use graphql_server::server::ConnectionEvent;
use graphql_server::server::GraphQLServer;
use graphql_server::server::TaskDirective;
use graphql_server::text::decimal_string;
use std::sync::Arc;

fn root_logger() -> Logger {
    Logger {
        component: String::from("root"),
        elastic_index: None,
    }
}

fn test_server(backend: &str, node: &str) -> GraphQLServer<String> {
    let factory = LoggerFactory::new(root_logger());
    GraphQLServer::new(
        &factory,
        Arc::new(String::from(backend)),
        NodeId::new(String::from(node)),
    )
}

#[test]
fn bind_refusal_twice_yields_bind_failure_and_no_task() {
    let server = test_server("backend-b", "node-n");
    let first = server.serve(4000, 4001, BindOutcome::Refused(BindCause::AddressInUse));
    let second = server.serve(4000, 4001, BindOutcome::Refused(BindCause::AddressInUse));
    assert_eq!(
        first.as_ref().err(),
        Some(&GraphQLServeError::BindError(BindCause::AddressInUse))
    );
    assert_eq!(
        second.as_ref().err(),
        Some(&GraphQLServeError::BindError(BindCause::AddressInUse))
    );
    assert!(first.is_err());
    assert!(second.is_err());
}

#[test]
fn bind_port_zero_succeeds_and_occupied_port_fails() {
    let server = test_server("backend-b", "node-n");
    let bound = server.serve(0, 4001, BindOutcome::Bound);
    match bound {
        Ok(task) => {
            assert_eq!(task.port, 0);
            assert_eq!(task.ws_port, 4001);
        }
        Err(_) => panic!("bind to port 0 must yield a task"),
    }
    let refused = server.serve(8000, 4001, BindOutcome::Refused(BindCause::AddressInUse));
    match refused {
        Ok(_) => panic!("bind to an occupied port must not yield a task"),
        Err(e) => assert_eq!(e, GraphQLServeError::BindError(BindCause::AddressInUse)),
    }
}

#[test]
fn handlers_are_structurally_independent() {
    let server = test_server("backend-b", "node-n");
    let task = server.serve(4000, 4001, BindOutcome::Bound).unwrap();
    let mut first = task.make_handler();
    let second = task.make_handler();
    assert_eq!(first.logger, second.logger);
    assert_eq!(first.node_id, second.node_id);
    assert_eq!(first.ws_port, second.ws_port);
    // Mutating one handler's local state is invisible to the other.
    first.ws_port = 9999;
    first.logger.component.push_str("-mutated");
    assert_eq!(second.ws_port, 4001);
    assert_eq!(second.logger.component, "GraphQLServer");
    // The backend handle is the one piece of genuinely shared state.
    assert!(Arc::ptr_eq(&first.graphql_runner, &second.graphql_runner));
    assert!(Arc::ptr_eq(&first.graphql_runner, &task.graphql_runner));
}

#[test]
fn connection_failure_is_logged_and_next_connection_is_served() {
    let server = test_server("backend-b", "node-n");
    let task = server.serve(4000, 4001, BindOutcome::Bound).unwrap();
    let failed = task.step(ConnectionEvent::ConnectionFailed(String::from("boom")));
    match failed {
        TaskDirective::LogAndContinue(record) => {
            assert_eq!(record.level, LogLevel::Error);
            assert_eq!(record.message, "Server error");
            assert_eq!(record.error.as_deref(), Some("boom"));
        }
        _ => panic!("a per-connection failure must log and continue"),
    }
    let next = task.step(ConnectionEvent::Accepted);
    match next {
        TaskDirective::Dispatch(handler) => {
            assert_eq!(handler.logger.component, "GraphQLServer");
            assert_eq!(handler.ws_port, 4001);
            assert_eq!(handler.node_id.name, "node-n");
        }
        _ => panic!("an accepted connection must be dispatched a handler"),
    }
}

#[test]
fn listener_failure_stops_the_task() {
    let server = test_server("backend-b", "node-n");
    let task = server.serve(4000, 4001, BindOutcome::Bound).unwrap();
    let stopped = task.step(ConnectionEvent::ListenerFailed(String::from("socket revoked")));
    match stopped {
        TaskDirective::LogAndStop(record) => {
            assert_eq!(record.level, LogLevel::Error);
            assert_eq!(record.message, "Server error");
            assert_eq!(record.error.as_deref(), Some("socket revoked"));
        }
        _ => panic!("a listener failure must log and stop"),
    }
}

#[test]
fn handler_logger_carries_the_bootstrap_configuration() {
    let server = test_server("backend-b", "node-n");
    assert_eq!(server.logger.component, "GraphQLServer");
    assert_eq!(server.logger.elastic_index.as_deref(), Some("graphql-server-logs"));
    let task = server.serve(4000, 4001, BindOutcome::Bound).unwrap();
    let handler = task.make_handler();
    assert_eq!(handler.logger, server.logger);
    assert_eq!(handler.logger.component, "GraphQLServer");
    assert_eq!(handler.logger.elastic_index.as_deref(), Some("graphql-server-logs"));
}

#[test]
fn handlers_reference_the_constructed_backend_and_identity() {
    let server = test_server("backend-b", "node-n");
    let task = server.serve(4000, 4001, BindOutcome::Bound).unwrap();
    assert!(Arc::ptr_eq(&task.graphql_runner, &server.graphql_runner));
    for _ in 0..3 {
        let handler = task.make_handler();
        assert!(Arc::ptr_eq(&handler.graphql_runner, &server.graphql_runner));
        assert_eq!(*handler.graphql_runner, "backend-b");
        assert_eq!(handler.node_id.name, "node-n");
        assert_eq!(handler.ws_port, 4001);
    }
}

#[test]
fn startup_record_announces_the_listening_address() {
    let record = startup_record(8000);
    assert_eq!(record.level, LogLevel::Info);
    assert_eq!(record.message, "Starting GraphQL HTTP server at: http://localhost:8000");
    assert_eq!(record.error, None);
}

#[test]
fn server_error_record_carries_the_failure_text() {
    let record = server_error_record(String::from("connection reset"));
    assert_eq!(record.level, LogLevel::Error);
    assert_eq!(record.message, "Server error");
    assert_eq!(record.error.as_deref(), Some("connection reset"));
}

#[test]
fn decimal_rendering_matches_format() {
    assert_eq!(decimal_string(0), "0");
    assert_eq!(decimal_string(7), "7");
    assert_eq!(decimal_string(80), "80");
    assert_eq!(decimal_string(4001), "4001");
    assert_eq!(decimal_string(65535), "65535");
}

#[test]
fn bind_target_is_the_wildcard_address() {
    let target = bind_target(4000);
    assert_eq!(target.octet0, 0);
    assert_eq!(target.octet1, 0);
    assert_eq!(target.octet2, 0);
    assert_eq!(target.octet3, 0);
    assert_eq!(target.port, 4000);
}

#[test]
fn each_bind_cause_describes_itself() {
    assert_eq!(BindCause::AddressInUse.describe(), "address in use");
    assert_eq!(BindCause::PermissionDenied.describe(), "permission denied");
    assert_eq!(BindCause::InvalidAddress.describe(), "invalid address");
    assert_eq!(BindCause::Other.describe(), "network error");
    assert_eq!(
        GraphQLServeError::BindError(BindCause::AddressInUse).describe(),
        "Bind error: address in use"
    );
}

#[test]
fn component_logger_takes_tag_and_index_from_its_arguments() {
    let factory = LoggerFactory::new(root_logger());
    let plain = factory.component_logger("IndexNode", None);
    assert_eq!(plain.component, "IndexNode");
    assert_eq!(plain.elastic_index, None);
    let indexed = factory.component_logger(
        "GraphQLServer",
        Some(ComponentLoggerConfig {
            elastic: Some(ElasticComponentLoggerConfig {
                index: String::from("graphql-server-logs"),
            }),
        }),
    );
    assert_eq!(indexed.component, "GraphQLServer");
    assert_eq!(indexed.elastic_index.as_deref(), Some("graphql-server-logs"));
    let cloned = indexed.clone();
    assert_eq!(cloned, indexed);
}
