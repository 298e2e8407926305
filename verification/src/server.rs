//! The server bootstrap and connection-to-handler binding layer.
//!
//! `GraphQLServer` owns the shared query backend and the node identity.
//! `serve` classifies the outcome of binding a listener: a refusal becomes a
//! typed `GraphQLServeError` and no task exists; a successful bind yields a
//! `ServerTask`, the state of the long-running listening task. The task is
//! immutable: every event it reacts to — a connection accepted, a connection
//! that failed while being served, the listener itself failing — is answered
//! by a directive computed from that fixed state, so no connection can
//! disturb another and no per-connection failure can stop the listener.
//!
//! The binding and accepting themselves are operating-system work and live
//! with the caller, who feeds their outcomes in as `BindOutcome` and
//! `ConnectionEvent` values and carries out the returned directives.

use crate::errors::BindCause;
use crate::errors::GraphQLServeError;
use crate::identity::NodeId;
use crate::logging::LogLevel;
use crate::logging::Logger;
use crate::logging::LoggerFactory;
use crate::logging::ComponentLoggerConfig;
use crate::logging::ElasticComponentLoggerConfig;
use crate::logging::server_error_record;
use std::sync::Arc;
use vstd::prelude::*;

verus! {

/// The address a listener is asked to bind: the fixed wildcard IPv4 address
/// and a caller-supplied port.
#[derive(Clone, Copy, Debug, PartialEq, Eq, Structural)]
pub struct BindTarget {
    pub octet0: u8,
    pub octet1: u8,
    pub octet2: u8,
    pub octet3: u8,
    pub port: u16,
}

/// The bind target for `port`: the wildcard address, every octet zero.
pub fn bind_target(port: u16) -> (t: BindTarget)
    ensures
        t.octet0 == 0 && t.octet1 == 0 && t.octet2 == 0 && t.octet3 == 0,
        t.port == port,
{
    BindTarget { octet0: 0, octet1: 0, octet2: 0, octet3: 0, port }
}

/// What binding the listener came to: bound, or refused with a classified
/// cause.
#[derive(Clone, Copy, Debug, PartialEq, Eq, Structural)]
pub enum BindOutcome {
    Bound,
    Refused(BindCause),
}

/// Per-connection unit of request processing: a clone of the server's
/// logger, a shared reference to the backend, the secondary port, and a copy
/// of the node identity. Built afresh for each accepted connection; destroyed
/// when the connection closes.
#[derive(Debug)]
pub struct ConnectionHandler<Q> {
    pub logger: Logger,
    pub graphql_runner: Arc<Q>,
    pub ws_port: u16,
    pub node_id: NodeId,
}

impl<Q> ConnectionHandler<Q> {
    /// The connection handler factory: pure construction, no blocking, no
    /// failure path.
    pub fn new(logger: Logger, graphql_runner: Arc<Q>, ws_port: u16, node_id: NodeId) -> (h:
        ConnectionHandler<Q>)
        ensures
            h.logger == logger,
            h.graphql_runner == graphql_runner,
            h.ws_port == ws_port,
            h.node_id == node_id,
    {
        ConnectionHandler { logger, graphql_runner, ws_port, node_id }
    }
}

/// State of the long-running listening task a successful `serve` returns.
/// Immutable for the task's whole lifetime.
#[derive(Debug)]
pub struct ServerTask<Q> {
    pub logger: Logger,
    pub graphql_runner: Arc<Q>,
    pub port: u16,
    pub ws_port: u16,
    pub node_id: NodeId,
}

/// The handler a task dispatches for an accepted connection: built from the
/// task's own immutable state and nothing else.
pub open spec fn spec_handler<Q>(t: ServerTask<Q>) -> ConnectionHandler<Q> {
    ConnectionHandler {
        logger: t.logger,
        graphql_runner: t.graphql_runner,
        ws_port: t.ws_port,
        node_id: t.node_id,
    }
}

/// An event the listening task reacts to.
#[derive(Debug)]
pub enum ConnectionEvent {
    /// A new connection was accepted.
    Accepted,
    /// Serving one connection failed, with the failure's text.
    ConnectionFailed(String),
    /// The listener itself failed irrecoverably, with the failure's text.
    ListenerFailed(String),
}

/// What the task asks its caller to do in reaction to an event.
#[derive(Debug)]
pub enum TaskDirective<Q> {
    /// Drive the connection with this fresh handler.
    Dispatch(ConnectionHandler<Q>),
    /// Emit this record and keep listening.
    LogAndContinue(crate::logging::LogRecord),
    /// Emit this record and let the task complete.
    LogAndStop(crate::logging::LogRecord),
}

/// The shape of a directive, with the payload abstracted away.
#[derive(Clone, Copy, Debug, PartialEq, Eq, Structural)]
pub enum DirectiveKind {
    Dispatch,
    LogAndContinue,
    LogAndStop,
}

pub open spec fn directive_kind<Q>(d: TaskDirective<Q>) -> DirectiveKind {
    match d {
        TaskDirective::Dispatch(_) => DirectiveKind::Dispatch,
        TaskDirective::LogAndContinue(_) => DirectiveKind::LogAndContinue,
        TaskDirective::LogAndStop(_) => DirectiveKind::LogAndStop,
    }
}

/// Which shape of directive each event is answered with: acceptance
/// dispatches a handler, a per-connection failure is logged and survived,
/// only a listener failure ends the task.
pub open spec fn spec_step_kind(event: ConnectionEvent) -> DirectiveKind {
    match event {
        ConnectionEvent::Accepted => DirectiveKind::Dispatch,
        ConnectionEvent::ConnectionFailed(_) => DirectiveKind::LogAndContinue,
        ConnectionEvent::ListenerFailed(_) => DirectiveKind::LogAndStop,
    }
}

impl<Q> ServerTask<Q> {
    /// One fresh handler for one accepted connection, wired to the shared
    /// backend, the secondary port, the node identity, and a clone of the
    /// task's logger.
    pub fn make_handler(&self) -> (h: ConnectionHandler<Q>)
        ensures
            h == spec_handler(*self),
    {
        ConnectionHandler::new(
            self.logger.clone(),
            clone_backend(&self.graphql_runner),
            self.ws_port,
            self.node_id.clone(),
        )
    }

    /// React to one event of the listening task's life. The task itself is
    /// read-only here: no event changes its state.
    pub fn step(&self, event: ConnectionEvent) -> (d: TaskDirective<Q>)
        ensures
            directive_kind(d) == spec_step_kind(event),
            event is Accepted ==> d == TaskDirective::Dispatch(spec_handler(*self)),
            event matches ConnectionEvent::ConnectionFailed(txt) ==> (d matches
                TaskDirective::LogAndContinue(r) && r.level == LogLevel::Error && r.message@
                == "Server error"@ && r.error == Some(txt)),
            event matches ConnectionEvent::ListenerFailed(txt) ==> (d matches
                TaskDirective::LogAndStop(r) && r.level == LogLevel::Error && r.message@
                == "Server error"@ && r.error == Some(txt)),
    {
        match event {
            ConnectionEvent::Accepted => TaskDirective::Dispatch(self.make_handler()),
            ConnectionEvent::ConnectionFailed(txt) => TaskDirective::LogAndContinue(
                server_error_record(txt),
            ),
            ConnectionEvent::ListenerFailed(txt) => TaskDirective::LogAndStop(
                server_error_record(txt),
            ),
        }
    }
}

/// A GraphQL server: the owner of the shared query backend and the node
/// identity, and the maker of listening tasks.
#[derive(Debug)]
pub struct GraphQLServer<Q> {
    pub logger: Logger,
    pub graphql_runner: Arc<Q>,
    pub node_id: NodeId,
}

/// What `serve` returns, as a function of the server state, the ports, and
/// the bind outcome: a refusal is surfaced as a typed bind error and no task;
/// a successful bind yields the task state, carrying the server's own
/// logger, backend and identity and the two ports.
pub open spec fn spec_serve<Q>(
    s: GraphQLServer<Q>,
    port: u16,
    ws_port: u16,
    bind: BindOutcome,
) -> Result<ServerTask<Q>, GraphQLServeError> {
    match bind {
        BindOutcome::Refused(c) => Result::Err(GraphQLServeError::BindError(c)),
        BindOutcome::Bound => Result::Ok(
            ServerTask {
                logger: s.logger,
                graphql_runner: s.graphql_runner,
                port,
                ws_port,
                node_id: s.node_id,
            },
        ),
    }
}

impl<Q> GraphQLServer<Q> {
    /// Creates a new GraphQL server: stores the backend and identity and asks
    /// the factory for this component's logger, tagged "GraphQLServer" and
    /// configured with the "graphql-server-logs" index. No failure path.
    pub fn new(logger_factory: &LoggerFactory, graphql_runner: Arc<Q>, node_id: NodeId) -> (s:
        GraphQLServer<Q>)
        ensures
            s.logger.component@ == "GraphQLServer"@,
            s.logger.elastic_index matches Some(ix) && ix@ == "graphql-server-logs"@,
            s.graphql_runner == graphql_runner,
            s.node_id == node_id,
    {
        let logger = logger_factory.component_logger(
            "GraphQLServer",
            Option::Some(
                ComponentLoggerConfig {
                    elastic: Option::Some(
                        ElasticComponentLoggerConfig {
                            index: "graphql-server-logs".to_owned(),
                        },
                    ),
                },
            ),
        );
        GraphQLServer { logger, graphql_runner, node_id }
    }

    /// Classify the outcome of binding a listener to the wildcard address on
    /// `port`. A refusal fails immediately with `BindError` and produces no
    /// task; a successful bind yields the listening task, with `ws_port`
    /// passed through verbatim for every handler the task will make.
    pub fn serve(&self, port: u16, ws_port: u16, bind: BindOutcome) -> (r: Result<
        ServerTask<Q>,
        GraphQLServeError,
    >)
        ensures
            r == spec_serve(*self, port, ws_port, bind),
    {
        match bind {
            BindOutcome::Refused(c) => Result::Err(GraphQLServeError::BindError(c)),
            BindOutcome::Bound => {
                Result::Ok(
                    ServerTask {
                        logger: self.logger.clone(),
                        graphql_runner: clone_backend(&self.graphql_runner),
                        port,
                        ws_port,
                        node_id: self.node_id.clone(),
                    },
                )
            },
        }
    }
}

/// Relies on `Arc::clone` from std: the clone points to the same allocation,
/// so it denotes the same backend value.
#[verifier::external_body]
fn clone_backend<Q>(backend: &Arc<Q>) -> (r: Arc<Q>)
    ensures
        r == *backend,
{
    Arc::clone(backend)
}

/// Law: a refused bind deterministically yields `BindError` carrying the
/// refused cause, and produces no task — on every attempt, whatever the
/// server state or the ports. In particular, a second bind to a port that is
/// still occupied fails exactly as the first did.
pub proof fn lemma_bind_refusal_deterministic<Q>(
    s1: GraphQLServer<Q>,
    s2: GraphQLServer<Q>,
    port1: u16,
    port2: u16,
    ws1: u16,
    ws2: u16,
    c: BindCause,
)
    ensures
        spec_serve(s1, port1, ws1, BindOutcome::Refused(c)) == Result::<
            ServerTask<Q>,
            GraphQLServeError,
        >::Err(GraphQLServeError::BindError(c)),
        spec_serve(s1, port1, ws1, BindOutcome::Refused(c)) == spec_serve(
            s2,
            port2,
            ws2,
            BindOutcome::Refused(c),
        ),
        !(spec_serve(s1, port1, ws1, BindOutcome::Refused(c)) is Ok),
{
}

/// Law: connection isolation — the handlers dispatched for any two accepted
/// connections are built from the task's own immutable state and nothing
/// else, so they are equal in content, and the only state they have in
/// common is the shared backend handle itself.
pub proof fn lemma_handlers_independent<Q>(
    t: ServerTask<Q>,
    h1: ConnectionHandler<Q>,
    h2: ConnectionHandler<Q>,
)
    requires
        h1 == spec_handler(t),
        h2 == spec_handler(t),
    ensures
        h1 == h2,
        h1.logger == t.logger,
        h1.graphql_runner == t.graphql_runner,
        h1.ws_port == t.ws_port,
        h1.node_id == t.node_id,
{
}

/// Law: failure containment — a failure raised while serving one connection
/// is answered by log-and-continue, never by a stop, and the task's state is
/// untouched by it, so a connection accepted afterwards is dispatched the
/// same fresh handler as one accepted before. Only a failure of the listener
/// itself ends the task.
pub proof fn lemma_connection_failure_contained(failure_text: String)
    ensures
        spec_step_kind(ConnectionEvent::ConnectionFailed(failure_text)) == DirectiveKind::LogAndContinue,
        spec_step_kind(ConnectionEvent::ConnectionFailed(failure_text)) != DirectiveKind::LogAndStop,
        spec_step_kind(ConnectionEvent::Accepted) == DirectiveKind::Dispatch,
{
}

/// Law: the logger cloned into each connection handler carries exactly the
/// configuration — component tag and sink index — of the server bootstrap's
/// own logger.
pub proof fn lemma_logger_config_shared<Q>(
    s: GraphQLServer<Q>,
    port: u16,
    ws_port: u16,
    t: ServerTask<Q>,
)
    requires
        spec_serve(s, port, ws_port, BindOutcome::Bound) == Result::<
            ServerTask<Q>,
            GraphQLServeError,
        >::Ok(t),
    ensures
        spec_handler(t).logger == s.logger,
        t.logger == s.logger,
{
}

/// Law: every handler a task can ever dispatch references the exact backend
/// handle and node identity its server state holds, and the secondary port
/// `serve` was given, unchanged for the task's entire lifetime.
pub proof fn lemma_handler_references_construction<Q>(
    s: GraphQLServer<Q>,
    port: u16,
    ws_port: u16,
    t: ServerTask<Q>,
)
    requires
        spec_serve(s, port, ws_port, BindOutcome::Bound) == Result::<
            ServerTask<Q>,
            GraphQLServeError,
        >::Ok(t),
    ensures
        spec_handler(t).graphql_runner == s.graphql_runner,
        spec_handler(t).node_id == s.node_id,
        spec_handler(t).ws_port == ws_port,
{
}

} // verus!
