//! The server's lifecycle state machine and its per-datagram pipeline.
//!
//! The core decides; the hosting process acts. Each lifecycle call returns
//! the action the host must perform (bind a socket, wait for the receive
//! loop to exit, or nothing), and the host reports the outcome back through
//! the `on_*` calls. The per-datagram pipeline — decode, dispatch, encode —
//! is [`UdpServer::handle_message`], a pure function from the received text
//! to the reply text.

use vstd::prelude::*;

use crate::dispatcher::RequestDispatcher;
use crate::error::{
    handler_error_message, invalid_request_message, UdpRequestHandlerError,
    UdpRequestHandlerErrorView,
};
use crate::handler::UdpRequestHandler;
use crate::request::{decode_msg, selector_of, UdpRequest};
use crate::response::{serialize_response, Status, UdpResponse};

verus! {

/// Where the server stands in its lifecycle.
#[derive(Debug, Clone, Copy, PartialEq, Eq, Structural)]
pub enum ServerState {
    Stopped,
    Starting,
    Running,
    Stopping,
}

/// What the host must do after a start call.
#[derive(Debug, Clone, Copy, PartialEq, Eq, Structural)]
pub enum StartAction {
    /// Bind the datagram socket to this port on all interfaces, then report
    /// the outcome through `on_bound` or `on_bind_failed`.
    Bind { port: u16 },
    /// Nothing: a receive loop is already under way.
    AlreadyRunning,
}

/// What the host must do after a stop call.
#[derive(Debug, Clone, Copy, PartialEq, Eq, Structural)]
pub enum StopAction {
    /// Wait until the receive loop has fully exited, then report it through
    /// `on_loop_exit`.
    AwaitLoopExit,
    /// Nothing: the server was never started, or has already stopped.
    AlreadyStopped,
}

/// The lifecycle step a start call takes: only a stopped server begins
/// starting and asks for a bind; any other state is left as it is.
pub open spec fn start_transition(s: ServerState, port: u16) -> (ServerState, StartAction) {
    if s == ServerState::Stopped {
        (ServerState::Starting, StartAction::Bind { port })
    } else {
        (s, StartAction::AlreadyRunning)
    }
}

/// The lifecycle step a stop call takes: a stopped server is left alone;
/// any other state begins stopping and the caller waits for the loop.
pub open spec fn stop_transition(s: ServerState) -> (ServerState, StopAction) {
    if s == ServerState::Stopped {
        (s, StopAction::AlreadyStopped)
    } else {
        (ServerState::Stopping, StopAction::AwaitLoopExit)
    }
}

/// The mathematical shape of a [`UdpServer`].
pub struct UdpServerView<H> {
    pub state: ServerState,
    pub handlers: Map<Seq<char>, H>,
}

/// A server: the registry of request handlers together with the lifecycle
/// state of the one receive loop.
pub struct UdpServer<H> {
    state: ServerState,
    dispatcher: RequestDispatcher<H>,
}

impl<H> View for UdpServer<H> {
    type V = UdpServerView<H>;

    closed spec fn view(&self) -> UdpServerView<H> {
        UdpServerView { state: self.state, handlers: self.dispatcher@ }
    }
}

/// Whether `reply` is the reply text that the pipeline owes for `msg`
/// against the registry `handlers`. A message that does not decode is
/// answered with the decode diagnostic as a bad request; a decoded request
/// with no handler under its selector is answered with the missing-handler
/// diagnostic as a bad request; otherwise the handler registered under that
/// exact selector decides: the reply encodes an outcome its call admits for
/// this request — the outcome's value unchanged as a success, or the
/// outcome's read failure's diagnostic as an internal server error.
pub open spec fn reply_for_message<H: UdpRequestHandler>(
    handlers: Map<Seq<char>, H>,
    msg: Seq<char>,
    reply: Seq<char>,
) -> bool {
    match decode_msg(msg) {
        Err(e) => reply == serialize_response(Status::BadRequest, invalid_request_message(e)),
        Ok(m) => {
            let sel = selector_of(m.request_type, m.operation, m.data_type);
            if !handlers.contains_key(sel) {
                reply == serialize_response(
                    Status::BadRequest,
                    handler_error_message(
                        UdpRequestHandlerErrorView::NoHandlerImplFound { request: m },
                    ),
                )
            } else {
                exists|req: UdpRequest, outcome: Result<String, UdpRequestHandlerError>|
                    {
                        &&& req@ == m
                        &&& #[trigger] call_ensures(H::handle, (&handlers[sel], req), outcome)
                        &&& reply == (match outcome {
                            Ok(body) => serialize_response(Status::Okay, body@),
                            Err(e) => serialize_response(
                                Status::InternalServerError,
                                handler_error_message(e@),
                            ),
                        })
                    }
            }
        },
    }
}

impl<H: UdpRequestHandler> UdpServer<H> {
    /// A stopped server that will dispatch through the given registry.
    pub fn new(dispatcher: RequestDispatcher<H>) -> (r: Self)
        ensures
            r@.state == ServerState::Stopped,
            r@.handlers == dispatcher@,
    {
        UdpServer { state: ServerState::Stopped, dispatcher }
    }

    /// Where the server stands in its lifecycle.
    pub fn state(&self) -> (s: ServerState)
        ensures
            s == self@.state,
    {
        self.state
    }

    /// The host reports that the bind asked for by a start call succeeded:
    /// the receive loop is now running.
    pub fn on_bound(&mut self)
        requires
            old(self)@.state == ServerState::Starting,
        ensures
            final(self)@.state == ServerState::Running,
            final(self)@.handlers == old(self)@.handlers,
    {
        self.state = ServerState::Running;
    }

    /// The host reports that the bind failed: the start attempt is over and
    /// the server is stopped again, without affecting the hosting process.
    pub fn on_bind_failed(&mut self)
        requires
            old(self)@.state == ServerState::Starting,
        ensures
            final(self)@.state == ServerState::Stopped,
            final(self)@.handlers == old(self)@.handlers,
    {
        self.state = ServerState::Stopped;
    }

    /// The host reports that the receive loop has fully exited after a stop
    /// call: the server may be started again.
    pub fn on_loop_exit(&mut self)
        requires
            old(self)@.state == ServerState::Stopping,
        ensures
            final(self)@.state == ServerState::Stopped,
            final(self)@.handlers == old(self)@.handlers,
    {
        self.state = ServerState::Stopped;
    }

    /// Whether the receive loop should take another receive cycle. The loop
    /// re-checks this after every received datagram and every receive
    /// timeout, so a stop request is observed within one timeout interval.
    pub fn should_continue(&self) -> (b: bool)
        ensures
            b == (self@.state == ServerState::Running),
    {
        match self.state {
            ServerState::Running => true,
            _ => false,
        }
    }

    /// Route a decoded request through the registry, as
    /// [`RequestDispatcher::dispatch`] does: when a handler is registered
    /// under the request's selector, the result is an outcome that a call
    /// of that handler admits, handed back unchanged.
    pub fn handle_request(&self, request: UdpRequest) -> (r: Result<String, UdpRequestHandlerError>)
        ensures
            ({
                let sel = selector_of(request@.request_type, request@.operation, request@.data_type);
                &&& match r {
                    Ok(_) => self@.handlers.contains_key(sel),
                    Err(e) => match e@ {
                        UdpRequestHandlerErrorView::NoHandlerImplFound { request: rq } => {
                            &&& !self@.handlers.contains_key(sel)
                            &&& rq == request@
                        },
                        UdpRequestHandlerErrorView::DataRefReadError { .. } => self@.handlers
                            .contains_key(sel),
                    },
                }
                &&& self@.handlers.contains_key(sel) ==> call_ensures(
                    H::handle,
                    (&self@.handlers[sel], request),
                    r,
                )
            }),
    {
        self.dispatcher.dispatch(request)
    }

    /// The per-datagram pipeline: decode the received text, dispatch the
    /// request, and encode the reply to send back to the sender.
    pub fn handle_message(&self, message: &str) -> (reply: String)
        ensures
            reply_for_message(self@.handlers, message@, reply@),
    {
        match UdpRequest::new(message.to_owned()) {
            Err(e) => {
                let diagnostic = e.message();
                UdpResponse::error(Status::BadRequest, diagnostic).serialize()
            },
            Ok(request) => {
                let ghost req = request;
                let ghost sel = selector_of(
                    request@.request_type,
                    request@.operation,
                    request@.data_type,
                );
                let outcome = self.handle_request(request);
                let ghost oc = outcome;
                match outcome {
                    Ok(body) => {
                        proof {
                            assert(oc == Ok::<String, UdpRequestHandlerError>(body));
                        }
                        let ghost b = body@;
                        let reply = UdpResponse::ok(body).serialize();
                        proof {
                            assert(reply@ == serialize_response(Status::Okay, b));
                            assert(call_ensures(H::handle, (&self@.handlers[sel], req), oc));
                        }
                        reply
                    },
                    Err(e) => {
                        proof {
                            assert(oc == Err::<String, UdpRequestHandlerError>(e));
                        }
                        let ghost ev = e@;
                        let status = match &e {
                            UdpRequestHandlerError::NoHandlerImplFound { .. } => Status::BadRequest,
                            UdpRequestHandlerError::DataRefReadError { .. } =>
                                Status::InternalServerError,
                        };
                        let diagnostic = e.message();
                        let reply = UdpResponse::error(status, diagnostic).serialize();
                        proof {
                            match ev {
                                UdpRequestHandlerErrorView::NoHandlerImplFound { .. } => {},
                                UdpRequestHandlerErrorView::DataRefReadError { .. } => {
                                    assert(reply@ == serialize_response(
                                        Status::InternalServerError,
                                        handler_error_message(ev),
                                    ));
                                    assert(call_ensures(
                                        H::handle,
                                        (&self@.handlers[sel], req),
                                        oc,
                                    ));
                                },
                            }
                        }
                        reply
                    },
                }
            },
        }
    }
}

/// Bind `selector` to `handler` in the server's registry, adding or
/// replacing that one binding.
pub fn register_request_handler<H: UdpRequestHandler>(
    server: &mut UdpServer<H>,
    selector: String,
    handler: H,
)
    ensures
        final(server)@.state == old(server)@.state,
        final(server)@.handlers == old(server)@.handlers.insert(selector@, handler),
{
    server.dispatcher.register(selector, handler);
}

/// Ask the server to start its receive loop on `port`. Only a stopped
/// server begins starting, and the returned action tells the host to bind;
/// a server already starting or running is left exactly as it is, so a
/// second start without an intervening stop never creates a second loop.
pub fn start<H: UdpRequestHandler>(server: &mut UdpServer<H>, port: u16) -> (a: StartAction)
    ensures
        (final(server)@.state, a) == start_transition(old(server)@.state, port),
        final(server)@.handlers == old(server)@.handlers,
{
    match server.state {
        ServerState::Stopped => {
            server.state = ServerState::Starting;
            StartAction::Bind { port }
        },
        _ => StartAction::AlreadyRunning,
    }
}

/// Ask the server to stop. Stopping a server that was never started, or
/// has already stopped, is a safe no-op; otherwise the receive loop begins
/// stopping and the caller waits for it to exit before the stop is
/// complete.
pub fn stop_udp_server<H: UdpRequestHandler>(server: &mut UdpServer<H>) -> (a: StopAction)
    ensures
        (final(server)@.state, a) == stop_transition(old(server)@.state),
        final(server)@.handlers == old(server)@.handlers,
{
    match server.state {
        ServerState::Stopped => StopAction::AlreadyStopped,
        _ => {
            server.state = ServerState::Stopping;
            StopAction::AwaitLoopExit
        },
    }
}

/// Start/stop symmetry of the lifecycle: stopping a never-started server
/// changes nothing, a stopped server's start asks for exactly one bind,
/// and a start in any other state — a second start without an intervening
/// stop among them — leaves the server as it is, so exactly one receive
/// loop ever runs.
pub proof fn lemma_start_stop_symmetry()
    ensures
        stop_transition(ServerState::Stopped) == (ServerState::Stopped, StopAction::AlreadyStopped),
        forall|port: u16|
            #[trigger] start_transition(ServerState::Stopped, port) == (
                ServerState::Starting,
                StartAction::Bind { port },
            ),
        forall|s: ServerState, port: u16|
            s != ServerState::Stopped ==> #[trigger] start_transition(s, port) == (
                s,
                StartAction::AlreadyRunning,
            ),
{
}

} // verus!
