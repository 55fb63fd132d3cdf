//! The handler registry and the dispatcher that routes a decoded request to
//! the handler registered under its selector.

use vstd::prelude::*;

use crate::error::{UdpRequestHandlerError, UdpRequestHandlerErrorView};
use crate::handler::UdpRequestHandler;
use crate::request::{
    selector_of, selector_string, RequestDataType, RequestOperation, RequestType, UdpRequest,
};
use crate::table::LookupTable;

verus! {

/// Routes each request to the handler registered under the request's
/// selector. The registry read by [`RequestDispatcher::dispatch`] is always
/// a whole map of complete registrations: [`RequestDispatcher::register`]
/// replaces one binding in a single step, so no lookup can observe a
/// partial update.
pub struct RequestDispatcher<H> {
    request_handlers: LookupTable<H>,
}

impl<H> View for RequestDispatcher<H> {
    type V = Map<Seq<char>, H>;

    closed spec fn view(&self) -> Map<Seq<char>, H> {
        self.request_handlers@
    }
}

/// The registry that [`RequestDispatcher::with_default_handlers`] builds:
/// one handler per supported data type, each under its selector.
pub open spec fn default_registry<H>(
    int_handler: H,
    float_handler: H,
    int_array_handler: H,
    float_array_handler: H,
) -> Map<Seq<char>, H> {
    Map::<Seq<char>, H>::empty().insert(
        selector_of(RequestType::DataRef, RequestOperation::Read, RequestDataType::Int),
        int_handler,
    ).insert(
        selector_of(RequestType::DataRef, RequestOperation::Read, RequestDataType::Float),
        float_handler,
    ).insert(
        selector_of(RequestType::DataRef, RequestOperation::Read, RequestDataType::IntArray),
        int_array_handler,
    ).insert(
        selector_of(RequestType::DataRef, RequestOperation::Read, RequestDataType::FloatArray),
        float_array_handler,
    )
}

impl<H: UdpRequestHandler> RequestDispatcher<H> {
    /// A dispatcher with no registered handlers.
    pub fn new() -> (r: Self)
        ensures
            r@ == Map::<Seq<char>, H>::empty(),
    {
        RequestDispatcher { request_handlers: LookupTable::new() }
    }

    /// A dispatcher pre-registering one handler per supported data type,
    /// each under the selector derived from that type.
    pub fn with_default_handlers(
        int_handler: H,
        float_handler: H,
        int_array_handler: H,
        float_array_handler: H,
    ) -> (r: Self)
        ensures
            r@ == default_registry(
                int_handler,
                float_handler,
                int_array_handler,
                float_array_handler,
            ),
    {
        let mut d = RequestDispatcher::<H>::new();
        d.register(
            selector_string(RequestType::DataRef, RequestOperation::Read, RequestDataType::Int),
            int_handler,
        );
        d.register(
            selector_string(RequestType::DataRef, RequestOperation::Read, RequestDataType::Float),
            float_handler,
        );
        d.register(
            selector_string(RequestType::DataRef, RequestOperation::Read, RequestDataType::IntArray),
            int_array_handler,
        );
        d.register(
            selector_string(
                RequestType::DataRef,
                RequestOperation::Read,
                RequestDataType::FloatArray,
            ),
            float_array_handler,
        );
        d
    }

    /// Bind `selector` to `handler`, adding the binding or replacing the
    /// one already there. The registration is one whole binding: the
    /// registry afterwards is exactly the old registry with this binding
    /// set.
    pub fn register(&mut self, selector: String, handler: H)
        ensures
            final(self)@ == old(self)@.insert(selector@, handler),
    {
        self.request_handlers.insert(selector, handler);
    }

    /// The handler registered under `selector`, by exact match only.
    pub fn resolve(&self, selector: &str) -> (r: Option<&H>)
        ensures
            match r {
                Some(h) => self@.contains_key(selector@) && *h == self@[selector@],
                None => !self@.contains_key(selector@),
            },
    {
        self.request_handlers.get(selector)
    }

    /// Route `request` to the handler registered under its selector.
    /// The dispatch fails with a missing-handler error exactly when no
    /// handler is registered under that selector; otherwise the result —
    /// success value and read failure alike — is an outcome that a call of
    /// the handler registered under that exact selector admits, handed back
    /// unchanged.
    pub fn dispatch(&self, request: UdpRequest) -> (r: Result<String, UdpRequestHandlerError>)
        ensures
            ({
                let sel = selector_of(request@.request_type, request@.operation, request@.data_type);
                &&& match r {
                    Ok(_) => self@.contains_key(sel),
                    Err(e) => match e@ {
                        UdpRequestHandlerErrorView::NoHandlerImplFound { request: rq } => {
                            &&& !self@.contains_key(sel)
                            &&& rq == request@
                        },
                        UdpRequestHandlerErrorView::DataRefReadError { .. } => self@.contains_key(
                            sel,
                        ),
                    },
                }
                &&& self@.contains_key(sel) ==> call_ensures(
                    H::handle,
                    (&self@[sel], request),
                    r,
                )
            }),
    {
        let selector = request.parse_handler_selector();
        match self.request_handlers.get(selector.as_str()) {
            Some(handler) => handler.handle(request),
            None => Err(UdpRequestHandlerError::NoHandlerImplFound { request }),
        }
    }
}

/// Registry reads are isolated from registration: a registration changes
/// the one binding it names and no other, so a resolve that runs before or
/// after it sees a whole registry either way — under the registered
/// selector exactly the new handler afterwards, and under every other
/// selector the same binding as before. There is no registry state between
/// the two.
pub proof fn lemma_registry_read_isolation<H>(
    registry: Map<Seq<char>, H>,
    selector: Seq<char>,
    handler: H,
    other: Seq<char>,
)
    ensures
        registry.insert(selector, handler).contains_key(selector),
        registry.insert(selector, handler)[selector] == handler,
        other != selector ==> registry.insert(selector, handler).contains_key(other)
            == registry.contains_key(other),
        other != selector && registry.contains_key(other) ==> registry.insert(
            selector,
            handler,
        )[other] == registry[other],
{
}

/// Selector determinism of the default registration: the registry built by
/// [`RequestDispatcher::with_default_handlers`] resolves the selector of
/// every request whose components match a pre-registered combination — that
/// is, of every decodable request — and binds no other selector.
pub proof fn lemma_selector_determinism<H>(
    int_handler: H,
    float_handler: H,
    int_array_handler: H,
    float_array_handler: H,
)
    ensures
        forall|t: RequestType, op: RequestOperation, dt: RequestDataType|
            default_registry(
                int_handler,
                float_handler,
                int_array_handler,
                float_array_handler,
            ).contains_key(#[trigger] selector_of(t, op, dt)),
        forall|sel: Seq<char>|
            default_registry(
                int_handler,
                float_handler,
                int_array_handler,
                float_array_handler,
            ).contains_key(sel) ==> exists|t: RequestType, op: RequestOperation, dt: RequestDataType|
                sel == #[trigger] selector_of(t, op, dt),
{
    let m = default_registry(int_handler, float_handler, int_array_handler, float_array_handler);
    assert forall|t: RequestType, op: RequestOperation, dt: RequestDataType|
        m.contains_key(#[trigger] selector_of(t, op, dt)) by {
        match dt {
            RequestDataType::Int => {},
            RequestDataType::Float => {},
            RequestDataType::IntArray => {},
            RequestDataType::FloatArray => {},
        }
    }
    assert forall|sel: Seq<char>| m.contains_key(sel) implies exists|
        t: RequestType,
        op: RequestOperation,
        dt: RequestDataType,
    | sel == #[trigger] selector_of(t, op, dt) by {
        if sel == selector_of(RequestType::DataRef, RequestOperation::Read, RequestDataType::Int) {
            assert(sel == selector_of(
                RequestType::DataRef,
                RequestOperation::Read,
                RequestDataType::Int,
            ));
        } else if sel == selector_of(
            RequestType::DataRef,
            RequestOperation::Read,
            RequestDataType::Float,
        ) {
            assert(sel == selector_of(
                RequestType::DataRef,
                RequestOperation::Read,
                RequestDataType::Float,
            ));
        } else if sel == selector_of(
            RequestType::DataRef,
            RequestOperation::Read,
            RequestDataType::IntArray,
        ) {
            assert(sel == selector_of(
                RequestType::DataRef,
                RequestOperation::Read,
                RequestDataType::IntArray,
            ));
        } else {
            assert(sel == selector_of(
                RequestType::DataRef,
                RequestOperation::Read,
                RequestDataType::FloatArray,
            ));
        }
    }
}

} // verus!
