//! Binding handlers to routes. A handler of any arity takes its inputs as one
//! tuple; binding ties it to a route, and dispatching converts what it returns
//! into the status code and payload that the route declares.
use vstd::prelude::*;
use crate::route::{ContractError, Outcome, Route, TypedResponse, WireOutcome};
use crate::status::{HttpMethod, valid_status};

verus! {

/// A function from the input tuple `I` to the output `O`: the shape of a
/// handler for a route whose handler input is `I` and whose outcome is `O`.
pub trait TypedHandler<I, O> {
}

impl<I, O, F: Fn(I) -> O> TypedHandler<I, O> for F {
}

/// A route together with the handler bound to it, ready for a dispatch surface
/// to register under the route's method and path.
pub struct DispatchEntry<'a, F> {
    route: &'a Route,
    handler: F,
}

impl<'a, F> DispatchEntry<'a, F> {
    /// The route the entry serves.
    pub closed spec fn route_spec(&self) -> &'a Route {
        self.route
    }

    /// The bound handler.
    pub closed spec fn handler_spec(&self) -> F {
        self.handler
    }

    /// Binds `handler` to `route`.
    pub fn bind<I>(route: &'a Route, handler: F) -> (r: DispatchEntry<'a, F>)
        where
            F: TypedHandler<I, Outcome>,
        ensures
            r.route_spec() == route,
            r.handler_spec() == handler,
    {
        DispatchEntry { route, handler }
    }

    /// The method to register the entry under.
    pub fn method(&self) -> (r: HttpMethod)
        ensures
            r == self.route_spec().method_spec(),
    {
        self.route.method()
    }

    /// The path to register the entry under.
    pub fn path(&self) -> (r: &String)
        ensures
            r@ == self.route_spec().path_spec(),
    {
        self.route.route()
    }

    /// Runs the handler on one request's extracted inputs and converts its outcome
    /// with the route's status mapping. An outcome that the route does not declare
    /// is reported, never sent with a made-up status.
    pub fn dispatch<I>(&self, input: I) -> (r: Result<TypedResponse<WireOutcome>, ContractError>)
        where
            F: Fn(I) -> Outcome,
        requires
            self.handler_spec().requires((input,)),
        ensures
            exists|o: Outcome| {
                &&& #[trigger] self.handler_spec().ensures((input,), o)
                &&& match r {
                    Ok(t) => {
                        &&& self.route_spec().declares(o@)
                        &&& t.status_code == self.route_spec().status_of(o@)
                        &&& valid_status(t.status_code)
                        &&& t.payload@ == self.route_spec().encode_spec(o@)
                    },
                    Err(_) => !self.route_spec().declares(o@),
                }
            },
    {
        let o = (self.handler)(input);
        self.route.typed(&o)
    }
}

} // verus!
