//! The client request pipeline: a target built from a route, configured once
//! with its arguments, then turned into the one request to send. Each step
//! consumes the previous one.
use vstd::prelude::*;
use crate::route::{DecodeError, Outcome, Route, TypedResponse, WireOutcome};
use crate::status::HttpMethod;

verus! {

/// How the arguments of a request travel.
#[derive(Clone, Copy, Debug, PartialEq, Eq, Structural)]
pub enum Encoding {
    /// Serialised into the query string.
    Query,
    /// Serialised as the request body.
    Body,
}

/// The encoding that a method fixes: a GET sends a query string, a POST a body.
pub open spec fn encoding_for(m: HttpMethod) -> Encoding {
    match m {
        HttpMethod::Get => Encoding::Query,
        HttpMethod::Post => Encoding::Body,
    }
}

/// The scheme put in front of every base address.
pub open spec fn http_scheme() -> Seq<char> {
    seq!['h', 't', 't', 'p', ':', '/', '/']
}

/// The client side of a set of routes: the server's base address.
pub struct Client {
    base_http_url: String,
}

impl Client {
    /// The base URL that request URLs start with.
    pub closed spec fn base_spec(&self) -> Seq<char> {
        self.base_http_url@
    }

    /// A client of the server at `base_url` (host and port), spoken to over plain HTTP.
    pub fn new(base_url: &str) -> (r: Client)
        ensures
            r.base_spec() == http_scheme() + base_url@,
    {
        let scheme = String::from_str("http://");
        proof {
            reveal_strlit("http://");
        }
        assert(scheme@ =~= http_scheme());
        Client { base_http_url: scheme.concat(base_url) }
    }

    /// The base URL that request URLs start with.
    pub fn base_url(&self) -> (r: &String)
        ensures
            r@ == self.base_spec(),
    {
        &self.base_http_url
    }

    /// Starts a request for `route`: its URL is the base URL followed by the route's path.
    pub fn request_for(&self, route: &Route) -> (r: TransformRequest)
        ensures
            r.url_spec() == self.base_spec() + route.path_spec(),
            r.method_spec() == route.method_spec(),
    {
        let base = self.base_http_url.clone();
        let url = base.concat(route.route().as_str());
        TransformRequest { url, method: route.method() }
    }
}

/// A request that knows its route but not yet its arguments.
pub struct TransformRequest {
    url: String,
    method: HttpMethod,
}

impl TransformRequest {
    /// The URL the request goes to.
    pub closed spec fn url_spec(&self) -> Seq<char> {
        self.url@
    }

    /// The method of the request's route.
    pub closed spec fn method_spec(&self) -> HttpMethod {
        self.method
    }

    /// Supplies the request arguments; the target is consumed.
    pub fn with_args<A>(self, args: A) -> (r: ReadyRequest<A>)
        ensures
            r.url_spec() == self.url_spec(),
            r.method_spec() == self.method_spec(),
            r.args_spec() == args,
    {
        ReadyRequest { url: self.url, method: self.method, args }
    }
}

/// A request with its arguments, ready to be sent once.
pub struct ReadyRequest<A> {
    url: String,
    method: HttpMethod,
    args: A,
}

impl<A> ReadyRequest<A> {
    /// The URL the request goes to.
    pub closed spec fn url_spec(&self) -> Seq<char> {
        self.url@
    }

    /// The method of the request's route.
    pub closed spec fn method_spec(&self) -> HttpMethod {
        self.method
    }

    /// The arguments supplied.
    pub closed spec fn args_spec(&self) -> A {
        self.args
    }

    /// Turns the request into the single outgoing call that the transport makes:
    /// same method, URL and arguments, encoded as the method fixes. The request is consumed.
    pub fn send(self) -> (r: OutgoingRequest<A>)
        ensures
            r.method == self.method_spec(),
            r.url@ == self.url_spec(),
            r.args == self.args_spec(),
            r.encoding == encoding_for(self.method_spec()),
    {
        let encoding = match self.method {
            HttpMethod::Get => Encoding::Query,
            HttpMethod::Post => Encoding::Body,
        };
        OutgoingRequest { method: self.method, url: self.url, encoding, args: self.args }
    }
}

/// The call that the transport performs for a sent request.
pub struct OutgoingRequest<A> {
    pub method: HttpMethod,
    pub url: String,
    pub encoding: Encoding,
    pub args: A,
}

/// The transport could not deliver the request or read a response body.
#[derive(Clone, Copy, Debug, PartialEq, Eq, Structural)]
pub struct TransportFailure;

/// Why a sent request yields no outcome.
#[derive(Clone, Copy, Debug, PartialEq, Eq, Structural)]
pub enum ClientError {
    /// The network exchange failed, or the body was not a tagged payload.
    Transport,
    /// The payload does not fit the route's outcome type.
    Decode(DecodeError),
}

/// Turns what the transport brought back into the route's outcome: a transport
/// failure stays one, and a payload is decoded against the route with its status
/// code kept, whatever that code is.
pub fn receive(route: &Route, reply: Result<TypedResponse<WireOutcome>, TransportFailure>) -> (r: Result<TypedResponse<Outcome>, ClientError>)
    ensures
        match reply {
            Err(_) => r == Err::<TypedResponse<Outcome>, ClientError>(ClientError::Transport),
            Ok(t) => match route.decode_spec(t.payload@) {
                Ok(o) => r is Ok && r->Ok_0.status_code == t.status_code && r->Ok_0.payload@ == o,
                Err(e) => r == Err::<TypedResponse<Outcome>, ClientError>(ClientError::Decode(e)),
            },
        },
{
    match reply {
        Err(_) => Err(ClientError::Transport),
        Ok(t) => match route.decode(&t.payload) {
            Ok(o) => Ok(TypedResponse { status_code: t.status_code, payload: o }),
            Err(e) => Err(ClientError::Decode(e)),
        },
    }
}

} // verus!
