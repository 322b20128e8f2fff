//! Request records built for the hub, addressed by route.
use vstd::prelude::*;

use crate::text::{from_chars, to_chars};

verus! {

/// The hub's answer: the agent's identity.
pub struct HttpResponse {
    pub uuid: String,
}

/// A request: the route it goes to and its body.
pub struct HttpRequest {
    pub route: String,
    pub body: String,
}

/// Something that builds requests.
pub trait RequestBuilder {
    /// The route and body of the request built from `route` and `body`.
    spec fn spec_build(&self, route: Seq<char>, body: Seq<char>) -> (Seq<char>, Seq<char>);

    fn build_request(&self, route: &str, body: &str) -> (res: HttpRequest)
        ensures
            (res.route@, res.body@) == self.spec_build(route@, body@),
    ;
}

/// Builds a request holding the route and body as they are given.
pub struct HttpRequestBuilder;

impl RequestBuilder for HttpRequestBuilder {
    open spec fn spec_build(&self, route: Seq<char>, body: Seq<char>) -> (Seq<char>, Seq<char>) {
        (route, body)
    }

    fn build_request(&self, route: &str, body: &str) -> (res: HttpRequest) {
        HttpRequest { route: from_chars(&to_chars(route)), body: from_chars(&to_chars(body)) }
    }
}

/// Builds requests with a builder.
pub struct RequestDirector<B: RequestBuilder> {
    pub builder: B,
}

impl<B: RequestBuilder> RequestDirector<B> {
    pub fn new(builder: B) -> (res: RequestDirector<B>)
        ensures
            res.builder == builder,
    {
        RequestDirector { builder }
    }

    /// The request the builder builds from `route` and `body`.
    pub fn construct(&self, route: &str, body: &str) -> (res: HttpRequest)
        ensures
            (res.route@, res.body@) == self.builder.spec_build(route@, body@),
    {
        self.builder.build_request(route, body)
    }
}

} // verus!
