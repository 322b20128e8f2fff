//! Request records built for the hub, addressed by path, and the builder
//! of the HTTP protocol that sends them.
use vstd::prelude::*;

verus! {

/// The hub's answer: the agent's identity.
pub struct HttpResponse {
    pub uuid: String,
}

/// A request: the path it goes to and its body.
pub struct HttpRequest {
    pub path: String,
    pub body: String,
}

/// Something that builds requests.
pub trait RequestBuilder {
    /// The path and body of the request built from `path` and `body`.
    spec fn spec_build(&self, path: Seq<char>, body: Seq<char>) -> (Seq<char>, Seq<char>);

    fn build_request(&self, path: String, body: String) -> (res: HttpRequest)
        ensures
            (res.path@, res.body@) == self.spec_build(path@, body@),
    ;
}

/// Builds a request holding the path and body as they are given.
pub struct HttpRequestBuilder;

impl HttpRequestBuilder {
    pub fn default() -> (res: HttpRequestBuilder) {
        HttpRequestBuilder
    }
}

impl RequestBuilder for HttpRequestBuilder {
    open spec fn spec_build(&self, path: Seq<char>, body: Seq<char>) -> (Seq<char>, Seq<char>) {
        (path, body)
    }

    fn build_request(&self, path: String, body: String) -> (res: HttpRequest) {
        HttpRequest { path, body }
    }
}

/// Builds requests with a builder.
pub struct RequestDirector<B: RequestBuilder> {
    pub builder: B,
}

impl<B: RequestBuilder> RequestDirector<B> {
    pub fn new(builder: B) -> (res: RequestDirector<B>)
        ensures
            res.builder == builder,
    {
        RequestDirector { builder }
    }

    /// The request the builder builds from `path` and `body`.
    pub fn construct(&self, path: String, body: String) -> (res: HttpRequest)
        ensures
            (res.path@, res.body@) == self.builder.spec_build(path@, body@),
    {
        self.builder.build_request(path, body)
    }
}

/// Builds the HTTP protocol of the agent.
pub struct HttpProtocolBuilder {
    pub http_request_builder: HttpRequestBuilder,
}

impl HttpProtocolBuilder {
    pub fn new() -> (res: HttpProtocolBuilder) {
        HttpProtocolBuilder { http_request_builder: HttpRequestBuilder::default() }
    }

    /// The director the protocol builds its requests with.
    pub fn request_director(&self) -> (res: RequestDirector<HttpRequestBuilder>) {
        RequestDirector::new(HttpRequestBuilder)
    }
}

} // verus!
