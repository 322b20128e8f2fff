//! The standalone agent's HTTP server settings and the records it serves.
use vstd::prelude::*;

use crate::text::{concat_chars, from_chars, to_chars};

verus! {

/// Where the standalone agent's server listens.
pub struct Server {
    pub host: String,
    pub port: String,
}

impl Server {
    pub fn new(host: String, port: String) -> (res: Server)
        ensures
            res.host@ == host@,
            res.port@ == port@,
    {
        Server { host, port }
    }

    /// The address the server binds: `host:port`.
    pub fn address(&self) -> (res: String)
        ensures
            res@ == self.host@ + seq![':'] + self.port@,
    {
        let h = to_chars(self.host.as_str());
        let mut colon: Vec<char> = Vec::new();
        colon.push(':');
        let p = to_chars(self.port.as_str());
        let hc = concat_chars(&h, &colon);
        let all = concat_chars(&hc, &p);
        assert(colon@ =~= seq![':']);
        from_chars(&all)
    }
}

/// A file as the standalone agent's lister reports it: its path and size.
pub struct File {
    pub name: String,
    pub size: u64,
}

/// The greeting the standalone agent's root route answers with.
pub struct Greeting {
    pub message: String,
}

/// A user record of the standalone agent's demo route.
pub struct User {
    pub name: String,
    pub username: String,
}

} // verus!
