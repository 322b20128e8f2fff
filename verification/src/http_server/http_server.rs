//! The settings of the agent's HTTP server.
use vstd::prelude::*;

use crate::text::{concat_chars, from_chars, to_chars};

verus! {

/// Where the server listens.
pub struct HttpServerConfig {
    pub host: String,
    pub port: String,
}

impl HttpServerConfig {
    /// All interfaces, port 8111.
    pub fn default() -> (res: HttpServerConfig)
        ensures
            res.host@ == "0.0.0.0"@,
            res.port@ == "8111"@,
    {
        HttpServerConfig { host: "0.0.0.0".to_owned(), port: "8111".to_owned() }
    }

    /// The address the server binds: `host:port`.
    pub fn address(&self) -> (res: String)
        ensures
            res@ == self.host@ + seq![':'] + self.port@,
    {
        let h = to_chars(self.host.as_str());
        let mut colon: Vec<char> = Vec::new();
        colon.push(':');
        assert(colon@ =~= seq![':']);
        let p = to_chars(self.port.as_str());
        from_chars(&concat_chars(&concat_chars(&h, &colon), &p))
    }
}

} // verus!
