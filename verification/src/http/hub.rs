//! Connecting the agent to the hub: the address it calls, the description
//! of the agent it sends, how the answers decide what happens next, and
//! how the identity it receives is stored.
use vstd::prelude::*;

use crate::configuration::HubConfig;
use crate::text::{address_chars, concat_chars, from_chars, to_chars, trim_quotes, trim_quotes_spec};

verus! {

/// The hub's base address: `protocol://host:port`.
pub open spec fn base_url_spec(config: HubConfig) -> Seq<char> {
    config.protocol@ + "://"@ + config.host@ + seq![':'] + config.port@
}

/// The address of the authentication call: the base address and the auth
/// path, followed by `/<uuid>` when the agent already has an identity.
pub open spec fn connect_url_spec(config: HubConfig, uuid: Option<Seq<char>>) -> Seq<char> {
    match uuid {
        Some(id) => base_url_spec(config) + config.auth_path@ + seq!['/'] + id,
        None => base_url_spec(config) + config.auth_path@,
    }
}

/// The address of the authentication call, as [`connect_url_spec`] states.
pub fn connect_url(config: &HubConfig, uuid: Option<&String>) -> (res: String)
    ensures
        res@ == connect_url_spec(
            *config,
            match uuid {
                Some(u) => Some(u@),
                None => None,
            },
        ),
{
    let port = to_chars(config.port.as_str());
    let auth = to_chars(config.auth_path.as_str());
    let base = address_chars(config.protocol.as_str(), config.host.as_str(), &port);
    let with_auth = concat_chars(&base, &auth);
    match uuid {
        Some(u) => {
            let mut slash: Vec<char> = Vec::new();
            slash.push('/');
            assert(slash@ =~= seq!['/']);
            let id = to_chars(u.as_str());
            let d = concat_chars(&with_auth, &slash);
            let e = concat_chars(&d, &id);
            from_chars(&e)
        },
        None => from_chars(&with_auth),
    }
}

/// The text before the host name in the agent's description.
pub open spec fn connection_data_head() -> Seq<char> {
    "\n            {\n                \"Metadata\": {},\n                \"ConnectionModel\": {\n                    \"address\": \""@
}

/// The text after the host name in the agent's description.
pub open spec fn connection_data_tail() -> Seq<char> {
    "\",\n                    \"port\": \"8111\"\n                }\n            }"@
}

/// The description of the agent sent with the authentication call: its
/// host name and the port its server listens on.
pub fn agent_connection_data(hostname: &str) -> (res: String)
    ensures
        res@ == connection_data_head() + hostname@ + connection_data_tail(),
{
    let head = to_chars(
        "\n            {\n                \"Metadata\": {},\n                \"ConnectionModel\": {\n                    \"address\": \"",
    );
    let name = to_chars(hostname);
    let tail = to_chars("\",\n                    \"port\": \"8111\"\n                }\n            }");
    let a = concat_chars(&head, &name);
    let b = concat_chars(&a, &tail);
    from_chars(&b)
}

/// What came back from one authentication call.
#[derive(Debug)]
pub enum AttemptOutcome {
    /// The request could not be sent; the text describes the error.
    SendFailed(String),
    /// The hub answered with a status that is not a success.
    Refused,
    /// The hub answered with success; the body, or the error reading it.
    Accepted(Result<String, String>),
}

/// Why connecting to the hub failed.
#[derive(Debug)]
pub enum HubFailure {
    /// A request could not be sent.
    UnExpectedError(String),
    /// The body of a successful answer could not be read.
    HttpError(String),
    /// Every attempt was refused.
    MaximumAttemptsReached,
}

/// The message a connection failure is shown with.
pub open spec fn hub_failure_message(f: HubFailure) -> Seq<char> {
    match f {
        HubFailure::UnExpectedError(m) => "Unexpected error from the Hub: "@ + m@,
        HubFailure::HttpError(m) => m@,
        HubFailure::MaximumAttemptsReached => "Maximum number of attemps to connect to the Hub reached without success"@,
    }
}

impl HubFailure {
    /// The message the failure is shown with.
    pub fn message(&self) -> (res: String)
        ensures
            res@ == hub_failure_message(*self),
    {
        match self {
            HubFailure::UnExpectedError(m) => {
                let head = to_chars("Unexpected error from the Hub: ");
                let tail = to_chars(m.as_str());
                from_chars(&concat_chars(&head, &tail))
            },
            HubFailure::HttpError(m) => from_chars(&to_chars(m.as_str())),
            HubFailure::MaximumAttemptsReached => from_chars(
                &to_chars("Maximum number of attemps to connect to the Hub reached without success"),
            ),
        }
    }
}

/// What to do after an authentication call.
#[derive(Debug)]
pub enum HubStep {
    /// Call again.
    Retry,
    /// Connected: the identity the hub gave the agent (its answer without
    /// surrounding quotes).
    Connected(String),
    /// Give up.
    Failed(HubFailure),
}

/// The attempts made to connect to the hub.
pub struct HubConnection {
    pub tries: u32,
    pub limit: u32,
}

impl HubConnection {
    /// No attempt made yet, with at most `limit` attempts.
    pub fn new(limit: u32) -> (res: HubConnection)
        ensures
            res.tries == 0,
            res.limit == limit,
    {
        HubConnection { tries: 0, limit }
    }

    /// Whether another attempt may be made; when not, connecting has failed
    /// with [`HubFailure::MaximumAttemptsReached`].
    pub fn may_attempt(&self) -> (res: bool)
        ensures
            res == (self.tries < self.limit),
    {
        self.tries < self.limit
    }

    /// What follows an attempt: a send error or an unreadable body ends the
    /// connection with that error, a success ends it with the identity, and
    /// a refusal counts the attempt and calls again. No more attempts are
    /// counted than the limit.
    pub fn next(&mut self, outcome: AttemptOutcome) -> (res: HubStep)
        requires
            old(self).tries < old(self).limit,
        ensures
            match outcome {
                AttemptOutcome::SendFailed(e) => res matches HubStep::Failed(
                    HubFailure::UnExpectedError(m),
                ) && m@ == e@ && final(self).tries == old(self).tries,
                AttemptOutcome::Accepted(Err(e)) => res matches HubStep::Failed(
                    HubFailure::HttpError(m),
                ) && m@ == e@ && final(self).tries == old(self).tries,
                AttemptOutcome::Accepted(Ok(text)) => res matches HubStep::Connected(id) && id@
                    == trim_quotes_spec(text@) && final(self).tries == old(self).tries,
                AttemptOutcome::Refused => res is Retry && final(self).tries == old(self).tries
                    + 1,
            },
            final(self).limit == old(self).limit,
            final(self).tries <= final(self).limit,
    {
        match outcome {
            AttemptOutcome::SendFailed(e) => HubStep::Failed(HubFailure::UnExpectedError(e)),
            AttemptOutcome::Accepted(Err(e)) => HubStep::Failed(HubFailure::HttpError(e)),
            AttemptOutcome::Accepted(Ok(text)) => {
                let cs = to_chars(text.as_str());
                let trimmed = trim_quotes(&cs);
                HubStep::Connected(from_chars(&trimmed))
            },
            AttemptOutcome::Refused => {
                self.tries = self.tries + 1;
                HubStep::Retry
            },
        }
    }
}

/// The wait, in seconds, before the first attempt to reach the hub.
pub const FIRST_RETRY_TIMEOUT: u64 = 5;

/// The wait before the next round of attempts after a round that failed,
/// when the last wait was `timeout` seconds: twice as long. `None` when
/// twice `timeout` does not fit in a `u64`.
pub fn next_retry_timeout(timeout: u64) -> (res: Option<u64>)
    ensures
        match res {
            Some(t) => t == 2 * timeout,
            None => 2 * timeout > u64::MAX,
        },
{
    timeout.checked_mul(2)
}

} // verus!
