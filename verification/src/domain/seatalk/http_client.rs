//! The HTTP client that posts to Seatalk, built only by
//! `build_http_client`, so that the settings recorded beside a client are
//! the ones it was built with.

use vstd::prelude::*;

verus! {

#[verifier::external_type_specification]
#[verifier::external_body]
pub struct ExHttpClient(reqwest::Client);

/// reqwest's `Client::clone`, which gives another handle on the same
/// connection pool (the client keeps its state behind an `Arc`). A client
/// holds nothing that this library reads, so nothing is stated of the copy.
pub assume_specification[ <reqwest::Client as Clone>::clone ](client: &reqwest::Client) -> reqwest::Client;

/// A character that may stand in an HTTP header value: a tab, or any
/// character from `' '` up other than DEL.
pub open spec fn valid_header_char(c: char) -> bool {
    c == '\t' || (c as u32 >= 32 && c as u32 != 127)
}

/// An HTTP client, with the user agent it was built to announce and the
/// seconds after which it was built to give up connecting. The fields are
/// private to this module, and `build_http_client` is the only function
/// that makes one.
#[derive(Debug, Clone)]
pub struct HttpClient {
    client: reqwest::Client,
    user_agent: String,
    connect_timeout_secs: u64,
}

impl HttpClient {
    /// The user agent that the client was built to announce.
    pub closed spec fn spec_user_agent(&self) -> Seq<char> {
        self.user_agent@
    }

    /// The seconds after which the client was built to give up connecting.
    pub closed spec fn spec_connect_timeout_secs(&self) -> u64 {
        self.connect_timeout_secs
    }

    /// The reqwest client itself.
    pub closed spec fn spec_client(&self) -> reqwest::Client {
        self.client
    }

    /// The user agent that the client was built to announce.
    pub fn user_agent(&self) -> (agent: &str)
        ensures
            agent@ == self.spec_user_agent(),
    {
        self.user_agent.as_str()
    }

    /// The seconds after which the client was built to give up connecting.
    pub fn connect_timeout_secs(&self) -> (secs: u64)
        ensures
            secs == self.spec_connect_timeout_secs(),
    {
        self.connect_timeout_secs
    }

    /// The reqwest client itself.
    pub fn client(&self) -> (client: &reqwest::Client)
        ensures
            *client == self.spec_client(),
    {
        &self.client
    }
}

/// Builds a `reqwest::Client` with reqwest's `ClientBuilder`, announcing
/// `agent` (`ClientBuilder::user_agent`) and giving up connecting after
/// `connect_timeout_secs` seconds (`ClientBuilder::connect_timeout`), and
/// records the two settings beside it. `agent` must be a valid header value
/// (`http::HeaderValue` refuses control characters other than tab, and
/// DEL); otherwise `user_agent` would make the build fail. When the build
/// fails all the same, which happens only where the TLS backend or the
/// resolver cannot start, reqwest's default client stands in, and then the
/// recorded settings are not those that the client uses.
#[verifier::external_body]
pub(crate) fn build_http_client(agent: &str, connect_timeout_secs: u64) -> (client: HttpClient)
    requires
        forall|i: int| 0 <= i < agent@.len() ==> valid_header_char(#[trigger] agent@[i]),
    ensures
        client.spec_user_agent() == agent@,
        client.spec_connect_timeout_secs() == connect_timeout_secs,
{
    HttpClient {
        client: reqwest::Client::builder()
            .user_agent(agent)
            .connect_timeout(std::time::Duration::from_secs(connect_timeout_secs))
            .build()
            .unwrap_or_default(),
        user_agent: agent.to_string(),
        connect_timeout_secs,
    }
}

} // verus!
