//! The service's configuration: where alerts go and how the server behaves.

use crate::decimal::{decimal, push_decimal};
use vstd::prelude::*;

verus! {

/// A span of time: whole seconds and the nanoseconds beyond them.
#[derive(Debug, Clone, Copy, PartialEq, Eq)]
pub struct TimeSpan {
    pub secs: u64,
    pub nanos: u32,
}

impl TimeSpan {
    /// The nanoseconds part is below one second.
    pub open spec fn well_formed(&self) -> bool {
        self.nanos < 1_000_000_000
    }

    /// A span of `secs` whole seconds.
    pub fn from_secs(secs: u64) -> (span: TimeSpan)
        ensures
            span.secs == secs,
            span.nanos == 0,
            span.well_formed(),
    {
        TimeSpan { secs, nanos: 0 }
    }
}

/// Where alerts are sent: the Seatalk group chat.
#[derive(Debug, Clone)]
pub struct SeatalkConfig {
    chat_id: String,
}

impl SeatalkConfig {
    /// The group chat's id.
    pub closed spec fn spec_chat_id(&self) -> Seq<char> {
        self.chat_id@
    }

    /// The configuration of the group chat `chat_id`.
    pub fn new(chat_id: String) -> (config: SeatalkConfig)
        ensures
            config.spec_chat_id() == chat_id@,
    {
        SeatalkConfig { chat_id }
    }

    /// The group chat's id.
    pub fn get_chat_id(&self) -> (chat_id: &String)
        ensures
            chat_id@ == self.spec_chat_id(),
    {
        &self.chat_id
    }
}

impl Default for SeatalkConfig {
    /// No group chat: the empty id.
    fn default() -> (config: SeatalkConfig)
        ensures
            config.spec_chat_id() == Seq::<char>::empty(),
    {
        SeatalkConfig { chat_id: String::new() }
    }
}

/// How the HTTP server is set up.
#[derive(Debug, Clone)]
pub struct ServerConfig {
    port: u16,
    buffer: usize,
    concurrency_limit: usize,
    rate_limit: u64,
    limiter_timeout: TimeSpan,
    timeout: TimeSpan,
}

/// The one-line description of a server configuration with these settings.
pub open spec fn server_config_text(
    buffer: nat,
    concurrency_limit: nat,
    rate_limit: nat,
    limiter_timeout_secs: nat,
    timeout_secs: nat,
) -> Seq<char> {
    "buffer: "@ + decimal(buffer) + " | concurrency limit: "@ + decimal(concurrency_limit)
        + " | rate limit: "@ + decimal(rate_limit) + " | limiter timeout: "@ + decimal(
        limiter_timeout_secs,
    ) + "s | timeout: "@ + decimal(timeout_secs) + "s"@
}

impl ServerConfig {
    /// The port that the server listens on.
    pub closed spec fn spec_port(&self) -> u16 {
        self.port
    }

    /// How many requests wait in the buffer.
    pub closed spec fn spec_buffer(&self) -> usize {
        self.buffer
    }

    /// How many requests are served at once.
    pub closed spec fn spec_concurrency_limit(&self) -> usize {
        self.concurrency_limit
    }

    /// How many requests are let through in each limiter period.
    pub closed spec fn spec_rate_limit(&self) -> u64 {
        self.rate_limit
    }

    /// The rate limiter's period.
    pub closed spec fn spec_limiter_timeout(&self) -> TimeSpan {
        self.limiter_timeout
    }

    /// How long a request may take.
    pub closed spec fn spec_timeout(&self) -> TimeSpan {
        self.timeout
    }

    /// A server configuration with these settings.
    pub fn new(
        port: u16,
        buffer: usize,
        concurrency_limit: usize,
        rate_limit: u64,
        limiter_timeout: TimeSpan,
        timeout: TimeSpan,
    ) -> (config: ServerConfig)
        ensures
            config.spec_port() == port,
            config.spec_buffer() == buffer,
            config.spec_concurrency_limit() == concurrency_limit,
            config.spec_rate_limit() == rate_limit,
            config.spec_limiter_timeout() == limiter_timeout,
            config.spec_timeout() == timeout,
    {
        ServerConfig { port, buffer, concurrency_limit, rate_limit, limiter_timeout, timeout }
    }

    /// The port that the server listens on.
    pub fn get_port(&self) -> (port: &u16)
        ensures
            *port == self.spec_port(),
    {
        &self.port
    }

    /// How many requests wait in the buffer.
    pub fn get_buffer(&self) -> (buffer: &usize)
        ensures
            *buffer == self.spec_buffer(),
    {
        &self.buffer
    }

    /// How many requests are served at once.
    pub fn get_concurrency_limit(&self) -> (limit: &usize)
        ensures
            *limit == self.spec_concurrency_limit(),
    {
        &self.concurrency_limit
    }

    /// How many requests are let through in each limiter period.
    pub fn get_rate_limit(&self) -> (limit: &u64)
        ensures
            *limit == self.spec_rate_limit(),
    {
        &self.rate_limit
    }

    /// The rate limiter's period.
    pub fn get_limiter_timeout(&self) -> (span: &TimeSpan)
        ensures
            *span == self.spec_limiter_timeout(),
    {
        &self.limiter_timeout
    }

    /// How long a request may take.
    pub fn get_timeout(&self) -> (span: &TimeSpan)
        ensures
            *span == self.spec_timeout(),
    {
        &self.timeout
    }

    /// The settings in one line, such as
    /// `"buffer: 10 | concurrency limit: 5 | rate limit: 5 | limiter timeout: 10s | timeout: 10s"`;
    /// the timeouts are told in whole seconds.
    pub fn to_string(&self) -> (text: String)
        ensures
            text@ == server_config_text(
                self.spec_buffer() as nat,
                self.spec_concurrency_limit() as nat,
                self.spec_rate_limit() as nat,
                self.spec_limiter_timeout().secs as nat,
                self.spec_timeout().secs as nat,
            ),
    {
        let mut text = String::from_str("buffer: ");
        push_decimal(&mut text, self.buffer as u64);
        text.append(" | concurrency limit: ");
        push_decimal(&mut text, self.concurrency_limit as u64);
        text.append(" | rate limit: ");
        push_decimal(&mut text, self.rate_limit);
        text.append(" | limiter timeout: ");
        push_decimal(&mut text, self.limiter_timeout.secs);
        text.append("s | timeout: ");
        push_decimal(&mut text, self.timeout.secs);
        text.append("s");
        assert(text@ =~= server_config_text(
            self.buffer as nat,
            self.concurrency_limit as nat,
            self.rate_limit as nat,
            self.limiter_timeout.secs as nat,
            self.timeout.secs as nat,
        ));
        text
    }
}

impl Default for ServerConfig {
    /// Port 8080, a buffer of 10, at most 5 requests at once and 5 per
    /// limiter period of 10 seconds, and a timeout of 10 seconds.
    fn default() -> (config: ServerConfig)
        ensures
            config.spec_port() == 8080,
            config.spec_buffer() == 10,
            config.spec_concurrency_limit() == 5,
            config.spec_rate_limit() == 5,
            config.spec_limiter_timeout() == (TimeSpan { secs: 10, nanos: 0 }),
            config.spec_timeout() == (TimeSpan { secs: 10, nanos: 0 }),
    {
        ServerConfig {
            port: 8080,
            buffer: 10,
            concurrency_limit: 5,
            rate_limit: 5,
            limiter_timeout: TimeSpan::from_secs(10),
            timeout: TimeSpan::from_secs(10),
        }
    }
}

/// The whole configuration.
#[derive(Debug, Clone)]
pub struct Config {
    pub seatalk: SeatalkConfig,
    pub server: ServerConfig,
}

impl Default for Config {
    /// The default Seatalk and server configurations.
    fn default() -> (config: Config)
        ensures
            config.seatalk.spec_chat_id() == Seq::<char>::empty(),
            config.server.spec_port() == 8080,
            config.server.spec_buffer() == 10,
            config.server.spec_concurrency_limit() == 5,
            config.server.spec_rate_limit() == 5,
            config.server.spec_limiter_timeout() == (TimeSpan { secs: 10, nanos: 0 }),
            config.server.spec_timeout() == (TimeSpan { secs: 10, nanos: 0 }),
    {
        Config { seatalk: SeatalkConfig::default(), server: ServerConfig::default() }
    }
}

/// The one-line description starts with the buffer size and ends with the
/// timeout in seconds, and holds each setting once in the order buffer,
/// concurrency limit, rate limit, limiter timeout, timeout, with a fixed
/// amount of labelling around them.
pub proof fn lemma_server_config_text_shape(
    buffer: nat,
    concurrency_limit: nat,
    rate_limit: nat,
    limiter_timeout_secs: nat,
    timeout_secs: nat,
)
    ensures
        ({
            let t = server_config_text(
                buffer,
                concurrency_limit,
                rate_limit,
                limiter_timeout_secs,
                timeout_secs,
            );
            let b = decimal(buffer);
            let s = decimal(timeout_secs);
            &&& t.len() == 79 + b.len() + decimal(concurrency_limit).len() + decimal(
                rate_limit,
            ).len() + decimal(limiter_timeout_secs).len() + s.len()
            &&& t.subrange(0, 8 + b.len() as int) == "buffer: "@ + b
            &&& t.subrange(t.len() - s.len() - 1, t.len() as int) == s + "s"@
        }),
{
    reveal_strlit("buffer: ");
    reveal_strlit(" | concurrency limit: ");
    reveal_strlit(" | rate limit: ");
    reveal_strlit(" | limiter timeout: ");
    reveal_strlit("s | timeout: ");
    reveal_strlit("s");
    let t = server_config_text(
        buffer,
        concurrency_limit,
        rate_limit,
        limiter_timeout_secs,
        timeout_secs,
    );
    let b = decimal(buffer);
    let s = decimal(timeout_secs);
    assert(t.subrange(0, 8 + b.len() as int) =~= "buffer: "@ + b);
    assert(t.subrange(t.len() - s.len() - 1, t.len() as int) =~= s + "s"@);
}

} // verus!
