//! Seatalk: the destination of every alert.

pub mod http_client;
pub mod schema;

use crate::configuration::SeatalkConfig;
use http_client::{build_http_client, valid_header_char, HttpClient};
use schema::{is_plain_text_message, Message};
use vstd::prelude::*;

verus! {

/// A payload that can be told to a Seatalk group as text.
pub trait SeatalkText {
    /// Whether the text can be produced for this payload.
    spec fn text_ready(&self) -> bool;

    /// The text that is sent to Seatalk for this payload.
    spec fn seatalk_text(&self) -> Seq<char>;

    /// Whether the text can be produced for this payload.
    fn is_text_ready(&self) -> (ready: bool)
        ensures
            ready == self.text_ready(),
    ;

    /// Produces the text of this payload.
    fn generate_seatalk_text(&self) -> (text: String)
        requires
            self.text_ready(),
        ensures
            text@ == self.seatalk_text(),
    ;
}

/// The address of the webhook of the Seatalk group chat `chat_id`.
pub open spec fn webhook_url(chat_id: Seq<char>) -> Seq<char> {
    "https://openapi.seatalk.io/webhook/group/"@ + chat_id
}

/// A sender of messages to one Seatalk group chat.
#[derive(Debug, Clone)]
pub struct Seatalk {
    client: HttpClient,
    base_url: String,
}

/// The user agent that the service announces to Seatalk.
pub open spec fn user_agent() -> Seq<char> {
    "owasu/0.1.0"@
}

impl Seatalk {
    /// The webhook address that messages are posted to.
    pub closed spec fn spec_base_url(&self) -> Seq<char> {
        self.base_url@
    }

    /// The HTTP client that posts the messages, with the settings it was
    /// built with.
    pub closed spec fn spec_http_client(&self) -> HttpClient {
        self.client
    }

    /// A sender to the group chat of `config`, posting to its webhook with
    /// a client that announces `owasu/0.1.0` and gives up connecting after
    /// five seconds.
    pub fn new(config: SeatalkConfig) -> (seatalk: Seatalk)
        ensures
            seatalk.spec_base_url() == webhook_url(config.spec_chat_id()),
            seatalk.spec_base_url() == "https://openapi.seatalk.io/webhook/group/"@
                + config.spec_chat_id(),
            seatalk.spec_http_client().spec_user_agent() == user_agent(),
            seatalk.spec_http_client().spec_connect_timeout_secs() == 5,
    {
        proof {
            reveal_strlit("owasu/0.1.0");
            assert forall|i: int| 0 <= i < "owasu/0.1.0"@.len() implies valid_header_char(
                #[trigger] "owasu/0.1.0"@[i],
            ) by {}
        }
        let client = build_http_client("owasu/0.1.0", 5);
        let mut base_url = String::from_str("https://openapi.seatalk.io/webhook/group/");
        base_url.append(config.get_chat_id().as_str());
        Seatalk { client, base_url }
    }

    /// The user agent that the client was built to announce.
    pub fn user_agent(&self) -> (agent: &str)
        ensures
            agent@ == self.spec_http_client().spec_user_agent(),
    {
        self.client.user_agent()
    }

    /// The seconds after which the client was built to give up connecting.
    pub fn connect_timeout_secs(&self) -> (secs: u64)
        ensures
            secs == self.spec_http_client().spec_connect_timeout_secs(),
    {
        self.client.connect_timeout_secs()
    }

    /// The webhook address that messages are posted to.
    pub fn base_url(&self) -> (url: &str)
        ensures
            url@ == self.spec_base_url(),
    {
        self.base_url.as_str()
    }

    /// The HTTP client that posts the messages.
    pub fn client(&self) -> (client: &reqwest::Client)
        ensures
            *client == self.spec_http_client().spec_client(),
    {
        self.client.client()
    }

    /// The message that is posted for `payload`: a plain text message
    /// carrying the payload's Seatalk text.
    pub fn prepare_message<P: SeatalkText>(&self, payload: &P) -> (message: Message)
        requires
            payload.text_ready(),
        ensures
            is_plain_text_message(message, payload.seatalk_text()),
    {
        let text = payload.generate_seatalk_text();
        Message::new(text)
    }

    /// The message that is posted for `payload`, or `None` when its text
    /// cannot be produced.
    pub fn checked_message<P: SeatalkText>(&self, payload: &P) -> (message: Option<Message>)
        ensures
            message is Some <==> payload.text_ready(),
            message matches Some(m) ==> is_plain_text_message(m, payload.seatalk_text()),
    {
        if payload.is_text_ready() {
            Some(self.prepare_message(payload))
        } else {
            None
        }
    }
}

/// Distinct group chats have distinct webhook addresses.
pub proof fn lemma_webhook_url_injective(a: Seq<char>, b: Seq<char>)
    requires
        webhook_url(a) == webhook_url(b),
    ensures
        a == b,
{
    let prefix = "https://openapi.seatalk.io/webhook/group/"@;
    assert(a =~= webhook_url(a).subrange(prefix.len() as int, webhook_url(a).len() as int));
    assert(b =~= webhook_url(b).subrange(prefix.len() as int, webhook_url(b).len() as int));
}

/// The webhook address of a group chat is the fixed prefix
/// `https://openapi.seatalk.io/webhook/group/` followed by the chat id,
/// whole and unchanged, and nothing else.
pub proof fn lemma_webhook_url_shape(chat_id: Seq<char>)
    ensures
        webhook_url(chat_id).len() == 41 + chat_id.len(),
        webhook_url(chat_id).subrange(0, 41) == "https://openapi.seatalk.io/webhook/group/"@,
        webhook_url(chat_id).subrange(41, webhook_url(chat_id).len() as int) == chat_id,
{
    reveal_strlit("https://openapi.seatalk.io/webhook/group/");
    let u = webhook_url(chat_id);
    assert(u.subrange(0, 41) =~= "https://openapi.seatalk.io/webhook/group/"@);
    assert(u.subrange(41, u.len() as int) =~= chat_id);
}

} // verus!
