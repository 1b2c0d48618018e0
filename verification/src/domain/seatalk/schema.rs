//! The bodies exchanged with Seatalk's group webhook.

use vstd::prelude::*;

verus! {

/// A webhook message: a tag naming the kind of message, and its text.
#[derive(Default, Debug, Clone, PartialEq)]
pub struct Message {
    pub tag: String,
    pub text: Text,
}

/// The text part of a webhook message.
#[derive(Default, Debug, Clone, PartialEq)]
pub struct Text {
    pub content: String,
    pub mentioned_list: Option<Vec<String>>,
    pub mentioned_email_list: Option<Vec<String>>,
    pub at_all: Option<bool>,
}

/// What Seatalk answers to a webhook call.
#[derive(Default, Debug, Clone, PartialEq)]
pub struct SeatalkResponse {
    pub code: i64,
    pub msg: String,
}

/// A message of tag `"text"` whose content is `content`, mentioning nobody.
pub open spec fn is_plain_text_message(m: Message, content: Seq<char>) -> bool {
    &&& m.tag@ == "text"@
    &&& m.text.content@ == content
    &&& m.text.mentioned_list is None
    &&& m.text.mentioned_email_list is None
    &&& m.text.at_all == Some(false)
}

impl Message {
    /// A plain text message carrying `text`, with no mention and
    /// `at_all` set to `false`.
    pub fn new(text: String) -> (m: Message)
        ensures
            is_plain_text_message(m, text@),
            m.tag@ == "text"@,
            m.text.content@ == text@,
            m.text.mentioned_list is None,
            m.text.mentioned_email_list is None,
            m.text.at_all == Some(false),
    {
        let text = Text {
            content: text,
            mentioned_list: None,
            mentioned_email_list: None,
            at_all: Some(false),
        };
        Message { tag: String::from_str("text"), text }
    }
}

impl SeatalkResponse {
    /// Whether Seatalk reported a failure: its code is positive.
    pub fn error_check(&self) -> (failed: bool)
        ensures
            failed == (self.code > 0),
    {
        self.code > 0
    }
}

/// Every message built for a text carries that text whole, has the tag
/// `"text"`, mentions nobody, and does not mention the whole group, whatever
/// the text is; two such messages differ only in their content.
pub proof fn lemma_plain_text_message(m1: Message, t1: Seq<char>, m2: Message, t2: Seq<char>)
    requires
        is_plain_text_message(m1, t1),
        is_plain_text_message(m2, t2),
    ensures
        m1.text.content@ == t1,
        m1.tag@ == seq!['t', 'e', 'x', 't'],
        m1.text.mentioned_list is None,
        m1.text.mentioned_email_list is None,
        m1.text.at_all == Some(false),
        m1.tag@ == m2.tag@,
        m1.text.mentioned_list == m2.text.mentioned_list,
        m1.text.mentioned_email_list == m2.text.mentioned_email_list,
        m1.text.at_all == m2.text.at_all,
{
    reveal_strlit("text");
}

} // verus!
