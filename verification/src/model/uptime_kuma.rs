//! The webhook body that Uptime Kuma posts.

use crate::domain::seatalk::SeatalkText;
use vstd::prelude::*;

verus! {

/// Uptime Kuma's notification: a single message.
#[derive(Default, Debug, Clone, PartialEq)]
pub struct UptimeKumaRequestBody {
    pub msg: String,
}

/// The banner that opens every alert text.
pub open spec fn alert_banner() -> Seq<char> {
    "ALERT 🔥 🔥 🔥 \n\n"@
}

/// The Seatalk text of an Uptime Kuma message.
pub open spec fn kuma_text(msg: Seq<char>) -> Seq<char> {
    alert_banner() + "Kuma said... \n"@ + msg + "\n"@
}

impl SeatalkText for UptimeKumaRequestBody {
    open spec fn text_ready(&self) -> bool {
        true
    }

    open spec fn seatalk_text(&self) -> Seq<char> {
        kuma_text(self.msg@)
    }

    fn is_text_ready(&self) -> (ready: bool) {
        true
    }

    fn generate_seatalk_text(&self) -> (text: String) {
        let mut text = String::from_str("ALERT 🔥 🔥 🔥 \n\n");
        text.append("Kuma said... \n");
        text.append(self.msg.as_str());
        text.append("\n");
        text
    }
}

/// The text of an Uptime Kuma message holds the whole message, unchanged,
/// between the fixed opening `"ALERT 🔥 🔥 🔥 \n\nKuma said... \n"` and a
/// closing newline; nothing else is in it.
pub proof fn lemma_kuma_text_holds_message(body: UptimeKumaRequestBody)
    ensures
        body.seatalk_text().len() == 29 + body.msg@.len(),
        body.seatalk_text().subrange(0, 28) == "ALERT 🔥 🔥 🔥 \n\nKuma said... \n"@,
        body.seatalk_text().subrange(28, 28 + body.msg@.len() as int) == body.msg@,
        body.seatalk_text()[28 + body.msg@.len() as int] == '\n',
{
    reveal_strlit("ALERT 🔥 🔥 🔥 \n\n");
    reveal_strlit("Kuma said... \n");
    reveal_strlit("\n");
    reveal_strlit("ALERT 🔥 🔥 🔥 \n\nKuma said... \n");
    let t = body.seatalk_text();
    let m = body.msg@;
    assert(t.subrange(0, 28) =~= "ALERT 🔥 🔥 🔥 \n\nKuma said... \n"@);
    assert(t.subrange(28, 28 + m.len() as int) =~= m);
}

/// Two messages give the same text only when they are the same message.
pub proof fn lemma_kuma_text_injective(a: UptimeKumaRequestBody, b: UptimeKumaRequestBody)
    requires
        a.seatalk_text() == b.seatalk_text(),
    ensures
        a.msg@ == b.msg@,
{
    lemma_kuma_text_holds_message(a);
    lemma_kuma_text_holds_message(b);
}

} // verus!
