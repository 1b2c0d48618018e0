//! What the service shows when it starts: the log filter and the banner.

use vstd::prelude::*;

verus! {

/// The log filter used when `RUST_LOG` is not set: this crate at `info`.
pub open spec fn default_log_filter() -> Seq<char> {
    "owasu=info"@
}

/// The log filter in force: the one that `RUST_LOG` holds, or this crate at
/// `info` when it holds none.
pub fn log_filter(configured: Option<String>) -> (filter: String)
    ensures
        filter@ == match configured {
            Some(f) => f@,
            None => default_log_filter(),
        },
        configured is None ==> filter@ == "owasu=info"@,
{
    match configured {
        Some(f) => f,
        None => String::from_str("owasu=info"),
    }
}

/// What figlet-rs draws for a text in its standard font, as lines of text,
/// or `None` when it draws nothing.
pub uninterp spec fn figlet_standard(text: Seq<char>) -> Option<Seq<char>>;

/// Loads figlet-rs's built-in standard font (`FIGfont::standard`), converts
/// `text` with it (`FIGfont::convert`) and writes the figure out with its
/// `Display`. `convert` gives nothing for an empty text, and draws any text
/// with a printable ASCII character in it, since the standard font holds
/// every character from `' '` to `'~'` (the crate's own tests load it
/// without error); the drawing itself is not written out here. A font that
/// failed to load would also give `None`.
#[verifier::external_body]
fn draw_standard(text: &str) -> (figure: Option<String>)
    ensures
        figure is Some <==> figlet_standard(text@) is Some,
        figure matches Some(f) ==> f@ == figlet_standard(text@)->0,
        text@.len() == 0 ==> figure is None,
        (exists|i: int| 0 <= i < text@.len() && 32 <= #[trigger] (text@[i] as u32) <= 126)
            ==> figure is Some,
{
    match figlet_rs::FIGfont::standard() {
        Ok(font) => match font.convert(text) {
            Some(drawn) => Some(drawn.to_string()),
            None => None,
        },
        Err(_) => None,
    }
}

/// The banner printed at start-up: the service's name, `owasu`, drawn in
/// figlet's standard font. The name is printable ASCII, so it is drawn.
pub fn banner() -> (figure: Option<String>)
    ensures
        figure is Some,
        figlet_standard("owasu"@) is Some,
        figure matches Some(f) ==> f@ == figlet_standard("owasu"@)->0,
{
    proof {
        reveal_strlit("owasu");
        assert(32 <= ("owasu"@[0] as u32) <= 126);
    }
    draw_standard("owasu")
}

} // verus!
