//! The banner: a text drawn in large letters with the standard FIGlet font.

use vstd::prelude::*;
use vstd::string::StringExecFns;

verus! {

/// Renders banners.
pub struct Banner;

/// The figure that `figlet_rs` draws for `text` in its standard font, as the
/// text that the figure's `Display` writes; `None` where it draws none.
pub uninterp spec fn standard_figure(text: Seq<char>) -> Option<Seq<char>>;

/// Trusted: loads the font with `figlet_rs::FIGfont::standard`, calls
/// `FIGfont::convert` on `text` and writes the figure out with its `Display`.
/// The font is part of the crate, so the outcome depends on `text` alone and
/// is given the name `standard_figure`; it is `None` when the font does not
/// load or `convert` gives no figure.
#[verifier::external_body]
fn draw(text: &str) -> (figure: Option<String>)
    ensures
        figure.deep_view() == standard_figure(text@),
{
    match figlet_rs::FIGfont::standard() {
        Ok(font) => font.convert(text).map(|figure| figure.to_string()),
        Err(_) => None,
    }
}

/// What is reported when no figure can be drawn for `text`.
pub open spec fn failure_notice(text: Seq<char>) -> Seq<char> {
    "Failed to render banner for text: '"@ + text + "'"@
}

/// What rendering `text` gives: the figure, or the notice that there is none.
pub open spec fn rendering(text: Seq<char>) -> Result<Seq<char>, Seq<char>> {
    match standard_figure(text) {
        Some(figure) => Ok(figure),
        None => Err(failure_notice(text)),
    }
}

/// A rendering as plain text.
pub open spec fn rendering_view(rendered: Result<String, String>) -> Result<Seq<char>, Seq<char>> {
    match rendered {
        Ok(figure) => Ok(figure@),
        Err(notice) => Err(notice@),
    }
}

impl Banner {
    /// Draws `text` as a banner. `Ok` holds the figure, to be shown as it is;
    /// `Err` holds the notice to report when none could be drawn.
    pub fn render(text: &str) -> (rendered: Result<String, String>)
        ensures
            rendering_view(rendered) == rendering(text@),
    {
        match draw(text) {
            Some(figure) => Ok(figure),
            None => {
                let mut notice = String::from_str("Failed to render banner for text: '");
                notice.append(text);
                notice.append("'");
                Err(notice)
            },
        }
    }
}

} // verus!
