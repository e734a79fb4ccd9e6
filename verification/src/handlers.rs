//! The per-command response builders: the texts and URLs each handler
//! produces, stated character by character, and the one pure outside
//! transform (markdown rendering) behind a trusted wrapper.

use vstd::prelude::*;

use crate::model::{Comic, Quote};
use crate::text::{spec_dec, u64_to_dec};

verus! {

/// The caption of a comic attachment: `{title} #{num} - {year}/{month}/{day}`.
pub open spec fn spec_caption(c: Comic) -> Seq<char> {
    c.title@ + " #"@ + spec_dec(c.num as nat) + " - "@ + c.year@ + "/"@ + c.month@ + "/"@ + c.day@
}

/// Build the caption of a comic attachment.
pub fn caption_text(c: &Comic) -> (r: String)
    ensures
        r@ == spec_caption(*c),
{
    let mut r = c.title.clone();
    r.append(" #");
    let num = u64_to_dec(c.num as u64);
    r.append(num.as_str());
    r.append(" - ");
    r.append(c.year.as_str());
    r.append("/");
    r.append(c.month.as_str());
    r.append("/");
    r.append(c.day.as_str());
    r
}

/// The uptime report for an uptime of `secs` seconds:
/// `{hours}h {minutes}m {seconds}s`.
pub open spec fn spec_uptime_text(secs: nat) -> Seq<char> {
    spec_dec(secs / 3600) + "h "@ + spec_dec((secs % 3600) / 60) + "m "@ + spec_dec(secs % 60)
        + "s"@
}

/// Build the uptime report for an uptime of `elapsed_secs` seconds.
pub fn uptime_text(elapsed_secs: u64) -> (r: String)
    ensures
        r@ == spec_uptime_text(elapsed_secs as nat),
{
    let mut r = u64_to_dec(elapsed_secs / 3600);
    r.append("h ");
    let m = u64_to_dec((elapsed_secs % 3600) / 60);
    r.append(m.as_str());
    r.append("m ");
    let s = u64_to_dec(elapsed_secs % 60);
    r.append(s.as_str());
    r.append("s");
    r
}

/// The text a quote is reported as: `{content} - {author}`.
pub open spec fn spec_quote_text(q: Quote) -> Seq<char> {
    q.content@ + " - "@ + q.author@
}

/// Build the text a quote is reported as.
pub fn quote_text(q: &Quote) -> (r: String)
    ensures
        r@ == spec_quote_text(*q),
{
    let mut r = q.content.clone();
    r.append(" - ");
    r.append(q.author.as_str());
    r
}

/// The URL of the metadata record of the newest comic.
pub fn latest_info_url() -> (r: String)
    ensures
        r@ == "https://xkcd.com/info.0.json"@,
{
    "https://xkcd.com/info.0.json".to_owned()
}

/// The URL of the metadata record of the comic with the given id.
pub fn comic_info_url(id: &str) -> (r: String)
    ensures
        r@ == "https://xkcd.com/"@ + id@ + "/info.0.json"@,
{
    let mut r = "https://xkcd.com/".to_owned();
    r.append(id);
    r.append("/info.0.json");
    r
}

/// The URL of the random-quote endpoint.
pub fn quote_random_url() -> (r: String)
    ensures
        r@ == "http://api.quotable.io/random"@,
{
    "http://api.quotable.io/random".to_owned()
}

/// The render-service URL for an expression: the expression is embedded in
/// the query, wrapped in a fixed color directive.
pub open spec fn spec_latex_url(code: Seq<char>) -> Seq<char> {
    "https://latex.codecogs.com/png.image?"@ + "{\\color{white}"@ + code + "}"@
}

/// Build the render-service URL for an expression.
pub fn latex_render_url(code: &str) -> (r: String)
    ensures
        r@ == spec_latex_url(code@),
{
    let mut r = "https://latex.codecogs.com/png.image?".to_owned();
    r.append("{\\color{white}");
    r.append(code);
    r.append("}");
    r
}

/// The HTML that the markdown renderer produces for a text.
pub uninterp spec fn html_of(s: Seq<char>) -> Seq<char>;

/// Relies on `markdown::to_html`: renders markdown as HTML. The function is
/// a pure transform of its input text, so its result is named `html_of`.
#[verifier::external_body]
pub(crate) fn md_to_html(s: &str) -> (r: String)
    ensures
        r@ == html_of(s@),
{
    markdown::to_html(s)
}

} // verus!
