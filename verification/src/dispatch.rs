//! The dispatcher: parsing a message body into a command, exact-match
//! lookup in the handler registry, and the per-event state machine that
//! sequences a handler's external fetches.
//!
//! Each accepted message starts one task. A task's progress is a [`Step`]:
//! either one more fetch to perform together with the state to resume in,
//! or one response to send, or nothing. The caller performs the fetches and
//! feeds every outcome — success or failure — back through [`resume_task`],
//! so one failed network call never produces a partial response.

use vstd::prelude::*;

use crate::handlers::{
    caption_text, html_of, latest_info_url, latex_render_url, md_to_html, quote_random_url,
    quote_text, spec_caption, spec_latex_url, spec_quote_text, spec_uptime_text, uptime_text,
    comic_info_url,
};
use crate::model::{BotConfig, Comic, Command, Data, IncomingMessage, OutgoingResponse, Quote,
    UnknownPolicy};
use crate::text::{concat_views, spec_dec, split_ws, str_eq, tokenize, u64_to_dec, concat_all};

verus! {

/// The commands the registry knows.
#[derive(Clone, Copy, PartialEq, Eq, Structural, Debug)]
pub enum CommandKind {
    Uptime,
    Xkcd,
    Quote,
    Latex,
    Md2Html,
}

/// One external fetch a handler asks for.
pub enum FetchRequest {
    /// The metadata record of the newest comic.
    ComicLatest,
    /// The metadata record of the comic with this id.
    ComicById { id: String },
    /// The raw bytes behind this URL (a comic image).
    ImageBytes { url: String },
    /// One random quote record.
    QuoteRandom,
    /// The rendered PNG behind this render-service URL.
    LatexPng { url: String },
}

/// What came back from one external fetch. Every failure to transmit or to
/// decode is `Failed`: the task is abandoned without a response.
pub enum FetchOutcome {
    Comic { comic: Comic },
    Bytes { bytes: Vec<u8> },
    QuoteRecord { quote: Quote },
    Failed,
}

/// Where a task stands between two fetches.
pub enum TaskState {
    /// A comic record is coming; its `num` bounds the random draw.
    AwaitLatestForRandom,
    /// A comic record is coming; its image is fetched next.
    AwaitComic,
    /// The image bytes of this comic are coming.
    AwaitImage { comic: Comic },
    /// A quote record is coming.
    AwaitQuote,
    /// A rendered PNG is coming.
    AwaitLatexPng,
}

/// What a task does next.
pub enum Step {
    /// Perform this fetch, then resume with its outcome in this state.
    Fetch { request: FetchRequest, state: TaskState },
    /// Send this one response; the task is over.
    Respond { response: OutgoingResponse },
    /// Send nothing; the task is over.
    Done,
}

/// An incoming message is processed at all only when its room is joined and
/// it does not come from the bot itself.
pub open spec fn spec_accepts(cfg: BotConfig, msg: IncomingMessage) -> bool {
    msg.room_joined && msg.sender@ != cfg.bot_identity@
}

/// Exact, case-sensitive lookup of a command name.
pub open spec fn spec_kind_of(name: Seq<char>) -> Option<CommandKind> {
    if name == "uptime"@ {
        Some(CommandKind::Uptime)
    } else if name == "xkcd"@ {
        Some(CommandKind::Xkcd)
    } else if name == "quote"@ {
        Some(CommandKind::Quote)
    } else if name == "latex"@ {
        Some(CommandKind::Latex)
    } else if name == "md2html"@ {
        Some(CommandKind::Md2Html)
    } else {
        None
    }
}

/// Whether the configuration enables a command.
pub open spec fn spec_enabled(cfg: BotConfig, k: CommandKind) -> bool {
    match k {
        CommandKind::Uptime => cfg.enable_uptime,
        CommandKind::Xkcd => cfg.enable_xkcd,
        CommandKind::Quote => cfg.enable_quote,
        CommandKind::Latex => cfg.enable_latex,
        CommandKind::Md2Html => cfg.enable_md2html,
    }
}

/// What the unknown-command policy demands of the step taken for an
/// unmatched (or disabled) command.
pub open spec fn spec_unknown_ok(cfg: BotConfig, r: Step) -> bool {
    match cfg.unknown_policy {
        UnknownPolicy::Silent => r is Done,
        UnknownPolicy::Explicit => r matches Step::Respond {
            response: OutgoingResponse::PlainText { text },
        } && text@ == "mmm... no such command."@,
    }
}

/// The first step of the `xkcd` command for the given arguments: which
/// record is fetched first, and in which state the task awaits it.
pub open spec fn spec_xkcd_ok(args: Seq<Seq<char>>, r: Step) -> bool {
    if args.len() == 0 || args[0] == "latest"@ {
        r matches Step::Fetch { request: FetchRequest::ComicLatest, state: TaskState::AwaitComic }
    } else if args[0] == "random"@ {
        r matches Step::Fetch {
            request: FetchRequest::ComicLatest,
            state: TaskState::AwaitLatestForRandom,
        }
    } else if args[0] == "404"@ {
        // The upstream service answers the real id 404 with an error, so
        // that id is special-cased to 405.
        r matches Step::Fetch {
            request: FetchRequest::ComicById { id },
            state: TaskState::AwaitComic,
        } && id@ == "405"@
    } else {
        r matches Step::Fetch {
            request: FetchRequest::ComicById { id },
            state: TaskState::AwaitComic,
        } && id@ == args[0]
    }
}

/// The step taken for a parsed command `name args`, given the uptime in
/// seconds at the moment the message arrived.
pub open spec fn spec_dispatch_ok(
    cfg: BotConfig,
    name: Seq<char>,
    args: Seq<Seq<char>>,
    elapsed: nat,
    r: Step,
) -> bool {
    match spec_kind_of(name) {
        None => spec_unknown_ok(cfg, r),
        Some(k) => if !spec_enabled(cfg, k) {
            spec_unknown_ok(cfg, r)
        } else {
            match k {
                CommandKind::Uptime => r matches Step::Respond {
                    response: OutgoingResponse::PlainText { text },
                } && text@ == spec_uptime_text(elapsed),
                CommandKind::Xkcd => spec_xkcd_ok(args, r),
                CommandKind::Quote => r matches Step::Fetch {
                    request: FetchRequest::QuoteRandom,
                    state: TaskState::AwaitQuote,
                },
                CommandKind::Latex => r matches Step::Fetch {
                    request: FetchRequest::LatexPng { url },
                    state: TaskState::AwaitLatexPng,
                } && url@ == spec_latex_url(concat_views(args)),
                CommandKind::Md2Html => r matches Step::Respond {
                    response: OutgoingResponse::PlainText { text },
                } && text@ == html_of(concat_views(args)),
            }
        },
    }
}

/// Split a message body into a command: the first whitespace-delimited
/// token is the name, the remaining tokens the arguments. An empty or
/// all-whitespace body yields nothing.
pub fn parse_command(body: &str) -> (r: Option<Command>)
    ensures
        (r is None) <==> split_ws(body@).len() == 0,
        r matches Some(cmd) ==> {
            &&& cmd.name@ == split_ws(body@)[0]
            &&& cmd.args@.map_values(|t: String| t@) == split_ws(body@).skip(1)
        },
{
    let mut toks = tokenize(body);
    if toks.len() == 0 {
        return None;
    }
    let ghost all = toks@.map_values(|t: String| t@);
    let name = toks.remove(0);
    proof {
        assert(toks@.map_values(|t: String| t@) =~= all.skip(1));
    }
    Some(Command { name, args: toks })
}

/// Exact, case-sensitive lookup of a command name.
pub fn kind_of(name: &str) -> (r: Option<CommandKind>)
    ensures
        r == spec_kind_of(name@),
{
    if str_eq(name, "uptime") {
        Some(CommandKind::Uptime)
    } else if str_eq(name, "xkcd") {
        Some(CommandKind::Xkcd)
    } else if str_eq(name, "quote") {
        Some(CommandKind::Quote)
    } else if str_eq(name, "latex") {
        Some(CommandKind::Latex)
    } else if str_eq(name, "md2html") {
        Some(CommandKind::Md2Html)
    } else {
        None
    }
}

fn enabled(cfg: &BotConfig, k: CommandKind) -> (r: bool)
    ensures
        r == spec_enabled(*cfg, k),
{
    match k {
        CommandKind::Uptime => cfg.enable_uptime,
        CommandKind::Xkcd => cfg.enable_xkcd,
        CommandKind::Quote => cfg.enable_quote,
        CommandKind::Latex => cfg.enable_latex,
        CommandKind::Md2Html => cfg.enable_md2html,
    }
}

/// The step the unknown-command policy demands.
fn unknown_step(cfg: &BotConfig) -> (r: Step)
    ensures
        spec_unknown_ok(*cfg, r),
{
    match cfg.unknown_policy {
        UnknownPolicy::Silent => Step::Done,
        UnknownPolicy::Explicit => Step::Respond {
            response: OutgoingResponse::PlainText {
                text: "mmm... no such command.".to_owned(),
            },
        },
    }
}

/// Relies on `rand::random_range`: a draw from the range `lo..hi` lies in
/// that range. `lo < hi` keeps the range nonempty, so the call cannot panic.
#[verifier::external_body]
fn draw_in_range(lo: usize, hi: usize) -> (r: usize)
    requires
        lo < hi,
    ensures
        lo <= r < hi,
{
    rand::random_range(lo..hi)
}

/// The first step of the `xkcd` command: decide which comic record to
/// fetch from the arguments.
fn xkcd_step(args: &Vec<String>) -> (r: Step)
    ensures
        spec_xkcd_ok(args@.map_values(|t: String| t@), r),
{
    let ghost views = args@.map_values(|t: String| t@);
    if args.len() == 0 {
        return Step::Fetch {
            request: FetchRequest::ComicLatest,
            state: TaskState::AwaitComic,
        };
    }
    let which = &args[0];
    proof {
        assert(views[0] == args@[0]@);
    }
    if str_eq(which.as_str(), "latest") {
        Step::Fetch { request: FetchRequest::ComicLatest, state: TaskState::AwaitComic }
    } else if str_eq(which.as_str(), "random") {
        Step::Fetch {
            request: FetchRequest::ComicLatest,
            state: TaskState::AwaitLatestForRandom,
        }
    } else if str_eq(which.as_str(), "404") {
        Step::Fetch {
            request: FetchRequest::ComicById { id: "405".to_owned() },
            state: TaskState::AwaitComic,
        }
    } else {
        Step::Fetch {
            request: FetchRequest::ComicById { id: which.clone() },
            state: TaskState::AwaitComic,
        }
    }
}

/// Take one incoming message through filter, parser, and registry, and
/// return the first step of its handler task.
///
/// `elapsed_secs` is the whole seconds since the process started, measured
/// by the caller when the message arrived.
pub fn handle_message(cfg: &BotConfig, msg: &IncomingMessage, elapsed_secs: u64) -> (r: Step)
    ensures
        !spec_accepts(*cfg, *msg) ==> r is Done,
        spec_accepts(*cfg, *msg) && split_ws(msg.body@).len() == 0 ==> r is Done,
        spec_accepts(*cfg, *msg) && split_ws(msg.body@).len() > 0 ==> spec_dispatch_ok(
            *cfg,
            split_ws(msg.body@)[0],
            split_ws(msg.body@).skip(1),
            elapsed_secs as nat,
            r,
        ),
{
    if !msg.room_joined {
        return Step::Done;
    }
    if str_eq(msg.sender.as_str(), cfg.bot_identity.as_str()) {
        return Step::Done;
    }
    let cmd = match parse_command(msg.body.as_str()) {
        None => {
            return Step::Done;
        },
        Some(cmd) => cmd,
    };
    let kind = match kind_of(cmd.name.as_str()) {
        None => {
            return unknown_step(cfg);
        },
        Some(k) => k,
    };
    if !enabled(cfg, kind) {
        return unknown_step(cfg);
    }
    match kind {
        CommandKind::Uptime => Step::Respond {
            response: OutgoingResponse::PlainText { text: uptime_text(elapsed_secs) },
        },
        CommandKind::Xkcd => xkcd_step(&cmd.args),
        CommandKind::Quote => Step::Fetch {
            request: FetchRequest::QuoteRandom,
            state: TaskState::AwaitQuote,
        },
        CommandKind::Latex => {
            let joined = concat_all(&cmd.args);
            Step::Fetch {
                request: FetchRequest::LatexPng { url: latex_render_url(joined.as_str()) },
                state: TaskState::AwaitLatexPng,
            }
        },
        CommandKind::Md2Html => {
            let joined = concat_all(&cmd.args);
            Step::Respond {
                response: OutgoingResponse::PlainText { text: md_to_html(joined.as_str()) },
            }
        },
    }
}

/// Pair a comic with its image bytes as one attachment response.
pub fn xkcd_attachment(data: Data) -> (r: OutgoingResponse)
    ensures
        r matches OutgoingResponse::Attachment { filename, mime_type, bytes, caption } ==> {
            &&& filename@ == "xkcd.jpg"@
            &&& mime_type@ == "image/jpeg"@
            &&& bytes == data.imgcontent
            &&& caption matches Some(t) && t@ == spec_caption(data.comic)
        },
        r is Attachment,
{
    let caption = caption_text(&data.comic);
    OutgoingResponse::Attachment {
        filename: "xkcd.jpg".to_owned(),
        mime_type: "image/jpeg".to_owned(),
        bytes: data.imgcontent,
        caption: Some(caption),
    }
}

/// Resume a task with the outcome of the fetch it was waiting for, and
/// return its next step.
///
/// A failed fetch always ends the task with no response, whatever it was
/// waiting for; so does an outcome of the wrong shape.
pub fn resume_task(state: TaskState, outcome: FetchOutcome) -> (r: Step)
    ensures
        outcome is Failed ==> r is Done,
        state matches TaskState::AwaitQuote ==> match outcome {
            FetchOutcome::QuoteRecord { quote } => r matches Step::Respond {
                response: OutgoingResponse::PlainText { text },
            } && text@ == spec_quote_text(quote),
            _ => r is Done,
        },
        state matches TaskState::AwaitComic ==> match outcome {
            FetchOutcome::Comic { comic } => r matches Step::Fetch {
                request: FetchRequest::ImageBytes { url },
                state: TaskState::AwaitImage { comic: next },
            } && url@ == comic.img@ && next == comic,
            _ => r is Done,
        },
        state matches TaskState::AwaitImage { comic } ==> match outcome {
            FetchOutcome::Bytes { bytes } => r matches Step::Respond {
                response: OutgoingResponse::Attachment {
                    filename,
                    mime_type,
                    bytes: sent,
                    caption,
                },
            } && {
                &&& filename@ == "xkcd.jpg"@
                &&& mime_type@ == "image/jpeg"@
                &&& sent == bytes
                &&& caption matches Some(t) && t@ == spec_caption(comic)
            },
            _ => r is Done,
        },
        state matches TaskState::AwaitLatexPng ==> match outcome {
            FetchOutcome::Bytes { bytes } => r matches Step::Respond {
                response: OutgoingResponse::Attachment {
                    filename,
                    mime_type,
                    bytes: sent,
                    caption,
                },
            } && {
                &&& filename@ == "latex.png"@
                &&& mime_type@ == "image/png"@
                &&& sent == bytes
                &&& caption is None
            },
            _ => r is Done,
        },
        state matches TaskState::AwaitLatestForRandom ==> match outcome {
            FetchOutcome::Comic { comic } => {
                if comic.num < 2 {
                    r is Done
                } else {
                    r matches Step::Fetch {
                        request: FetchRequest::ComicById { id },
                        state: TaskState::AwaitComic,
                    } && (exists|k: nat| 1 <= k < comic.num && id@ == spec_dec(k))
                }
            },
            _ => r is Done,
        },
{
    match (state, outcome) {
        (TaskState::AwaitQuote, FetchOutcome::QuoteRecord { quote }) => Step::Respond {
            response: OutgoingResponse::PlainText { text: quote_text(&quote) },
        },
        (TaskState::AwaitComic, FetchOutcome::Comic { comic }) => {
            let url = comic.img.clone();
            Step::Fetch {
                request: FetchRequest::ImageBytes { url },
                state: TaskState::AwaitImage { comic },
            }
        },
        (TaskState::AwaitImage { comic }, FetchOutcome::Bytes { bytes }) => Step::Respond {
            response: xkcd_attachment(Data { comic, imgcontent: bytes }),
        },
        (TaskState::AwaitLatexPng, FetchOutcome::Bytes { bytes }) => Step::Respond {
            response: OutgoingResponse::Attachment {
                filename: "latex.png".to_owned(),
                mime_type: "image/png".to_owned(),
                bytes,
                caption: None,
            },
        },
        (TaskState::AwaitLatestForRandom, FetchOutcome::Comic { comic }) => {
            if comic.num < 2 {
                Step::Done
            } else {
                let k = draw_in_range(1, comic.num);
                let id = u64_to_dec(k as u64);
                proof {
                    assert(1 <= (k as nat) && (k as nat) < comic.num && id@ == spec_dec(
                        k as nat,
                    ));
                }
                Step::Fetch {
                    request: FetchRequest::ComicById { id },
                    state: TaskState::AwaitComic,
                }
            }
        },
        _ => Step::Done,
    }
}

/// An empty or all-whitespace body has no tokens, so no command is parsed
/// from it and [`handle_message`] takes no step for it.
pub proof fn lemma_blank_body_silent(s: Seq<char>)
    requires
        forall|k: int| 0 <= k < s.len() ==> crate::text::spec_is_space(s[k]),
    ensures
        split_ws(s).len() == 0,
{
    crate::text::lemma_split_ws_empty(s, 0);
}

/// A random comic id is drawn in `[1, latest)`, so — as the decimal
/// strings the fetches are keyed by — the random id and the latest id are
/// never equal.
pub proof fn lemma_random_id_distinct(k: nat, latest: nat)
    requires
        1 <= k < latest,
    ensures
        spec_dec(k) != spec_dec(latest),
{
    if spec_dec(k) == spec_dec(latest) {
        crate::text::lemma_dec_injective(k, latest);
    }
}

/// The URL one fetch request goes to.
pub fn request_url(req: &FetchRequest) -> (r: String)
    ensures
        req matches FetchRequest::ComicLatest ==> r@ == "https://xkcd.com/info.0.json"@,
        req matches FetchRequest::ComicById { id } ==> r@ == "https://xkcd.com/"@ + id@
            + "/info.0.json"@,
        req matches FetchRequest::ImageBytes { url } ==> r@ == url@,
        req matches FetchRequest::QuoteRandom ==> r@ == "http://api.quotable.io/random"@,
        req matches FetchRequest::LatexPng { url } ==> r@ == url@,
{
    match req {
        FetchRequest::ComicLatest => latest_info_url(),
        FetchRequest::ComicById { id } => comic_info_url(id.as_str()),
        FetchRequest::ImageBytes { url } => url.clone(),
        FetchRequest::QuoteRandom => quote_random_url(),
        FetchRequest::LatexPng { url } => url.clone(),
    }
}

} // verus!

