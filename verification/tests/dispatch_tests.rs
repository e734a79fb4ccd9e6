use picobot::dispatch::{
    handle_message, parse_command, request_url, resume_task, FetchOutcome, FetchRequest, Step,
    TaskState,
};
use picobot::model::{BotConfig, Comic, IncomingMessage, OutgoingResponse, Quote, UnknownPolicy};

fn config(policy: UnknownPolicy) -> BotConfig {
    BotConfig {
        bot_identity: "@picovm:matrix.org".to_string(),
        unknown_policy: policy,
        enable_uptime: true,
        enable_xkcd: true,
        enable_quote: true,
        enable_latex: true,
        enable_md2html: true,
    }
}

fn message(body: &str) -> IncomingMessage {
    IncomingMessage {
        sender: "@someone:matrix.org".to_string(),
        body: body.to_string(),
        room_joined: true,
    }
}

fn comic(num: usize, img: &str) -> Comic {
    Comic {
        year: "2011".to_string(),
        month: "7".to_string(),
        day: "20".to_string(),
        num,
        link: "".to_string(),
        news: "".to_string(),
        transcript: "".to_string(),
        alt: "".to_string(),
        title: "Standards".to_string(),
        safe_title: "Standards".to_string(),
        img: img.to_string(),
    }
}

#[test]
fn empty_body_yields_no_command_and_no_response() {
    assert!(parse_command("").is_none());
    assert!(parse_command("   \t\n ").is_none());
    let cfg = config(UnknownPolicy::Explicit);
    assert!(matches!(handle_message(&cfg, &message(""), 5), Step::Done));
    assert!(matches!(handle_message(&cfg, &message("  \t "), 5), Step::Done));
}

#[test]
fn command_match_is_case_sensitive() {
    let cfg = config(UnknownPolicy::Silent);
    assert!(matches!(handle_message(&cfg, &message("Uptime"), 5), Step::Done));
    let step = handle_message(&cfg, &message("uptime"), 3661);
    let Step::Respond { response: OutgoingResponse::PlainText { text } } = step else {
        panic!("uptime must answer with plain text");
    };
    assert_eq!(text, "1h 1m 1s");
}

#[test]
fn xkcd_404_fetches_405() {
    let cfg = config(UnknownPolicy::Silent);
    let step = handle_message(&cfg, &message("xkcd 404"), 0);
    let Step::Fetch { request: FetchRequest::ComicById { id }, state: TaskState::AwaitComic } =
        step
    else {
        panic!("xkcd 404 must fetch a comic by id");
    };
    assert_eq!(id, "405");
}

#[test]
fn xkcd_random_id_is_in_range_and_not_latest() {
    let latest_num = 3000;
    for _ in 0..50 {
        let step = resume_task(
            TaskState::AwaitLatestForRandom,
            FetchOutcome::Comic { comic: comic(latest_num, "https://imgs.xkcd.com/x.png") },
        );
        let Step::Fetch {
            request: FetchRequest::ComicById { id },
            state: TaskState::AwaitComic,
        } = step
        else {
            panic!("xkcd random must fetch a comic by id after the latest record");
        };
        let n: usize = id.parse().expect("the random id is decimal");
        assert!(n >= 1);
        assert!(n < latest_num);
        assert_ne!(n, latest_num);
    }
}

#[test]
fn xkcd_random_with_tiny_latest_gives_up() {
    let step = resume_task(
        TaskState::AwaitLatestForRandom,
        FetchOutcome::Comic { comic: comic(1, "https://imgs.xkcd.com/x.png") },
    );
    assert!(matches!(step, Step::Done));
}

#[test]
fn xkcd_927_full_run() {
    let cfg = config(UnknownPolicy::Silent);
    let step = handle_message(&cfg, &message("xkcd 927"), 0);
    let Step::Fetch { request: FetchRequest::ComicById { id }, state } = step else {
        panic!("xkcd 927 must fetch a comic by id");
    };
    assert_eq!(id, "927");
    assert_eq!(request_url(&FetchRequest::ComicById { id }), "https://xkcd.com/927/info.0.json");

    let record = comic(927, "https://imgs.xkcd.com/comics/standards.png");
    assert_eq!(record.year, "2011");
    assert_eq!(record.month, "7");
    assert_eq!(record.day, "20");
    assert_eq!(record.title, "Standards");
    assert_eq!(record.safe_title, "Standards");
    assert_eq!(record.img, "https://imgs.xkcd.com/comics/standards.png");
    let step = resume_task(state, FetchOutcome::Comic { comic: record });
    let Step::Fetch { request: FetchRequest::ImageBytes { url }, state } = step else {
        panic!("a comic record must be followed by its image fetch");
    };
    assert_eq!(url, "https://imgs.xkcd.com/comics/standards.png");

    let png = vec![0x89u8, 0x50, 0x4e, 0x47];
    let step = resume_task(state, FetchOutcome::Bytes { bytes: png.clone() });
    let Step::Respond {
        response: OutgoingResponse::Attachment { filename, mime_type, bytes, caption },
    } = step
    else {
        panic!("image bytes must complete the attachment");
    };
    assert_eq!(filename, "xkcd.jpg");
    assert_eq!(mime_type, "image/jpeg");
    assert_eq!(bytes, png);
    assert_eq!(caption, Some("Standards #927 - 2011/7/20".to_string()));
}

#[test]
fn xkcd_latest_and_bare_and_literal_id() {
    let cfg = config(UnknownPolicy::Silent);
    let step = handle_message(&cfg, &message("xkcd latest"), 0);
    assert!(matches!(
        step,
        Step::Fetch { request: FetchRequest::ComicLatest, state: TaskState::AwaitComic }
    ));
    let step = handle_message(&cfg, &message("xkcd"), 0);
    assert!(matches!(
        step,
        Step::Fetch { request: FetchRequest::ComicLatest, state: TaskState::AwaitComic }
    ));
    let step = handle_message(&cfg, &message("xkcd random"), 0);
    assert!(matches!(
        step,
        Step::Fetch { request: FetchRequest::ComicLatest, state: TaskState::AwaitLatestForRandom }
    ));
    let step = handle_message(&cfg, &message("xkcd 927"), 0);
    let Step::Fetch { request: FetchRequest::ComicById { id }, state: TaskState::AwaitComic } =
        step
    else {
        panic!("a literal id must be fetched verbatim");
    };
    assert_eq!(id, "927");
}

#[test]
fn any_fetch_failure_ends_the_task_silently() {
    assert!(matches!(resume_task(TaskState::AwaitQuote, FetchOutcome::Failed), Step::Done));
    assert!(matches!(resume_task(TaskState::AwaitComic, FetchOutcome::Failed), Step::Done));
    assert!(matches!(
        resume_task(TaskState::AwaitLatestForRandom, FetchOutcome::Failed),
        Step::Done
    ));
    assert!(matches!(resume_task(TaskState::AwaitLatexPng, FetchOutcome::Failed), Step::Done));
    assert!(matches!(
        resume_task(
            TaskState::AwaitImage { comic: comic(1, "https://imgs.xkcd.com/x.png") },
            FetchOutcome::Failed
        ),
        Step::Done
    ));
}

#[test]
fn own_messages_never_invoke_a_handler() {
    let cfg = config(UnknownPolicy::Explicit);
    let msg = IncomingMessage {
        sender: "@picovm:matrix.org".to_string(),
        body: "uptime".to_string(),
        room_joined: true,
    };
    assert!(matches!(handle_message(&cfg, &msg, 5), Step::Done));
}

#[test]
fn unjoined_rooms_never_invoke_a_handler() {
    let cfg = config(UnknownPolicy::Explicit);
    let msg = IncomingMessage {
        sender: "@someone:matrix.org".to_string(),
        body: "uptime".to_string(),
        room_joined: false,
    };
    assert!(matches!(handle_message(&cfg, &msg, 5), Step::Done));
}

#[test]
fn unknown_command_follows_the_policy() {
    let silent = config(UnknownPolicy::Silent);
    assert!(matches!(handle_message(&silent, &message("frobnicate 1"), 0), Step::Done));

    let explicit = config(UnknownPolicy::Explicit);
    let step = handle_message(&explicit, &message("frobnicate 1"), 0);
    let Step::Respond { response: OutgoingResponse::PlainText { text } } = step else {
        panic!("the explicit policy must answer");
    };
    assert_eq!(text, "mmm... no such command.");
}

#[test]
fn disabled_command_follows_the_policy() {
    let mut cfg = config(UnknownPolicy::Explicit);
    cfg.enable_quote = false;
    let step = handle_message(&cfg, &message("quote"), 0);
    let Step::Respond { response: OutgoingResponse::PlainText { text } } = step else {
        panic!("a disabled command must follow the policy");
    };
    assert_eq!(text, "mmm... no such command.");
}

#[test]
fn quote_full_run() {
    let cfg = config(UnknownPolicy::Silent);
    let step = handle_message(&cfg, &message("quote"), 0);
    let Step::Fetch { request: FetchRequest::QuoteRandom, state: TaskState::AwaitQuote } = step
    else {
        panic!("quote must fetch a random quote");
    };
    assert_eq!(
        request_url(&FetchRequest::QuoteRandom),
        "http://api.quotable.io/random"
    );
    let q = Quote { content: "Less is more.".to_string(), author: "Mies".to_string() };
    let step = resume_task(TaskState::AwaitQuote, FetchOutcome::QuoteRecord { quote: q });
    let Step::Respond { response: OutgoingResponse::PlainText { text } } = step else {
        panic!("a quote record must become plain text");
    };
    assert_eq!(text, "Less is more. - Mies");
}

#[test]
fn latex_full_run() {
    let cfg = config(UnknownPolicy::Silent);
    let step = handle_message(&cfg, &message("latex x^2 + 1"), 0);
    let Step::Fetch { request: FetchRequest::LatexPng { url }, state: TaskState::AwaitLatexPng } =
        step
    else {
        panic!("latex must fetch a rendered image");
    };
    assert_eq!(url, "https://latex.codecogs.com/png.image?{\\color{white}x^2+1}");

    let png = vec![1u8, 2, 3];
    let step = resume_task(TaskState::AwaitLatexPng, FetchOutcome::Bytes { bytes: png.clone() });
    let Step::Respond {
        response: OutgoingResponse::Attachment { filename, mime_type, bytes, caption },
    } = step
    else {
        panic!("rendered bytes must complete the attachment");
    };
    assert_eq!(filename, "latex.png");
    assert_eq!(mime_type, "image/png");
    assert_eq!(bytes, png);
    assert!(caption.is_none());
}

#[test]
fn md2html_converts_the_joined_arguments() {
    let cfg = config(UnknownPolicy::Silent);
    let step = handle_message(&cfg, &message("md2html *a* b"), 0);
    let Step::Respond { response: OutgoingResponse::PlainText { text } } = step else {
        panic!("md2html must answer with plain text");
    };
    // The arguments are joined with no separator before conversion.
    assert_eq!(text, markdown::to_html("*a*b"));
    assert_ne!(text, "*a*b");
}

#[test]
fn request_urls_are_exact() {
    assert_eq!(request_url(&FetchRequest::ComicLatest), "https://xkcd.com/info.0.json");
    assert_eq!(
        request_url(&FetchRequest::ComicById { id: "405".to_string() }),
        "https://xkcd.com/405/info.0.json"
    );
    assert_eq!(
        request_url(&FetchRequest::ImageBytes {
            url: "https://imgs.xkcd.com/comics/standards.png".to_string()
        }),
        "https://imgs.xkcd.com/comics/standards.png"
    );
}

#[test]
fn parse_command_splits_name_and_args() {
    let cmd = parse_command("xkcd 404  extra").expect("three tokens");
    assert_eq!(cmd.name, "xkcd");
    assert_eq!(cmd.args, vec!["404".to_string(), "extra".to_string()]);
    let cmd = parse_command("quote").expect("one token");
    assert_eq!(cmd.name, "quote");
    assert!(cmd.args.is_empty());
}
