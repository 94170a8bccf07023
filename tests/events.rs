use rustic_raven::cache::AssetCache;
use rustic_raven::markdown::{finish_page, highlight_code_blocks, strip_page_info, MdEvent};
use rustic_raven::site::Website;
use rustic_raven::{Config, Error};
use syntect::highlighting::ThemeSet;
use syntect::parsing::SyntaxSet;

fn text(s: &str) -> MdEvent {
    MdEvent::Text(String::from(s))
}

fn describe(events: &[MdEvent]) -> Vec<String> {
    events
        .iter()
        .map(|e| match e {
            MdEvent::FenceStart(l) => format!("start {l}"),
            MdEvent::FenceEnd(l) => format!("end {l}"),
            MdEvent::Text(t) => format!("text {t}"),
            MdEvent::Html(h) => format!("html {h}"),
            MdEvent::Other(k) => format!("other {k}"),
        })
        .collect()
}

#[test]
fn strip_removes_every_metadata_block_and_keeps_the_first_payload() {
    let replacer = gh_emoji::Replacer::new();
    let events = vec![
        MdEvent::FenceStart(String::from("pageinfo")),
        text("title = \"a\"\n"),
        text("description = \"b\"\n"),
        MdEvent::FenceEnd(String::from("pageinfo")),
        text("hi :smile:"),
        MdEvent::Other(5),
        MdEvent::FenceStart(String::from("pageinfo")),
        text("title = \"ignored\"\n"),
        MdEvent::FenceEnd(String::from("pageinfo")),
        MdEvent::FenceStart(String::from("rust")),
        text("let x = 1;"),
        MdEvent::FenceEnd(String::from("rust")),
    ];
    let (kept, payload) = strip_page_info(&replacer, events);
    assert_eq!(payload, Some(String::from("title = \"a\"\ndescription = \"b\"\n")));
    assert_eq!(
        describe(&kept),
        vec!["text hi \u{01F604}", "other 5", "start rust", "text let x = 1;", "end rust"]
    );
}

#[test]
fn strip_without_metadata_has_no_payload() {
    let replacer = gh_emoji::Replacer::new();
    let (kept, payload) = strip_page_info(&replacer, vec![text("a"), MdEvent::Other(1)]);
    assert_eq!(payload, None);
    assert_eq!(describe(&kept), vec!["text a", "other 1"]);
}

#[test]
fn highlighting_touches_only_fenced_text_with_a_known_syntax() {
    let set = SyntaxSet::load_defaults_newlines();
    let theme = ThemeSet::load_defaults().themes.remove("base16-eighties.dark").unwrap();
    let events = vec![
        text("outside"),
        MdEvent::FenceStart(String::from("rust")),
        text("fn main() {}\n"),
        MdEvent::FenceEnd(String::from("rust")),
        MdEvent::FenceStart(String::from("unknown-lang")),
        text("raw\n"),
        MdEvent::FenceEnd(String::from("unknown-lang")),
    ];
    let out = describe(&highlight_code_blocks(&set, &theme, events).unwrap());
    assert_eq!(out.len(), 7);
    assert_eq!(out[0], "text outside");
    assert!(out[2].starts_with("html <pre style=\"background-color:#2d2d2d;\">"));
    assert_eq!(out[5], "text raw\n");
}

#[test]
fn finishing_without_payload_is_missing_page_info() {
    assert_eq!(
        finish_page(String::from("<p>x</p>"), None, String::from("a.md")),
        Err(Error::MissingPageInfo(String::from("a.md")))
    );
    assert_eq!(
        finish_page(String::from("<p>x</p>"), Some(String::from("t")), String::from("a.md")),
        Ok((String::from("<p>x</p>"), String::from("t")))
    );
}

#[test]
fn transforming_events_without_metadata_fails() {
    let config = Config::default();
    let theme = ThemeSet::load_defaults().themes.remove(&config.syntax_theme).unwrap();
    let site = Website::new(config, SyntaxSet::load_defaults_newlines(), AssetCache::new(), theme);
    let r = site.transform_events(vec![text("body")], String::from("p.md"));
    assert!(matches!(r, Err(Error::MissingPageInfo(p)) if p == "p.md"));
    let r = site.transform_events(
        vec![
            MdEvent::FenceStart(String::from("pageinfo")),
            text("k = 1"),
            MdEvent::FenceEnd(String::from("pageinfo")),
            text("body"),
        ],
        String::from("p.md"),
    );
    let (kept, info) = r.unwrap();
    assert_eq!(describe(&kept), vec!["text body"]);
    assert_eq!(info, "k = 1");
}
