//! The markdown transform: a document's event stream with its `pageinfo` block
//! taken out, emoji shortcodes substituted and fenced code highlighted.
use gh_emoji::Replacer;
use pulldown_cmark::{CodeBlockKind, Event, Options, Parser, Tag};
use syntect::highlighting::Theme;
use syntect::parsing::{SyntaxReference, SyntaxSet};
use vstd::prelude::*;
use vstd::string::*;
use crate::config::PageInfo;
use crate::error::{Error, Result};
use crate::text::chars_of;

verus! {

#[verifier::external_type_specification]
#[verifier::external_body]
pub struct ExReplacer(Replacer);

#[verifier::external_type_specification]
#[verifier::external_body]
pub struct ExSyntaxSet(SyntaxSet);

#[verifier::external_type_specification]
#[verifier::external_body]
pub struct ExSyntaxReference(SyntaxReference);

#[verifier::external_type_specification]
#[verifier::external_body]
pub struct ExTheme(Theme);

/// One event of a markdown document, as far as the transform reads it.
#[derive(Debug)]
pub enum MdEvent {
    /// The start of a fenced code block with this language tag.
    FenceStart(String),
    /// The end of a fenced code block with this language tag.
    FenceEnd(String),
    /// A text node.
    Text(String),
    /// Raw HTML produced by the transform.
    Html(String),
    /// Any other event of the document, by its position in the document's
    /// event stream; it is passed through untouched.
    Other(usize),
}

/// The value of an `MdEvent`.
pub enum EventView {
    FenceStart(Seq<char>),
    FenceEnd(Seq<char>),
    Text(Seq<char>),
    Html(Seq<char>),
    Other(nat),
}

impl View for MdEvent {
    type V = EventView;

    open spec fn view(&self) -> EventView {
        match self {
            MdEvent::FenceStart(l) => EventView::FenceStart(l@),
            MdEvent::FenceEnd(l) => EventView::FenceEnd(l@),
            MdEvent::Text(t) => EventView::Text(t@),
            MdEvent::Html(h) => EventView::Html(h@),
            MdEvent::Other(k) => EventView::Other(*k as nat),
        }
    }
}

/// The values of a sequence of events.
pub open spec fn view_events(s: Seq<MdEvent>) -> Seq<EventView> {
    s.map_values(|e: MdEvent| e@)
}

/// The events of a markdown document (tables, strikethrough and task lists
/// enabled), each event that is not a fenced block bound or a text node given
/// as `Other` of its own position.
pub uninterp spec fn events_of(source: Seq<char>) -> Seq<EventView>;

/// The HTML that `events` render to, each `Other(k)` standing for event `k` of
/// the document `source`.
pub uninterp spec fn rendered(source: Seq<char>, events: Seq<EventView>) -> Seq<char>;

/// Relies on `pulldown_cmark::Parser::new_ext` with tables, strikethrough and
/// task lists enabled: the document's events in order, fenced block bounds and
/// text nodes told apart from the rest.
#[verifier::external_body]
pub(crate) fn markdown_events(source: &str) -> (r: Vec<MdEvent>)
    ensures
        view_events(r@) == events_of(source@),
        forall|i: int| 0 <= i < r@.len() ==> (#[trigger] r@[i] matches MdEvent::Other(k) ==> k == i),
{
    let options = Options::ENABLE_STRIKETHROUGH | Options::ENABLE_TABLES | Options::ENABLE_TASKLISTS;
    Parser::new_ext(source, options).enumerate().map(|(i, e)| match e {
        Event::Start(Tag::CodeBlock(CodeBlockKind::Fenced(l))) => MdEvent::FenceStart(l.to_string()),
        Event::End(Tag::CodeBlock(CodeBlockKind::Fenced(l))) => MdEvent::FenceEnd(l.to_string()),
        Event::Text(t) => MdEvent::Text(t.to_string()),
        _ => MdEvent::Other(i),
    }).collect()
}

proof fn lemma_view_events(s: Seq<MdEvent>)
    ensures
        view_events(s).len() == s.len(),
        forall|i: int| 0 <= i < s.len() ==> #[trigger] view_events(s)[i] == s[i]@,
{
}

/// Every `Other` event of `events` refers to a position below `n`.
pub open spec fn others_below(events: Seq<EventView>, n: nat) -> bool {
    forall|i: int| 0 <= i < events.len() ==> (#[trigger] events[i] matches EventView::Other(k) ==> k < n)
}

/// Relies on `pulldown_cmark::html::push_html`, with `Other(k)` turned back
/// into event `k` of `source` as `Parser::new_ext` (same options) yields it:
/// the HTML of these events.
#[verifier::external_body]
pub(crate) fn render_html(source: &str, events: Vec<MdEvent>) -> (r: String)
    requires
        others_below(view_events(events@), events_of(source@).len()),
    ensures
        r@ == rendered(source@, view_events(events@)),
{
    let options = Options::ENABLE_STRIKETHROUGH | Options::ENABLE_TABLES | Options::ENABLE_TASKLISTS;
    let originals: Vec<Event> = Parser::new_ext(source, options).collect();
    let mut out = String::new();
    pulldown_cmark::html::push_html(&mut out, events.into_iter().map(|e| match e {
        MdEvent::FenceStart(l) => Event::Start(Tag::CodeBlock(CodeBlockKind::Fenced(l.into()))),
        MdEvent::FenceEnd(l) => Event::End(Tag::CodeBlock(CodeBlockKind::Fenced(l.into()))),
        MdEvent::Text(t) => Event::Text(t.into()),
        MdEvent::Html(h) => Event::Html(h.into()),
        MdEvent::Other(k) => originals[k].clone(),
    }));
    out
}

/// Text with github-style `:name:` emoji shortcodes replaced by their glyphs.
pub uninterp spec fn emojified(t: Seq<char>) -> Seq<char>;

/// Relies on `gh_emoji::Replacer::replace_all`: every `:name:` token naming a
/// known emoji becomes its glyph, other text is kept; the result depends on the
/// text alone.
#[verifier::external_body]
fn replace_emoji(replacer: &Replacer, t: &str) -> (r: String)
    ensures
        r@ == emojified(t@),
{
    replacer.replace_all(t).into_owned()
}

/// Relies on `gh_emoji::Replacer::new`.
#[verifier::external_body]
pub(crate) fn new_replacer() -> Replacer {
    Replacer::new()
}

/// The syntax of `set` that a fence's language tag names, if any.
pub uninterp spec fn syntax_for(set: SyntaxSet, lang: Seq<char>) -> Option<SyntaxReference>;

/// Relies on `syntect::parsing::SyntaxSet::find_syntax_by_token`: the syntax
/// that a fence's language tag names, if the set has one; it depends on the
/// set and the tag alone.
#[verifier::external_body]
fn find_syntax<'a>(set: &'a SyntaxSet, lang: &str) -> (r: Option<&'a SyntaxReference>)
    ensures
        match r {
            Some(s) => syntax_for(*set, lang@) == Some(*s),
            None => syntax_for(*set, lang@) is None,
        },
{
    set.find_syntax_by_token(lang)
}

/// `code` highlighted as HTML with `syntax` in `theme`, `None` when the
/// highlighter fails.
pub uninterp spec fn highlight_result(code: Seq<char>, set: SyntaxSet, syntax: SyntaxReference, theme: Theme)
    -> Option<Seq<char>>;

/// Relies on `syntect::html::highlighted_html_for_string`: `code` rendered as
/// highlighted HTML, or the highlighter's error message; the outcome depends on
/// the arguments alone.
#[verifier::external_body]
fn highlighted_html(code: &str, set: &SyntaxSet, syntax: &SyntaxReference, theme: &Theme)
    -> (r: core::result::Result<String, String>)
    ensures
        match r {
            Ok(h) => highlight_result(code@, *set, *syntax, *theme) == Some(h@),
            Err(_) => highlight_result(code@, *set, *syntax, *theme) is None,
        },
{
    syntect::html::highlighted_html_for_string(code, set, syntax, theme).map_err(|e| e.to_string())
}

/// The language tag that marks a page's metadata block.
pub open spec fn page_info_tag() -> Seq<char> {
    PageInfo::CODE_BLOCK_IDENTIFIER@
}

/// The language of the fenced block that event `i` lies in, if any.
pub open spec fn fence_at(events: Seq<EventView>, i: int) -> Option<Seq<char>>
    decreases i,
{
    if i <= 0 || i > events.len() {
        None
    } else {
        match events[i - 1] {
            EventView::FenceStart(l) => Some(l),
            EventView::FenceEnd(_) => None,
            _ => fence_at(events, i - 1),
        }
    }
}

/// Whether event `i` belongs to a metadata block: one of its fences or
/// something inside it.
pub open spec fn in_page_info(events: Seq<EventView>, i: int) -> bool {
    match events[i] {
        EventView::FenceStart(l) => l == page_info_tag(),
        EventView::FenceEnd(l) => l == page_info_tag(),
        _ => fence_at(events, i) == Some(page_info_tag()),
    }
}

/// What a kept event becomes: text holding a `:` gets its emoji; text without
/// one, and every other event, stays as it is.
pub open spec fn clean(e: EventView) -> EventView {
    match e {
        EventView::Text(t) => if t.contains(':') {
            EventView::Text(emojified(t))
        } else {
            EventView::Text(t)
        },
        _ => e,
    }
}

/// The first `n` events with every metadata block taken out and the rest cleaned.
pub open spec fn strip_before(events: Seq<EventView>, n: int) -> Seq<EventView>
    decreases n,
{
    if n <= 0 || n > events.len() {
        seq![]
    } else if in_page_info(events, n - 1) {
        strip_before(events, n - 1)
    } else {
        strip_before(events, n - 1).push(clean(events[n - 1]))
    }
}

/// All of `events` with every metadata block taken out and the rest cleaned.
pub open spec fn stripped(events: Seq<EventView>) -> Seq<EventView> {
    strip_before(events, events.len() as int)
}

/// How many metadata blocks open before position `n`.
pub open spec fn page_info_starts_before(events: Seq<EventView>, n: int) -> nat
    decreases n,
{
    if n <= 0 {
        0
    } else {
        page_info_starts_before(events, n - 1) + match events[n - 1] {
            EventView::FenceStart(l) => if l == page_info_tag() { 1nat } else { 0nat },
            _ => 0nat,
        }
    }
}

/// Whether event `i` is text inside the first metadata block.
pub open spec fn first_block_text(events: Seq<EventView>, i: int) -> bool {
    &&& events[i] is Text
    &&& fence_at(events, i) == Some(page_info_tag())
    &&& page_info_starts_before(events, i) == 1
}

/// Whether the first metadata block holds text.
pub open spec fn has_page_info(events: Seq<EventView>) -> bool {
    exists|i: int| 0 <= i < events.len() && #[trigger] first_block_text(events, i)
}

/// The raw text of the first metadata block found before position `n`.
pub open spec fn payload_before(events: Seq<EventView>, n: int) -> Seq<char>
    decreases n,
{
    if n <= 0 {
        seq![]
    } else if first_block_text(events, n - 1) {
        payload_before(events, n - 1) + match events[n - 1] {
            EventView::Text(t) => t,
            _ => seq![],
        }
    } else {
        payload_before(events, n - 1)
    }
}

/// The raw text of the first metadata block.
pub open spec fn payload(events: Seq<EventView>) -> Seq<char> {
    payload_before(events, events.len() as int)
}

/// What highlighting does to event `i`: `None` when it is left alone (not
/// text, or not in a fenced block whose language names a syntax); otherwise
/// the highlighter's outcome.
pub open spec fn highlight_at(set: SyntaxSet, theme: Theme, events: Seq<EventView>, i: int) -> Option<
    Option<Seq<char>>,
> {
    match events[i] {
        EventView::Text(t) => match fence_at(events, i) {
            Some(l) => match syntax_for(set, l) {
                Some(syntax) => Some(highlight_result(t, set, syntax, theme)),
                None => None,
            },
            None => None,
        },
        _ => None,
    }
}

/// Highlighting succeeds on every fenced text that it touches.
pub open spec fn highlight_ok(set: SyntaxSet, theme: Theme, events: Seq<EventView>) -> bool {
    forall|i: int| 0 <= i < events.len() ==> #[trigger] highlight_at(set, theme, events, i) != Some(
        None::<Seq<char>>,
    )
}

/// Event `i` after highlighting: highlighted fenced text becomes raw HTML.
pub open spec fn highlighted_event(set: SyntaxSet, theme: Theme, events: Seq<EventView>, i: int) -> EventView {
    match highlight_at(set, theme, events, i) {
        Some(Some(h)) => EventView::Html(h),
        _ => events[i],
    }
}

/// `events` after highlighting.
pub open spec fn highlighted(set: SyntaxSet, theme: Theme, events: Seq<EventView>) -> Seq<EventView> {
    Seq::new(events.len(), |i: int| highlighted_event(set, theme, events, i))
}

proof fn lemma_starts_bound(events: Seq<EventView>, n: int)
    ensures
        page_info_starts_before(events, n) <= if n < 0 { 0 } else { n },
    decreases n,
{
    if n > 0 {
        lemma_starts_bound(events, n - 1);
    }
}

proof fn lemma_strip_len(events: Seq<EventView>, n: int)
    ensures
        strip_before(events, n).len() <= if n < 0 { 0 } else { n },
    decreases n,
{
    if n > 0 && n <= events.len() {
        lemma_strip_len(events, n - 1);
    }
}

/// Nothing of a metadata block is kept: every event left after stripping is
/// the cleaned form of an event outside every metadata block.
pub proof fn lemma_body_excludes_page_info(events: Seq<EventView>, n: int, j: int)
    requires
        0 <= n <= events.len(),
        0 <= j < strip_before(events, n).len(),
    ensures
        exists|i: int|
            0 <= i < n && !in_page_info(events, i) && strip_before(events, n)[j] == clean(events[i]),
    decreases n,
{
    if n > 0 {
        let prev = strip_before(events, n - 1);
        if j < prev.len() {
            lemma_body_excludes_page_info(events, n - 1, j);
            let i = choose|i: int| 0 <= i < n - 1 && !in_page_info(events, i) && prev[j] == clean(events[i]);
            assert(strip_before(events, n)[j] == prev[j]);
            assert(0 <= i < n && !in_page_info(events, i) && strip_before(events, n)[j] == clean(events[i]));
        } else {
            assert(!in_page_info(events, n - 1));
            assert(strip_before(events, n)[j] == clean(events[n - 1]));
        }
    }
}

/// Text without a `:` reaches the body as it is.
pub proof fn lemma_plain_text_unchanged(t: Seq<char>)
    requires
        !t.contains(':'),
    ensures
        clean(EventView::Text(t)) == EventView::Text(t),
{
}

proof fn lemma_no_start_no_count(events: Seq<EventView>, n: int)
    requires
        n <= events.len(),
        forall|i: int| 0 <= i < events.len() ==> !(#[trigger] events[i] matches EventView::FenceStart(l) && l
            == page_info_tag()),
    ensures
        page_info_starts_before(events, n) == 0,
    decreases n,
{
    if n > 0 {
        lemma_no_start_no_count(events, n - 1);
        assert(!(events[n - 1] matches EventView::FenceStart(l) && l == page_info_tag()));
    }
}

/// A document without a metadata block has no metadata text, so parsing it
/// fails with a missing-page-info error.
pub proof fn lemma_missing_block_no_payload(events: Seq<EventView>)
    requires
        forall|i: int| 0 <= i < events.len() ==> !(#[trigger] events[i] matches EventView::FenceStart(l) && l
            == page_info_tag()),
    ensures
        !has_page_info(events),
{
    if has_page_info(events) {
        let i = choose|i: int| 0 <= i < events.len() && #[trigger] first_block_text(events, i);
        lemma_no_start_no_count(events, i);
    }
}

proof fn lemma_strip_keeps_others_below(events: Seq<EventView>, n: int, b: nat)
    requires
        others_below(events, b),
    ensures
        others_below(strip_before(events, n), b),
    decreases n,
{
    if n > 0 && n <= events.len() {
        lemma_strip_keeps_others_below(events, n - 1, b);
        let s = strip_before(events, n);
        assert forall|i: int| 0 <= i < s.len() implies (#[trigger] s[i] matches EventView::Other(k) ==> k < b) by {
            if i < strip_before(events, n - 1).len() {
                assert(s[i] == strip_before(events, n - 1)[i]);
            } else {
                assert(events[n - 1] == events[n - 1]);
            }
        }
    }
}

/// Stripping and highlighting keep every passed-through event of the document.
pub proof fn lemma_transform_keeps_others_below(set: SyntaxSet, theme: Theme, events: Seq<EventView>, b: nat)
    requires
        others_below(events, b),
    ensures
        others_below(highlighted(set, theme, stripped(events)), b),
{
    lemma_strip_keeps_others_below(events, events.len() as int, b);
    let s = stripped(events);
    let h = highlighted(set, theme, s);
    assert forall|i: int| 0 <= i < h.len() implies (#[trigger] h[i] matches EventView::Other(k) ==> k < b) by {
        assert(s[i] == s[i]);
    }
}

fn has_colon(t: &str) -> (r: bool)
    ensures
        r == t@.contains(':'),
{
    let cs = chars_of(t);
    let mut i: usize = 0;
    while i < cs.len()
        invariant
            cs@ == t@,
            0 <= i <= cs@.len(),
            forall|k: int| 0 <= k < i ==> cs@[k] != ':',
        decreases cs@.len() - i,
    {
        if cs[i] == ':' {
            assert(t@[i as int] == ':');
            return true;
        }
        i = i + 1;
    }
    false
}

/// Takes every metadata block out of `events`, returning the events that remain
/// (cleaned) and the raw text of the first metadata block, if it holds any.
pub fn strip_page_info(replacer: &Replacer, events: Vec<MdEvent>) -> (r: (Vec<MdEvent>, Option<String>))
    ensures
        view_events(r.0@) == stripped(view_events(events@)),
        r.1 is Some <==> has_page_info(view_events(events@)),
        r.1 matches Some(p) ==> p@ == payload(view_events(events@)),
{
    let ghost evs = view_events(events@);
    let ghost n = evs.len() as int;
    let tag = String::from_str(PageInfo::CODE_BLOCK_IDENTIFIER);
    let mut rest = events;
    let total = rest.len();
    let mut out: Vec<MdEvent> = Vec::new();
    let mut lang: Option<String> = None;
    let mut starts: usize = 0;
    let mut text = String::new();
    let mut found = false;
    let mut i: usize = 0;
    while rest.len() > 0
        invariant
            0 <= i <= n,
            n == evs.len(),
            n == total,
            view_events(rest@) == evs.subrange(i as int, n),
            tag@ == page_info_tag(),
            match lang {
                Some(l) => fence_at(evs, i as int) == Some(l@),
                None => fence_at(evs, i as int) is None,
            },
            starts == page_info_starts_before(evs, i as int),
            view_events(out@) == strip_before(evs, i as int),
            text@ == payload_before(evs, i as int),
            found <==> exists|k: int| 0 <= k < i && #[trigger] first_block_text(evs, k),
        decreases rest@.len(),
    {
        proof {
            lemma_starts_bound(evs, i as int);
        }
        let ghost before = rest@;
        proof {
            lemma_view_events(before);
            assert(view_events(before)[0] == evs[i as int]);
        }
        let ev = rest.remove(0);
        assert(ev@ == evs[i as int]);
        let ghost e = evs[i as int];
        let ghost out0 = out@;
        let in_block = match &lang {
            Some(l) => *l == tag,
            None => false,
        };
        match ev {
            MdEvent::FenceStart(l) => {
                if l == tag {
                    starts = starts + 1;
                } else {
                    out.push(MdEvent::FenceStart(l.clone()));
                }
                lang = Some(l);
            },
            MdEvent::FenceEnd(l) => {
                if l != tag {
                    out.push(MdEvent::FenceEnd(l));
                }
                lang = None;
            },
            MdEvent::Text(t) => {
                if in_block {
                    if starts == 1 {
                        text.append(t.as_str());
                        found = true;
                    }
                } else if has_colon(t.as_str()) {
                    out.push(MdEvent::Text(replace_emoji(replacer, t.as_str())));
                } else {
                    out.push(MdEvent::Text(t));
                }
            },
            MdEvent::Html(h) => {
                if !in_block {
                    out.push(MdEvent::Html(h));
                }
            },
            MdEvent::Other(k) => {
                if !in_block {
                    out.push(MdEvent::Other(k));
                }
            },
        }
        proof {
            lemma_view_events(out@);
            lemma_view_events(out0);
            if in_page_info(evs, i as int) {
                assert(out@ == out0);
            } else {
                assert(view_events(out@) =~= view_events(out0).push(clean(e)));
            }
            if found && !first_block_text(evs, i as int) {
                let k = choose|k: int| 0 <= k < i && #[trigger] first_block_text(evs, k);
                assert(0 <= k < i + 1 && first_block_text(evs, k));
            }
        }
        proof {
            lemma_view_events(rest@);
            assert forall|k: int| 0 <= k < rest@.len() implies view_events(rest@)[k] == evs[i + 1 + k] by {
                assert(rest@[k] == before[k + 1]);
                assert(view_events(before)[k + 1] == evs.subrange(i as int, n)[k + 1]);
            }
        }
        i = i + 1;
        assert(view_events(rest@) =~= evs.subrange(i as int, n));
    }
    let p = if found { Some(text) } else { None };
    (out, p)
}

/// Rewrites the text of each fenced block whose language names a syntax into
/// highlighted HTML; every other event is unchanged. A highlighter failure is
/// a highlighting error.
pub fn highlight_code_blocks(set: &SyntaxSet, theme: &Theme, events: Vec<MdEvent>) -> (r: Result<Vec<MdEvent>>)
    ensures
        r is Ok <==> highlight_ok(*set, *theme, view_events(events@)),
        r matches Ok(out) ==> view_events(out@) == highlighted(*set, *theme, view_events(events@)),
        r matches Err(e) ==> e is SyntaxHighlight,
{
    let ghost evs = view_events(events@);
    let ghost n = evs.len() as int;
    let ghost all = highlighted(*set, *theme, evs);
    let mut rest = events;
    let total = rest.len();
    let mut out: Vec<MdEvent> = Vec::new();
    let mut lang: Option<String> = None;
    let mut i: usize = 0;
    while rest.len() > 0
        invariant
            0 <= i <= n,
            n == evs.len(),
            n == total,
            all == highlighted(*set, *theme, evs),
            evs == view_events(events@),
            view_events(rest@) == evs.subrange(i as int, n),
            match lang {
                Some(l) => fence_at(evs, i as int) == Some(l@),
                None => fence_at(evs, i as int) is None,
            },
            view_events(out@) == all.take(i as int),
            forall|k: int| 0 <= k < i ==> #[trigger] highlight_at(*set, *theme, evs, k) != Some(None::<Seq<char>>),
        decreases rest@.len(),
    {
        let ghost before = rest@;
        proof {
            lemma_view_events(before);
            assert(view_events(before)[0] == evs[i as int]);
        }
        let ev = rest.remove(0);
        assert(ev@ == evs[i as int]);
        let ghost out0 = out@;
        match ev {
            MdEvent::FenceStart(l) => {
                lang = Some(l.clone());
                out.push(MdEvent::FenceStart(l));
            },
            MdEvent::FenceEnd(l) => {
                lang = None;
                out.push(MdEvent::FenceEnd(l));
            },
            MdEvent::Text(t) => {
                let syntax = match &lang {
                    Some(l) => find_syntax(set, l.as_str()),
                    None => None,
                };
                match syntax {
                    Some(syntax) => match highlighted_html(t.as_str(), set, syntax, theme) {
                        Ok(h) => out.push(MdEvent::Html(h)),
                        Err(e) => {
                            assert(i < n);
                            assert(highlight_at(*set, *theme, evs, i as int) == Some(None::<Seq<char>>));
                            assert(!highlight_ok(*set, *theme, evs));
                            return Err(Error::SyntaxHighlight(e));
                        },
                    },
                    None => out.push(MdEvent::Text(t)),
                }
            },
            other => out.push(other),
        }
        proof {
            lemma_view_events(out@);
            lemma_view_events(out0);
        }
        assert(view_events(out@) =~= view_events(out0).push(all[i as int]));
        assert(all.take(i + 1) =~= all.take(i as int).push(all[i as int]));
        proof {
            lemma_view_events(rest@);
            assert forall|k: int| 0 <= k < rest@.len() implies view_events(rest@)[k] == evs[i + 1 + k] by {
                assert(rest@[k] == before[k + 1]);
                assert(view_events(before)[k + 1] == evs.subrange(i as int, n)[k + 1]);
            }
        }
        i = i + 1;
        assert(view_events(rest@) =~= evs.subrange(i as int, n));
    }
    assert(all.take(n) =~= all);
    Ok(out)
}

/// Turns the rendered body and the metadata text into the page's parts:
/// without metadata text the page fails with a missing-page-info error naming
/// `source_path`, and nothing of the body is returned.
pub fn finish_page(body: String, payload: Option<String>, source_path: String) -> (r: Result<(String, String)>)
    ensures
        payload is None ==> r == Err::<(String, String), Error>(Error::MissingPageInfo(source_path)),
        payload matches Some(p) ==> r == Ok::<(String, String), Error>((body, p)),
{
    match payload {
        None => Err(Error::MissingPageInfo(source_path)),
        Some(p) => Ok((body, p)),
    }
}

} // verus!
