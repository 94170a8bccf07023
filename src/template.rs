//! Merging a page into an HTML template: marker tokens, the values that replace
//! them, and the stylesheet and favicon fragments.
use base64::Engine;
use vstd::prelude::*;
use vstd::string::*;
use crate::config::{Config, MetaAppendSiteNameToTitle, PageInfo};
use crate::error::{Error, Result};
use crate::text::{
    chars_of, escape_html, escape_minimal, markers_nonempty, string_of, substitute, substitute_markers,
};

verus! {

pub const TEMPLATE_NAME_BODY: &'static str = "[/rustic_body/]";
pub const TEMPLATE_NAME_TITLE: &'static str = "[/rustic_title/]";
pub const TEMPLATE_NAME_DESC: &'static str = "[/rustic_description/]";
pub const TEMPLATE_NAME_FAVICON: &'static str = "[/rustic_favicon/]";
pub const TEMPLATE_NAME_STYLESHEET: &'static str = "[/rustic_stylesheet/]";
pub const TEMPLATE_NAME_SITENAME: &'static str = "[/rustic_name/]";
pub const TEMPLATE_NAME_AUTHORS: &'static str = "[/rustic_authors/]";

/// Placed between a title and the site name when the default policy appends it.
pub const TITLE_SEPARATOR: &'static str = " — ";

/// Placed between two authors.
pub const AUTHOR_SEPARATOR: &'static str = ", ";

pub const STYLE_OPEN: &'static str = "<style>";
pub const STYLE_CLOSE: &'static str = "</style>";
pub const ICON_OPEN: &'static str = "<link rel=\"icon\" type=\"image/x-icon\" href=\"data:image/x-icon;base64,";
pub const ICON_CLOSE: &'static str = "\">";

/// `items` with `sep` between each two neighbours.
pub open spec fn join_with(items: Seq<Seq<char>>, sep: Seq<char>) -> Seq<char>
    decreases items.len(),
{
    if items.len() == 0 {
        seq![]
    } else if items.len() == 1 {
        items[0]
    } else {
        join_with(items.drop_last(), sep) + sep + items.last()
    }
}

/// The site name shown on a page: the page's own, else the project's, else empty.
pub open spec fn site_name_of(config: Config, page: PageInfo) -> Seq<char> {
    match page.meta {
        Some(m) => m.site_name@,
        None => match config.default.meta {
            Some(d) => d.site_name@,
            None => seq![],
        },
    }
}

/// The authors shown on a page: the page's own, else the project's, else none.
pub open spec fn authors_of(config: Config, page: PageInfo) -> Seq<Seq<char>> {
    match page.meta {
        Some(m) => m.authors.deep_view(),
        None => match config.default.meta {
            Some(d) => d.authors.deep_view(),
            None => seq![],
        },
    }
}

/// The page title after the project's title policy, before escaping.
pub open spec fn full_title(config: Config, page: PageInfo) -> Seq<char> {
    match config.meta {
        Some(m) => match m.append_site_name_to_title {
            Some(MetaAppendSiteNameToTitle::Default(b)) => if b {
                page.title@ + TITLE_SEPARATOR@ + site_name_of(config, page)
            } else {
                page.title@
            },
            Some(MetaAppendSiteNameToTitle::Custom(s)) => page.title@ + s@ + site_name_of(config, page),
            None => page.title@,
        },
        None => page.title@,
    }
}

/// The markers replaced in a template: the body marker when there is a body,
/// the four page markers when there is page metadata, and always the favicon
/// and stylesheet markers.
pub open spec fn template_markers(with_body: bool, with_page: bool) -> Seq<Seq<char>> {
    (if with_body { seq![TEMPLATE_NAME_BODY@] } else { seq![] }) + (if with_page {
        seq![TEMPLATE_NAME_TITLE@, TEMPLATE_NAME_DESC@, TEMPLATE_NAME_SITENAME@, TEMPLATE_NAME_AUTHORS@]
    } else {
        seq![]
    }) + seq![TEMPLATE_NAME_FAVICON@, TEMPLATE_NAME_STYLESHEET@]
}

/// What replaces each of `template_markers`, in the same order. The body and
/// description go in verbatim; title, site name and authors are escaped.
pub open spec fn template_values(
    config: Config,
    html: Option<String>,
    page: Option<PageInfo>,
    favicon: Seq<char>,
    stylesheet: Seq<char>,
) -> Seq<Seq<char>> {
    (match html {
        Some(h) => seq![h@],
        None => seq![],
    }) + (match page {
        Some(p) => seq![
            escape_minimal(full_title(config, p)),
            p.description@,
            escape_minimal(site_name_of(config, p)),
            escape_minimal(join_with(authors_of(config, p), AUTHOR_SEPARATOR@)),
        ],
        None => seq![],
    }) + seq![favicon, stylesheet]
}

/// The template that a page is merged into: its own, else the project default.
pub open spec fn template_path_of(config: Config, page: PageInfo) -> Seq<char> {
    match page.template {
        Some(t) => t@,
        None => config.default.template@,
    }
}

/// The stylesheet that a page embeds: its own, else the project default.
pub open spec fn stylesheet_path_of(config: Config, page: PageInfo) -> Seq<char> {
    match page.style {
        Some(s) => s@,
        None => config.default.stylesheet@,
    }
}

/// The favicon that a page embeds: its own, else the project default.
pub open spec fn favicon_path_of(config: Config, page: PageInfo) -> Seq<char> {
    match page.favicon {
        Some(f) => f@,
        None => config.default.favicon@,
    }
}

/// Joins `items`, putting `sep` between each two neighbours.
pub fn join_strings(items: &Vec<String>, sep: &str) -> (r: String)
    ensures
        r@ == join_with(items.deep_view(), sep@),
{
    let ghost all = items.deep_view();
    let mut out = String::new();
    let mut i: usize = 0;
    while i < items.len()
        invariant
            0 <= i <= items@.len(),
            all == items.deep_view(),
            out@ == join_with(all.take(i as int), sep@),
        decreases items@.len() - i,
    {
        proof {
            assert(all.take(i + 1).drop_last() =~= all.take(i as int));
            assert(all[i as int] == items@[i as int]@);
        }
        if i > 0 {
            out.append(sep);
        }
        out.append(items[i].as_str());
        proof {
            if i == 0 {
                assert(out@ =~= all.take(1)[0]);
            }
        }
        i = i + 1;
    }
    assert(all.take(i as int) =~= all);
    out
}

/// The site name shown on a page.
pub fn site_name(config: &Config, page: &PageInfo) -> (r: String)
    ensures
        r@ == site_name_of(*config, *page),
{
    match &page.meta {
        Some(m) => m.site_name.clone(),
        None => match &config.default.meta {
            Some(d) => d.site_name.clone(),
            None => String::new(),
        },
    }
}

/// The authors shown on a page, joined by the author separator.
pub fn authors(config: &Config, page: &PageInfo) -> (r: String)
    ensures
        r@ == join_with(authors_of(*config, *page), AUTHOR_SEPARATOR@),
{
    match &page.meta {
        Some(m) => join_strings(&m.authors, AUTHOR_SEPARATOR),
        None => match &config.default.meta {
            Some(d) => join_strings(&d.authors, AUTHOR_SEPARATOR),
            None => {
                let r = String::new();
                assert(authors_of(*config, *page) =~= Seq::<Seq<char>>::empty());
                r
            },
        },
    }
}

/// The page title after the project's title policy, before escaping.
pub fn title(config: &Config, page: &PageInfo) -> (r: String)
    ensures
        r@ == full_title(*config, *page),
{
    let mut t = page.title.clone();
    match &config.meta {
        Some(m) => match &m.append_site_name_to_title {
            Some(MetaAppendSiteNameToTitle::Default(b)) => {
                if *b {
                    t.append(TITLE_SEPARATOR);
                    let name = site_name(config, page);
                    t.append(name.as_str());
                }
            },
            Some(MetaAppendSiteNameToTitle::Custom(s)) => {
                t.append(s.as_str());
                let name = site_name(config, page);
                t.append(name.as_str());
            },
            None => {},
        },
        None => {},
    }
    t
}

/// The template path of a page.
pub fn template_path(config: &Config, page: &PageInfo) -> (r: String)
    ensures
        r@ == template_path_of(*config, *page),
{
    match &page.template {
        Some(t) => t.clone(),
        None => config.default.template.clone(),
    }
}

/// The stylesheet path of a page.
pub fn stylesheet_path(config: &Config, page: &PageInfo) -> (r: String)
    ensures
        r@ == stylesheet_path_of(*config, *page),
{
    match &page.style {
        Some(s) => s.clone(),
        None => config.default.stylesheet.clone(),
    }
}

/// The favicon path of a page.
pub fn favicon_path(config: &Config, page: &PageInfo) -> (r: String)
    ensures
        r@ == favicon_path_of(*config, *page),
{
    match &page.favicon {
        Some(f) => f.clone(),
        None => config.default.favicon.clone(),
    }
}

proof fn lemma_markers_nonempty(with_body: bool, with_page: bool)
    ensures
        markers_nonempty(template_markers(with_body, with_page)),
{
    reveal_strlit("[/rustic_body/]");
    reveal_strlit("[/rustic_title/]");
    reveal_strlit("[/rustic_description/]");
    reveal_strlit("[/rustic_favicon/]");
    reveal_strlit("[/rustic_stylesheet/]");
    reveal_strlit("[/rustic_name/]");
    reveal_strlit("[/rustic_authors/]");
    let ms = template_markers(with_body, with_page);
    assert forall|k: int| 0 <= k < ms.len() implies #[trigger] ms[k].len() > 0 by {
        let a = if with_body { seq![TEMPLATE_NAME_BODY@] } else { Seq::<Seq<char>>::empty() };
        let b = if with_page {
            seq![TEMPLATE_NAME_TITLE@, TEMPLATE_NAME_DESC@, TEMPLATE_NAME_SITENAME@, TEMPLATE_NAME_AUTHORS@]
        } else {
            Seq::<Seq<char>>::empty()
        };
        let c = seq![TEMPLATE_NAME_FAVICON@, TEMPLATE_NAME_STYLESHEET@];
        assert(ms == a + b + c);
        if k < a.len() {
            assert(ms[k] == a[k]);
        } else if k < a.len() + b.len() {
            assert(ms[k] == b[k - a.len()]);
        } else {
            assert(ms[k] == c[k - a.len() - b.len()]);
        }
    }
}

fn push_marker(markers: &mut Vec<Vec<char>>, values: &mut Vec<Vec<char>>, m: &str, v: &str)
    ensures
        final(markers).deep_view() == old(markers).deep_view().push(m@),
        final(values).deep_view() == old(values).deep_view().push(v@),
{
    let mc = chars_of(m);
    let vc = chars_of(v);
    assert(mc.deep_view() =~= mc@);
    assert(vc.deep_view() =~= vc@);
    markers.push(mc);
    values.push(vc);
    assert(markers.deep_view() =~= old(markers).deep_view().push(m@));
    assert(values.deep_view() =~= old(values).deep_view().push(v@));
}

/// Fills `template`: in a single left-to-right pass every marker of
/// `template_markers` is replaced by its value of `template_values`.
pub fn apply_to_template(
    config: &Config,
    template: &mut String,
    html: Option<String>,
    page_info: Option<PageInfo>,
    favicon: &str,
    stylesheet: &str,
)
    ensures
        final(template)@ == substitute(
            old(template)@,
            template_markers(html is Some, page_info is Some),
            template_values(*config, html, page_info, favicon@, stylesheet@),
        ),
{
    let ghost ms = template_markers(html is Some, page_info is Some);
    let ghost vs = template_values(*config, html, page_info, favicon@, stylesheet@);
    let mut markers: Vec<Vec<char>> = Vec::new();
    let mut values: Vec<Vec<char>> = Vec::new();
    assert(markers.deep_view() =~= Seq::<Seq<char>>::empty());
    assert(values.deep_view() =~= Seq::<Seq<char>>::empty());
    match &html {
        Some(h) => {
            push_marker(&mut markers, &mut values, TEMPLATE_NAME_BODY, h.as_str());
        },
        None => {},
    }
    match &page_info {
        Some(p) => {
            let t = escape_html(title(config, p).as_str());
            let name = escape_html(site_name(config, p).as_str());
            let who = escape_html(authors(config, p).as_str());
            push_marker(&mut markers, &mut values, TEMPLATE_NAME_TITLE, t.as_str());
            push_marker(&mut markers, &mut values, TEMPLATE_NAME_DESC, p.description.as_str());
            push_marker(&mut markers, &mut values, TEMPLATE_NAME_SITENAME, name.as_str());
            push_marker(&mut markers, &mut values, TEMPLATE_NAME_AUTHORS, who.as_str());
        },
        None => {},
    }
    push_marker(&mut markers, &mut values, TEMPLATE_NAME_FAVICON, favicon);
    push_marker(&mut markers, &mut values, TEMPLATE_NAME_STYLESHEET, stylesheet);
    assert(markers.deep_view() =~= ms);
    assert(values.deep_view() =~= vs);
    proof {
        lemma_markers_nonempty(html is Some, page_info is Some);
    }
    let filled = substitute_markers(&chars_of(template.as_str()), &markers, &values);
    *template = string_of(filled.as_slice());
}

/// A stylesheet's contents wrapped in a style element.
pub fn stylesheet_fragment(contents: &str) -> (r: String)
    ensures
        r@ == STYLE_OPEN@ + contents@ + STYLE_CLOSE@,
{
    let mut r = String::from_str(STYLE_OPEN);
    r.append(contents);
    r.append(STYLE_CLOSE);
    r
}

/// The standard base64 alphabet.
pub open spec fn base64_alphabet() -> Seq<char> {
    seq!['A', 'B', 'C', 'D', 'E', 'F', 'G', 'H', 'I', 'J', 'K', 'L', 'M', 'N', 'O', 'P', 'Q', 'R', 'S', 'T', 'U', 'V', 'W', 'X', 'Y', 'Z', 'a', 'b', 'c', 'd', 'e', 'f', 'g', 'h', 'i', 'j', 'k', 'l', 'm', 'n', 'o', 'p', 'q', 'r', 's', 't', 'u', 'v', 'w', 'x', 'y', 'z', '0', '1', '2', '3', '4', '5', '6', '7', '8', '9', '+', '/']
}

/// The base64 digit of a six-bit value.
pub open spec fn b64(v: int) -> char {
    base64_alphabet()[v]
}

/// `b` in standard base64 without padding: each three bytes become four
/// digits, a last two bytes three digits and a last byte two.
pub open spec fn base64_no_pad(b: Seq<u8>) -> Seq<char>
    decreases b.len(),
{
    if b.len() == 0 {
        seq![]
    } else {
        let x = b[0] as int;
        let y = if b.len() > 1 { b[1] as int } else { 0 };
        let z = if b.len() > 2 { b[2] as int } else { 0 };
        if b.len() == 1 {
            seq![b64(x / 4), b64((x % 4) * 16)]
        } else if b.len() == 2 {
            seq![b64(x / 4), b64((x % 4) * 16 + y / 16), b64((y % 16) * 4)]
        } else {
            seq![b64(x / 4), b64((x % 4) * 16 + y / 16), b64((y % 16) * 4 + z / 64), b64(z % 64)]
                + base64_no_pad(b.skip(3))
        }
    }
}

/// Relies on `base64::engine::general_purpose::STANDARD_NO_PAD.encode`: the
/// standard alphabet, no padding.
#[verifier::external_body]
fn encode_base64(b: &[u8]) -> (r: String)
    ensures
        r@ == base64_no_pad(b@),
{
    base64::engine::general_purpose::STANDARD_NO_PAD.encode(b)
}

/// An icon link element whose data URL carries `encoded`.
pub fn favicon_link(encoded: &str) -> (r: String)
    ensures
        r@ == ICON_OPEN@ + encoded@ + ICON_CLOSE@,
{
    let mut r = String::from_str(ICON_OPEN);
    r.append(encoded);
    r.append(ICON_CLOSE);
    r
}

/// The favicon fragment for a file's contents, `None` when the file does not
/// exist: an absent favicon gives the empty fragment.
pub open spec fn favicon_fragment_of(contents: Option<Seq<u8>>) -> Seq<char> {
    match contents {
        Some(b) => ICON_OPEN@ + base64_no_pad(b) + ICON_CLOSE@,
        None => seq![],
    }
}

/// The favicon fragment for a file's contents, `None` when the file does not
/// exist: an absent favicon gives the empty fragment, not an error.
pub fn favicon_fragment(contents: Option<&[u8]>) -> (r: String)
    ensures
        r@ == favicon_fragment_of(
            match contents {
                Some(b) => Some(b@),
                None => None,
            },
        ),
{
    match contents {
        Some(b) => {
            let encoded = encode_base64(b);
            favicon_link(encoded.as_str())
        },
        None => String::new(),
    }
}

/// Merges a rendered page into its template. `template` holds the contents of
/// the page's template file, `None` when that file does not exist: the page
/// then fails with a missing-template error naming it.
pub fn integrate_html_into_template(
    config: &Config,
    page_info: PageInfo,
    source_file: String,
    html: String,
    template: Option<String>,
    favicon: &str,
    stylesheet: &str,
) -> (r: Result<String>)
    ensures
        template is None ==> (r matches Err(Error::MissingTemplate { source_file: s, expected_template_file: t })
            && s == source_file && t@ == template_path_of(*config, page_info)),
        template is Some ==> (r matches Ok(out) && out@ == substitute(
            template->Some_0@,
            template_markers(true, true),
            template_values(*config, Some(html), Some(page_info), favicon@, stylesheet@),
        )),
{
    match template {
        None => Err(
            Error::MissingTemplate { source_file, expected_template_file: template_path(config, &page_info) },
        ),
        Some(t) => {
            let mut t = t;
            apply_to_template(config, &mut t, Some(html), Some(page_info), favicon, stylesheet);
            Ok(t)
        },
    }
}

} // verus!
