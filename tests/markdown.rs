use rustic_raven::cache::AssetCache;
use rustic_raven::site::Website;
use rustic_raven::{Config, Error};
use syntect::highlighting::{Theme, ThemeSet};
use syntect::parsing::SyntaxSet;

fn theme_for(config: &Config) -> Theme {
    ThemeSet::load_defaults().themes.remove(&config.syntax_theme).unwrap()
}

fn site() -> Website {
    let config = Config::default();
    let theme = theme_for(&config);
    Website::new(config, SyntaxSet::load_defaults_newlines(), AssetCache::new(), theme)
}

const PAGE_INFO: &str = r#"```pageinfo
title = "hello world"
description = "Useless"
style = "style.css"
# The path to the HTML template to use.
template = "template.html"
```
"#;

#[test]
/// Test that github-like emoji parsing works properly
fn test_emoji_markdown_parsing() {
    let site = site();
    let markdown = r#"```pageinfo
title = "hello world"
description = "Useless"
style = "style.css"
# The path to the HTML template to use.
template = "template.html"
```

# Hello World :smile:"#;
    let (html, _) = site.parse_markdown(markdown, String::new()).unwrap();
    assert!(html.contains('😄'));
}

#[test]
/// Test that syntax-highligting works properly
fn test_syntax_highliting_markdown_parsing() {
    const EXPECTED_HTML: &str = "<pre><code class=\"language-C\"><pre style=\"background-color:#2d2d2d;\">\n<span \
                                 style=\"color:#cc99cc;\">int </span><span style=\"color:#6699cc;\">main</span><span \
                                 style=\"color:#d3d0c8;\">()\n</span><span style=\"color:#d3d0c8;\">{\n</span><span \
                                 style=\"color:#d3d0c8;\">    </span><span style=\"color:#cc99cc;\">return </span><span \
                                 style=\"color:#f99157;\">0</span><span style=\"color:#d3d0c8;\">;\n</span><span \
                                 style=\"color:#d3d0c8;\">}\n</span></pre>\n</code></pre>\n";
    let site = site();
    let markdown = r#"```pageinfo
title = "hello world"
description = "Useless"
style = "style.css"
# The path to the HTML template to use.
template = "template.html"
```

```C
int main()
{
    return 0;
}
```
"#;
    let (html, _) = site.parse_markdown(markdown, String::new()).unwrap();
    assert_eq!(&html, EXPECTED_HTML);
}

#[test]
fn page_info_block_is_returned_raw_and_kept_out_of_the_body() {
    let site = site();
    let markdown = format!("{PAGE_INFO}\nSome text.\n");
    let (html, info) = site.parse_markdown(&markdown, String::from("index.md")).unwrap();
    assert_eq!(html, "<p>Some text.</p>\n");
    assert!(info.contains("title = \"hello world\""));
    assert!(info.contains("template = \"template.html\""));
    assert!(!html.contains("Useless"));
    assert!(!html.contains("pageinfo"));
}

#[test]
fn text_without_shortcodes_is_unchanged() {
    let site = site();
    let markdown = format!("{PAGE_INFO}\nplain words, no emoji here\n");
    let (html, _) = site.parse_markdown(&markdown, String::new()).unwrap();
    assert_eq!(html, "<p>plain words, no emoji here</p>\n");
}

#[test]
fn unknown_shortcodes_are_left_alone() {
    let site = site();
    let markdown = format!("{PAGE_INFO}\n:cat: and :not_an_emoji_404:\n");
    let (html, _) = site.parse_markdown(&markdown, String::new()).unwrap();
    assert_eq!(html, "<p>\u{01F431} and :not_an_emoji_404:</p>\n");
}

#[test]
fn page_info_text_is_not_emojified() {
    let site = site();
    let markdown = "```pageinfo\ntitle = \":smile:\"\ndescription = \"d\"\n```\n";
    let (_, info) = site.parse_markdown(markdown, String::new()).unwrap();
    assert_eq!(info, "title = \":smile:\"\ndescription = \"d\"\n");
}

#[test]
fn missing_page_info_names_the_source() {
    let site = site();
    let r = site.parse_markdown("# Title\n\nNo metadata here.\n", String::from("src/about.md"));
    assert_eq!(r, Err(Error::MissingPageInfo(String::from("src/about.md"))));
}

#[test]
fn first_page_info_block_wins() {
    let site = site();
    let markdown = "```pageinfo\ntitle = \"first\"\n```\n\ntext\n\n```pageinfo\ntitle = \"second\"\n```\n";
    let (html, info) = site.parse_markdown(markdown, String::new()).unwrap();
    assert_eq!(info, "title = \"first\"\n");
    assert_eq!(html, "<p>text</p>\n");
}

#[test]
fn code_in_an_unknown_language_is_escaped_not_highlighted() {
    let site = site();
    let markdown = format!("{PAGE_INFO}\n```nosuchlanguage\na < b\n```\n");
    let (html, _) = site.parse_markdown(&markdown, String::new()).unwrap();
    assert_eq!(html, "<pre><code class=\"language-nosuchlanguage\">a &lt; b\n</code></pre>\n");
}

#[test]
fn tables_are_enabled() {
    let site = site();
    let markdown = format!("{PAGE_INFO}\n| a | b |\n|---|---|\n| 1 | 2 |\n");
    let (html, _) = site.parse_markdown(&markdown, String::new()).unwrap();
    assert!(html.contains("<table>"));
    assert!(html.contains("<td>1</td>"));
}
