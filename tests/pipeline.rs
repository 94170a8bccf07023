use rustic_raven::cache::AssetCache;
use rustic_raven::pipeline::{
    check_sources, classify_extension, destination, finish_pass_through, output_file_name, plan_unit, post_process_html,
    should_regenerate_file, source_kind, SourceKind, UnitPlan,
};
use rustic_raven::{Config, Error, Generation, ProcessHtml};

fn parts(p: &[&str]) -> Vec<String> {
    p.iter().map(|s| s.to_string()).collect()
}

#[test]
fn extensions_are_classified_ignoring_case() {
    assert_eq!(classify_extension("md"), SourceKind::Markdown);
    assert_eq!(classify_extension("MarkDown"), SourceKind::Markdown);
    assert_eq!(classify_extension("HTM"), SourceKind::Html);
    assert_eq!(classify_extension("html"), SourceKind::Html);
    assert_eq!(classify_extension("css"), SourceKind::Stylesheet);
    assert_eq!(classify_extension("txt"), SourceKind::Ignored);
    assert_eq!(classify_extension(""), SourceKind::Ignored);
}

#[test]
fn file_names_are_classified_by_last_extension() {
    assert_eq!(source_kind("index.md"), SourceKind::Markdown);
    assert_eq!(source_kind("notes.tar.md"), SourceKind::Markdown);
    assert_eq!(source_kind("page.HTML"), SourceKind::Html);
    assert_eq!(source_kind(".md"), SourceKind::Ignored);
    assert_eq!(source_kind("README"), SourceKind::Ignored);
    assert_eq!(source_kind("image.png"), SourceKind::Ignored);
}

#[test]
fn output_names() {
    assert_eq!(output_file_name("index.md", SourceKind::Markdown), "index.html");
    assert_eq!(output_file_name("a.b.markdown", SourceKind::Markdown), "a.b.html");
    assert_eq!(output_file_name("style.css", SourceKind::Stylesheet), "style.css");
    assert_eq!(output_file_name("page.htm", SourceKind::Html), "page.htm");
}

#[test]
fn destination_mirrors_the_source_tree() {
    let src = parts(&["site", "src"]);
    let dest = parts(&["site", "dest"]);
    assert_eq!(
        destination(&src, &dest, &parts(&["site", "src", "blog", "post.md"]), SourceKind::Markdown),
        Some(parts(&["site", "dest", "blog", "post.html"]))
    );
    assert_eq!(
        destination(&src, &dest, &parts(&["site", "src", "style.css"]), SourceKind::Stylesheet),
        Some(parts(&["site", "dest", "style.css"]))
    );
    assert_eq!(destination(&src, &dest, &parts(&["other", "post.md"]), SourceKind::Markdown), None);
    assert_eq!(destination(&src, &dest, &parts(&["site", "src"]), SourceKind::Markdown), None);
    assert_eq!(destination(&src, &dest, &parts(&["site", "src", "x.png"]), SourceKind::Ignored), None);
}

#[test]
fn up_to_date_output_is_skipped() {
    assert!(!should_regenerate_file(false, 100, Some(200)));
    assert!(!should_regenerate_file(false, 100, Some(100)));
    let config = Config::default();
    assert_eq!(plan_unit(&config, SourceKind::Markdown, false, 100, Some(200)), UnitPlan::Skip);
}

#[test]
fn stale_missing_or_forced_output_is_regenerated() {
    assert!(should_regenerate_file(false, 200, Some(100)));
    assert!(should_regenerate_file(false, 200, None));
    assert!(should_regenerate_file(true, 100, Some(200)));
    let config = Config::default();
    assert_eq!(plan_unit(&config, SourceKind::Markdown, true, 100, Some(200)), UnitPlan::RenderMarkdown);
    assert_eq!(plan_unit(&config, SourceKind::Markdown, false, 300, Some(200)), UnitPlan::RenderMarkdown);
}

#[test]
fn pass_through_files_are_planned_by_kind() {
    let mut config = Config::default();
    assert_eq!(plan_unit(&config, SourceKind::Html, false, 0, Some(9)), UnitPlan::CopyVerbatim);
    assert_eq!(plan_unit(&config, SourceKind::Stylesheet, false, 0, None), UnitPlan::CopyVerbatim);
    assert_eq!(plan_unit(&config, SourceKind::Ignored, true, 0, None), UnitPlan::Skip);
    config.generation = Some(Generation { process: None, treat_source_as_template: Some(true) });
    assert_eq!(plan_unit(&config, SourceKind::Html, false, 0, None), UnitPlan::FillTemplate);
}

#[test]
fn no_markdown_sources_fails_the_build() {
    let config = Config::default();
    assert_eq!(check_sources(&config, &vec![]), Err(Error::MissingSourceFiles(String::from("src"))));
    assert_eq!(
        check_sources(&config, &vec![SourceKind::Html, SourceKind::Stylesheet]),
        Err(Error::MissingSourceFiles(String::from("src")))
    );
    assert_eq!(check_sources(&config, &vec![SourceKind::Html, SourceKind::Markdown]), Ok(()));
}

#[test]
fn post_processing_follows_the_configuration() {
    let mut config = Config::default();
    let html = String::from("<p>  some   text  </p>\n\n<div  class=\"a\">x</div>");
    assert_eq!(post_process_html(&config, html.clone()), html);
    config.generation = Some(Generation { process: Some(ProcessHtml { minify: true }), treat_source_as_template: None });
    let out = post_process_html(&config, html.clone());
    assert!(out.len() < html.len());
    assert!(out.contains("some text"));
}

#[test]
fn cache_keeps_the_first_fragment_for_a_key() {
    let cache = AssetCache::new();
    assert_eq!(cache.get("/a.css"), None);
    let first = cache.get_or_insert(String::from("/a.css"), String::from("<style>one</style>"));
    let second = cache.get_or_insert(String::from("/a.css"), String::from("<style>two</style>"));
    assert_eq!(first, "<style>one</style>");
    assert_eq!(second, first);
    assert_eq!(cache.get("/a.css"), Some(first));
}

#[test]
fn concurrent_requests_for_one_stylesheet_agree() {
    let runtime = tokio::runtime::Builder::new_multi_thread().worker_threads(4).build().unwrap();
    let cache = std::sync::Arc::new(AssetCache::new());
    let seen: Vec<String> = runtime.block_on(async {
        let handles: Vec<_> = (0..8)
            .map(|i| {
                let cache = cache.clone();
                tokio::spawn(async move { cache.stylesheet(String::from("/s.css"), Ok(format!("v{i}"))).unwrap() })
            })
            .collect();
        let mut seen = Vec::new();
        for h in handles {
            seen.push(h.await.unwrap());
        }
        seen
    });
    assert!(seen.iter().all(|s| *s == seen[0]));
    assert!(seen[0].starts_with("<style>v"));
}

#[test]
fn unreadable_stylesheet_is_an_io_error() {
    let cache = AssetCache::new();
    let r = cache.stylesheet(String::from("/missing.css"), Err(String::from("not found")));
    assert_eq!(r, Err(Error::Io { err: String::from("not found"), path: String::from("/missing.css") }));
    let favicon = cache.favicon(String::from("/missing.ico"), None);
    assert_eq!(favicon, "");
}

#[test]
fn exit_codes() {
    assert_eq!(Error::Io { err: String::new(), path: String::new() }.exit_code(), 74);
    assert_eq!(Error::ConfigParse(String::new()).exit_code(), 78);
    assert_eq!(Error::MissingTheme(String::new()).exit_code(), 64);
    assert_eq!(Error::unwrap_gracefully::<u8>(Ok(3)), 3);
}

#[test]
fn default_configuration() {
    let c = Config::default();
    assert_eq!(c.source, "src");
    assert_eq!(c.dest, "dest");
    assert_eq!(c.syntaxes, "syntaxes");
    assert_eq!(c.syntax_theme, "base16-eighties.dark");
    assert_eq!(c.custom_syntax_themes, "syntax-themes");
    assert_eq!(c.default.favicon, "favicon.ico");
    assert_eq!(c.default.template, "template.html");
    assert_eq!(c.default.stylesheet, "style.css");
    assert!(c.generation.is_none() && c.meta.is_none() && c.default.meta.is_none());
    assert!(!c.minify());
    assert!(!c.treat_source_as_template());
}

#[test]
fn pass_through_html_is_minified_and_css_is_not() {
    let mut config = Config::default();
    config.generation = Some(Generation { process: Some(ProcessHtml { minify: true }), treat_source_as_template: None });
    let html = String::from("<p>  a   b  </p>\n\n");
    assert!(finish_pass_through(&config, SourceKind::Html, html.clone()).len() < html.len());
    let css = String::from("body {  color : red ; }\n");
    assert_eq!(finish_pass_through(&config, SourceKind::Stylesheet, css.clone()), css);
}
