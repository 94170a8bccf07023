use rustic_raven::template::{
    apply_to_template, favicon_fragment, integrate_html_into_template, join_strings, stylesheet_fragment,
};
use rustic_raven::text::substitute_markers;
use rustic_raven::{Config, DefaultMeta, Error, Meta, MetaAppendSiteNameToTitle, PageInfo, PageInfoMeta};

fn page(title: &str) -> PageInfo {
    PageInfo {
        title: String::from(title),
        description: String::from("A description"),
        style: None,
        template: None,
        favicon: None,
        meta: None,
    }
}

fn chars(s: &str) -> Vec<char> {
    s.chars().collect()
}

#[test]
fn test_file_to_base64() {
    const TEST_FILE_CONTENTS: &str = r#"Enim itaque aliquid excepturi. Asperiores est omnis quia sequi ipsum vel. Est assumenda accusantiumiusto.
Nam vel qui facere quia corporis. Voluptatem quo magni voluptate. Earum similique cupiditate voluptatem alias repellat
aliquid placeat qui. Aspernatur incidunt et necessitatibus dignissimos faciliset. Beatae dicta nam voluptatem possimus.
Suscipit cum excepturi aliquam ut."#;
    const TEST_FILE_B64: &str = "RW5pbSBpdGFxdWUgYWxpcXVpZCBleGNlcHR1cmkuIEFzcGVyaW9yZXMgZXN0IG9tbmlzIHF1aWEgc2VxdWkgaXBzdW0gdmVsLiBFc3QgYXNzdW1lbmRhIGFjY3VzYW50aXVtaXVzdG8uCk5hbSB2ZWwgcXVpIGZhY2VyZSBxdWlhIGNvcnBvcmlzLiBWb2x1cHRhdGVtIHF1byBtYWduaSB2b2x1cHRhdGUuIEVhcnVtIHNpbWlsaXF1ZSBjdXBpZGl0YXRlIHZvbHVwdGF0ZW0gYWxpYXMgcmVwZWxsYXQKYWxpcXVpZCBwbGFjZWF0IHF1aS4gQXNwZXJuYXR1ciBpbmNpZHVudCBldCBuZWNlc3NpdGF0aWJ1cyBkaWduaXNzaW1vcyBmYWNpbGlzZXQuIEJlYXRhZSBkaWN0YSBuYW0gdm9sdXB0YXRlbSBwb3NzaW11cy4KU3VzY2lwaXQgY3VtIGV4Y2VwdHVyaSBhbGlxdWFtIHV0Lg";
    let fragment = favicon_fragment(Some(TEST_FILE_CONTENTS.as_bytes()));
    assert_eq!(
        fragment,
        format!("<link rel=\"icon\" type=\"image/x-icon\" href=\"data:image/x-icon;base64,{TEST_FILE_B64}\">")
    );
}

#[test]
fn missing_favicon_gives_an_empty_fragment() {
    assert_eq!(favicon_fragment(None), "");
}

#[test]
fn stylesheet_is_wrapped_in_a_style_element() {
    assert_eq!(stylesheet_fragment("body{color:red}"), "<style>body{color:red}</style>");
}

#[test]
fn substitution_is_single_pass() {
    let markers = vec![chars("[/a/]"), chars("[/b/]")];
    let values = vec![chars("[/b/]"), chars("B")];
    let out = substitute_markers(&chars("x[/a/]y[/b/]z[/a"), &markers, &values);
    assert_eq!(out.iter().collect::<String>(), "x[/b/]yBz[/a");
}

#[test]
fn join_puts_separator_between_items() {
    let items = vec![String::from("Ann"), String::from("Bob"), String::from("Cy")];
    assert_eq!(join_strings(&items, ", "), "Ann, Bob, Cy");
    assert_eq!(join_strings(&vec![String::from("Solo")], ", "), "Solo");
    assert_eq!(join_strings(&Vec::new(), ", "), "");
}

#[test]
fn template_markers_are_filled() {
    let config = Config::default();
    let mut t = String::from(
        "<title>[/rustic_title/]</title><meta content=\"[/rustic_description/]\">[/rustic_favicon/][/rustic_stylesheet/]<h1>[/rustic_name/]</h1><p>[/rustic_authors/]</p>[/rustic_body/]",
    );
    let mut p = page("Tom & Jerry <3");
    p.meta = Some(PageInfoMeta {
        site_name: String::from("Site \"Q\""),
        authors: vec![String::from("A'b"), String::from("C")],
    });
    apply_to_template(&config, &mut t, Some(String::from("<p>[/rustic_title/]</p>")), Some(p), "FAV", "CSS");
    assert_eq!(
        t,
        "<title>Tom &amp; Jerry &lt;3</title><meta content=\"A description\">FAVCSS<h1>Site &quot;Q&quot;</h1><p>A&#x27;b, C</p><p>[/rustic_title/]</p>"
    );
}

#[test]
fn site_name_appended_with_default_separator() {
    let mut config = Config::default();
    config.meta = Some(Meta { append_site_name_to_title: Some(MetaAppendSiteNameToTitle::Default(true)) });
    config.default.meta = Some(DefaultMeta { site_name: String::from("My<Site>"), authors: vec![] });
    let mut t = String::from("[/rustic_title/]|[/rustic_name/]|[/rustic_authors/]");
    apply_to_template(&config, &mut t, None, Some(page("Home")), "", "");
    assert_eq!(t, "Home — My&lt;Site&gt;|My&lt;Site&gt;|");
}

#[test]
fn site_name_appended_with_custom_separator() {
    let mut config = Config::default();
    config.meta = Some(Meta {
        append_site_name_to_title: Some(MetaAppendSiteNameToTitle::Custom(String::from(" | "))),
    });
    let mut p = page("Home");
    p.meta = Some(PageInfoMeta { site_name: String::from("Site"), authors: vec![String::from("Me")] });
    let mut t = String::from("[/rustic_title/]");
    apply_to_template(&config, &mut t, None, Some(p), "", "");
    assert_eq!(t, "Home | Site");
}

#[test]
fn site_name_not_appended_when_disabled() {
    let mut config = Config::default();
    config.meta = Some(Meta { append_site_name_to_title: Some(MetaAppendSiteNameToTitle::Default(false)) });
    let mut t = String::from("[/rustic_title/]");
    apply_to_template(&config, &mut t, None, Some(page("Home")), "", "");
    assert_eq!(t, "Home");
}

#[test]
fn without_page_info_only_assets_are_filled() {
    let config = Config::default();
    let mut t = String::from("[/rustic_title/][/rustic_body/][/rustic_favicon/][/rustic_stylesheet/]");
    apply_to_template(&config, &mut t, None, None, "", "<style></style>");
    assert_eq!(t, "[/rustic_title/][/rustic_body/]<style></style>");
}

#[test]
fn missing_favicon_leaves_its_marker_empty() {
    let config = Config::default();
    let r = integrate_html_into_template(
        &config,
        page("T"),
        String::from("src/a.md"),
        String::from("<p>x</p>"),
        Some(String::from("<head>[/rustic_favicon/]</head>[/rustic_body/]")),
        &favicon_fragment(None),
        "",
    );
    assert_eq!(r, Ok(String::from("<head></head><p>x</p>")));
}

#[test]
fn missing_template_fails_only_that_page() {
    let config = Config::default();
    let mut broken = page("Broken");
    broken.template = Some(String::from("missing.html"));
    let failed = integrate_html_into_template(
        &config,
        broken,
        String::from("src/broken.md"),
        String::from("<p>b</p>"),
        None,
        "",
        "",
    );
    assert_eq!(
        failed,
        Err(Error::MissingTemplate {
            source_file: String::from("src/broken.md"),
            expected_template_file: String::from("missing.html"),
        })
    );
    let sibling = integrate_html_into_template(
        &config,
        page("Fine"),
        String::from("src/fine.md"),
        String::from("<p>f</p>"),
        Some(String::from("<title>[/rustic_title/]</title>[/rustic_body/]")),
        "",
        "",
    );
    assert_eq!(sibling, Ok(String::from("<title>Fine</title><p>f</p>")));
}

#[test]
fn missing_template_defaults_to_project_template() {
    let config = Config::default();
    let failed = integrate_html_into_template(&config, page("X"), String::from("a.md"), String::new(), None, "", "");
    assert_eq!(
        failed,
        Err(Error::MissingTemplate {
            source_file: String::from("a.md"),
            expected_template_file: String::from("template.html"),
        })
    );
}
