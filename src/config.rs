//! Project configuration and the per-page metadata embedded in markdown sources.
use vstd::prelude::*;
use vstd::string::*;

verus! {

/// How the site name is appended to every page title.
#[derive(Debug, Clone)]
pub enum MetaAppendSiteNameToTitle {
    /// `true` appends the fixed separator and the site name; `false` leaves titles alone.
    Default(bool),
    /// Appends this separator and the site name.
    Custom(String),
}

/// Site-wide author information used when a page gives none.
#[derive(Debug, Clone)]
pub struct DefaultMeta {
    /// The name of the website.
    pub site_name: String,
    /// The author(s) of the web pages.
    pub authors: Vec<String>,
}

/// Assets used by every page that does not name its own.
#[derive(Debug, Clone)]
pub struct Defaults {
    /// The default favicon for webpages.
    pub favicon: String,
    /// The default css stylesheet for webpages.
    pub stylesheet: String,
    /// The default HTML template for webpages.
    pub template: String,
    /// The default self-describing data for webpages.
    pub meta: Option<DefaultMeta>,
}

/// Whether generated HTML is processed further.
#[derive(Debug, Clone)]
pub struct ProcessHtml {
    /// Minify the generated HTML (and the CSS embedded in it).
    pub minify: bool,
}

/// Output generation policy.
#[derive(Debug, Clone)]
pub struct Generation {
    /// If generated HTML should be processed (minimized, etc.).
    pub process: Option<ProcessHtml>,
    /// Treat HTML found in the source directory as a template.
    pub treat_source_as_template: Option<bool>,
}

/// Title policy.
#[derive(Debug, Clone)]
pub struct Meta {
    pub append_site_name_to_title: Option<MetaAppendSiteNameToTitle>,
}

/// A project's configuration. Paths are held as text.
#[derive(Debug, Clone)]
pub struct Config {
    /// Markdown source files.
    pub source: String,
    /// Where generated HTML files go.
    pub dest: String,
    /// Where sublime syntax highlighting files are stored.
    pub syntaxes: String,
    /// The name of the highlighting theme: a built-in one or one found in
    /// `custom_syntax_themes`.
    pub syntax_theme: String,
    /// Where `.tmTheme` color schemes are stored.
    pub custom_syntax_themes: String,
    pub default: Defaults,
    pub generation: Option<Generation>,
    pub meta: Option<Meta>,
}

impl Config {
    /// The configuration file looked for in a project directory.
    pub const DEFAULT_CONFIG_FILE: &'static str = "raven.toml";
    pub const DEFAULT_CUSTOM_SYNTAX_THEMES_DIR: &'static str = "syntax-themes";
    pub const DEFAULT_DEST_DIR: &'static str = "dest";
    pub const DEFAULT_FAVICON_FILE: &'static str = "favicon.ico";
    pub const DEFAULT_SRC_DIR: &'static str = "src";
    pub const DEFAULT_SYNTAXES_DIR: &'static str = "syntaxes";
    pub const DEFAULT_SYNTAX_THEME: &'static str = "base16-eighties.dark";
    pub const DEFAULT_TEMPLATE_FILE: &'static str = "template.html";
    pub const DEFAULT_STYLE_FILE: &'static str = "style.css";

    /// Whether generated HTML is to be minified.
    pub open spec fn minify_spec(&self) -> bool {
        match self.generation {
            Some(g) => match g.process {
                Some(p) => p.minify,
                None => false,
            },
            None => false,
        }
    }

    /// Whether HTML sources are filled in as templates.
    pub open spec fn treat_source_as_template_spec(&self) -> bool {
        match self.generation {
            Some(g) => g.treat_source_as_template == Some(true),
            None => false,
        }
    }

    /// Whether generated HTML is to be minified.
    pub fn minify(&self) -> (r: bool)
        ensures
            r == self.minify_spec(),
    {
        match &self.generation {
            Some(g) => match &g.process {
                Some(p) => p.minify,
                None => false,
            },
            None => false,
        }
    }

    /// Whether HTML sources are filled in as templates.
    pub fn treat_source_as_template(&self) -> (r: bool)
        ensures
            r == self.treat_source_as_template_spec(),
    {
        match &self.generation {
            Some(g) => match g.treat_source_as_template {
                Some(b) => b,
                None => false,
            },
            None => false,
        }
    }
}

impl Default for Config {
    fn default() -> (r: Config)
        ensures
            r.source@ == Config::DEFAULT_SRC_DIR@,
            r.dest@ == Config::DEFAULT_DEST_DIR@,
            r.syntaxes@ == Config::DEFAULT_SYNTAXES_DIR@,
            r.syntax_theme@ == Config::DEFAULT_SYNTAX_THEME@,
            r.custom_syntax_themes@ == Config::DEFAULT_CUSTOM_SYNTAX_THEMES_DIR@,
            r.default.favicon@ == Config::DEFAULT_FAVICON_FILE@,
            r.default.template@ == Config::DEFAULT_TEMPLATE_FILE@,
            r.default.stylesheet@ == Config::DEFAULT_STYLE_FILE@,
            r.default.meta is None,
            r.generation is None,
            r.meta is None,
    {
        Config {
            meta: None,
            dest: String::from_str(Config::DEFAULT_DEST_DIR),
            source: String::from_str(Config::DEFAULT_SRC_DIR),
            syntaxes: String::from_str(Config::DEFAULT_SYNTAXES_DIR),
            syntax_theme: String::from_str(Config::DEFAULT_SYNTAX_THEME),
            custom_syntax_themes: String::from_str(Config::DEFAULT_CUSTOM_SYNTAX_THEMES_DIR),
            generation: None,
            default: Defaults {
                meta: None,
                favicon: String::from_str(Config::DEFAULT_FAVICON_FILE),
                template: String::from_str(Config::DEFAULT_TEMPLATE_FILE),
                stylesheet: String::from_str(Config::DEFAULT_STYLE_FILE),
            },
        }
    }
}

/// Author information given by a page.
#[derive(Debug, Clone)]
pub struct PageInfoMeta {
    pub site_name: String,
    pub authors: Vec<String>,
}

/// The metadata a markdown page carries in its `pageinfo` block.
#[derive(Debug, Clone)]
pub struct PageInfo {
    /// The page title.
    pub title: String,
    /// The page's description.
    pub description: String,
    /// The CSS stylesheet to use.
    pub style: Option<String>,
    /// The path to the HTML template to use.
    pub template: Option<String>,
    /// Use a different favicon for this page. If omitted the default one is used.
    pub favicon: Option<String>,
    pub meta: Option<PageInfoMeta>,
}

impl PageInfo {
    /// The language tag of the fenced block that holds a page's metadata.
    pub const CODE_BLOCK_IDENTIFIER: &'static str = "pageinfo";
}

} // verus!
