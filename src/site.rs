//! A website being built: its configuration, the highlighting tables and emoji
//! table every page is rendered with, and the shared asset cache.
use gh_emoji::Replacer;
use syntect::highlighting::Theme;
use syntect::parsing::SyntaxSet;
use vstd::prelude::*;
use crate::cache::AssetCache;
use crate::config::Config;
use crate::error::{Error, Result};
use crate::markdown::{
    events_of, has_page_info, highlight_code_blocks, highlight_ok, highlighted, lemma_transform_keeps_others_below,
    markdown_events, new_replacer, payload, render_html, rendered, strip_page_info, stripped, view_events, EventView,
    MdEvent,
};

verus! {

/// Everything the units of one build share, read-only but for the asset cache.
pub struct Website {
    config: Config,
    emoji_replacer: Replacer,
    syntax_set: SyntaxSet,
    syntax_theme: Theme,
    assets: AssetCache,
}

impl Website {
    /// The site's configuration.
    pub closed spec fn config_spec(&self) -> Config {
        self.config
    }

    /// The site's asset cache.
    pub closed spec fn assets_spec(&self) -> AssetCache {
        self.assets
    }

    pub fn new(config: Config, syntax_set: SyntaxSet, assets: AssetCache, syntax_theme: Theme) -> (r: Website)
        ensures
            r.config_spec() == config,
            r.assets_spec() == assets,
    {
        Website { config, emoji_replacer: new_replacer(), syntax_set, syntax_theme, assets }
    }

    /// The site's configuration.
    pub fn config(&self) -> (r: &Config)
        ensures
            *r == self.config_spec(),
    {
        &self.config
    }

    /// The site's asset cache.
    pub fn assets(&self) -> (r: &AssetCache)
        ensures
            *r == self.assets_spec(),
    {
        &self.assets
    }

    /// The syntax definitions the site highlights with.
    pub closed spec fn syntax_set_spec(&self) -> SyntaxSet {
        self.syntax_set
    }

    /// The theme the site highlights with.
    pub closed spec fn theme_spec(&self) -> Theme {
        self.syntax_theme
    }

    /// Whether a document with these events parses: its first metadata block
    /// holds text and highlighting succeeds on the rest.
    pub open spec fn parses(&self, events: Seq<EventView>) -> bool {
        has_page_info(events) && highlight_ok(self.syntax_set_spec(), self.theme_spec(), stripped(events))
    }

    /// The events a document's body is rendered from: its metadata blocks
    /// taken out, emoji substituted and fenced code highlighted.
    pub open spec fn body_events(&self, events: Seq<EventView>) -> Seq<EventView> {
        highlighted(self.syntax_set_spec(), self.theme_spec(), stripped(events))
    }

    /// Parses a markdown document into its body HTML and the raw text of its
    /// first `pageinfo` block. It succeeds exactly when that block holds text
    /// and highlighting succeeds; the body is rendered from the document's
    /// events with the metadata blocks removed. Without metadata text it fails
    /// with a missing-page-info error naming `source_path`, and otherwise
    /// with a highlighting error.
    pub fn parse_markdown(&self, source: &str, source_path: String) -> (r: Result<(String, String)>)
        ensures
            r is Ok <==> self.parses(events_of(source@)),
            r matches Ok((body, p)) ==> body@ == rendered(source@, self.body_events(events_of(source@)))
                && p@ == payload(events_of(source@)),
            !has_page_info(events_of(source@)) ==> r == Err::<(String, String), Error>(
                Error::MissingPageInfo(source_path),
            ),
            (has_page_info(events_of(source@)) && !self.parses(events_of(source@))) ==> (r matches Err(e)
                && e is SyntaxHighlight),
    {
        let events = markdown_events(source);
        let ghost evs = view_events(events@);
        proof {
            assert forall|i: int| 0 <= i < evs.len() implies (#[trigger] evs[i] matches EventView::Other(k) ==> k
                < evs.len()) by {
                assert(evs[i] == events@[i]@);
            }
            lemma_transform_keeps_others_below(self.syntax_set_spec(), self.theme_spec(), evs, evs.len());
        }
        let (kept, body_events) = self.transform_events(events, source_path)?;
        let body = render_html(source, kept);
        Ok((body, body_events))
    }

    /// The events a document's body is rendered from, and the raw text of its
    /// first `pageinfo` block; see `parse_markdown` for when each error comes.
    pub fn transform_events(&self, events: Vec<MdEvent>, source_path: String) -> (r: Result<(Vec<MdEvent>, String)>)
        ensures
            r is Ok <==> self.parses(view_events(events@)),
            r matches Ok((kept, p)) ==> view_events(kept@) == self.body_events(view_events(events@))
                && p@ == payload(view_events(events@)),
            !has_page_info(view_events(events@)) ==> r == Err::<(Vec<MdEvent>, String), Error>(
                Error::MissingPageInfo(source_path),
            ),
            (has_page_info(view_events(events@)) && !self.parses(view_events(events@))) ==> (r matches Err(e)
                && e is SyntaxHighlight),
    {
        let (kept, payload) = strip_page_info(&self.emoji_replacer, events);
        match payload {
            None => Err(Error::MissingPageInfo(source_path)),
            Some(p) => {
                let kept = highlight_code_blocks(&self.syntax_set, &self.syntax_theme, kept)?;
                Ok((kept, p))
            },
        }
    }
}

} // verus!
