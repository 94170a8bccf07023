//! A static HTML generator: markdown pages with an embedded metadata block are
//! rendered, merged into an HTML template and written to a destination tree.
use vstd::prelude::*;

pub mod cache;
pub mod config;
pub mod defaults;
pub mod error;
pub mod markdown;
pub mod pipeline;
pub mod site;
pub mod template;
pub mod text;

pub use config::{
    Config, DefaultMeta, Defaults, Generation, Meta, MetaAppendSiteNameToTitle, PageInfo, PageInfoMeta,
    ProcessHtml,
};
pub use error::{Error, Result};

verus! {

/// The program's name, used as the prefix of every reported error.
pub const NAME: &'static str = "RusticRaven";

/// A one-line description of the program.
pub const DESC: &'static str = "A static html generator";

} // verus!
