//! The library's error type and the process exit code each error maps to.
use vstd::prelude::*;

verus! {

/// Everything that can go wrong while building a site. Paths are carried as
/// text.
#[derive(Debug, Clone, PartialEq, Eq)]
pub enum Error {
    Io { err: String, path: String },
    ConfigParse(String),
    SyntaxHighlight(String),
    MissingPageInfo(String),
    ParsePageInfo { err: String, path: String },
    LoadSyntax { err: String, path: String },
    LoadSyntaxThemes { err: String, path: String },
    ReadSourceDir { err: String, path: String },
    MissingSourceFiles(String),
    MissingFavicon { source_file: String, expected_favicon_file: String },
    MissingTemplate { source_file: String, expected_template_file: String },
    MissingTheme(String),
    HtmlPostprocess(String),
    AysncJoin,
    IntegraionIntoTemplate,
    ProgressBarInitialization,
}

/// The result of a fallible operation of this library.
pub type Result<T> = core::result::Result<T, Error>;

/// Exit code for an I/O failure.
pub const EXIT_IO: i32 = 74;

/// Exit code for a configuration that cannot be parsed.
pub const EXIT_CONFIG: i32 = 78;

/// Exit code for every other fatal condition.
pub const EXIT_OTHER: i32 = 64;

/// The exit code that reporting `e` ends the process with.
pub open spec fn exit_code_of(e: Error) -> i32 {
    match e {
        Error::Io { .. } => EXIT_IO,
        Error::ConfigParse(_) => EXIT_CONFIG,
        _ => EXIT_OTHER,
    }
}

impl Error {
    /// The value held by a successful result. Failed results are reported and
    /// end the process before this point, so only `Ok` is accepted here.
    pub fn unwrap_gracefully<T>(x: Result<T>) -> (r: T)
        requires
            x is Ok,
        ensures
            x == Ok::<T, Error>(r),
    {
        x.unwrap()
    }

    /// The exit code of the process when this error ends it: distinct codes
    /// for I/O and configuration failures, one shared code otherwise.
    pub fn exit_code(&self) -> (r: i32)
        ensures
            r == exit_code_of(*self),
    {
        match self {
            Error::Io { .. } => EXIT_IO,
            Error::ConfigParse(_) => EXIT_CONFIG,
            _ => EXIT_OTHER,
        }
    }
}

} // verus!
