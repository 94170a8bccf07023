//! The decisions of a build: which source files are pages, where each one's
//! output goes, whether it must be regenerated, and how its output is finished.
use vstd::prelude::*;
use vstd::string::*;
use crate::config::Config;
use crate::error::{Error, Result};
use crate::text::{chars_of, string_of};

verus! {

/// What a source file is, going by its extension.
#[derive(Debug, Clone, Copy, PartialEq, Eq, Structural)]
pub enum SourceKind {
    /// A markdown page (`md`, `markdown`).
    Markdown,
    /// An HTML file (`html`, `htm`), copied or filled in as a template.
    Html,
    /// A stylesheet (`css`), copied as it is.
    Stylesheet,
    /// Anything else: not built.
    Ignored,
}

/// What a unit does with its source file.
#[derive(Debug, Clone, Copy, PartialEq, Eq, Structural)]
pub enum UnitPlan {
    /// Nothing: the file is not built, or its output is up to date.
    Skip,
    /// Parse the markdown, merge it into its template and write the result.
    RenderMarkdown,
    /// Fill the HTML source in as a template with the project defaults.
    FillTemplate,
    /// Copy the source as it is.
    CopyVerbatim,
}

/// `c` is the lowercase ASCII letter or other character `l`, in either case.
pub open spec fn same_letter(c: char, l: char) -> bool {
    c == l || ('a' <= l <= 'z' && c as u32 + 32 == l as u32)
}

/// `ext` spells the lowercase word `lit`, ignoring ASCII case.
pub open spec fn spells(ext: Seq<char>, lit: Seq<char>) -> bool {
    ext.len() == lit.len() && forall|i: int| 0 <= i < ext.len() ==> #[trigger] same_letter(ext[i], lit[i])
}

/// The kind of a file with extension `ext`.
pub open spec fn kind_of_extension(ext: Seq<char>) -> SourceKind {
    if spells(ext, seq!['m', 'd']) || spells(ext, seq!['m', 'a', 'r', 'k', 'd', 'o', 'w', 'n']) {
        SourceKind::Markdown
    } else if spells(ext, seq!['h', 't', 'm', 'l']) || spells(ext, seq!['h', 't', 'm']) {
        SourceKind::Html
    } else if spells(ext, seq!['c', 's', 's']) {
        SourceKind::Stylesheet
    } else {
        SourceKind::Ignored
    }
}

/// The position of the last dot among the first `n` characters of `name`,
/// a dot at the very start excepted.
pub open spec fn dot_before(name: Seq<char>, n: int) -> Option<int>
    decreases n,
{
    if n <= 1 || n > name.len() {
        None
    } else if name[n - 1] == '.' {
        Some(n - 1)
    } else {
        dot_before(name, n - 1)
    }
}

/// The dot that starts a file name's extension, if it has one.
pub open spec fn extension_dot(name: Seq<char>) -> Option<int> {
    dot_before(name, name.len() as int)
}

/// A file name without its extension.
pub open spec fn stem_of(name: Seq<char>) -> Seq<char> {
    match extension_dot(name) {
        Some(d) => name.take(d),
        None => name,
    }
}

/// The kind of a file called `name`.
pub open spec fn kind_of_name(name: Seq<char>) -> SourceKind {
    match extension_dot(name) {
        Some(d) => kind_of_extension(name.skip(d + 1)),
        None => SourceKind::Ignored,
    }
}

/// The name of a source file's output: a page becomes `<stem>.html`, every
/// other file keeps its name.
pub open spec fn output_name(name: Seq<char>, kind: SourceKind) -> Seq<char> {
    if kind == SourceKind::Markdown {
        stem_of(name) + seq!['.', 'h', 't', 'm', 'l']
    } else {
        name
    }
}

/// Where the output of `file` goes: its place under `source_root`, mirrored
/// under `dest_root`, with its output name. `None` for a file that is not built
/// or does not lie under `source_root`. Paths are sequences of components.
pub open spec fn destination_of(
    source_root: Seq<Seq<char>>,
    dest_root: Seq<Seq<char>>,
    file: Seq<Seq<char>>,
    kind: SourceKind,
) -> Option<Seq<Seq<char>>> {
    if kind == SourceKind::Ignored || file.len() <= source_root.len() || file.take(source_root.len() as int)
        != source_root {
        None
    } else {
        Some(
            dest_root + file.subrange(source_root.len() as int, file.len() - 1) + seq![
                output_name(file.last(), kind),
            ],
        )
    }
}

/// A unit regenerates its output unless rebuilding is not forced, the output
/// exists, and it was modified no earlier than its source.
pub open spec fn regenerate(force_rebuild: bool, source_modified: i128, dest_modified: Option<i128>) -> bool {
    force_rebuild || match dest_modified {
        None => true,
        Some(d) => d < source_modified,
    }
}

/// What a unit does with a file of kind `kind`.
pub open spec fn plan_of(
    config: Config,
    kind: SourceKind,
    force_rebuild: bool,
    source_modified: i128,
    dest_modified: Option<i128>,
) -> UnitPlan {
    match kind {
        SourceKind::Markdown => if regenerate(force_rebuild, source_modified, dest_modified) {
            UnitPlan::RenderMarkdown
        } else {
            UnitPlan::Skip
        },
        SourceKind::Html => if config.treat_source_as_template_spec() {
            UnitPlan::FillTemplate
        } else {
            UnitPlan::CopyVerbatim
        },
        SourceKind::Stylesheet => UnitPlan::CopyVerbatim,
        SourceKind::Ignored => UnitPlan::Skip,
    }
}

fn spells_exec(ext: &Vec<char>, lit: &Vec<char>) -> (r: bool)
    ensures
        r == spells(ext@, lit@),
{
    if ext.len() != lit.len() {
        return false;
    }
    let mut i: usize = 0;
    while i < ext.len()
        invariant
            ext@.len() == lit@.len(),
            0 <= i <= ext@.len(),
            forall|k: int| 0 <= k < i ==> #[trigger] same_letter(ext@[k], lit@[k]),
        decreases ext@.len() - i,
    {
        let c = ext[i];
        let l = lit[i];
        let cu = c as u32;
        let lu = l as u32;
        let same = c == l || ('a' <= l && l <= 'z' && lu >= 32 && cu == lu - 32);
        if !same {
            assert(!same_letter(ext@[i as int], lit@[i as int]));
            return false;
        }
        i = i + 1;
    }
    true
}

/// The kind of a file with extension `ext`; case does not matter.
pub fn classify_extension(ext: &str) -> (r: SourceKind)
    ensures
        r == kind_of_extension(ext@),
{
    let e = chars_of(ext);
    if spells_exec(&e, &vec!['m', 'd']) || spells_exec(&e, &vec!['m', 'a', 'r', 'k', 'd', 'o', 'w', 'n']) {
        SourceKind::Markdown
    } else if spells_exec(&e, &vec!['h', 't', 'm', 'l']) || spells_exec(&e, &vec!['h', 't', 'm']) {
        SourceKind::Html
    } else if spells_exec(&e, &vec!['c', 's', 's']) {
        SourceKind::Stylesheet
    } else {
        SourceKind::Ignored
    }
}

fn extension_dot_exec(name: &Vec<char>) -> (r: Option<usize>)
    ensures
        match r {
            Some(d) => extension_dot(name@) == Some(d as int) && d < name@.len(),
            None => extension_dot(name@) is None,
        },
{
    let mut n = name.len();
    while n > 1
        invariant
            n <= name@.len(),
            dot_before(name@, n as int) == extension_dot(name@),
        decreases n,
    {
        if name[n - 1] == '.' {
            return Some(n - 1);
        }
        n = n - 1;
    }
    None
}

fn sub_chars(v: &Vec<char>, from: usize, to: usize) -> (r: Vec<char>)
    requires
        from <= to <= v@.len(),
    ensures
        r@ == v@.subrange(from as int, to as int),
{
    let mut r: Vec<char> = Vec::new();
    let mut i: usize = from;
    while i < to
        invariant
            from <= i <= to <= v@.len(),
            r@ == v@.subrange(from as int, i as int),
        decreases to - i,
    {
        r.push(v[i]);
        i = i + 1;
        assert(r@ =~= v@.subrange(from as int, i as int));
    }
    r
}

/// The kind of a file called `name`, going by its extension.
pub fn source_kind(name: &str) -> (r: SourceKind)
    ensures
        r == kind_of_name(name@),
{
    let chars = chars_of(name);
    let len = chars.len();
    match extension_dot_exec(&chars) {
        Some(d) => {
            let ext = string_of(sub_chars(&chars, d + 1, len).as_slice());
            assert(chars@.subrange(d + 1, chars@.len() as int) =~= name@.skip(d + 1));
            classify_extension(ext.as_str())
        },
        None => SourceKind::Ignored,
    }
}

/// The output name of a file called `name` of kind `kind`.
pub fn output_file_name(name: &str, kind: SourceKind) -> (r: String)
    ensures
        r@ == output_name(name@, kind),
{
    if kind == SourceKind::Markdown {
        let chars = chars_of(name);
        let stem = match extension_dot_exec(&chars) {
            Some(d) => {
                let s = string_of(sub_chars(&chars, 0, d).as_slice());
                assert(chars@.subrange(0, d as int) =~= name@.take(d as int));
                s
            },
            None => String::from_str(name),
        };
        let suffix = string_of(&vec!['.', 'h', 't', 'm', 'l'].as_slice());
        stem.concat(suffix.as_str())
    } else {
        String::from_str(name)
    }
}

fn components_equal(a: &String, b: &String) -> (r: bool)
    ensures
        r == (a@ == b@),
{
    *a == *b
}

fn push_component(out: &mut Vec<String>, c: &String)
    ensures
        final(out).deep_view() == old(out).deep_view().push(c@),
{
    let copy = c.clone();
    out.push(copy);
    assert(out.deep_view() =~= old(out).deep_view().push(c@));
}

/// Where the output of `file` goes; see `destination_of`.
pub fn destination(source_root: &Vec<String>, dest_root: &Vec<String>, file: &Vec<String>, kind: SourceKind) -> (r:
    Option<Vec<String>>)
    ensures
        match r {
            Some(d) => destination_of(source_root.deep_view(), dest_root.deep_view(), file.deep_view(), kind)
                == Some(d.deep_view()),
            None => destination_of(source_root.deep_view(), dest_root.deep_view(), file.deep_view(), kind) is None,
        },
{
    let ghost root = source_root.deep_view();
    let ghost f = file.deep_view();
    if kind == SourceKind::Ignored || file.len() <= source_root.len() {
        return None;
    }
    let mut i: usize = 0;
    while i < source_root.len()
        invariant
            source_root@.len() < file@.len(),
            0 <= i <= source_root@.len(),
            root == source_root.deep_view(),
            f == file.deep_view(),
            forall|k: int| 0 <= k < i ==> #[trigger] root[k] == f[k],
        decreases source_root@.len() - i,
    {
        if !components_equal(&source_root[i], &file[i]) {
            assert(f.take(root.len() as int)[i as int] != root[i as int]);
            return None;
        }
        i = i + 1;
    }
    assert(f.take(root.len() as int) =~= root);
    let mut out: Vec<String> = Vec::new();
    let mut k: usize = 0;
    while k < dest_root.len()
        invariant
            0 <= k <= dest_root@.len(),
            out.deep_view() =~= dest_root.deep_view().take(k as int),
        decreases dest_root@.len() - k,
    {
        push_component(&mut out, &dest_root[k]);
        k = k + 1;
        assert(out.deep_view() =~= dest_root.deep_view().take(k as int));
    }
    assert(dest_root.deep_view().take(k as int) =~= dest_root.deep_view());
    let ghost head = out.deep_view();
    let last = file.len() - 1;
    let mut j: usize = source_root.len();
    while j < last
        invariant
            source_root@.len() <= j <= last,
            last == file@.len() - 1,
            f == file.deep_view(),
            out.deep_view() =~= head + f.subrange(source_root@.len() as int, j as int),
        decreases last - j,
    {
        push_component(&mut out, &file[j]);
        j = j + 1;
        assert(out.deep_view() =~= head + f.subrange(source_root@.len() as int, j as int));
    }
    let name = output_file_name(file[last].as_str(), kind);
    push_component(&mut out, &name);
    assert(out.deep_view() =~= head + f.subrange(source_root@.len() as int, last as int) + seq![
        output_name(f.last(), kind),
    ]);
    Some(out)
}

/// Whether a unit regenerates its output; modification times are in
/// nanoseconds, and `dest_modified` is `None` when the output does not exist.
pub fn should_regenerate_file(force_rebuild: bool, source_modified: i128, dest_modified: Option<i128>) -> (r: bool)
    ensures
        r == regenerate(force_rebuild, source_modified, dest_modified),
{
    if force_rebuild {
        return true;
    }
    match dest_modified {
        None => true,
        Some(d) => d < source_modified,
    }
}

/// What a unit does with a file of kind `kind`.
pub fn plan_unit(
    config: &Config,
    kind: SourceKind,
    force_rebuild: bool,
    source_modified: i128,
    dest_modified: Option<i128>,
) -> (r: UnitPlan)
    ensures
        r == plan_of(*config, kind, force_rebuild, source_modified, dest_modified),
{
    match kind {
        SourceKind::Markdown => if should_regenerate_file(force_rebuild, source_modified, dest_modified) {
            UnitPlan::RenderMarkdown
        } else {
            UnitPlan::Skip
        },
        SourceKind::Html => if config.treat_source_as_template() {
            UnitPlan::FillTemplate
        } else {
            UnitPlan::CopyVerbatim
        },
        SourceKind::Stylesheet => UnitPlan::CopyVerbatim,
        SourceKind::Ignored => UnitPlan::Skip,
    }
}

/// Incremental rebuild: a page whose output exists and is no older than its
/// source is skipped unless the rebuild is forced; a page whose output is older
/// or missing, or any page of a forced rebuild, is regenerated.
pub proof fn lemma_incremental_rebuild(
    config: Config,
    force_rebuild: bool,
    source_modified: i128,
    dest_modified: Option<i128>,
)
    ensures
        (!force_rebuild && (dest_modified matches Some(d) && d >= source_modified)) ==> plan_of(
            config,
            SourceKind::Markdown,
            force_rebuild,
            source_modified,
            dest_modified,
        ) == UnitPlan::Skip,
        (force_rebuild || dest_modified is None || (dest_modified matches Some(d) && d < source_modified))
            ==> plan_of(config, SourceKind::Markdown, force_rebuild, source_modified, dest_modified)
            == UnitPlan::RenderMarkdown,
{
}

/// A build needs at least one markdown page: with none it fails before any
/// unit is scheduled, naming the source directory.
pub fn check_sources(config: &Config, kinds: &Vec<SourceKind>) -> (r: Result<()>)
    ensures
        r is Ok <==> exists|i: int| 0 <= i < kinds@.len() && #[trigger] kinds@[i] == SourceKind::Markdown,
        r matches Err(e) ==> e == Error::MissingSourceFiles(config.source),
{
    let mut i: usize = 0;
    while i < kinds.len()
        invariant
            0 <= i <= kinds@.len(),
            forall|k: int| 0 <= k < i ==> #[trigger] kinds@[k] != SourceKind::Markdown,
        decreases kinds@.len() - i,
    {
        if kinds[i] == SourceKind::Markdown {
            return Ok(());
        }
        i = i + 1;
    }
    Err(Error::MissingSourceFiles(config.source.clone()))
}

/// HTML after minification, its embedded CSS included.
pub uninterp spec fn minified(html: Seq<char>) -> Seq<char>;

/// Relies on `minify_html::minify` with CSS minification and spec-compliant
/// unquoted attribute values, its bytes read back as UTF-8: the result depends
/// on the text alone.
#[verifier::external_body]
fn minify_text(html: &str) -> (r: String)
    ensures
        r@ == minified(html@),
{
    let mut cfg = minify_html::Cfg::new();
    cfg.minify_css = true;
    cfg.ensure_spec_compliant_unquoted_attribute_values = true;
    String::from_utf8_lossy(&minify_html::minify(html.as_bytes(), &cfg)).to_string()
}

/// Generated HTML as it is written: minified when the project asks for it,
/// unchanged otherwise.
pub fn post_process_html(config: &Config, html: String) -> (r: String)
    ensures
        r@ == if config.minify_spec() { minified(html@) } else { html@ },
{
    if config.minify() {
        minify_text(html.as_str())
    } else {
        html
    }
}

/// The output of a file copied through: HTML is post-processed like every
/// generated page; a stylesheet is written as it is.
pub fn finish_pass_through(config: &Config, kind: SourceKind, text: String) -> (r: String)
    ensures
        r@ == if kind == SourceKind::Html && config.minify_spec() { minified(text@) } else { text@ },
{
    if kind == SourceKind::Html {
        post_process_html(config, text)
    } else {
        text
    }
}

} // verus!
