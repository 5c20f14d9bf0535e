use vstd::prelude::*;
use crate::text::{str_ends_with, ends_with};

verus! {

/// The name under which a directory's own page is written.
pub open spec fn index_page() -> Seq<char> {
    "index.html"@
}

/// The file name, for extension `ext`, of a source that stands for its directory.
pub open spec fn index_source_name(ext: Seq<char>) -> Seq<char> {
    "_index."@ + ext
}

/// True when `name` is `stem.ext` for a non-empty `stem`.
pub open spec fn is_source_name(name: Seq<char>, ext: Seq<char>) -> bool {
    ends_with(name, "."@ + ext) && name.len() > ext.len() + 1
}

/// The file name of the page produced from the source file `name` with extension `ext`.
pub open spec fn page_name(name: Seq<char>, ext: Seq<char>) -> Seq<char> {
    if name == index_source_name(ext) {
        index_page()
    } else {
        name.take(name.len() - ext.len() - 1) + ".html"@
    }
}

/// The output path, as components, of the source at relative path `rel`:
/// the same directories, and the page name in place of the file name.
pub open spec fn output_components(rel: Seq<Seq<char>>, ext: Seq<char>) -> Seq<Seq<char>> {
    rel.drop_last().push(page_name(rel.last(), ext))
}

/// Tells whether the file `name` is a source file with extension `ext`.
pub fn is_source_file(name: &str, ext: &str) -> (r: bool)
    ensures
        r == is_source_name(name@, ext@),
{
    let mut dotted = String::from_str(".");
    dotted.append(ext);
    let e = str_ends_with(name, dotted.as_str());
    let n = name.unicode_len();
    let m = ext.unicode_len();
    proof {
        reveal_strlit(".");
    }
    e && n > m && n - m > 1
}

/// The file name of the page produced from the source file `name`.
pub fn page_file_name(name: &str, ext: &str) -> (r: String)
    requires
        is_source_name(name@, ext@),
    ensures
        r@ == page_name(name@, ext@),
{
    let mut index_name = String::from_str("_index.");
    index_name.append(ext);
    let own = String::from_str(name);
    if own == index_name {
        String::from_str("index.html")
    } else {
        let n = name.unicode_len();
        let m = ext.unicode_len();
        proof {
            reveal_strlit(".");
        }
        let stem = name.substring_char(0, n - m - 1);
        let mut page = String::from_str(stem);
        page.append(".html");
        page
    }
}

/// The output path of the source file at relative path `rel` (its components,
/// the file name last).  `_index.ext` in a directory becomes that directory's
/// `index.html`; any other `name.ext` becomes `name.html` beside it.
pub fn output_path(rel: &[String], ext: &str) -> (r: Vec<String>)
    requires
        rel@.len() >= 1,
        is_source_name(rel@.last()@, ext@),
    ensures
        r@.map_values(|c: String| c@) == output_components(rel@.map_values(|c: String| c@), ext@),
{
    let mut out: Vec<String> = Vec::new();
    let last = rel.len() - 1;
    let mut i: usize = 0;
    while i < last
        invariant
            last == rel@.len() - 1,
            i <= last,
            out@.len() == i,
            forall|j: int| 0 <= j < i ==> #[trigger] out@[j]@ == rel@[j]@,
        decreases last - i,
    {
        out.push(rel[i].clone());
        i += 1;
    }
    out.push(page_file_name(rel[last].as_str(), ext));
    proof {
        let relv = rel@.map_values(|c: String| c@);
        assert(out@.map_values(|c: String| c@) =~= output_components(relv, ext@));
    }
    out
}

/// The view of a path given as components.
pub open spec fn components_view(p: Seq<String>) -> Seq<Seq<char>> {
    p.map_values(|c: String| c@)
}

/// True when `rel` is the relative path of a source file with extension `ext`.
pub open spec fn is_source_path(rel: Seq<String>, ext: Seq<char>) -> bool {
    rel.len() >= 1 && is_source_name(rel.last()@, ext)
}

/// The output paths of all `sources`, in order: `r[i]` is the page of `sources[i]`.
pub fn plan_targets(sources: &Vec<Vec<String>>, ext: &str) -> (r: Vec<Vec<String>>)
    requires
        forall|i: int| 0 <= i < sources@.len() ==> is_source_path(#[trigger] sources@[i]@, ext@),
    ensures
        r@.len() == sources@.len(),
        forall|i: int|
            0 <= i < sources@.len() ==> components_view(#[trigger] r@[i]@) == output_components(
                components_view(sources@[i]@),
                ext@,
            ),
{
    let mut out: Vec<Vec<String>> = Vec::new();
    let mut i: usize = 0;
    while i < sources.len()
        invariant
            i <= sources@.len(),
            out@.len() == i,
            forall|i: int| 0 <= i < sources@.len() ==> is_source_path(#[trigger] sources@[i]@, ext@),
            forall|j: int|
                0 <= j < i ==> components_view(#[trigger] out@[j]@) == output_components(
                    components_view(sources@[j]@),
                    ext@,
                ),
        decreases sources@.len() - i,
    {
        assert(is_source_path(sources@[i as int]@, ext@));
        out.push(output_path(sources[i].as_slice(), ext));
        i += 1;
    }
    out
}

} // verus!
