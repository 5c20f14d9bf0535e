use vstd::prelude::*;

verus! {

/// A failure met while building the site.
///
/// Paths are carried as the text they print as; an I/O failure carries the
/// message of the underlying operating-system error.
#[derive(Debug)]
pub enum TypsyError {
    Io { path: String, source: String },
    TypstCompile { path: String, diagnostics: Vec<String> },
    HtmlExport { path: String, diagnostics: Vec<String> },
    NoContentDir,
}

/// One compiler diagnostic: its message and the hints attached to it.
#[derive(Debug)]
pub struct Diagnostic {
    pub message: String,
    pub hints: Vec<String>,
}

/// One line of a diagnostics listing.
pub open spec fn diagnostic_line(d: Seq<char>) -> Seq<char> {
    "  - "@ + d
}

/// The lines of `ds`, each indented with a dash, joined by newlines.
pub open spec fn diagnostics_text(ds: Seq<String>) -> Seq<char>
    decreases ds.len(),
{
    if ds.len() == 0 {
        Seq::empty()
    } else if ds.len() == 1 {
        diagnostic_line(ds[0]@)
    } else {
        diagnostics_text(ds.drop_last()) + "\n"@ + diagnostic_line(ds.last()@)
    }
}

/// A message followed by each hint, as ` (hint: ...)`, in order.
pub open spec fn with_hints(msg: Seq<char>, hints: Seq<String>) -> Seq<char>
    decreases hints.len(),
{
    if hints.len() == 0 {
        msg
    } else {
        with_hints(msg, hints.drop_last()) + " (hint: "@ + hints.last()@ + ")"@
    }
}

/// The text of one diagnostic.
pub open spec fn diagnostic_text(d: Diagnostic) -> Seq<char> {
    with_hints(d.message@, d.hints@)
}

/// The text that describes an error to the user.
pub open spec fn error_text(e: TypsyError) -> Seq<char> {
    match e {
        TypsyError::Io { path, source } => "IO error at "@ + path@ + ": "@ + source@,
        TypsyError::TypstCompile { path, diagnostics } => "typst compilation failed for "@
            + path@ + ":\n"@ + diagnostics_text(diagnostics@),
        TypsyError::HtmlExport { path, diagnostics } => "HTML export failed for "@ + path@
            + ":\n"@ + diagnostics_text(diagnostics@),
        TypsyError::NoContentDir => "no content/ directory found"@,
    }
}

/// Lists diagnostics one per line, each indented and led by a dash.
pub fn format_diagnostics(diagnostics: &[String]) -> (r: String)
    ensures
        r@ == diagnostics_text(diagnostics@),
{
    let mut out = String::new();
    let mut i: usize = 0;
    while i < diagnostics.len()
        invariant
            i <= diagnostics@.len(),
            out@ == diagnostics_text(diagnostics@.take(i as int)),
        decreases diagnostics@.len() - i,
    {
        proof {
            assert(diagnostics@.take(i + 1).drop_last() == diagnostics@.take(i as int));
        }
        if i > 0 {
            out.append("\n");
        }
        out.append("  - ");
        out.append(diagnostics[i].as_str());
        i += 1;
    }
    proof {
        assert(diagnostics@.take(i as int) == diagnostics@);
    }
    out
}

/// The text of one diagnostic: its message, then each hint.
pub fn diagnostic_to_string(d: &Diagnostic) -> (r: String)
    ensures
        r@ == diagnostic_text(*d),
{
    let mut msg = d.message.clone();
    let mut i: usize = 0;
    while i < d.hints.len()
        invariant
            i <= d.hints@.len(),
            msg@ == with_hints(d.message@, d.hints@.take(i as int)),
        decreases d.hints@.len() - i,
    {
        proof {
            assert(d.hints@.take(i + 1).drop_last() == d.hints@.take(i as int));
        }
        msg.append(" (hint: ");
        msg.append(d.hints[i].as_str());
        msg.append(")");
        i += 1;
    }
    proof {
        assert(d.hints@.take(i as int) == d.hints@);
    }
    msg
}

/// Converts compiler diagnostics into plain strings, one per diagnostic.
pub fn diagnostics_to_strings(diags: &[Diagnostic]) -> (r: Vec<String>)
    ensures
        r@.len() == diags@.len(),
        forall|i: int| 0 <= i < diags@.len() ==> #[trigger] r@[i]@ == diagnostic_text(diags@[i]),
{
    let mut out: Vec<String> = Vec::new();
    let mut i: usize = 0;
    while i < diags.len()
        invariant
            i <= diags@.len(),
            out@.len() == i,
            forall|j: int| 0 <= j < i ==> #[trigger] out@[j]@ == diagnostic_text(diags@[j]),
        decreases diags@.len() - i,
    {
        out.push(diagnostic_to_string(&diags[i]));
        i += 1;
    }
    out
}

impl TypsyError {
    /// The text that describes this error to the user.
    pub fn message(&self) -> (r: String)
        ensures
            r@ == error_text(*self),
    {
        match self {
            TypsyError::Io { path, source } => {
                let mut s = String::from_str("IO error at ");
                s.append(path.as_str());
                s.append(": ");
                s.append(source.as_str());
                s
            },
            TypsyError::TypstCompile { path, diagnostics } => {
                let mut s = String::from_str("typst compilation failed for ");
                s.append(path.as_str());
                s.append(":\n");
                let d = format_diagnostics(diagnostics.as_slice());
                s.append(d.as_str());
                s
            },
            TypsyError::HtmlExport { path, diagnostics } => {
                let mut s = String::from_str("HTML export failed for ");
                s.append(path.as_str());
                s.append(":\n");
                let d = format_diagnostics(diagnostics.as_slice());
                s.append(d.as_str());
                s
            },
            TypsyError::NoContentDir => String::from_str("no content/ directory found"),
        }
    }
}

} // verus!
