use vstd::prelude::*;
use crate::error::{Diagnostic, TypsyError, diagnostics_to_strings, diagnostic_text};
use crate::text::{contains, str_contains};

verus! {

/// The notice the HTML backend attaches to every document while it is experimental.
pub const EXPERIMENTAL_NOTICE: &'static str = "html export is under active development";

/// The notice the HTML backend gives for a construct that it drops.
pub const IGNORED_NOTICE: &'static str = "was ignored during HTML export";

/// True when a compiler warning with message `msg` is not worth showing.
pub open spec fn suppressed(msg: Seq<char>) -> bool {
    contains(msg, EXPERIMENTAL_NOTICE@) || contains(msg, IGNORED_NOTICE@)
}

/// Tells whether a compiler warning with message `msg` is left out of the log.
pub fn is_suppressed_warning(msg: &str) -> (r: bool)
    ensures
        r == suppressed(msg@),
{
    str_contains(msg, EXPERIMENTAL_NOTICE) || str_contains(msg, IGNORED_NOTICE)
}

/// True when `strs` holds the text of each diagnostic of `diags`, in order.
pub open spec fn texts_of(strs: Seq<String>, diags: Seq<Diagnostic>) -> bool {
    strs.len() == diags.len() && forall|i: int|
        0 <= i < diags.len() ==> #[trigger] strs[i]@ == diagnostic_text(diags[i])
}

/// The failure recorded when the source at `path` does not compile.
pub fn compile_failure(path: String, diags: &[Diagnostic]) -> (r: TypsyError)
    ensures
        match r {
            TypsyError::TypstCompile { path: p, diagnostics } => p == path && texts_of(
                diagnostics@,
                diags@,
            ),
            _ => false,
        },
{
    TypsyError::TypstCompile { path, diagnostics: diagnostics_to_strings(diags) }
}

/// The failure recorded when the compiled document at `path` cannot be exported.
pub fn export_failure(path: String, diags: &[Diagnostic]) -> (r: TypsyError)
    ensures
        match r {
            TypsyError::HtmlExport { path: p, diagnostics } => p == path && texts_of(
                diagnostics@,
                diags@,
            ),
            _ => false,
        },
{
    TypsyError::HtmlExport { path, diagnostics: diagnostics_to_strings(diags) }
}

/// The outcome of a whole build pass: the pages written and the failures met.
#[derive(Debug)]
pub struct BuildReport {
    pub successes: Vec<String>,
    pub failures: Vec<TypsyError>,
}

impl BuildReport {
    /// A report with nothing in it.
    pub fn new() -> (r: BuildReport)
        ensures
            r.successes@.len() == 0,
            r.failures@.len() == 0,
    {
        BuildReport { successes: Vec::new(), failures: Vec::new() }
    }

    /// Records the outcome for the source whose page is `output`.
    pub fn record(&mut self, output: String, outcome: Result<(), TypsyError>)
        ensures
            match outcome {
                Ok(_) => final(self).successes@ == old(self).successes@.push(output)
                    && final(self).failures@ == old(self).failures@,
                Err(e) => final(self).successes@ == old(self).successes@
                    && final(self).failures@ == old(self).failures@.push(e),
            },
    {
        match outcome {
            Ok(()) => self.successes.push(output),
            Err(e) => self.failures.push(e),
        }
    }

    /// Tells whether the pass met no failure.
    pub fn succeeded(&self) -> (r: bool)
        ensures
            r == (self.failures@.len() == 0),
    {
        self.failures.len() == 0
    }
}

} // verus!
