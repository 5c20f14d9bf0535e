use vstd::prelude::*;
use crate::error::TypsyError;
use crate::paths::{components_view, is_source_path, output_components, plan_targets};
use crate::report::BuildReport;

verus! {

/// Where a build pass stands.
#[derive(Debug, Clone, Copy, PartialEq, Eq, Structural)]
pub enum PassStage {
    /// Clearing and re-creating the output directory.
    Preparing,
    /// Copying the static assets into the output directory.
    CopyingStatic,
    /// Listing the source files.
    Discovering,
    /// Compiling the page at `next`.
    Compiling,
    /// Injecting the head block into the page at `next`.
    Injecting,
    /// Every page has been processed.
    Finished,
    /// The output directory could not be prepared; nothing else was done.
    Aborted,
}

/// The work that the pass asks for next.
#[derive(Debug, Clone, Copy, PartialEq, Eq, Structural)]
pub enum PassAction {
    /// Remove the output directory if it exists, then create it.
    PrepareOutput,
    /// Copy the static directory, if there is one, onto the output directory.
    CopyStatic,
    /// List the source files under the content directory.
    Discover,
    /// Compile the page with this index and write its HTML.
    CompilePage(usize),
    /// Inject the head block into the written page with this index.
    InjectPage(usize),
    /// The pass is over; its report is final.
    Finish,
}

/// The outcome of the work last asked for.
#[derive(Debug)]
pub enum PassEvent {
    /// It succeeded.
    Done,
    /// It failed with this error.
    Failed(TypsyError),
    /// The source files found, each as its path components under the content
    /// directory, the file name last.
    Discovered(Vec<Vec<String>>),
}

/// The state of one build pass.
pub struct BuildPass {
    pub stage: PassStage,
    /// The output directory, as printed.
    pub out_dir: String,
    /// The planned output path of each source, as components under `out_dir`.
    pub targets: Vec<Vec<String>>,
    /// The index of the page under way.
    pub next: usize,
    pub report: BuildReport,
}

/// `parts` joined with `/`.
pub open spec fn joined(parts: Seq<Seq<char>>) -> Seq<char>
    decreases parts.len(),
{
    if parts.len() == 0 {
        Seq::empty()
    } else if parts.len() == 1 {
        parts[0]
    } else {
        joined(parts.drop_last()) + "/"@ + parts.last()
    }
}

/// The printed path of a page: the output directory, then its components.
pub open spec fn page_path(out_dir: Seq<char>, target: Seq<String>) -> Seq<char> {
    out_dir + "/"@ + joined(components_view(target))
}

/// `parts` joined with `/`.
fn join_components(parts: &Vec<String>) -> (r: String)
    ensures
        r@ == joined(components_view(parts@)),
{
    let mut out = String::new();
    let mut i: usize = 0;
    while i < parts.len()
        invariant
            i <= parts@.len(),
            out@ == joined(components_view(parts@.take(i as int))),
        decreases parts@.len() - i,
    {
        proof {
            assert(components_view(parts@.take(i + 1)).drop_last() =~= components_view(
                parts@.take(i as int),
            ));
        }
        if i > 0 {
            out.append("/");
        }
        out.append(parts[i].as_str());
        proof {
            assert(components_view(parts@.take(i + 1)).last() == parts@[i as int]@);
        }
        i += 1;
    }
    proof {
        assert(parts@.take(i as int) =~= parts@);
    }
    out
}

impl BuildPass {
    /// The pass's own consistency: before the pages nothing is recorded; while
    /// pages are under way, each earlier page has exactly one entry in the
    /// report; once finished, every page has one.
    pub open spec fn wf(&self) -> bool {
        match self.stage {
            PassStage::Preparing | PassStage::CopyingStatic | PassStage::Discovering => {
                &&& self.targets@.len() == 0
                &&& self.next == 0
                &&& self.report.successes@.len() == 0
                &&& self.report.failures@.len() == 0
            },
            PassStage::Compiling | PassStage::Injecting => {
                &&& self.next < self.targets@.len()
                &&& self.report.successes@.len() + self.report.failures@.len() == self.next
            },
            PassStage::Finished => self.report.successes@.len() + self.report.failures@.len()
                == self.targets@.len(),
            PassStage::Aborted => {
                &&& self.report.successes@.len() == 0
                &&& self.report.failures@.len() == 1
            },
        }
    }

    /// A new pass that writes into `out_dir`; its first action is `PrepareOutput`.
    pub fn start(out_dir: String) -> (r: (BuildPass, PassAction))
        ensures
            r.0.wf(),
            r.0.stage == PassStage::Preparing,
            r.0.out_dir == out_dir,
            r.1 == PassAction::PrepareOutput,
    {
        let pass = BuildPass {
            stage: PassStage::Preparing,
            out_dir,
            targets: Vec::new(),
            next: 0,
            report: BuildReport::new(),
        };
        (pass, PassAction::PrepareOutput)
    }

    /// The printed output path of the page with index `i`.
    pub fn page_output(&self, i: usize) -> (r: String)
        requires
            i < self.targets@.len(),
        ensures
            r@ == page_path(self.out_dir@, self.targets@[i as int]@),
    {
        let mut s = self.out_dir.clone();
        s.append("/");
        let rest = join_components(&self.targets[i]);
        s.append(rest.as_str());
        s
    }

    /// Moves past the page at `next`: to the following page, or to the end.
    fn advance(&mut self) -> (a: PassAction)
        requires
            old(self).next < old(self).targets@.len(),
            old(self).report.successes@.len() + old(self).report.failures@.len() == old(
                self,
            ).next + 1,
        ensures
            final(self).wf(),
            final(self).next == old(self).next + 1 || final(self).next == old(self).next,
            final(self).targets == old(self).targets,
            final(self).out_dir == old(self).out_dir,
            final(self).report == old(self).report,
            old(self).next + 1 < old(self).targets@.len() ==> final(self).stage
                == PassStage::Compiling && final(self).next == old(self).next + 1 && a
                == PassAction::CompilePage(final(self).next),
            old(self).next + 1 == old(self).targets@.len() ==> final(self).stage
                == PassStage::Finished && a == PassAction::Finish,
    {
        let n = self.targets.len();
        if self.next < n - 1 {
            self.next = self.next + 1;
            self.stage = PassStage::Compiling;
            PassAction::CompilePage(self.next)
        } else {
            self.stage = PassStage::Finished;
            PassAction::Finish
        }
    }

    /// Takes the outcome of the last action and says what to do next.
    ///
    /// A failure to prepare the output directory ends the pass with that one
    /// failure.  A failure to copy static files is not recorded.  With no
    /// sources the pass ends with an empty report.  A page that fails to
    /// compile, or whose injection fails, is recorded as a failure, a page
    /// whose injection succeeds as a success, and the pass goes on to the next
    /// page either way.
    pub fn step(&mut self, event: PassEvent, ext: &str) -> (a: PassAction)
        requires
            old(self).wf(),
            old(self).stage == PassStage::Discovering ==> match event {
                PassEvent::Discovered(srcs) => forall|i: int|
                    0 <= i < srcs@.len() ==> is_source_path(#[trigger] srcs@[i]@, ext@),
                _ => true,
            },
        ensures
            final(self).wf(),
            final(self).out_dir == old(self).out_dir,
            match (old(self).stage, event) {
                (PassStage::Preparing, PassEvent::Failed(e)) => {
                    &&& final(self).stage == PassStage::Aborted
                    &&& final(self).report.failures@ == seq![e]
                    &&& a == PassAction::Finish
                },
                (PassStage::Preparing, _) => final(self).stage == PassStage::CopyingStatic
                    && a == PassAction::CopyStatic,
                (PassStage::CopyingStatic, _) => final(self).stage == PassStage::Discovering
                    && a == PassAction::Discover,
                (PassStage::Discovering, PassEvent::Discovered(srcs)) => {
                    &&& final(self).targets@.len() == srcs@.len()
                    &&& forall|i: int|
                        0 <= i < srcs@.len() ==> components_view(
                            #[trigger] final(self).targets@[i]@,
                        ) == output_components(components_view(srcs@[i]@), ext@)
                    &&& srcs@.len() == 0 ==> final(self).stage == PassStage::Finished && a
                        == PassAction::Finish
                    &&& srcs@.len() > 0 ==> final(self).stage == PassStage::Compiling
                        && final(self).next == 0 && a == PassAction::CompilePage(0)
                },
                (PassStage::Discovering, _) => final(self).stage == PassStage::Finished
                    && final(self).targets@.len() == 0 && a == PassAction::Finish,
                (PassStage::Compiling, PassEvent::Failed(e)) => {
                    &&& final(self).targets == old(self).targets
                    &&& final(self).report.successes@ == old(self).report.successes@
                    &&& final(self).report.failures@ == old(self).report.failures@.push(e)
                    &&& old(self).next + 1 < old(self).targets@.len() ==> a
                        == PassAction::CompilePage((old(self).next + 1) as usize)
                        && final(self).stage == PassStage::Compiling && final(self).next
                        == old(self).next + 1
                    &&& old(self).next + 1 == old(self).targets@.len() ==> a
                        == PassAction::Finish && final(self).stage == PassStage::Finished
                },
                (PassStage::Compiling, _) => {
                    &&& final(self).stage == PassStage::Injecting
                    &&& final(self).next == old(self).next
                    &&& final(self).targets == old(self).targets
                    &&& final(self).report == old(self).report
                    &&& a == PassAction::InjectPage(old(self).next)
                },
                (PassStage::Injecting, PassEvent::Failed(e)) => {
                    &&& final(self).targets == old(self).targets
                    &&& final(self).report.successes@ == old(self).report.successes@
                    &&& final(self).report.failures@ == old(self).report.failures@.push(e)
                    &&& old(self).next + 1 < old(self).targets@.len() ==> a
                        == PassAction::CompilePage((old(self).next + 1) as usize)
                        && final(self).stage == PassStage::Compiling && final(self).next
                        == old(self).next + 1
                    &&& old(self).next + 1 == old(self).targets@.len() ==> a
                        == PassAction::Finish && final(self).stage == PassStage::Finished
                },
                (PassStage::Injecting, _) => {
                    &&& final(self).targets == old(self).targets
                    &&& final(self).report.successes@.len() == old(
                        self,
                    ).report.successes@.len() + 1
                    &&& final(self).report.successes@.last()@ == page_path(
                        old(self).out_dir@,
                        old(self).targets@[old(self).next as int]@,
                    )
                    &&& final(self).report.successes@.drop_last()
                        == old(self).report.successes@
                    &&& final(self).report.failures@ == old(self).report.failures@
                    &&& old(self).next + 1 < old(self).targets@.len() ==> a
                        == PassAction::CompilePage((old(self).next + 1) as usize)
                        && final(self).stage == PassStage::Compiling && final(self).next
                        == old(self).next + 1
                    &&& old(self).next + 1 == old(self).targets@.len() ==> a
                        == PassAction::Finish && final(self).stage == PassStage::Finished
                },
                (s, _) => final(self).stage == s && final(self).report == old(self).report && a
                    == PassAction::Finish,
            },
    {
        match self.stage {
            PassStage::Preparing => match event {
                PassEvent::Failed(e) => {
                    self.report.failures.push(e);
                    self.stage = PassStage::Aborted;
                    PassAction::Finish
                },
                _ => {
                    self.stage = PassStage::CopyingStatic;
                    PassAction::CopyStatic
                },
            },
            PassStage::CopyingStatic => {
                self.stage = PassStage::Discovering;
                PassAction::Discover
            },
            PassStage::Discovering => match event {
                PassEvent::Discovered(srcs) => {
                    self.targets = plan_targets(&srcs, ext);
                    if srcs.len() == 0 {
                        self.stage = PassStage::Finished;
                        PassAction::Finish
                    } else {
                        self.next = 0;
                        self.stage = PassStage::Compiling;
                        PassAction::CompilePage(0)
                    }
                },
                _ => {
                    self.stage = PassStage::Finished;
                    PassAction::Finish
                },
            },
            PassStage::Compiling => match event {
                PassEvent::Failed(e) => {
                    self.report.failures.push(e);
                    self.advance()
                },
                _ => {
                    self.stage = PassStage::Injecting;
                    PassAction::InjectPage(self.next)
                },
            },
            PassStage::Injecting => match event {
                PassEvent::Failed(e) => {
                    self.report.failures.push(e);
                    self.advance()
                },
                _ => {
                    let page = self.page_output(self.next);
                    self.report.record(page, Ok(()));
                    self.advance()
                },
            },
            PassStage::Finished | PassStage::Aborted => PassAction::Finish,
        }
    }

    /// The report of the pass, once it is over.
    pub fn into_report(self) -> (r: BuildReport)
        ensures
            r == self.report,
    {
        self.report
    }
}

/// Every discovered source is reported exactly once: a pass that prepared its
/// output directory and ran to the end holds as many successes and failures
/// together as it planned pages, one page per discovered source.
pub proof fn lemma_finished_pass_reports_every_page(p: BuildPass)
    requires
        p.wf(),
        p.stage == PassStage::Finished,
    ensures
        p.report.successes@.len() + p.report.failures@.len() == p.targets@.len(),
{
}

} // verus!
