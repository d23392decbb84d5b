//! The per-revision pipeline: compile, then export every theme, then render
//! the page, one revision at a time and in revision order. The driver
//! performs each action and reports back what came of it.
use vstd::prelude::*;

use crate::metadata::views;

verus! {

/// What one theme's export came to.
#[derive(Debug, Clone)]
pub enum ExportOutcome {
    Written,
    Failed(Vec<String>),
}

/// Every export was written.
pub open spec fn all_written(outcomes: Seq<ExportOutcome>) -> bool {
    forall|i: int| 0 <= i < outcomes.len() ==> (#[trigger] outcomes[i]) is Written
}

/// The diagnostics of the failed exports, in job order.
pub open spec fn failure_diagnostics(outcomes: Seq<ExportOutcome>) -> Seq<Seq<char>>
    decreases outcomes.len(),
{
    if outcomes.len() == 0 {
        Seq::empty()
    } else {
        let rest = failure_diagnostics(outcomes.drop_last());
        match outcomes.last() {
            ExportOutcome::Written => rest,
            ExportOutcome::Failed(d) => rest + views(d@),
        }
    }
}

/// Folds the exports of one revision into one result: success when every
/// job succeeded, else the diagnostics of all the failed ones.
pub fn combine_exports(outcomes: &Vec<ExportOutcome>) -> (r: Result<(), Vec<String>>)
    ensures
        r is Ok <==> all_written(outcomes@),
        r matches Err(d) ==> views(d@) == failure_diagnostics(outcomes@),
{
    let mut diags: Vec<String> = Vec::new();
    let mut ok = true;
    let mut i: usize = 0;
    while i < outcomes.len()
        invariant
            i <= outcomes@.len(),
            ok <==> all_written(outcomes@.take(i as int)),
            views(diags@) == failure_diagnostics(outcomes@.take(i as int)),
        decreases outcomes@.len() - i,
    {
        let ghost before = diags@;
        proof {
            assert(outcomes@.take(i as int + 1).drop_last() =~= outcomes@.take(i as int));
        }
        match &outcomes[i] {
            ExportOutcome::Written => {},
            ExportOutcome::Failed(d) => {
                ok = false;
                let mut j: usize = 0;
                while j < d.len()
                    invariant
                        j <= d@.len(),
                        diags@.len() == before.len() + j,
                        forall|k: int| 0 <= k < before.len() ==> (#[trigger] diags@[k]) == before[k],
                        forall|k: int| 0 <= k < j ==> (#[trigger] diags@[before.len() + k])@ == d@[k]@,
                    decreases d@.len() - j,
                {
                    diags.push(d[j].clone());
                    j += 1;
                }
                let ghost want = views(before) + views(d@);
                assert forall|k: int| 0 <= k < diags@.len() implies views(diags@)[k] == want[k] by {
                    if k >= before.len() {
                        assert(diags@[before.len() + (k - before.len())] == diags@[k]);
                    }
                }
                assert(views(diags@) =~= want);
            },
        }
        i += 1;
    }
    assert(outcomes@.take(outcomes@.len() as int) =~= outcomes@);
    if ok {
        Ok(())
    } else {
        Err(diags)
    }
}

/// Where the current revision stands.
#[derive(Debug, Clone, Copy, PartialEq, Eq, Structural)]
pub enum Phase {
    Idle,
    Compiling(u64),
    Exporting(u64),
    Rendering(u64),
}

/// What the driver is to do next.
#[derive(Debug, Clone)]
pub enum Action {
    /// Nothing: wait for the next event.
    Wait,
    /// Run every theme's export on the compiled document.
    Export,
    /// Extract the metadata, render the page and write it.
    Render,
    /// Report these diagnostics; the revision is over.
    Report(Vec<String>),
}

/// The state of the pipeline across revisions.
#[derive(Debug, Clone, Copy, PartialEq, Eq, Structural)]
pub struct Orchestrator {
    /// The revision under way, and how far it got.
    pub phase: Phase,
    /// The newest revision that was started.
    pub last_revision: Option<u64>,
    /// The revision whose page is on disk.
    pub published: Option<u64>,
}

/// The revision a phase is about, if any.
pub open spec fn phase_revision(p: Phase) -> Option<u64> {
    match p {
        Phase::Idle => None,
        Phase::Compiling(r) => Some(r),
        Phase::Exporting(r) => Some(r),
        Phase::Rendering(r) => Some(r),
    }
}

/// After a revision ends, the pipeline is idle with nothing else changed.
pub open spec fn ended(s: Orchestrator) -> Orchestrator {
    Orchestrator { phase: Phase::Idle, ..s }
}

/// The state after revision `rev` is announced.
pub open spec fn after_begin(s: Orchestrator, rev: u64) -> Orchestrator {
    if s.phase == Phase::Idle && (s.last_revision matches Some(l) ==> l < rev) {
        Orchestrator { phase: Phase::Compiling(rev), last_revision: Some(rev), ..s }
    } else {
        s
    }
}

/// The state after revision `rev` compiled, or failed to.
pub open spec fn after_compile(s: Orchestrator, rev: u64, success: bool) -> Orchestrator {
    if s.phase == Phase::Compiling(rev) {
        if success {
            Orchestrator { phase: Phase::Exporting(rev), ..s }
        } else {
            ended(s)
        }
    } else {
        s
    }
}

/// The state after the exports of revision `rev` came back.
pub open spec fn after_export(s: Orchestrator, rev: u64, outcomes: Seq<ExportOutcome>) -> Orchestrator {
    if s.phase == Phase::Exporting(rev) {
        if all_written(outcomes) {
            Orchestrator { phase: Phase::Rendering(rev), ..s }
        } else {
            ended(s)
        }
    } else {
        s
    }
}

/// The state after the page of revision `rev` was written, or failed to be.
pub open spec fn after_render(s: Orchestrator, rev: u64, success: bool) -> Orchestrator {
    if s.phase == Phase::Rendering(rev) {
        if success {
            Orchestrator { phase: Phase::Idle, published: Some(rev), ..s }
        } else {
            ended(s)
        }
    } else {
        s
    }
}

impl Orchestrator {
    /// The phase is about the newest revision started, and the page on disk
    /// is of a revision no newer than that.
    pub open spec fn wf(self) -> bool {
        &&& (phase_revision(self.phase) matches Some(r) ==> self.last_revision == Some(r))
        &&& (self.published matches Some(p) ==> (self.last_revision matches Some(l) && p <= l))
    }

    /// No revision started yet, no page written.
    pub fn new() -> (r: Orchestrator)
        ensures
            r.wf(),
            r.phase == Phase::Idle,
            r.last_revision is None,
            r.published is None,
    {
        Orchestrator { phase: Phase::Idle, last_revision: None, published: None }
    }

    /// Revision `rev` is announced. It is taken up when nothing is under way
    /// and it is newer than every revision before it; the driver then
    /// compiles it.
    pub fn begin(&mut self, rev: u64) -> (accepted: bool)
        requires
            old(self).wf(),
        ensures
            final(self).wf(),
            *final(self) == after_begin(*old(self), rev),
            accepted <==> final(self).phase == Phase::Compiling(rev) && old(self).phase == Phase::Idle,
    {
        let newer = match self.last_revision {
            Some(l) => l < rev,
            None => true,
        };
        if self.phase == Phase::Idle && newer {
            self.phase = Phase::Compiling(rev);
            self.last_revision = Some(rev);
            true
        } else {
            false
        }
    }

    /// Revision `rev` compiled (`diagnostics` empty) or failed. A success
    /// leads to the exports; a failure ends the revision with its
    /// diagnostics. An event about another revision changes nothing.
    pub fn compiled(&mut self, rev: u64, success: bool, diagnostics: Vec<String>) -> (a: Action)
        requires
            old(self).wf(),
        ensures
            final(self).wf(),
            *final(self) == after_compile(*old(self), rev, success),
            old(self).phase == Phase::Compiling(rev) && success ==> a is Export,
            old(self).phase == Phase::Compiling(rev) && !success ==> (a matches Action::Report(d) && views(d@) == views(diagnostics@)),
            old(self).phase != Phase::Compiling(rev) ==> a is Wait,
    {
        if self.phase == Phase::Compiling(rev) {
            if success {
                self.phase = Phase::Exporting(rev);
                Action::Export
            } else {
                self.phase = Phase::Idle;
                Action::Report(diagnostics)
            }
        } else {
            Action::Wait
        }
    }

    /// The exports of revision `rev` came back, one outcome per theme. The
    /// page is rendered if and only if every one of them succeeded; else the
    /// revision ends with the failed exports' diagnostics, and the page on
    /// disk stays the one it was.
    pub fn exported(&mut self, rev: u64, outcomes: &Vec<ExportOutcome>) -> (a: Action)
        requires
            old(self).wf(),
        ensures
            final(self).wf(),
            *final(self) == after_export(*old(self), rev, outcomes@),
            final(self).published == old(self).published,
            old(self).phase == Phase::Exporting(rev) ==> (a is Render <==> all_written(outcomes@)),
            old(self).phase == Phase::Exporting(rev) && !all_written(outcomes@) ==> (a matches Action::Report(d)
                && views(d@) == failure_diagnostics(outcomes@)),
            old(self).phase != Phase::Exporting(rev) ==> a is Wait,
    {
        if self.phase == Phase::Exporting(rev) {
            match combine_exports(outcomes) {
                Ok(()) => {
                    self.phase = Phase::Rendering(rev);
                    Action::Render
                },
                Err(d) => {
                    self.phase = Phase::Idle;
                    Action::Report(d)
                },
            }
        } else {
            Action::Wait
        }
    }

    /// The page of revision `rev` was written, or failed with `error`, which
    /// is then reported. Either way the revision ends; only a success makes
    /// it the published one.
    pub fn rendered(&mut self, rev: u64, result: Result<(), String>) -> (a: Action)
        requires
            old(self).wf(),
        ensures
            final(self).wf(),
            *final(self) == after_render(*old(self), rev, result is Ok),
            old(self).phase == Phase::Rendering(rev) ==> match result {
                Ok(()) => a is Wait,
                Err(e) => (a matches Action::Report(d) && d@.len() == 1 && d@[0]@ == e@),
            },
            old(self).phase != Phase::Rendering(rev) ==> a is Wait,
    {
        if self.phase == Phase::Rendering(rev) {
            self.phase = Phase::Idle;
            match result {
                Ok(()) => {
                    self.published = Some(rev);
                    Action::Wait
                },
                Err(e) => {
                    let mut d: Vec<String> = Vec::new();
                    d.push(e);
                    Action::Report(d)
                },
            }
        } else {
            Action::Wait
        }
    }
}

/// A revision whose exports came back publishes its page if and only if
/// every export succeeded: after a failed one, no render event of any kind
/// changes the published page.
pub proof fn render_only_after_all_exports(
    s: Orchestrator,
    rev: u64,
    outcomes: Seq<ExportOutcome>,
    render_ok: bool,
)
    requires
        s.wf(),
        s.phase == Phase::Exporting(rev),
    ensures
        all_written(outcomes) ==> after_render(after_export(s, rev, outcomes), rev, render_ok).published == (
        if render_ok {
            Some(rev)
        } else {
            s.published
        }),
        !all_written(outcomes) ==> forall|r: u64, ok: bool|
            #[trigger] after_render(after_export(s, rev, outcomes), r, ok).published == s.published,
{
}

/// Pages are written in revision order: a revision that is taken up is
/// newer than every one before it, and so newer than the page on disk.
pub proof fn revisions_in_order(s: Orchestrator, rev: u64)
    requires
        s.wf(),
        after_begin(s, rev).phase == Phase::Compiling(rev),
        s.phase == Phase::Idle,
    ensures
        s.last_revision matches Some(l) ==> l < rev,
        s.published matches Some(p) ==> p < rev,
{
}

} // verus!
