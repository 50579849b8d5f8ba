//! Finding the executable of the underlying tool: which candidates to try,
//! in which order, and what to conclude from the probes.

use crate::dispatch::ChildOutcome;
use crate::error::DubError;
use crate::invocation::{copy_tokens, Stream, ToolInvocation, ToolInvocationView};
use vstd::prelude::*;
use vstd::string::*;

verus! {

/// The name under which the underlying tool was found to run, with the
/// candidates that were up for trial.
#[derive(Clone, Debug, PartialEq, Eq)]
pub struct DubExecutable {
    pub path: String,
    pub candidates: Vec<String>,
}

/// The mathematical model of [`DubExecutable`].
pub struct DubExecutableView {
    pub path: Seq<char>,
    pub candidates: Seq<Seq<char>>,
}

impl View for DubExecutable {
    type V = DubExecutableView;

    open spec fn view(&self) -> DubExecutableView {
        DubExecutableView { path: self.path@, candidates: self.candidates.deep_view() }
    }
}

/// What to do next in the search for the executable.
#[derive(Debug, PartialEq, Eq)]
pub enum ResolveStep {
    /// Run this probe and report how it ended.
    Probe(ToolInvocation),
    /// The search is over.
    Done(Result<DubExecutable, DubError>),
}

/// The mathematical model of [`ResolveStep`].
pub enum ResolveStepView {
    Probe(ToolInvocationView),
    Done(Result<DubExecutableView, DubError>),
}

impl View for ResolveStep {
    type V = ResolveStepView;

    open spec fn view(&self) -> ResolveStepView {
        match self {
            ResolveStep::Probe(cmd) => ResolveStepView::Probe(cmd@),
            ResolveStep::Done(Ok(dub)) => ResolveStepView::Done(Ok(dub@)),
            ResolveStep::Done(Err(e)) => ResolveStepView::Done(Err(*e)),
        }
    }
}

/// The names to try on each platform, in the order of trial: on Windows
/// the name with the `.exe` suffix before the bare one, elsewhere the bare
/// name alone.
pub open spec fn candidate_names(windows: bool) -> Seq<Seq<char>> {
    if windows {
        seq!["dub.exe"@, "dub"@]
    } else {
        seq!["dub"@]
    }
}

/// The liveness probe of a candidate: it is asked for its version, and
/// what it prints is discarded.
pub open spec fn probe(candidate: Seq<char>) -> ToolInvocationView {
    ToolInvocationView {
        program: candidate,
        tokens: seq!["--version"@],
        stdin: Stream::Inherit,
        stdout: Stream::Null,
        stderr: Stream::Null,
    }
}

/// The index of the first of the first `limit` outcomes that is a
/// success, where there is one.
pub open spec fn first_success(outcomes: Seq<ChildOutcome>, limit: int) -> Option<int>
    decreases limit,
{
    if limit <= 0 {
        None
    } else {
        match first_success(outcomes, limit - 1) {
            Some(i) => Some(i),
            None => if outcomes[limit - 1].succeeded() {
                Some(limit - 1)
            } else {
                None
            },
        }
    }
}

/// The number of candidates whose probe has been answered.
pub open spec fn tried(candidates: Seq<Seq<char>>, outcomes: Seq<ChildOutcome>) -> int {
    if outcomes.len() < candidates.len() {
        outcomes.len() as int
    } else {
        candidates.len() as int
    }
}

/// The state of the search after the probes of the first candidates have
/// ended as `outcomes` say: the first candidate whose probe succeeded is
/// the executable; while none has and candidates are left, the next one is
/// to be probed; when none is left, the search has failed.
pub open spec fn resolution(candidates: Seq<Seq<char>>, outcomes: Seq<ChildOutcome>)
    -> ResolveStepView {
    let n = tried(candidates, outcomes);
    match first_success(outcomes, n) {
        Some(i) => ResolveStepView::Done(Ok(DubExecutableView { path: candidates[i], candidates })),
        None => if n < candidates.len() {
            ResolveStepView::Probe(probe(candidates[n]))
        } else {
            ResolveStepView::Done(Err(DubError::Resolution))
        },
    }
}

/// Builds the liveness probe of a candidate.
pub fn probe_command(candidate: &str) -> (cmd: ToolInvocation)
    ensures
        cmd@ == probe(candidate@),
{
    let mut tokens: Vec<String> = Vec::new();
    tokens.push(String::from_str("--version"));
    let cmd = ToolInvocation {
        program: String::from_str(candidate),
        tokens,
        stdin: Stream::Inherit,
        stdout: Stream::Null,
        stderr: Stream::Null,
    };
    assert(cmd@.tokens =~= seq!["--version"@]);
    cmd
}

impl DubExecutable {
    /// An executable known by `path`, for callers that have settled the
    /// question of where the tool lives themselves.
    pub fn at(path: &str) -> (dub: DubExecutable)
        ensures
            dub@ == (DubExecutableView { path: path@, candidates: seq![path@] }),
    {
        let mut candidates: Vec<String> = Vec::new();
        candidates.push(String::from_str(path));
        let dub = DubExecutable { path: String::from_str(path), candidates };
        assert(dub@.candidates =~= seq![path@]);
        dub
    }

    /// The names to try on this kind of platform, in the order of trial.
    pub fn candidates(windows: bool) -> (names: Vec<String>)
        ensures
            names.deep_view() == candidate_names(windows),
    {
        let mut names: Vec<String> = Vec::new();
        if windows {
            names.push(String::from_str("dub.exe"));
        }
        names.push(String::from_str("dub"));
        assert(names.deep_view() =~= candidate_names(windows));
        names
    }

    /// The next step of the search among `candidates`, given how the
    /// probes made so far have ended; `outcomes[i]` is the outcome of the
    /// probe of `candidates[i]`.
    pub fn resolve(candidates: &Vec<String>, outcomes: &Vec<ChildOutcome>) -> (step: ResolveStep)
        ensures
            step@ == resolution(candidates.deep_view(), outcomes@),
    {
        let mut i: usize = 0;
        while i < candidates.len() && i < outcomes.len()
            invariant
                i <= candidates.len(),
                i <= outcomes.len(),
                first_success(outcomes@, i as int) is None,
            decreases candidates.len() - i,
        {
            if outcomes[i].succeeded() {
                assert(first_success(outcomes@, i + 1) == Some(i as int));
                proof {
                    lemma_first_success_stable(
                        outcomes@,
                        i + 1,
                        tried(candidates.deep_view(), outcomes@),
                    );
                }
                return ResolveStep::Done(
                    Ok(
                        DubExecutable {
                            path: candidates[i].clone(),
                            candidates: copy_tokens(candidates),
                        },
                    ),
                );
            }
            i += 1;
        }
        if i < candidates.len() {
            ResolveStep::Probe(probe_command(candidates[i].as_str()))
        } else {
            ResolveStep::Done(Err(DubError::Resolution))
        }
    }

    /// The next step of the search on this kind of platform, given how the
    /// probes made so far have ended.
    pub fn new(windows: bool, outcomes: &Vec<ChildOutcome>) -> (step: ResolveStep)
        ensures
            step@ == resolution(candidate_names(windows), outcomes@),
    {
        let names = DubExecutable::candidates(windows);
        DubExecutable::resolve(&names, outcomes)
    }

    /// A fresh invocation of the executable: no tokens yet, and all three
    /// streams shared with this process.
    pub fn command(&self) -> (cmd: ToolInvocation)
        ensures
            cmd@ == ToolInvocationView::bare(self@.path),
    {
        ToolInvocation::new(self.path.as_str())
    }
}

/// A success found among the first outcomes stays the first success when
/// more outcomes are looked at.
pub proof fn lemma_first_success_stable(outcomes: Seq<ChildOutcome>, limit: int, more: int)
    requires
        first_success(outcomes, limit) is Some,
        limit <= more,
    ensures
        first_success(outcomes, more) == first_success(outcomes, limit),
    decreases more - limit,
{
    if limit < more {
        lemma_first_success_stable(outcomes, limit, more - 1);
    }
}

} // verus!
