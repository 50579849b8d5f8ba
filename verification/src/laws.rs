//! What holds of the adapter as a whole, proved from the definitions that
//! the contracts of its functions use.

use crate::dispatch::{dispatch_result, termination, ChildOutcome, TerminationView};
use crate::encode::{
    dub_args, effective_compiler, list_flags, plan, request_tokens, scalar_flags, switch_flags,
};
use crate::error::{DubError, StartFailure};
use crate::invocation::{
    flag, optional_flag, optional_repeated_flag, optional_token, switch, ToolInvocationView,
};
use crate::options::{DubOptionsView, Format};
use crate::request::{DubCommandsView, HostView};
use crate::resolve::{
    first_success, probe, resolution, tried, DubExecutableView, ResolveStepView,
};
use vstd::prelude::*;

verus! {

/// The number of tokens that an optional value contributes.
pub open spec fn present(value: Option<Seq<char>>) -> nat {
    if value is Some {
        1
    } else {
        0
    }
}

/// The number of tokens that a switch contributes.
pub open spec fn raised(on: bool) -> nat {
    if on {
        1
    } else {
        0
    }
}

/// Encoding is deterministic: two encodings of the same options, with the
/// same fallback and on top of the same tokens, are the same invocation.
pub proof fn lemma_encoding_deterministic(
    start: ToolInvocationView,
    opts: DubOptionsView,
    dc: Option<Seq<char>>,
    first: ToolInvocationView,
    second: ToolInvocationView,
)
    requires
        first == start.extended(dub_args(opts, dc)),
        second == start.extended(dub_args(opts, dc)),
    ensures
        first == second,
        first.tokens == second.tokens,
{
}

/// Planning is deterministic: the same request on the same host comes to
/// the same invocation or the same failure, token for token.
pub proof fn lemma_plan_deterministic(
    dub: Seq<char>,
    cmd: DubCommandsView,
    host: HostView,
    first: Result<ToolInvocationView, DubError>,
    second: Result<ToolInvocationView, DubError>,
)
    requires
        first == plan(dub, cmd, host),
        second == plan(dub, cmd, host),
    ensures
        first == second,
{
}

/// The three parts of a concatenation can be cut out of it again.
proof fn lemma_three_parts(a: Seq<Seq<char>>, b: Seq<Seq<char>>, c: Seq<Seq<char>>)
    ensures
        (a + b + c).len() == a.len() + b.len() + c.len(),
        (a + b + c).take(a.len() as int) == a,
        (a + b + c).subrange(a.len() as int, (a.len() + b.len()) as int) == b,
        (a + b + c).skip((a.len() + b.len()) as int) == c,
{
    assert((a + b + c).take(a.len() as int) =~= a);
    assert((a + b + c).subrange(a.len() as int, (a.len() + b.len()) as int) =~= b);
    assert((a + b + c).skip((a.len() + b.len()) as int) =~= c);
}

/// Concatenation is associative.
proof fn lemma_concat_assoc(a: Seq<Seq<char>>, b: Seq<Seq<char>>, c: Seq<Seq<char>>)
    ensures
        (a + b) + c == a + (b + c),
{
    assert((a + b) + c =~= a + (b + c));
}

/// The groups of the encoding come in a fixed order: the scalar flags
/// first, the switches next, the lists last. Each group has one token per
/// scalar that is present, per switch that is set and per list element,
/// and none for what is absent, unset or empty.
pub proof fn lemma_flag_order(opts: DubOptionsView, dc: Option<Seq<char>>)
    ensures
        ({
            let scalars = scalar_flags(opts, dc);
            let switches = switch_flags(opts);
            let lists = list_flags(opts);
            let all = dub_args(opts, dc);
            let s = scalars.len() as int;
            let w = switches.len() as int;
            &&& s == present(effective_compiler(opts, dc)) + present(opts.build) + present(
                opts.config,
            ) + present(opts.arch)
            &&& w == raised(opts.rdmd) + raised(opts.temp_build) + raised(opts.force) + raised(
                opts.deep,
            ) + raised(opts.nodeps) + raised(opts.yes) + raised(opts.non_interactive)
            &&& lists.len() == opts.d_versions.len() + opts.debug.len()
                + opts.override_config.len()
            &&& all.len() == s + w + lists.len()
            &&& all.take(s) == scalars
            &&& all.subrange(s, s + w) == switches
            &&& all.skip(s + w) == lists
        }),
{
    lemma_three_parts(scalar_flags(opts, dc), switch_flags(opts), list_flags(opts));
}

/// Options that give nothing, on a host that names no compiler, encode to
/// no token at all.
pub proof fn lemma_empty_options_emit_nothing()
    ensures
        dub_args(DubOptionsView::empty(), None) == Seq::<Seq<char>>::empty(),
{
    assert(dub_args(DubOptionsView::empty(), None) =~= Seq::<Seq<char>>::empty());
}

/// Explicit beats implicit: where the options name a compiler, the first
/// token names that compiler and the fallback changes nothing.
pub proof fn lemma_explicit_compiler_wins(
    opts: DubOptionsView,
    dc: Option<Seq<char>>,
    compiler: Seq<char>,
)
    requires
        opts.compiler == Some(compiler),
    ensures
        dub_args(opts, dc)[0] == flag("--compiler="@, compiler),
        dub_args(opts, dc) == dub_args(opts, None),
{
}

/// Where the options name no compiler and the host does, the first token
/// names the host's compiler, and the rest is what the options alone
/// encode to.
pub proof fn lemma_fallback_compiler_leads(
    opts: DubOptionsView,
    dc: Option<Seq<char>>,
    compiler: Seq<char>,
)
    requires
        opts.compiler is None,
        dc == Some(compiler),
    ensures
        dub_args(opts, dc)[0] == flag("--compiler="@, compiler),
        dub_args(opts, dc) == seq![flag("--compiler="@, compiler)] + dub_args(opts, None),
{
    let head = seq![flag("--compiler="@, compiler)];
    let scalars = scalar_flags(opts, None);
    assert(scalar_flags(opts, dc) == head + scalars) by {
        let build = optional_flag("--build="@, opts.build);
        let config = optional_flag("--config="@, opts.config);
        let arch = optional_flag("--arch="@, opts.arch);
        let none = Seq::<Seq<char>>::empty();
        assert(none + build =~= build);
        lemma_concat_assoc(head, build, config);
        lemma_concat_assoc(head, build + config, arch);
    }
    lemma_concat_assoc(head, scalars, switch_flags(opts));
    lemma_concat_assoc(head, scalars + switch_flags(opts), list_flags(opts));
}

/// What is appended last can be cut off the end again.
proof fn lemma_tail(a: Seq<Seq<char>>, b: Seq<Seq<char>>)
    ensures
        (a + b).len() == a.len() + b.len(),
        (a + b).skip((a + b).len() - b.len()) == b,
        a.len() > 0 ==> (a + b)[0] == a[0],
{
    assert((a + b).skip((a + b).len() - b.len()) =~= b);
}

/// Every request of a modelled subcommand starts with the subcommand's
/// name, and every request that carries build options ends with their
/// encoding: what is particular to the subcommand stands between the two.
pub proof fn lemma_request_shape(cmd: DubCommandsView, dc: Option<Seq<char>>)
    ensures
        cmd.subcommand() matches Some(name) ==> request_tokens(cmd, dc).len() > 0
            && request_tokens(cmd, dc)[0] == name,
        cmd.options() matches Some(opts) ==> ({
            let all = request_tokens(cmd, dc);
            let tail = dub_args(opts, dc);
            &&& tail.len() <= all.len()
            &&& all.skip(all.len() - tail.len()) == tail
        }),
{
    match cmd {
        DubCommandsView::Run(opts) => {
            lemma_tail(seq!["run"@], dub_args(opts, dc));
        },
        DubCommandsView::Build(opts) => {
            lemma_tail(seq!["build"@], dub_args(opts, dc));
        },
        DubCommandsView::Convert { format } => {},
        DubCommandsView::Raw { args } => {},
        DubCommandsView::Describe(opts) => {
            let head = seq!["describe"@] + optional_repeated_flag("--data="@, opts.data) + switch(
                "--data-list"@,
                opts.data_list,
            );
            lemma_tail(head, dub_args(opts.options, dc));
        },
        DubCommandsView::Add(opts) => {
            lemma_tail(seq!["add"@] + opts.packages, dub_args(opts.options, dc));
        },
        DubCommandsView::Remove(opts) => {
            lemma_tail(seq!["remove"@] + opts.packages, dub_args(opts.options, dc));
        },
        DubCommandsView::Fetch(opts) => {
            let head = seq!["fetch"@, opts.package] + optional_flag("--cache="@, opts.cache);
            lemma_tail(head, dub_args(opts.options, dc));
        },
        DubCommandsView::Init(opts) => {
            let head = seq!["init"@] + optional_token(opts.directory) + opts.dependencies + seq![
                flag("--type="@, opts.project_type.spec_name()),
            ] + switch("--non-interactive"@, opts.non_interactive);
            lemma_tail(head, dub_args(opts.options, dc));
        },
        DubCommandsView::Clean(opts) => {
            let head = seq!["clean"@] + optional_token(opts.package) + switch(
                "--all-packages"@,
                opts.all_packages,
            );
            lemma_tail(head, dub_args(opts.options, dc));
        },
        DubCommandsView::Lint(opts) => {
            let head = seq!["lint"@] + optional_token(opts.package) + switch(
                "--syntax-check"@,
                opts.syntax_check,
            ) + switch("--style-check"@, opts.style_check) + optional_flag(
                "--error-format="@,
                opts.error_format,
            ) + switch("--report"@, opts.report) + optional_flag(
                "--report-format="@,
                opts.report_format,
            ) + optional_flag("--report-file="@, opts.report_file) + optional_repeated_flag(
                "--import-paths="@,
                opts.import_paths,
            ) + optional_flag("--dscanner-config="@, opts.dscanner_config);
            lemma_tail(head, dub_args(opts.options, dc));
        },
    }
}

/// A raw request forwards its tokens as they are: the same tokens, in the
/// same order, with none added in front or behind, whatever the host.
pub proof fn lemma_raw_forwards_verbatim(dub: Seq<char>, args: Seq<Seq<char>>, host: HostView)
    ensures
        request_tokens(DubCommandsView::Raw { args }, host.dc) == args,
        plan(dub, DubCommandsView::Raw { args }, host) matches Ok(cmd) && cmd.tokens == args,
{
    assert(Seq::<Seq<char>>::empty() + args =~= args);
}

/// Only a conversion can fail to be planned, and it fails exactly when the
/// manifest it reads is missing; the failure names the format, and with it
/// the file.
pub proof fn lemma_only_conversion_needs_source(
    dub: Seq<char>,
    cmd: DubCommandsView,
    host: HostView,
)
    ensures
        plan(dub, cmd, host) is Err <==> cmd is Convert && !host.source_exists,
        plan(dub, cmd, host) matches Err(e) ==> e == DubError::MissingSource(cmd->format),
{
}

/// Every planned invocation runs the resolved executable and shares all
/// three of its streams with the adapter's own process.
pub proof fn lemma_planned_invocation_is_transparent(
    dub: Seq<char>,
    cmd: DubCommandsView,
    host: HostView,
)
    ensures
        plan(dub, cmd, host) matches Ok(planned) ==> planned.program == dub
            && planned.transparent(),
{
}

/// The index that `first_success` gives is that of a success that no
/// success precedes; it gives none exactly when there is no success.
pub proof fn lemma_first_success(outcomes: Seq<ChildOutcome>, limit: int)
    ensures
        match first_success(outcomes, limit) {
            Some(i) => {
                &&& 0 <= i < limit
                &&& outcomes[i].succeeded()
                &&& forall|j: int| 0 <= j < i ==> !(#[trigger] outcomes[j]).succeeded()
            },
            None => forall|j: int| 0 <= j < limit ==> !(#[trigger] outcomes[j]).succeeded(),
        },
    decreases limit,
{
    if limit > 0 {
        lemma_first_success(outcomes, limit - 1);
    }
}

/// The search settles on the first candidate, in the order of trial, whose
/// probe succeeded. While no probe has succeeded it asks for the probe of
/// the next candidate, and it fails only when every candidate has been
/// probed without success.
pub proof fn lemma_resolution_picks_first_success(
    candidates: Seq<Seq<char>>,
    outcomes: Seq<ChildOutcome>,
)
    ensures
        forall|i: int|
            0 <= i < tried(candidates, outcomes) && (#[trigger] outcomes[i]).succeeded() && (forall|
                j: int,
            |
                0 <= j < i ==> !(#[trigger] outcomes[j]).succeeded()) ==> resolution(
                candidates,
                outcomes,
            ) == ResolveStepView::Done(Ok(DubExecutableView { path: candidates[i], candidates })),
        (forall|j: int|
            0 <= j < tried(candidates, outcomes) ==> !(#[trigger] outcomes[j]).succeeded())
            ==> resolution(candidates, outcomes) == if outcomes.len() < candidates.len() {
            ResolveStepView::Probe(probe(candidates[outcomes.len() as int]))
        } else {
            ResolveStepView::Done(Err(DubError::Resolution))
        },
{
    lemma_first_success(outcomes, tried(candidates, outcomes));
}

/// The executable that a search settles on is one of the candidates, its
/// probe succeeded, and it remembers the candidates that were up for
/// trial.
pub proof fn lemma_resolved_is_a_live_candidate(
    candidates: Seq<Seq<char>>,
    outcomes: Seq<ChildOutcome>,
)
    ensures
        resolution(candidates, outcomes) matches ResolveStepView::Done(Ok(dub)) ==> {
            &&& dub.candidates == candidates
            &&& exists|i: int|
                0 <= i < candidates.len() && dub.path == candidates[i] && (
                #[trigger] outcomes[i]).succeeded()
        },
{
    lemma_first_success(outcomes, tried(candidates, outcomes));
}

/// Exit codes pass through unchanged: whatever code the child reports is
/// the code the adapter ends with, and nothing is printed.
pub proof fn lemma_exit_code_transparent(code: i32)
    ensures
        termination(dispatch_result(ChildOutcome::Exited(Some(code)))) == (TerminationView {
            code,
            error_line: None,
        }),
{
}

/// A child that leaves no exit code behind ends the adapter with code 1.
pub proof fn lemma_missing_exit_code_is_one()
    ensures
        termination(dispatch_result(ChildOutcome::Exited(None))).code == 1,
{
}

/// Every failure of the adapter itself ends it with code 1 and one line on
/// the error stream, which holds the failure's message.
pub proof fn lemma_failure_exits_one(e: DubError)
    ensures
        termination(Err(e)) == (TerminationView {
            code: 1i32,
            error_line: Some("Error: "@ + e.spec_message()),
        }),
{
}

/// The four classes of start failure have four different messages.
pub proof fn lemma_start_failure_messages_distinct(a: StartFailure, b: StartFailure)
    requires
        a != b,
    ensures
        a.spec_message() != b.spec_message(),
{
    reveal_strlit("dub executable not found or not accessible");
    reveal_strlit("Permission denied when executing dub");
    reveal_strlit("System resources temporarily unavailable");
    reveal_strlit("Failed to execute dub");
    assert(StartFailure::NotFound.spec_message().len() == 42);
    assert(StartFailure::PermissionDenied.spec_message().len() == 36);
    assert(StartFailure::WouldBlock.spec_message().len() == 40);
    assert(StartFailure::Other.spec_message().len() == 21);
}

/// No two failures of the adapter share a message: what the operator
/// reads tells the failures apart.
pub proof fn lemma_failure_messages_distinct(a: DubError, b: DubError)
    requires
        a != b,
    ensures
        a.spec_message() != b.spec_message(),
{
    reveal_strlit("dub executable not found. Install DUB from https://dub.pm");
    reveal_strlit("Source file '");
    reveal_strlit("' not found");
    reveal_strlit("dub.sdl");
    reveal_strlit("dub.json");
    reveal_strlit("dub executable not found or not accessible");
    reveal_strlit("Permission denied when executing dub");
    reveal_strlit("System resources temporarily unavailable");
    reveal_strlit("Failed to execute dub");
    assert(DubError::Resolution.spec_message().len() == 57);
    assert(DubError::MissingSource(Format::Json).spec_message().len() == 31);
    assert(DubError::MissingSource(Format::Sdl).spec_message().len() == 32);
    assert(DubError::Start(StartFailure::NotFound).spec_message().len() == 42);
    assert(DubError::Start(StartFailure::PermissionDenied).spec_message().len() == 36);
    assert(DubError::Start(StartFailure::WouldBlock).spec_message().len() == 40);
    assert(DubError::Start(StartFailure::Other).spec_message().len() == 21);
}

/// The message of a failed search ends with the address where the tool
/// can be had.
pub proof fn lemma_resolution_message_names_the_source()
    ensures
        DubError::Resolution.spec_message() == "dub executable not found. Install DUB from "@
            + "https://dub.pm"@,
{
    reveal_strlit("dub executable not found. Install DUB from https://dub.pm");
    reveal_strlit("dub executable not found. Install DUB from ");
    reveal_strlit("https://dub.pm");
    assert(DubError::Resolution.spec_message() =~= "dub executable not found. Install DUB from "@
        + "https://dub.pm"@);
}

} // verus!
