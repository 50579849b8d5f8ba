use cargo_dub::dispatch::{execute_command, propagate, ChildOutcome, Termination};
use cargo_dub::error::{DubError, StartFailure};
use cargo_dub::invocation::Stream;
use cargo_dub::options::Format;
use cargo_dub::resolve::{probe_command, DubExecutable, ResolveStep};
use std::io::ErrorKind;

const FAILED: ChildOutcome = ChildOutcome::Exited(Some(1));
const LIVE: ChildOutcome = ChildOutcome::Exited(Some(0));

fn names(items: &[&str]) -> Vec<String> {
    items.iter().map(|s| s.to_string()).collect()
}

#[test]
fn candidates_follow_the_platform() {
    assert_eq!(DubExecutable::candidates(true), vec!["dub.exe", "dub"]);
    assert_eq!(DubExecutable::candidates(false), vec!["dub"]);
}

#[test]
fn probe_asks_for_the_version_and_discards_output() {
    let cmd = probe_command("dub");
    assert_eq!(cmd.program, "dub");
    assert_eq!(cmd.get_args(), vec!["--version"]);
    assert_eq!(cmd.stdin, Stream::Inherit);
    assert_eq!(cmd.stdout, Stream::Null);
    assert_eq!(cmd.stderr, Stream::Null);
}

#[test]
fn resolution_tries_candidates_in_order() {
    assert_eq!(DubExecutable::new(true, &vec![]), ResolveStep::Probe(probe_command("dub.exe")));
    assert_eq!(
        DubExecutable::new(true, &vec![FAILED]),
        ResolveStep::Probe(probe_command("dub"))
    );
    assert_eq!(DubExecutable::new(false, &vec![]), ResolveStep::Probe(probe_command("dub")));
}

#[test]
fn resolution_returns_the_first_live_candidate() {
    let found = |path: &str, candidates: &[&str]| {
        ResolveStep::Done(Ok(DubExecutable {
            path: path.to_string(),
            candidates: names(candidates),
        }))
    };
    assert_eq!(DubExecutable::new(true, &vec![LIVE]), found("dub.exe", &["dub.exe", "dub"]));
    assert_eq!(DubExecutable::new(true, &vec![LIVE, LIVE]), found("dub.exe", &["dub.exe", "dub"]));
    assert_eq!(DubExecutable::new(true, &vec![FAILED, LIVE]), found("dub", &["dub.exe", "dub"]));
    assert_eq!(DubExecutable::new(false, &vec![LIVE]), found("dub", &["dub"]));

    let candidates = names(&["a", "b", "c", "d"]);
    assert_eq!(
        DubExecutable::resolve(&candidates, &vec![FAILED, FAILED, LIVE, LIVE]),
        found("c", &["a", "b", "c", "d"])
    );
    assert_eq!(
        DubExecutable::resolve(&candidates, &vec![FAILED, FAILED]),
        ResolveStep::Probe(probe_command("c"))
    );
}

#[test]
fn resolution_fails_when_every_probe_fails() {
    let not_found = ResolveStep::Done(Err(DubError::Resolution));
    assert_eq!(DubExecutable::new(true, &vec![FAILED, FAILED]), not_found);
    assert_eq!(DubExecutable::new(false, &vec![FAILED]), not_found);
    assert_eq!(DubExecutable::resolve(&vec![], &vec![]), not_found);

    let message = DubError::Resolution.message();
    assert_eq!(message, "dub executable not found. Install DUB from https://dub.pm");
    assert!(message.contains("https://dub.pm"));
}

#[test]
fn only_a_zero_exit_counts_as_live() {
    assert!(LIVE.succeeded());
    for outcome in [
        ChildOutcome::Exited(Some(1)),
        ChildOutcome::Exited(Some(-1)),
        ChildOutcome::Exited(Some(2)),
        ChildOutcome::Exited(None),
        ChildOutcome::NotStarted(StartFailure::NotFound),
        ChildOutcome::NotStarted(StartFailure::PermissionDenied),
        ChildOutcome::NotStarted(StartFailure::WouldBlock),
        ChildOutcome::NotStarted(StartFailure::Other),
    ] {
        assert!(!outcome.succeeded());
        assert_eq!(
            DubExecutable::new(false, &vec![outcome]),
            ResolveStep::Done(Err(DubError::Resolution))
        );
    }
}

#[test]
fn outcomes_beyond_the_candidates_are_ignored() {
    assert_eq!(
        DubExecutable::new(false, &vec![FAILED, LIVE]),
        ResolveStep::Done(Err(DubError::Resolution))
    );
}

#[test]
fn a_search_driven_to_its_end() {
    let answers = [FAILED, LIVE];
    let mut outcomes: Vec<ChildOutcome> = vec![];
    let mut probed: Vec<String> = vec![];
    let dub = loop {
        match DubExecutable::new(true, &outcomes) {
            ResolveStep::Probe(cmd) => {
                probed.push(cmd.program);
                outcomes.push(answers[outcomes.len()]);
            }
            ResolveStep::Done(result) => break result,
        }
    };
    assert_eq!(probed, vec!["dub.exe", "dub"]);
    assert_eq!(dub.unwrap().path, "dub");
}

#[test]
fn known_executable_is_its_own_candidate() {
    let dub = DubExecutable::at("dub");
    assert_eq!(dub.path, "dub");
    assert_eq!(dub.candidates, vec!["dub"]);
}

#[test]
fn exit_codes_pass_through() {
    assert_eq!(execute_command(ChildOutcome::Exited(Some(2))), Ok(2));
    assert_eq!(execute_command(ChildOutcome::Exited(Some(0))), Ok(0));
    assert_eq!(execute_command(ChildOutcome::Exited(Some(-7))), Ok(-7));
    assert_eq!(execute_command(ChildOutcome::Exited(Some(i32::MAX))), Ok(i32::MAX));
    assert_eq!(execute_command(ChildOutcome::Exited(Some(i32::MIN))), Ok(i32::MIN));
    assert_eq!(
        propagate(execute_command(ChildOutcome::Exited(Some(2)))),
        Termination { code: 2, error_line: None }
    );
    assert_eq!(propagate(Ok(0)), Termination { code: 0, error_line: None });
}

#[test]
fn a_child_without_exit_code_counts_as_one() {
    assert_eq!(execute_command(ChildOutcome::Exited(None)), Ok(1));
    assert_eq!(
        propagate(execute_command(ChildOutcome::Exited(None))),
        Termination { code: 1, error_line: None }
    );
}

#[test]
fn start_failures_are_classified_by_error_kind() {
    assert_eq!(
        ChildOutcome::not_started(ErrorKind::NotFound),
        ChildOutcome::NotStarted(StartFailure::NotFound)
    );
    assert_eq!(
        ChildOutcome::not_started(ErrorKind::PermissionDenied),
        ChildOutcome::NotStarted(StartFailure::PermissionDenied)
    );
    assert_eq!(
        ChildOutcome::not_started(ErrorKind::WouldBlock),
        ChildOutcome::NotStarted(StartFailure::WouldBlock)
    );
    for kind in [
        ErrorKind::InvalidInput,
        ErrorKind::Interrupted,
        ErrorKind::OutOfMemory,
        ErrorKind::TimedOut,
        ErrorKind::AlreadyExists,
        ErrorKind::Other,
    ] {
        assert_eq!(
            ChildOutcome::not_started(kind),
            ChildOutcome::NotStarted(StartFailure::Other)
        );
    }
}

#[test]
fn start_failures_have_distinct_messages() {
    let all = [
        (StartFailure::NotFound, "dub executable not found or not accessible"),
        (StartFailure::PermissionDenied, "Permission denied when executing dub"),
        (StartFailure::WouldBlock, "System resources temporarily unavailable"),
        (StartFailure::Other, "Failed to execute dub"),
    ];
    for (failure, text) in all {
        assert_eq!(failure.message(), text);
        assert_eq!(DubError::Start(failure).message(), text);
        assert_eq!(
            execute_command(ChildOutcome::NotStarted(failure)),
            Err(DubError::Start(failure))
        );
    }
    for (i, (a, _)) in all.iter().enumerate() {
        for (j, (b, _)) in all.iter().enumerate() {
            assert_eq!(i == j, a.message() == b.message());
        }
    }
}

#[test]
fn a_missing_executable_ends_with_one_and_says_so() {
    let outcome = ChildOutcome::not_started(ErrorKind::NotFound);
    let end = propagate(execute_command(outcome));
    assert_eq!(end.code, 1);
    assert_eq!(
        end.error_line,
        Some("Error: dub executable not found or not accessible".to_string())
    );

    let denied = propagate(execute_command(ChildOutcome::not_started(ErrorKind::PermissionDenied)));
    assert_eq!(denied.code, 1);
    assert_eq!(denied.error_line, Some("Error: Permission denied when executing dub".to_string()));
    assert_ne!(end.error_line, denied.error_line);
}

#[test]
fn every_failure_ends_with_one_and_one_line() {
    let cases = [
        (DubError::Resolution, "Error: dub executable not found. Install DUB from https://dub.pm"),
        (DubError::MissingSource(Format::Json), "Error: Source file 'dub.sdl' not found"),
        (DubError::MissingSource(Format::Sdl), "Error: Source file 'dub.json' not found"),
        (DubError::Start(StartFailure::WouldBlock), "Error: System resources temporarily unavailable"),
        (DubError::Start(StartFailure::Other), "Error: Failed to execute dub"),
    ];
    for (error, line) in cases {
        assert_eq!(
            propagate(Err(error)),
            Termination { code: 1, error_line: Some(line.to_string()) }
        );
    }
}
