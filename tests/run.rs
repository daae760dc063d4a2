use cargo_phabricator::arcconfig::{next_step, ArcConfigError, Next, Probe};
use cargo_phabricator::check::BuildTarget;
use cargo_phabricator::report::{check_reply, check_status, Context, Lint, PublishError, Severity, TestResult};
use cargo_phabricator::run::{conclude, Batch, Closing, CommandError};
use cargo_phabricator::stream::StreamError;
use cargo_phabricator::unit::{result_of_status, select_tests, test_record, Artifact, Profile, COMPILER_ARTIFACT};

fn lint(name: &str) -> Lint {
    Lint {
        name: name.to_string(),
        code: "RUSTFMT".to_string(),
        severity: Severity::Error,
        path: "a.rs".to_string(),
        description: None,
        line: Some(1),
        column: None,
    }
}

#[test]
fn empty_batch_publishes_nothing() {
    assert_eq!(Batch::new().close(Ok(())), Closing::Done(Ok(())));
    assert_eq!(
        Batch::new().close(Err(StreamError::NonZeroExit { status: 1 })),
        Closing::Done(Err(CommandError::Pipeline(StreamError::NonZeroExit { status: 1 })))
    );
}

#[test]
fn non_empty_batch_is_published_whole_even_after_failure() {
    let mut batch = Batch::new();
    batch.add_lint(lint("one"));
    batch.add_lint(lint("two"));
    let failure = StreamError::NonZeroExit { status: 101 };
    match batch.close(Err(failure.clone())) {
        Closing::Publish { lints, tests, pipeline } => {
            assert_eq!(lints, vec![lint("one"), lint("two")]);
            assert!(tests.is_empty());
            assert_eq!(pipeline, Err(failure));
        }
        other => panic!("expected a publication, got {:?}", other),
    }
}

#[test]
fn outcome_priorities() {
    let failure = StreamError::ReadFailure { detail: "eof".to_string() };
    let refused = PublishError::ResponseCode { status: 500 };
    assert_eq!(
        conclude(2, 0, Err(failure.clone()), Err(refused.clone())),
        Err(CommandError::Publish { cause: refused.clone(), earlier: Some(failure.clone()) })
    );
    assert_eq!(
        conclude(2, 0, Ok(()), Err(refused.clone())),
        Err(CommandError::Publish { cause: refused, earlier: None })
    );
    assert_eq!(conclude(2, 0, Err(failure.clone()), Ok(())), Err(CommandError::Pipeline(failure)));
    assert_eq!(conclude(2, 1, Ok(()), Ok(())), Err(CommandError::Findings { lints: 2, tests: 1 }));
    assert_eq!(conclude(0, 0, Ok(()), Ok(())), Ok(()));
}

#[test]
fn reply_judgement() {
    assert_eq!(check_status(200), Ok(()));
    assert_eq!(check_status(299), Ok(()));
    assert_eq!(check_status(302), Err(PublishError::ResponseCode { status: 302 }));
    assert_eq!(check_status(199), Err(PublishError::ResponseCode { status: 199 }));
    assert_eq!(check_reply(None, Some("ignored".to_string())), Ok(()));
    assert_eq!(
        check_reply(Some("ERR-CONDUIT-CORE".to_string()), Some("bad token".to_string())),
        Err(PublishError::Api {
            code: "ERR-CONDUIT-CORE".to_string(),
            info: Some("bad token".to_string())
        })
    );
}

#[test]
fn endpoint_address() {
    let ctx = Context {
        phab_uri: "https://phab.example.com".to_string(),
        build_phid: "PHID-HMBT-1".to_string(),
        token: "SECRET-REDACTED".to_string(),
        arcconfig: "/repo".to_string(),
    };
    assert_eq!(ctx.endpoint(), "https://phab.example.com/api/harbormaster.sendmessage");
}

fn artifact(id: &str, test: bool, exe: Option<&str>) -> Artifact {
    Artifact {
        executable: exe.map(String::from),
        profile: Profile { test },
        target: BuildTarget { src_path: "/repo/src/lib.rs".to_string() },
        package_id: id.to_string(),
    }
}

#[test]
fn test_artifacts_and_results() {
    let kept = select_tests(vec![
        artifact("a", true, Some("/t/a")),
        artifact("b", false, Some("/t/b")),
        artifact("c", true, None),
    ]);
    assert_eq!(kept, vec![artifact("a", true, Some("/t/a")), artifact("c", true, None)]);
    assert_eq!(result_of_status(0), TestResult::Pass);
    assert_eq!(result_of_status(1), TestResult::Fail);
    let t = test_record(&kept[0], 9);
    assert_eq!(t.name, "a");
    assert_eq!(t.result, TestResult::Fail);
    assert_eq!(COMPILER_ARTIFACT, "compiler-artifact");
    let mut batch = Batch::new();
    batch.add_test(t.clone());
    match batch.close(Ok(())) {
        Closing::Publish { lints, tests, pipeline } => {
            assert!(lints.is_empty());
            assert_eq!(tests, vec![t]);
            assert_eq!(pipeline, Ok(()));
        }
        other => panic!("expected a publication, got {:?}", other),
    }
}

#[test]
fn configuration_search_steps() {
    assert_eq!(next_step(Probe::Missing, true), Next::Ascend);
    assert_eq!(next_step(Probe::Unusable, false), Next::Fail(ArcConfigError::NotFound));
    assert_eq!(
        next_step(Probe::Usable { phab_uri: Some("https://p".to_string()) }, true),
        Next::Found { phab_uri: Some("https://p".to_string()) }
    );
    assert_eq!(
        next_step(Probe::Unopenable { detail: "denied".to_string() }, true),
        Next::Fail(ArcConfigError::Open { detail: "denied".to_string() })
    );
}
