//! Test binaries, as the build tool reports them, and the result each run gives.
use vstd::prelude::*;
use crate::check::BuildTarget;
use crate::report::{Test, TestResult};

verus! {

/// The profile an artifact was built with.
#[derive(Clone, Debug, PartialEq, Eq)]
pub struct Profile {
    pub test: bool,
}

/// One `compiler-artifact` record.
#[derive(Clone, Debug, PartialEq, Eq)]
pub struct Artifact {
    pub executable: Option<String>,
    pub profile: Profile,
    pub target: BuildTarget,
    pub package_id: String,
}

/// The tag of the records that announce a built artifact.
pub const COMPILER_ARTIFACT: &'static str = "compiler-artifact";

/// The artifacts built as tests, in their order.
pub open spec fn test_builds(s: Seq<Artifact>) -> Seq<Artifact>
    decreases s.len(),
{
    if s.len() == 0 {
        Seq::empty()
    } else if s.last().profile.test {
        test_builds(s.drop_last()).push(s.last())
    } else {
        test_builds(s.drop_last())
    }
}

/// Keeps the artifacts that were built as tests.
pub fn select_tests(artifacts: Vec<Artifact>) -> (r: Vec<Artifact>)
    ensures
        r@ == test_builds(artifacts@),
{
    let ghost all = artifacts@;
    let mut kept: Vec<Artifact> = Vec::new();
    for a in it: artifacts.into_iter()
        invariant
            it.seq() == all,
            kept@ == test_builds(all.subrange(0, it.index() as int)),
    {
        let ghost i = it.index() as int;
        assert(all.subrange(0, i + 1).drop_last() =~= all.subrange(0, i));
        if a.profile.test {
            kept.push(a);
        }
    }
    assert(all.subrange(0, all.len() as int) =~= all);
    kept
}

/// A test binary passes when it exits with status zero.
pub fn result_of_status(status: i32) -> (r: TestResult)
    ensures
        status == 0 ==> r == TestResult::Pass,
        status != 0 ==> r == TestResult::Fail,
{
    if status == 0 {
        TestResult::Pass
    } else {
        TestResult::Fail
    }
}

/// The result record of a test binary that ran and exited with `status`, named
/// after the package it tests.
pub fn test_record(artifact: &Artifact, status: i32) -> (r: Test)
    ensures
        r.name@ == artifact.package_id@,
        r.result == (if status == 0 { TestResult::Pass } else { TestResult::Fail }),
        r.namespace is None,
        r.duration_ms is None,
        r.details is None,
        r.format is None,
{
    Test {
        name: artifact.package_id.clone(),
        result: result_of_status(status),
        namespace: None,
        duration_ms: None,
        details: None,
        format: None,
    }
}

} // verus!
