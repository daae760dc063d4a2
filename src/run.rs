//! The batch of records a run gathers, its single publication at the end, and
//! the outcome of the whole command.
use vstd::prelude::*;
use crate::report::{Lint, Test, PublishError};
use crate::stream::StreamError;

verus! {

/// Why a command failed.
#[derive(Clone, Debug, PartialEq, Eq)]
pub enum CommandError {
    /// The pipeline ended with a fatal failure.
    Pipeline(StreamError),
    /// The run produced records: findings to act on.
    Findings { lints: usize, tests: usize },
    /// The records could not be published; `earlier` is the pipeline's own
    /// failure, where there was one.
    Publish { cause: PublishError, earlier: Option<StreamError> },
}

/// The records of one run, in the order they were produced.
pub struct Batch {
    lints: Vec<Lint>,
    tests: Vec<Test>,
}

impl View for Batch {
    type V = (Seq<Lint>, Seq<Test>);

    closed spec fn view(&self) -> (Seq<Lint>, Seq<Test>) {
        (self.lints@, self.tests@)
    }
}

/// What is left to do once the pipeline has ended.
#[derive(Debug, PartialEq, Eq)]
pub enum Closing {
    /// Submit these records in one request, then settle with `pipeline`.
    Publish { lints: Vec<Lint>, tests: Vec<Test>, pipeline: Result<(), StreamError> },
    /// Nothing to submit: the command ends with this.
    Done(Result<(), CommandError>),
}

pub open spec fn pipeline_outcome(pipeline: Result<(), StreamError>) -> Result<(), CommandError> {
    match pipeline {
        Ok(()) => Ok(()),
        Err(e) => Err(CommandError::Pipeline(e)),
    }
}

impl Batch {
    pub fn new() -> (r: Batch)
        ensures
            r@.0.len() == 0,
            r@.1.len() == 0,
    {
        Batch { lints: Vec::new(), tests: Vec::new() }
    }

    pub fn add_lint(&mut self, lint: Lint)
        ensures
            final(self)@ == (old(self)@.0.push(lint), old(self)@.1),
    {
        self.lints.push(lint);
    }

    pub fn add_test(&mut self, test: Test)
        ensures
            final(self)@ == (old(self)@.0, old(self)@.1.push(test)),
    {
        self.tests.push(test);
    }

    /// Ends the run once the pipeline is over, however it ended: an empty batch
    /// publishes nothing and the command ends as the pipeline did; any other is
    /// submitted whole, once, whether or not the pipeline failed.
    pub fn close(self, pipeline: Result<(), StreamError>) -> (r: Closing)
        ensures
            self@.0.len() == 0 && self@.1.len() == 0 ==> r == Closing::Done(pipeline_outcome(pipeline)),
            self@.0.len() + self@.1.len() > 0 ==> match r {
                Closing::Publish { lints, tests, pipeline: p } => lints@ == self@.0 && tests@ == self@.1 && p == pipeline,
                Closing::Done(_) => false,
            },
    {
        if self.lints.len() == 0 && self.tests.len() == 0 {
            match pipeline {
                Ok(()) => Closing::Done(Ok(())),
                Err(e) => Closing::Done(Err(CommandError::Pipeline(e))),
            }
        } else {
            Closing::Publish { lints: self.lints, tests: self.tests, pipeline }
        }
    }
}

/// The command's outcome after `lints` lint findings and `tests` test results
/// were submitted (none where the batch was empty): a failed
/// submission comes first and keeps the pipeline's failure beside it; then the
/// pipeline's own failure; then the findings themselves.
pub fn conclude(lints: usize, tests: usize, pipeline: Result<(), StreamError>, published: Result<(), PublishError>) -> (r: Result<(), CommandError>)
    ensures
        match published {
            Err(cause) => r == Err::<(), CommandError>(CommandError::Publish {
                cause,
                earlier: match pipeline {
                    Ok(()) => None,
                    Err(e) => Some(e),
                },
            }),
            Ok(()) => match pipeline {
                Err(e) => r == Err::<(), CommandError>(CommandError::Pipeline(e)),
                Ok(()) => (lints + tests == 0 <==> r is Ok) && (lints + tests > 0 ==> r == Err::<
                    (),
                    CommandError,
                >(CommandError::Findings { lints, tests })),
            },
        },
{
    match published {
        Err(cause) => {
            let earlier = match pipeline {
                Ok(()) => None,
                Err(e) => Some(e),
            };
            Err(CommandError::Publish { cause, earlier })
        },
        Ok(()) => match pipeline {
            Err(e) => Err(CommandError::Pipeline(e)),
            Ok(()) => if lints == 0 && tests == 0 {
                Ok(())
            } else {
                Err(CommandError::Findings { lints, tests })
            },
        },
    }
}

} // verus!
