//! The records a run reports to Phabricator: lint findings and test
//! results, how a finding reads on the console, and how a submission's reply is
//! judged.
use vstd::prelude::*;
use crate::text::{decimal, push_decimal};

verus! {

/// How grave a lint finding is.
#[derive(Clone, Copy, Debug, PartialEq, Eq, Structural)]
pub enum Severity {
    Advice,
    Autofix,
    Warning,
    Error,
    Disabled,
}

pub open spec fn severity_name(s: Severity) -> Seq<char> {
    match s {
        Severity::Advice => seq!['a', 'd', 'v', 'i', 'c', 'e'],
        Severity::Autofix => seq!['a', 'u', 't', 'o', 'f', 'i', 'x'],
        Severity::Warning => seq!['w', 'a', 'r', 'n', 'i', 'n', 'g'],
        Severity::Error => seq!['e', 'r', 'r', 'o', 'r'],
        Severity::Disabled => seq!['d', 'i', 's', 'a', 'b', 'l', 'e', 'd'],
    }
}

impl Severity {
    /// The lower-case name under which Phabricator knows the severity.
    pub fn as_str(&self) -> (r: &'static str)
        ensures
            r@ == severity_name(*self),
    {
        match self {
            Severity::Advice => {
                proof { reveal_strlit("advice"); }
                "advice"
            },
            Severity::Autofix => {
                proof { reveal_strlit("autofix"); }
                "autofix"
            },
            Severity::Warning => {
                proof { reveal_strlit("warning"); }
                "warning"
            },
            Severity::Error => {
                proof { reveal_strlit("error"); }
                "error"
            },
            Severity::Disabled => {
                proof { reveal_strlit("disabled"); }
                "disabled"
            },
        }
    }
}

/// One lint finding.
#[derive(Clone, Debug, PartialEq, Eq)]
pub struct Lint {
    pub name: String,
    pub code: String,
    pub severity: Severity,
    pub path: String,
    pub description: Option<String>,
    pub line: Option<u64>,
    pub column: Option<u64>,
}

/// Where a finding points: the path, then the line and the column as far as they
/// are known (a column without a line is not shown).
pub open spec fn location(l: Lint) -> Seq<char> {
    match l.line {
        Some(line) => match l.column {
            Some(column) => l.path@ + seq![':'] + decimal(line as nat) + seq![':'] + decimal(
                column as nat,
            ),
            None => l.path@ + seq![':'] + decimal(line as nat),
        },
        None => l.path@,
    }
}

/// How a finding reads on the console.
pub open spec fn rendered(l: Lint) -> Seq<char> {
    severity_name(l.severity) + seq!['['] + l.code@ + seq![']', ':', ' '] + l.name@ + seq![
        '\n',
        ' ',
        ' ',
        ' ',
        '-',
        '-',
        '>',
        ' ',
    ] + location(l) + seq!['\n'] + match l.description {
        Some(d) => d@ + seq!['\n', '\n'],
        None => Seq::empty(),
    }
}

impl Lint {
    /// The console text of the finding; none for a disabled one.
    pub fn report(&self) -> (r: Option<String>)
        ensures
            self.severity == Severity::Disabled ==> r is None,
            self.severity != Severity::Disabled ==> r is Some && r->0@ == rendered(*self),
    {
        if self.severity == Severity::Disabled {
            return None;
        }
        let mut out = String::new();
        out.append(self.severity.as_str());
        proof { reveal_strlit("["); reveal_strlit("]: "); reveal_strlit("\n   --> "); reveal_strlit(":"); reveal_strlit("\n"); reveal_strlit("\n\n"); }
        out.append("[");
        out.append(self.code.as_str());
        out.append("]: ");
        out.append(self.name.as_str());
        out.append("\n   --> ");
        out.append(self.path.as_str());
        match self.line {
            Some(line) => {
                out.append(":");
                push_decimal(&mut out, line);
                match self.column {
                    Some(column) => {
                        out.append(":");
                        push_decimal(&mut out, column);
                    },
                    None => {},
                }
            },
            None => {},
        }
        out.append("\n");
        match &self.description {
            Some(d) => {
                out.append(d.as_str());
                out.append("\n\n");
            },
            None => {},
        }
        assert(out@ =~= rendered(*self));
        Some(out)
    }
}

/// The outcome of one test.
#[derive(Clone, Copy, Debug, PartialEq, Eq, Structural)]
pub enum TestResult {
    Pass,
    Fail,
    Skip,
    Broken,
    Unsound,
}

/// One test result.
#[derive(Clone, Debug, PartialEq, Eq)]
pub struct Test {
    pub name: String,
    pub result: TestResult,
    pub namespace: Option<String>,
    /// How long the test ran, in whole milliseconds.
    pub duration_ms: Option<u64>,
    pub details: Option<String>,
    pub format: Option<String>,
}

/// Why a submission to Phabricator failed.
#[derive(Clone, Debug, PartialEq, Eq)]
pub enum PublishError {
    /// The records could not be encoded.
    EncodeJson { detail: String },
    /// The request could not be sent.
    MakeRequest { detail: String },
    /// The reply came with a status outside the success range.
    ResponseCode { status: u16 },
    /// The reply's body could not be read.
    GetResponseBody { detail: String },
    /// The reply's body is not the expected JSON.
    DecodeResponseJson { detail: String },
    /// Phabricator answered with an error code.
    Api { code: String, info: Option<String> },
}

/// The reply's HTTP status: any status in the 2xx range lets the body be read.
pub fn check_status(status: u16) -> (r: Result<(), PublishError>)
    ensures
        200 <= status <= 299 <==> r is Ok,
        !(200 <= status <= 299) ==> r == Err::<(), PublishError>(PublishError::ResponseCode { status }),
{
    if 200 <= status && status <= 299 {
        Ok(())
    } else {
        Err(PublishError::ResponseCode { status })
    }
}

/// The reply's body: an error code is a failure whatever the status was.
pub fn check_reply(error_code: Option<String>, error_info: Option<String>) -> (r: Result<(), PublishError>)
    ensures
        error_code is None <==> r is Ok,
        match error_code {
            Some(code) => r == Err::<(), PublishError>(PublishError::Api { code, info: error_info }),
            None => true,
        },
{
    match error_code {
        Some(code) => Err(PublishError::Api { code, info: error_info }),
        None => Ok(()),
    }
}

/// What every part of a run shares: where Phabricator is, the build that
/// receives the records, the token that authenticates the submission, and the
/// repository root that paths are made relative to.
#[derive(Clone, Debug, PartialEq, Eq)]
pub struct Context {
    pub phab_uri: String,
    pub build_phid: String,
    pub token: String,
    pub arcconfig: String,
}

pub open spec fn endpoint_path() -> Seq<char> {
    seq!['/', 'a', 'p', 'i', '/'] + seq!['h', 'a', 'r', 'b', 'o', 'r', 'm', 'a', 's', 't', 'e', 'r']
        + seq!['.', 's', 'e', 'n', 'd', 'm', 'e', 's', 's', 'a', 'g', 'e']
}

impl Context {
    /// The address to which a run's records are submitted.
    pub fn endpoint(&self) -> (r: String)
        ensures
            r@ == self.phab_uri@ + endpoint_path(),
    {
        let mut out = self.phab_uri.clone();
        proof { reveal_strlit("/api/harbormaster.sendmessage"); }
        out.append("/api/harbormaster.sendmessage");
        assert(out@ =~= self.phab_uri@ + endpoint_path());
        out
    }
}

} // verus!
