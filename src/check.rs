//! Compiler diagnostics, as the build tool reports them, turned into lint findings.
use vstd::prelude::*;
use crate::report::{Lint, Severity};
use crate::text::{trim, trimmed, relative_path, relative_or_whole};

verus! {

/// The level the compiler gives a diagnostic.
#[derive(Clone, Copy, Debug, PartialEq, Eq, Structural)]
pub enum LintLevel {
    Error,
    Warning,
    Note,
    Help,
    FailureNote,
}

pub open spec fn severity_of(level: LintLevel) -> Severity {
    match level {
        LintLevel::Error => Severity::Error,
        LintLevel::Warning => Severity::Warning,
        LintLevel::Note => Severity::Advice,
        LintLevel::Help => Severity::Advice,
        LintLevel::FailureNote => Severity::Error,
    }
}

impl From<LintLevel> for Severity {
    fn from(level: LintLevel) -> (r: Severity) {
        match level {
            LintLevel::Error => Severity::Error,
            LintLevel::Warning => Severity::Warning,
            LintLevel::Note => Severity::Advice,
            LintLevel::Help => Severity::Advice,
            LintLevel::FailureNote => Severity::Error,
        }
    }
}

impl vstd::std_specs::convert::FromSpecImpl<LintLevel> for Severity {
    open spec fn obeys_from_spec() -> bool {
        true
    }

    open spec fn from_spec(level: LintLevel) -> Severity {
        severity_of(level)
    }
}

/// A stretch of source that a diagnostic points at.
#[derive(Clone, Debug, PartialEq, Eq)]
pub struct Span {
    pub column_start: u64,
    pub line_start: u64,
    pub file_name: String,
    pub is_primary: bool,
}

/// The machine-readable code of a diagnostic.
#[derive(Clone, Debug, PartialEq, Eq)]
pub struct DiagnosticCode {
    pub code: String,
}

#[derive(Clone, Debug, PartialEq, Eq)]
pub struct DiagnosticMessage {
    pub rendered: String,
    pub level: LintLevel,
    pub code: Option<DiagnosticCode>,
    pub spans: Vec<Span>,
    pub message: String,
}

/// The build target a diagnostic came from.
#[derive(Clone, Debug, PartialEq, Eq)]
pub struct BuildTarget {
    pub src_path: String,
}

/// One `compiler-message` record.
#[derive(Clone, Debug, PartialEq, Eq)]
pub struct Diagnostic {
    pub message: DiagnosticMessage,
    pub target: BuildTarget,
}

/// The tag of the records that carry diagnostics.
pub const COMPILER_MESSAGE: &'static str = "compiler-message";

/// `i` is the first primary span.
pub open spec fn is_first_primary(spans: Seq<Span>, i: int) -> bool {
    &&& 0 <= i < spans.len()
    &&& spans[i].is_primary
    &&& forall|j: int| 0 <= j < i ==> !(#[trigger] spans[j]).is_primary
}

pub open spec fn has_primary(spans: Seq<Span>) -> bool {
    exists|i: int| 0 <= i < spans.len() && (#[trigger] spans[i]).is_primary
}

fn first_primary(spans: &Vec<Span>) -> (r: Option<usize>)
    ensures
        match r {
            Some(i) => is_first_primary(spans@, i as int),
            None => !has_primary(spans@),
        },
{
    let mut i: usize = 0;
    while i < spans.len()
        invariant
            i <= spans@.len(),
            forall|j: int| 0 <= j < i ==> !(#[trigger] spans@[j]).is_primary,
        decreases spans@.len() - i,
    {
        if spans[i].is_primary {
            return Some(i);
        }
        i = i + 1;
    }
    None
}

pub open spec fn check_code(code: Seq<char>) -> Seq<char> {
    seq!['C', 'H', 'E', 'C', 'K'] + code
}

/// The rendered diagnostic, trimmed, as a fenced block.
pub open spec fn fenced(rendered: Seq<char>) -> Seq<char> {
    seq!['`', '`', '`', '\n'] + trimmed(rendered) + seq!['\n', '`', '`', '`']
}

/// The finding a diagnostic gives: none for one without a code. It points at the
/// first primary span; where there is none, at the target's source file, made
/// relative to `root`, with no line or column.
pub fn lint_from_diagnostic(d: &Diagnostic, root: &str) -> (r: Option<Lint>)
    ensures
        d.message.code is None <==> r is None,
        match (r, d.message.code) {
            (Some(l), Some(c)) => {
                &&& l.name@ == d.message.message@
                &&& l.code@ == check_code(c.code@)
                &&& l.severity == severity_of(d.message.level)
                &&& l.description is Some && l.description->0@ == fenced(d.message.rendered@)
                &&& has_primary(d.message.spans@) ==> exists|i: int|
                    is_first_primary(d.message.spans@, i) && l.line == Some(
                        d.message.spans@[i].line_start,
                    ) && l.column == Some(d.message.spans@[i].column_start)
                        && l.path@ == d.message.spans@[i].file_name@
                &&& !has_primary(d.message.spans@) ==> l.line is None && l.column is None
                    && l.path@ == relative_or_whole(d.target.src_path@, root@)
            },
            _ => true,
        },
{
    let code = match &d.message.code {
        Some(c) => c,
        None => return None,
    };
    let mut code_text = String::new();
    proof { reveal_strlit("CHECK"); reveal_strlit("```\n"); reveal_strlit("\n```"); }
    code_text.append("CHECK");
    code_text.append(code.code.as_str());
    let mut description = String::new();
    description.append("```\n");
    let body = trim(d.message.rendered.as_str());
    description.append(body.as_str());
    description.append("\n```");
    assert(code_text@ =~= check_code(code.code@));
    assert(description@ =~= fenced(d.message.rendered@));
    let severity = Severity::from(d.message.level);
    match first_primary(&d.message.spans) {
        Some(i) => {
            let span = &d.message.spans[i];
            Some(Lint {
                name: d.message.message.clone(),
                code: code_text,
                severity,
                path: span.file_name.clone(),
                description: Some(description),
                line: Some(span.line_start),
                column: Some(span.column_start),
            })
        },
        None => Some(Lint {
            name: d.message.message.clone(),
            code: code_text,
            severity,
            path: relative_path(d.target.src_path.as_str(), root),
            description: Some(description),
            line: None,
            column: None,
        }),
    }
}

} // verus!
