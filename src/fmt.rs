//! Formatting mismatches, as the formatter reports them, turned into lint findings.
use vstd::prelude::*;
use crate::report::{Lint, Severity};
use crate::text::{marked_lines, push_marked_lines, relative_path, relative_or_whole};

verus! {

/// One place where a file's text differs from its formatted text.
#[derive(Clone, Debug, PartialEq, Eq)]
pub struct Mismatch {
    pub expected: String,
    pub expected_begin_line: u64,
    pub expected_end_line: u64,
    pub original: String,
    pub original_begin_line: u64,
    pub original_end_line: u64,
}

/// The mismatches found in one file.
#[derive(Clone, Debug, PartialEq, Eq)]
pub struct FileMismatches {
    pub name: String,
    pub mismatches: Vec<Mismatch>,
}

pub open spec fn diff_head() -> Seq<char> {
    seq!['`', '`', '`', 'l', 'a', 'n', 'g', '=', 'd', 'i', 'f', 'f', '\n']
}

/// The mismatch as a diff: each original line marked `-`, then each expected
/// line marked `+`, in a fenced block.
pub open spec fn diff_of(m: Mismatch) -> Seq<char> {
    diff_head() + marked_lines('-', m.original@) + marked_lines('+', m.expected@) + seq![
        '`',
        '`',
        '`',
    ]
}

/// `l` is the finding for mismatch `m` in the file at `path`.
pub open spec fn is_mismatch_lint(l: Lint, path: Seq<char>, m: Mismatch) -> bool {
    &&& l.name@ == seq!['f', 'o', 'r', 'm', 'a', 't', ' ', 'm', 'i', 's', 'm', 'a', 't', 'c', 'h']
    &&& l.code@ == seq!['R', 'U', 'S', 'T', 'F', 'M', 'T']
    &&& l.severity == Severity::Error
    &&& l.path@ == path
    &&& l.description is Some && l.description->0@ == diff_of(m)
    &&& l.line == Some(m.original_end_line)
    &&& l.column is None
}

/// The finding for one mismatch in the file at `file`: it points at the last
/// original line of the mismatch.
pub fn make_lint(file: &str, mismatch: &Mismatch) -> (r: Lint)
    ensures
        is_mismatch_lint(r, file@, *mismatch),
{
    let mut description = String::new();
    proof { reveal_strlit("```lang=diff\n"); reveal_strlit("```"); reveal_strlit("format mismatch"); reveal_strlit("RUSTFMT"); }
    description.append("```lang=diff\n");
    push_marked_lines(&mut description, '-', mismatch.original.as_str());
    push_marked_lines(&mut description, '+', mismatch.expected.as_str());
    description.append("```");
    assert(description@ =~= diff_of(*mismatch));
    let name = String::from_str("format mismatch");
    let code = String::from_str("RUSTFMT");
    assert(name@ =~= seq!['f', 'o', 'r', 'm', 'a', 't', ' ', 'm', 'i', 's', 'm', 'a', 't', 'c', 'h']);
    assert(code@ =~= seq!['R', 'U', 'S', 'T', 'F', 'M', 'T']);
    Lint {
        name,
        code,
        severity: Severity::Error,
        path: file.to_owned(),
        description: Some(description),
        line: Some(mismatch.original_end_line),
        column: None,
    }
}

/// The findings for a file, one per mismatch and in their order, each pointing at
/// the file's path made relative to `root`.
pub fn lints_of_file(file: &FileMismatches, root: &str) -> (r: Vec<Lint>)
    ensures
        r@.len() == file.mismatches@.len(),
        forall|i: int|
            0 <= i < r@.len() ==> is_mismatch_lint(
                #[trigger] r@[i],
                relative_or_whole(file.name@, root@),
                file.mismatches@[i],
            ),
{
    let path = relative_path(file.name.as_str(), root);
    let mut lints: Vec<Lint> = Vec::new();
    let mut i: usize = 0;
    while i < file.mismatches.len()
        invariant
            i <= file.mismatches@.len(),
            path@ == relative_or_whole(file.name@, root@),
            lints@.len() == i,
            forall|j: int|
                0 <= j < i ==> is_mismatch_lint(
                    #[trigger] lints@[j],
                    relative_or_whole(file.name@, root@),
                    file.mismatches@[j],
                ),
        decreases file.mismatches@.len() - i,
    {
        let lint = make_lint(path.as_str(), &file.mismatches[i]);
        lints.push(lint);
        i = i + 1;
    }
    lints
}

} // verus!
