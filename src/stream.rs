//! The items a decoded output stream carries, the warning filter that sets the
//! recoverable failures aside, and the exit-status step that ends a process's stream.
use vstd::prelude::*;

verus! {

/// Why an item of the stream is not a record.
#[derive(Clone, Debug, PartialEq, Eq)]
pub enum StreamError {
    /// The output could not be read.
    ReadFailure { detail: String },
    /// A line did not decode; its bytes and the decoder's message are kept for
    /// the warning.
    DecodeFailure { bytes: Vec<u8>, cause: String },
    /// The process could not be started.
    SpawnFailure { detail: String },
    /// The process's exit could not be awaited.
    WaitFailure { detail: String },
    /// The process ended with a status other than zero.
    NonZeroExit { status: i32 },
    /// A value carried the expected reason but did not fit the expected shape;
    /// the decoder's message is kept for the warning.
    UpstreamDecodeFailure { cause: String },
}

/// The failures that are reported as warnings and skipped.
pub open spec fn is_recoverable(e: StreamError) -> bool {
    e is DecodeFailure || e is UpstreamDecodeFailure
}

impl StreamError {
    pub fn is_recoverable(&self) -> (r: bool)
        ensures
            r == is_recoverable(*self),
    {
        match self {
            StreamError::DecodeFailure { .. } => true,
            StreamError::UpstreamDecodeFailure { .. } => true,
            _ => false,
        }
    }
}

/// What the warning filter makes of one item.
#[derive(Clone, Debug, PartialEq, Eq)]
pub enum Screened<T> {
    /// A record, passed on unchanged.
    Pass(T),
    /// A recoverable failure: reported, then dropped.
    Warn(StreamError),
    /// A fatal failure: passed on, and the stream ends with it.
    Fatal(StreamError),
}

pub open spec fn is_warning<T>(item: Result<T, StreamError>) -> bool {
    match item {
        Ok(_) => false,
        Err(e) => is_recoverable(e),
    }
}

pub open spec fn screened<T>(item: Result<T, StreamError>) -> Screened<T> {
    match item {
        Ok(t) => Screened::Pass(t),
        Err(e) => if is_recoverable(e) {
            Screened::Warn(e)
        } else {
            Screened::Fatal(e)
        },
    }
}

/// The warning filter, one item at a time.
pub fn screen<T>(item: Result<T, StreamError>) -> (r: Screened<T>)
    ensures
        r == screened(item),
{
    match item {
        Ok(t) => Screened::Pass(t),
        Err(e) => if e.is_recoverable() {
            Screened::Warn(e)
        } else {
            Screened::Fatal(e)
        },
    }
}

/// The items that the warning filter lets through, in their order.
pub open spec fn passed<T>(s: Seq<Result<T, StreamError>>) -> Seq<Result<T, StreamError>>
    decreases s.len(),
{
    if s.len() == 0 {
        Seq::empty()
    } else if is_warning(s.last()) {
        passed(s.drop_last())
    } else {
        passed(s.drop_last()).push(s.last())
    }
}

/// The failures that the warning filter reports, in their order.
pub open spec fn warned<T>(s: Seq<Result<T, StreamError>>) -> Seq<StreamError>
    decreases s.len(),
{
    if s.len() == 0 {
        Seq::empty()
    } else {
        match s.last() {
            Err(e) => if is_recoverable(e) {
                warned(s.drop_last()).push(e)
            } else {
                warned(s.drop_last())
            },
            Ok(_) => warned(s.drop_last()),
        }
    }
}

/// The warning filter over a whole sequence: the items it passes on, and the
/// failures it reports instead.
pub fn filter_warnings<T>(items: Vec<Result<T, StreamError>>) -> (r: (
    Vec<Result<T, StreamError>>,
    Vec<StreamError>,
))
    ensures
        r.0@ == passed(items@),
        r.1@ == warned(items@),
{
    let ghost all = items@;
    let mut kept: Vec<Result<T, StreamError>> = Vec::new();
    let mut warnings: Vec<StreamError> = Vec::new();
    for item in it: items.into_iter()
        invariant
            it.seq() == all,
            kept@ == passed(all.subrange(0, it.index() as int)),
            warnings@ == warned(all.subrange(0, it.index() as int)),
    {
        let ghost i = it.index() as int;
        assert(all.subrange(0, i + 1).drop_last() =~= all.subrange(0, i));
        match screen(item) {
            Screened::Pass(t) => kept.push(Ok(t)),
            Screened::Warn(e) => warnings.push(e),
            Screened::Fatal(e) => kept.push(Err(e)),
        }
    }
    assert(all.subrange(0, all.len() as int) =~= all);
    (kept, warnings)
}

/// The stream of one process: its output items, then, where it exited with a
/// status other than zero, that failure as the last item.
pub open spec fn with_exit<T>(items: Seq<Result<T, StreamError>>, status: i32) -> Seq<
    Result<T, StreamError>,
> {
    if status == 0 {
        items
    } else {
        items.push(Err(StreamError::NonZeroExit { status }))
    }
}

/// The item that closes a process's stream once its output is drained and its
/// exit status is known: none for a zero status.
pub fn exit_item<T>(status: i32) -> (r: Option<Result<T, StreamError>>)
    ensures
        status == 0 ==> r is None,
        status != 0 ==> r == Some(Err::<T, StreamError>(StreamError::NonZeroExit { status })),
{
    if status == 0 {
        None
    } else {
        Some(Err(StreamError::NonZeroExit { status }))
    }
}

/// How many items of `s` are records.
pub open spec fn ok_count<T>(s: Seq<Result<T, StreamError>>) -> nat
    decreases s.len(),
{
    if s.len() == 0 {
        0
    } else {
        ok_count(s.drop_last()) + if s.last() is Ok {
            1nat
        } else {
            0nat
        }
    }
}

/// A stream of records only goes through the warning filter whole and in order,
/// and gives no warning.
pub proof fn lemma_records_pass<T>(s: Seq<Result<T, StreamError>>)
    requires
        forall|i: int| 0 <= i < s.len() ==> (#[trigger] s[i]) is Ok,
    ensures
        passed(s) == s,
        warned(s).len() == 0,
    decreases s.len(),
{
    if s.len() > 0 {
        let p = s.drop_last();
        assert forall|i: int| 0 <= i < p.len() implies (#[trigger] p[i]) is Ok by {
            assert(p[i] == s[i]);
        }
        lemma_records_pass(p);
        assert(s.last() is Ok);
        assert(p.push(s.last()) =~= s);
    }
}

/// Where every item is a record or a recoverable failure, the warning filter
/// passes on exactly the records and reports exactly the failures: it lets no
/// error through, so the stream goes on to its end.
pub proof fn lemma_warnings_counted<T>(s: Seq<Result<T, StreamError>>)
    requires
        forall|i: int| 0 <= i < s.len() ==> (#[trigger] s[i]) is Ok || is_warning(s[i]),
    ensures
        passed(s).len() == ok_count(s),
        warned(s).len() + ok_count(s) == s.len(),
        forall|i: int| 0 <= i < passed(s).len() ==> (#[trigger] passed(s)[i]) is Ok,
    decreases s.len(),
{
    if s.len() > 0 {
        let p = s.drop_last();
        assert forall|i: int| 0 <= i < p.len() implies (#[trigger] p[i]) is Ok || is_warning(
            p[i],
        ) by {
            assert(p[i] == s[i]);
        }
        lemma_warnings_counted(p);
        assert(s[s.len() - 1] is Ok || is_warning(s[s.len() - 1]));
        if s.last() is Ok {
            assert forall|i: int| 0 <= i < passed(s).len() implies (#[trigger] passed(s)[i]) is Ok by {
                if i < passed(p).len() {
                    assert(passed(s)[i] == passed(p)[i]);
                }
            }
        }
    }
}

/// A process that exits with a status other than zero after `items`, all of them
/// records: the consumer sees those records in order, then the one fatal failure,
/// and nothing after it.
pub proof fn lemma_exit_failure_last<T>(items: Seq<Result<T, StreamError>>, status: i32)
    requires
        status != 0,
        forall|i: int| 0 <= i < items.len() ==> (#[trigger] items[i]) is Ok,
    ensures
        passed(with_exit(items, status)) == items.push(
            Err(StreamError::NonZeroExit { status }),
        ),
        warned(with_exit(items, status)).len() == 0,
{
    lemma_records_pass(items);
    let s = with_exit(items, status);
    assert(s.drop_last() =~= items);
}

/// What the warning filter passes on from a leading part of a stream leads what
/// it passes on from the whole stream.
pub proof fn lemma_passed_prefix<T>(s: Seq<Result<T, StreamError>>, k: int)
    requires
        0 <= k <= s.len(),
    ensures
        passed(s.subrange(0, k)).len() <= passed(s).len(),
        passed(s).subrange(0, passed(s.subrange(0, k)).len() as int) == passed(s.subrange(0, k)),
    decreases s.len(),
{
    if k == s.len() {
        assert(s.subrange(0, k) =~= s);
        assert(passed(s).subrange(0, passed(s).len() as int) =~= passed(s));
    } else {
        let p = s.drop_last();
        assert(s.subrange(0, k) =~= p.subrange(0, k));
        lemma_passed_prefix(p, k);
        let m = passed(s.subrange(0, k)).len() as int;
        assert(passed(s).subrange(0, m) =~= passed(p).subrange(0, m));
    }
}

/// Where the first fatal failure of a stream stands at `j`, the consumer, which
/// stops there, sees the records that came before it, in order, and then that
/// failure: never the failure before a record that preceded it.
pub proof fn lemma_fatal_ends_stream<T>(s: Seq<Result<T, StreamError>>, j: int)
    requires
        0 <= j < s.len(),
        s[j] is Err && !is_warning(s[j]),
        forall|i: int| 0 <= i < j ==> (#[trigger] s[i]) is Ok || is_warning(s[i]),
    ensures
        passed(s.subrange(0, j + 1)) == passed(s.subrange(0, j)).push(s[j]),
        passed(s.subrange(0, j)).len() == ok_count(s.subrange(0, j)),
        forall|i: int|
            0 <= i < passed(s.subrange(0, j)).len() ==> (#[trigger] passed(s.subrange(0, j))[i]) is Ok,
        passed(s).subrange(0, passed(s.subrange(0, j + 1)).len() as int) == passed(
            s.subrange(0, j + 1),
        ),
{
    let pre = s.subrange(0, j);
    assert forall|i: int| 0 <= i < pre.len() implies (#[trigger] pre[i]) is Ok || is_warning(
        pre[i],
    ) by {
        assert(pre[i] == s[i]);
    }
    lemma_warnings_counted(pre);
    assert(s.subrange(0, j + 1).drop_last() =~= pre);
    lemma_passed_prefix(s, j + 1);
}

} // verus!
