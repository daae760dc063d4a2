//! Decoding one line of output as JSON, and the reason filter that keeps the
//! values whose `reason` field carries the expected tag.
use vstd::prelude::*;
use crate::text::text_of;
use crate::stream::{filter_warnings, StreamError, is_recoverable, is_warning, passed, warned, ok_count, lemma_records_pass, lemma_warnings_counted};

verus! {

/// Whether serde_json reads these bytes as one JSON value.
pub uninterp spec fn is_json(line: Seq<u8>) -> bool;

/// The string that serde_json finds under `key` in the JSON object these bytes
/// hold; `None` where there is no such key or its value is not a string.
pub uninterp spec fn string_field(line: Seq<u8>, key: Seq<char>) -> Option<Seq<char>>;

/// The message serde_json gives for bytes that are not one JSON value.
pub uninterp spec fn json_error(line: Seq<u8>) -> Seq<char>;

/// Relies on serde_json::from_slice to parse the line into a `Value`, on
/// `Value::get` with `Value::as_str` to read the string under `key`, and on the
/// `Display` text of the error: each depends on the bytes and the key alone.
#[verifier::external_body]
fn parse_line(line: &[u8], key: &str) -> (r: Result<Option<String>, String>)
    ensures
        r is Ok <==> is_json(line@),
        match r {
            Ok(field) => text_of(field) == string_field(line@, key@),
            Err(message) => message@ == json_error(line@),
        },
{
    match serde_json::from_slice::<serde_json::Value>(line) {
        Ok(value) => Ok(value.get(key).and_then(serde_json::Value::as_str).map(String::from)),
        Err(e) => Err(e.to_string()),
    }
}

/// The name of the field that tells the kinds of record apart.
pub const REASON: &'static str = "reason";

/// Whether the line is JSON whose reason is `tag`.
pub open spec fn has_reason(line: Seq<u8>, tag: Seq<char>) -> bool {
    is_json(line) && string_field(line, REASON@) == Some(tag)
}

/// What the value decoder and the reason filter make of one line: `cause` is
/// serde_json's message where the line is not JSON, and `decoded` is what the
/// decoder gives on the line where its reason is `tag`.
pub open spec fn sifted_line<T>(
    line: Vec<u8>,
    tag: Seq<char>,
    cause: String,
    decoded: Result<T, String>,
) -> Option<Result<T, StreamError>> {
    if !is_json(line@) {
        Some(Err(StreamError::DecodeFailure { bytes: line, cause }))
    } else if !has_reason(line@, tag) {
        None
    } else {
        match decoded {
            Ok(t) => Some(Ok(t)),
            Err(c) => Some(Err(StreamError::UpstreamDecodeFailure { cause: c })),
        }
    }
}

/// `cause` and `decoded` are what the outside decoders give on `line`: serde_json's
/// message where it is not JSON, and `decode`'s result where its reason is `tag`.
pub open spec fn reads_as<T, F: Fn(&Vec<u8>) -> Result<T, String>>(
    line: Vec<u8>,
    tag: Seq<char>,
    decode: F,
    cause: String,
    decoded: Result<T, String>,
) -> bool {
    &&& !is_json(line@) ==> cause@ == json_error(line@)
    &&& has_reason(line@, tag) ==> decode.ensures((&line,), decoded)
}

/// One line through the value decoder and the reason filter. A line that is not
/// JSON gives a recoverable failure that keeps its bytes and serde_json's message;
/// JSON whose reason is not `tag` is dropped silently; JSON whose reason is `tag`
/// is decoded from its bytes by `decode`, and gives the record, or a recoverable
/// failure with `decode`'s message.
pub fn sift_line<T, F: Fn(&Vec<u8>) -> Result<T, String>>(line: Vec<u8>, tag: &str, decode: &F) -> (r:
    Option<Result<T, StreamError>>)
    requires
        forall|l: &Vec<u8>| decode.requires((l,)),
    ensures
        exists|cause: String, decoded: Result<T, String>|
            reads_as(line, tag@, *decode, cause, decoded) && r == #[trigger] sifted_line(
                line,
                tag@,
                cause,
                decoded,
            ),
{
    match parse_line(line.as_slice(), REASON) {
        Err(cause) => {
            let r = Some(Err(StreamError::DecodeFailure { bytes: line, cause }));
            assert(reads_as(line, tag@, *decode, cause, Err::<T, String>(cause)));
            assert(r == sifted_line(line, tag@, cause, Err::<T, String>(cause)));
            r
        },
        Ok(reason) => {
            let expected: String = tag.to_owned();
            let matches = match &reason {
                Some(found) => *found == expected,
                None => false,
            };
            let ghost none: String = arbitrary();
            if !matches {
                assert(reads_as(line, tag@, *decode, none, Err::<T, String>(none)));
                assert(None::<Result<T, StreamError>> == sifted_line(line, tag@, none, Err::<T, String>(none)));
                return None;
            }
            let decoded = decode(&line);
            assert(reads_as(line, tag@, *decode, none, decoded));
            match decoded {
                Ok(t) => {
                    assert(Some(Ok::<T, StreamError>(t)) == sifted_line(line, tag@, none, decoded));
                    Some(Ok(t))
                },
                Err(cause) => {
                    let r = Some(Err(StreamError::UpstreamDecodeFailure { cause }));
                    assert(r == sifted_line(line, tag@, none, decoded));
                    r
                },
            }
        },
    }
}

/// One line through the value decoder alone, for output whose every line is a
/// record of the target shape: the record `decode` gives on the line's bytes, or
/// a recoverable failure that keeps the bytes and `decode`'s message.
pub fn decode_line<T, F: Fn(&Vec<u8>) -> Result<T, String>>(line: Vec<u8>, decode: &F) -> (r: Result<T, StreamError>)
    requires
        forall|l: &Vec<u8>| decode.requires((l,)),
    ensures
        exists|decoded: Result<T, String>|
            decode.ensures((&line,), decoded) && r == match decoded {
                Ok(t) => Ok(t),
                Err(cause) => Err::<T, StreamError>(StreamError::DecodeFailure { bytes: line, cause }),
            },
{
    let decoded = decode(&line);
    match decoded {
        Ok(t) => Ok(t),
        Err(cause) => Err(StreamError::DecodeFailure { bytes: line, cause }),
    }
}

/// A stream of lines through the value decoder and the reason filter, where
/// `causes[i]` and `decoded[i]` are what the outside decoders give on `lines[i]`.
pub open spec fn sifted_lines<T>(
    lines: Seq<Vec<u8>>,
    tag: Seq<char>,
    causes: Seq<String>,
    decoded: Seq<Result<T, String>>,
) -> Seq<Result<T, StreamError>>
    decreases lines.len(),
{
    if lines.len() == 0 {
        Seq::empty()
    } else {
        let rest = sifted_lines(lines.drop_last(), tag, causes.drop_last(), decoded.drop_last());
        match sifted_line(lines.last(), tag, causes.last(), decoded.last()) {
            Some(item) => rest.push(item),
            None => rest,
        }
    }
}

/// A whole stream of lines through the value decoder, the reason filter and the
/// warning filter: the items passed on, in order, and the failures reported
/// instead, where `causes[i]` and `decoded[i]` are what the outside decoders gave
/// on line `i`.
pub fn sift_lines<T, F: Fn(&Vec<u8>) -> Result<T, String>>(lines: Vec<Vec<u8>>, tag: &str, decode: &F) -> (r: (
    Vec<Result<T, StreamError>>,
    Vec<StreamError>,
))
    requires
        forall|l: &Vec<u8>| decode.requires((l,)),
    ensures
        exists|causes: Seq<String>, decoded: Seq<Result<T, String>>|
            {
                &&& causes.len() == lines@.len()
                &&& decoded.len() == lines@.len()
                &&& forall|i: int|
                    0 <= i < lines@.len() ==> reads_as(
                        #[trigger] lines@[i],
                        tag@,
                        *decode,
                        causes[i],
                        decoded[i],
                    )
                &&& r.0@ == passed(sifted_lines(lines@, tag@, causes, decoded))
                &&& r.1@ == warned(sifted_lines(lines@, tag@, causes, decoded))
            },
{
    let ghost all = lines@;
    let ghost mut causes: Seq<String> = Seq::empty();
    let ghost mut decoded: Seq<Result<T, String>> = Seq::empty();
    let mut items: Vec<Result<T, StreamError>> = Vec::new();
    for line in it: lines.into_iter()
        invariant
            it.seq() == all,
            forall|l: &Vec<u8>| decode.requires((l,)),
            causes.len() == it.index(),
            decoded.len() == it.index(),
            forall|i: int|
                0 <= i < it.index() ==> reads_as(#[trigger] all[i], tag@, *decode, causes[i], decoded[i]),
            items@ == sifted_lines(all.subrange(0, it.index() as int), tag@, causes, decoded),
    {
        let ghost i = it.index() as int;
        let ghost this = line;
        let out = sift_line(line, tag, decode);
        let ghost (c, d) = choose|c: String, d: Result<T, String>|
            reads_as(this, tag@, *decode, c, d) && out == #[trigger] sifted_line(this, tag@, c, d);
        proof {
            let prev_c = causes;
            let prev_d = decoded;
            causes = causes.push(c);
            decoded = decoded.push(d);
            assert(all.subrange(0, i + 1).drop_last() =~= all.subrange(0, i));
            assert(causes.drop_last() =~= prev_c);
            assert(decoded.drop_last() =~= prev_d);
            assert(all.subrange(0, i + 1).last() == this);
        }
        match out {
            Some(item) => items.push(item),
            None => {},
        }
    }
    assert(all.subrange(0, all.len() as int) =~= all);
    filter_warnings(items)
}

/// How many of the lines carry the reason `tag` and decode into the target shape.
pub open spec fn record_count<T>(lines: Seq<Vec<u8>>, tag: Seq<char>, decoded: Seq<Result<T, String>>) -> nat
    decreases lines.len(),
{
    if lines.len() == 0 {
        0
    } else {
        record_count(lines.drop_last(), tag, decoded.drop_last()) + if has_reason(lines.last()@, tag)
            && decoded.last() is Ok {
            1nat
        } else {
            0nat
        }
    }
}

/// Where every line carries the expected reason and decodes, the stream holds one
/// record per line, in the order of the lines, and the warning filter passes it
/// on whole, with no warning.
pub proof fn lemma_matching_lines_kept<T>(
    lines: Seq<Vec<u8>>,
    tag: Seq<char>,
    causes: Seq<String>,
    records: Seq<T>,
)
    requires
        lines.len() == records.len(),
        causes.len() == lines.len(),
        forall|i: int| 0 <= i < lines.len() ==> has_reason((#[trigger] lines[i])@, tag),
    ensures
        sifted_lines(lines, tag, causes, records.map_values(|t: T| Ok::<T, String>(t)))
            == records.map_values(|t: T| Ok::<T, StreamError>(t)),
        passed(sifted_lines(lines, tag, causes, records.map_values(|t: T| Ok::<T, String>(t))))
            == records.map_values(|t: T| Ok::<T, StreamError>(t)),
        warned(
            sifted_lines(lines, tag, causes, records.map_values(|t: T| Ok::<T, String>(t))),
        ).len() == 0,
    decreases lines.len(),
{
    let oks = records.map_values(|t: T| Ok::<T, StreamError>(t));
    if lines.len() > 0 {
        let n = lines.len() - 1;
        let p = lines.drop_last();
        let q = records.drop_last();
        assert forall|i: int| 0 <= i < p.len() implies has_reason((#[trigger] p[i])@, tag) by {
            assert(p[i] == lines[i]);
        }
        lemma_matching_lines_kept(p, tag, causes.drop_last(), q);
        assert(records.map_values(|t: T| Ok::<T, String>(t)).drop_last() =~= q.map_values(
            |t: T| Ok::<T, String>(t),
        ));
        assert(has_reason(lines[n]@, tag));
        assert(q.map_values(|t: T| Ok::<T, StreamError>(t)).push(Ok(records[n])) =~= oks);
    } else {
        assert(oks =~= Seq::empty());
    }
    assert forall|i: int| 0 <= i < oks.len() implies (#[trigger] oks[i]) is Ok by {}
    lemma_records_pass(oks);
}

/// Where every line is either not JSON, or JSON with the expected reason, none is
/// dropped silently: the warning filter passes on exactly the lines that decode,
/// all as records, and reports each of the others.
pub proof fn lemma_failures_warned<T>(
    lines: Seq<Vec<u8>>,
    tag: Seq<char>,
    causes: Seq<String>,
    decoded: Seq<Result<T, String>>,
)
    requires
        lines.len() == decoded.len(),
        lines.len() == causes.len(),
        forall|i: int|
            0 <= i < lines.len() ==> !is_json((#[trigger] lines[i])@) || has_reason(lines[i]@, tag),
    ensures
        passed(sifted_lines(lines, tag, causes, decoded)).len() == record_count(lines, tag, decoded),
        warned(sifted_lines(lines, tag, causes, decoded)).len() + record_count(lines, tag, decoded)
            == lines.len(),
        forall|i: int|
            0 <= i < passed(sifted_lines(lines, tag, causes, decoded)).len() ==> (#[trigger] passed(
                sifted_lines(lines, tag, causes, decoded),
            )[i]) is Ok,
{
    lemma_sifted_shape(lines, tag, causes, decoded);
    lemma_warnings_counted(sifted_lines(lines, tag, causes, decoded));
}

proof fn lemma_sifted_shape<T>(
    lines: Seq<Vec<u8>>,
    tag: Seq<char>,
    causes: Seq<String>,
    decoded: Seq<Result<T, String>>,
)
    requires
        lines.len() == decoded.len(),
        lines.len() == causes.len(),
        forall|i: int|
            0 <= i < lines.len() ==> !is_json((#[trigger] lines[i])@) || has_reason(lines[i]@, tag),
    ensures
        sifted_lines(lines, tag, causes, decoded).len() == lines.len(),
        ok_count(sifted_lines(lines, tag, causes, decoded)) == record_count(lines, tag, decoded),
        forall|i: int|
            0 <= i < sifted_lines(lines, tag, causes, decoded).len() ==> (#[trigger] sifted_lines(
                lines,
                tag,
                causes,
                decoded,
            )[i]) is Ok || is_warning(sifted_lines(lines, tag, causes, decoded)[i]),
    decreases lines.len(),
{
    if lines.len() > 0 {
        let p = lines.drop_last();
        let q = decoded.drop_last();
        let c = causes.drop_last();
        assert forall|i: int| 0 <= i < p.len() implies !is_json((#[trigger] p[i])@) || has_reason(
            p[i]@,
            tag,
        ) by {
            assert(p[i] == lines[i]);
        }
        lemma_sifted_shape(p, tag, c, q);
        let s = sifted_lines(lines, tag, causes, decoded);
        let r = sifted_lines(p, tag, c, q);
        assert(!is_json(lines[lines.len() - 1]@) || has_reason(lines[lines.len() - 1]@, tag));
        assert(s.drop_last() =~= r);
        assert forall|i: int| 0 <= i < s.len() implies (#[trigger] s[i]) is Ok || is_warning(s[i]) by {
            if i < r.len() {
                assert(s[i] == r[i]);
            }
        }
    }
}

/// A JSON line with another reason, or none, leaves no item and so no warning; a
/// line with the expected reason that does not decode leaves a warning that
/// carries the decoder's message.
pub proof fn lemma_other_reason_silent<T>(
    line: Vec<u8>,
    tag: Seq<char>,
    cause: String,
    decoded: Result<T, String>,
)
    ensures
        is_json(line@) && !has_reason(line@, tag) ==> sifted_line(line, tag, cause, decoded) is None,
        has_reason(line@, tag) ==> match decoded {
            Err(c) => sifted_line(line, tag, cause, decoded) == Some(
                Err::<T, StreamError>(StreamError::UpstreamDecodeFailure { cause: c }),
            ) && is_recoverable(StreamError::UpstreamDecodeFailure { cause: c }),
            Ok(t) => sifted_line(line, tag, cause, decoded) == Some(Ok::<T, StreamError>(t)),
        },
{
}

} // verus!
