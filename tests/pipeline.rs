use cargo_phabricator::jsonl::{decode_line, sift_line, sift_lines, REASON};
use cargo_phabricator::lines::{LineBuffer, Pull};
use cargo_phabricator::stream::{exit_item, filter_warnings, screen, Screened, StreamError};
use serde_json::Value;

const NO_TEXT: &str = "no message text";

fn message_text(line: &Vec<u8>) -> Result<String, String> {
    let v: Value = serde_json::from_slice(line).map_err(|e| e.to_string())?;
    v.get("message")
        .and_then(|m| m.get("message"))
        .and_then(|m| m.as_str())
        .map(String::from)
        .ok_or_else(|| NO_TEXT.to_string())
}

fn json_error(bytes: &[u8]) -> String {
    serde_json::from_slice::<Value>(bytes).unwrap_err().to_string()
}

fn upstream() -> StreamError {
    StreamError::UpstreamDecodeFailure { cause: NO_TEXT.to_string() }
}

fn not_json(bytes: &[u8]) -> StreamError {
    StreamError::DecodeFailure { bytes: bytes.to_vec(), cause: json_error(bytes) }
}

#[test]
fn line_buffer_splits_on_newline() {
    let mut buf = LineBuffer::new();
    buf.push_bytes(b"{\"a\":1}\n{\"b\"");
    assert_eq!(buf.pull(), Pull::Line(b"{\"a\":1}".to_vec()));
    assert_eq!(buf.pull(), Pull::More);
    buf.push_bytes(b":2}\n\n{\"c\":3}\nlast");
    assert_eq!(buf.pull(), Pull::Line(b"{\"b\":2}".to_vec()));
    assert_eq!(buf.pull(), Pull::End);
    assert_eq!(buf.pull(), Pull::End);
    assert_eq!(buf.finish(), None);
}

#[test]
fn line_buffer_hands_out_last_unterminated_line() {
    let mut buf = LineBuffer::new();
    buf.push_bytes(b"x\ny");
    assert_eq!(buf.pull(), Pull::Line(b"x".to_vec()));
    assert_eq!(buf.pull(), Pull::More);
    assert_eq!(buf.finish(), Some(b"y".to_vec()));
    assert_eq!(buf.finish(), None);
}

#[test]
fn line_buffer_empty_source_gives_nothing() {
    let mut buf = LineBuffer::new();
    assert_eq!(buf.pull(), Pull::More);
    assert_eq!(buf.finish(), None);
}

#[test]
fn reason_key_is_reason() {
    assert_eq!(REASON, "reason");
}

#[test]
fn sift_mixed_reasons_example() {
    let lines: Vec<&[u8]> = vec![
        br#"{"reason":"x"}"#,
        br#"{"reason":"compiler-message","message":{"message":"unused variable"}}"#,
        br#"{"reason":"compiler-message","message":{"message":5}}"#,
    ];
    let mut records = Vec::new();
    let mut warnings = Vec::new();
    let mut first = None;
    for (i, line) in lines.into_iter().enumerate() {
        let out = sift_line(line.to_vec(), "compiler-message", &message_text);
        if i == 0 {
            first = Some(out.is_none());
        }
        if let Some(item) = out {
            match screen(item) {
                Screened::Pass(t) => records.push(t),
                Screened::Warn(e) => warnings.push(e),
                Screened::Fatal(e) => panic!("fatal: {:?}", e),
            }
        }
    }
    assert_eq!(first, Some(true));
    assert_eq!(records, vec!["unused variable".to_string()]);
    assert_eq!(warnings, vec![upstream()]);
}

#[test]
fn sift_keeps_bytes_of_non_json_line() {
    let out = sift_line::<String, _>(b"not json".to_vec(), "compiler-message", &message_text);
    assert_eq!(
        out,
        Some(Err(not_json(b"not json")))
    );
}

#[test]
fn sift_drops_value_without_reason_or_with_non_string_reason() {
    assert_eq!(sift_line(br#"{"x":1}"#.to_vec(), "compiler-message", &message_text), None);
    assert_eq!(sift_line(br#"{"reason":3}"#.to_vec(), "compiler-message", &message_text), None);
    assert_eq!(sift_line(b"[1,2]".to_vec(), "compiler-message", &message_text), None);
}

#[test]
fn sift_all_matching_lines_keep_count_and_order() {
    let lines = [
        br#"{"reason":"compiler-message","message":{"message":"one"}}"#.to_vec(),
        br#"{"reason":"compiler-message","message":{"message":"two"}}"#.to_vec(),
        br#"{"reason":"compiler-message","message":{"message":"three"}}"#.to_vec(),
    ];
    let items: Vec<_> = lines
        .iter()
        .filter_map(|l| sift_line(l.clone(), "compiler-message", &message_text))
        .collect();
    let (kept, warned) = filter_warnings(items);
    assert!(warned.is_empty());
    assert_eq!(
        kept,
        vec![Ok("one".to_string()), Ok("two".to_string()), Ok("three".to_string())]
    );
}

#[test]
fn decode_line_whole_shape() {
    let count = |line: &Vec<u8>| {
        serde_json::from_slice::<Vec<u32>>(line).map(|a| a.len()).map_err(|e| e.to_string())
    };
    assert_eq!(decode_line(b"[1,2,3]".to_vec(), &count), Ok(3));
    let shape = serde_json::from_slice::<Vec<u32>>(b"{}").unwrap_err().to_string();
    assert_eq!(
        decode_line(b"{}".to_vec(), &count),
        Err(StreamError::DecodeFailure { bytes: b"{}".to_vec(), cause: shape })
    );
    assert_eq!(decode_line(b"[1,".to_vec(), &count), Err(not_json(b"[1,")));
}

#[test]
fn warning_filter_counts_failures_and_records() {
    let items: Vec<Result<u32, StreamError>> = vec![
        Ok(1),
        Err(not_json(b"x")),
        Ok(2),
        Err(upstream()),
        Err(not_json(b"y")),
        Ok(3),
    ];
    let (kept, warned) = filter_warnings(items);
    assert_eq!(kept, vec![Ok(1), Ok(2), Ok(3)]);
    assert_eq!(warned.len(), 3);
    assert_eq!(warned[1], upstream());
}

#[test]
fn warning_filter_passes_fatal_errors() {
    let items: Vec<Result<u32, StreamError>> = vec![
        Ok(1),
        Err(StreamError::ReadFailure { detail: "broken pipe".to_string() }),
    ];
    let (kept, warned) = filter_warnings(items);
    assert!(warned.is_empty());
    assert_eq!(
        kept,
        vec![Ok(1), Err(StreamError::ReadFailure { detail: "broken pipe".to_string() })]
    );
    assert!(matches!(
        screen::<u32>(Err(StreamError::SpawnFailure { detail: "no cargo".to_string() })),
        Screened::Fatal(StreamError::SpawnFailure { .. })
    ));
    assert!(upstream().is_recoverable());
    assert!(not_json(b"x").is_recoverable());
    assert!(!StreamError::NonZeroExit { status: 1 }.is_recoverable());
}

#[test]
fn exit_failure_comes_after_all_records() {
    assert_eq!(exit_item::<u32>(0), None);
    let mut items: Vec<Result<u32, StreamError>> = vec![Ok(7), Ok(8)];
    if let Some(last) = exit_item(256) {
        items.push(last);
    }
    let (kept, warned) = filter_warnings(items);
    assert!(warned.is_empty());
    assert_eq!(kept, vec![Ok(7), Ok(8), Err(StreamError::NonZeroExit { status: 256 })]);
}

#[test]
fn sift_lines_whole_stream_counts() {
    let lines = vec![
        br#"{"reason":"compiler-message","message":{"message":"a"}}"#.to_vec(),
        b"garbage".to_vec(),
        br#"{"reason":"build-finished","success":true}"#.to_vec(),
        br#"{"reason":"compiler-message","message":{}}"#.to_vec(),
        br#"{"reason":"compiler-message","message":{"message":"b"}}"#.to_vec(),
        Vec::new(),
    ];
    let (kept, warned) = sift_lines(lines, "compiler-message", &message_text);
    assert_eq!(kept, vec![Ok("a".to_string()), Ok("b".to_string())]);
    assert_eq!(
        warned,
        vec![
            not_json(b"garbage"),
            upstream(),
            not_json(b""),
        ]
    );
}

#[test]
fn sift_lines_all_matching_keeps_every_line() {
    let lines: Vec<Vec<u8>> = (0..5)
        .map(|i| format!(r#"{{"reason":"compiler-message","message":{{"message":"m{}"}}}}"#, i).into_bytes())
        .collect();
    let (kept, warned) = sift_lines(lines, "compiler-message", &message_text);
    assert!(warned.is_empty());
    let expected: Vec<Result<String, StreamError>> = (0..5).map(|i| Ok(format!("m{}", i))).collect();
    assert_eq!(kept, expected);
}

#[test]
fn fatal_failure_stops_after_earlier_records() {
    let items: Vec<Result<u32, StreamError>> = vec![
        Ok(1),
        Err(upstream()),
        Ok(2),
        Err(StreamError::NonZeroExit { status: 256 }),
    ];
    let mut seen = Vec::new();
    let mut fatal = None;
    for item in items {
        match screen(item) {
            Screened::Pass(t) => seen.push(t),
            Screened::Warn(_) => {}
            Screened::Fatal(e) => {
                fatal = Some(e);
                break;
            }
        }
    }
    assert_eq!(seen, vec![1, 2]);
    assert_eq!(fatal, Some(StreamError::NonZeroExit { status: 256 }));
}
