use lsp_codec::capabilities::CompletionOptions;
use lsp_codec::documents::TextDocumentContentChangeEvent;
use lsp_codec::enums::DiagnosticSeverity;
use lsp_codec::error::DecodeError;
use lsp_codec::markup::MarkedString;
use lsp_codec::primitives::{Position, Range};
use lsp_codec::wire::WireValue;

fn obj(fields: Vec<(&str, WireValue)>) -> WireValue {
    WireValue::Obj(fields.into_iter().map(|(k, v)| (k.to_string(), v)).collect())
}

#[test]
fn position_round_trip() {
    let p = Position { line: 3, character: 7 };
    let w = p.encode();
    let back = Position::decode(&w).unwrap();
    assert_eq!(back.line, 3);
    assert_eq!(back.character, 7);
}

#[test]
fn position_ignores_unknown_fields() {
    let w = obj(vec![
        ("line", WireValue::Num(1)),
        ("character", WireValue::Num(2)),
        ("extra", WireValue::Num(1)),
    ]);
    let p = Position::decode(&w).unwrap();
    assert_eq!(p.line, 1);
    assert_eq!(p.character, 2);
}

#[test]
fn position_missing_field_fails() {
    let w = obj(vec![("line", WireValue::Num(1))]);
    match Position::decode(&w) {
        Err(DecodeError::MissingOrInvalidField(f)) => assert_eq!(f, "character"),
        _ => panic!("expected a missing-field failure"),
    }
}

#[test]
fn severity_table_decodes_each_entry() {
    assert!(matches!(DiagnosticSeverity::from_code(1), Ok(DiagnosticSeverity::Error)));
    assert!(matches!(DiagnosticSeverity::from_code(2), Ok(DiagnosticSeverity::Warning)));
    assert!(matches!(DiagnosticSeverity::from_code(3), Ok(DiagnosticSeverity::Information)));
    assert!(matches!(DiagnosticSeverity::from_code(4), Ok(DiagnosticSeverity::Hint)));
    assert_eq!(DiagnosticSeverity::Error.code(), 1);
    assert_eq!(DiagnosticSeverity::Hint.code(), 4);
}

#[test]
fn severity_out_of_table_fails() {
    match DiagnosticSeverity::from_code(5) {
        Err(DecodeError::InvalidEnumValue(name, raw)) => {
            assert_eq!(name, "DiagnosticSeverity");
            assert_eq!(raw, 5);
        },
        _ => panic!("expected an invalid-enum failure"),
    }
}

#[test]
fn marked_string_plain_from_bare_string() {
    let w = WireValue::Str("plain text".to_string());
    match MarkedString::decode(&w) {
        Ok(MarkedString::PlainString(s)) => assert_eq!(s, "plain text"),
        _ => panic!("expected plain text"),
    }
}

#[test]
fn marked_string_block_from_object() {
    let w = obj(vec![
        ("language", WireValue::Str("rust".to_string())),
        ("value", WireValue::Str("fn f() {}".to_string())),
    ]);
    match MarkedString::decode(&w) {
        Ok(MarkedString::LanguageBlock { language, value }) => {
            assert_eq!(language, "rust");
            assert_eq!(value, "fn f() {}");
        },
        _ => panic!("expected a language block"),
    }
}

#[test]
fn marked_string_missing_language_fails() {
    let w = obj(vec![("value", WireValue::Str("x".to_string()))]);
    match MarkedString::decode(&w) {
        Err(DecodeError::MissingOrInvalidField(f)) => assert_eq!(f, "language"),
        _ => panic!("expected a missing-field failure"),
    }
}

#[test]
fn marked_string_third_shape_fails() {
    match MarkedString::decode(&WireValue::Num(3)) {
        Err(DecodeError::UnrecognizedShape(t)) => assert_eq!(t, "MarkedString"),
        _ => panic!("expected an unrecognized-shape failure"),
    }
}

#[test]
fn completion_options_omits_empty_and_absent() {
    let c = CompletionOptions { resolve_provider: None, trigger_characters: vec![] };
    match c.encode() {
        WireValue::Obj(fields) => assert!(fields.is_empty()),
        _ => panic!("expected an object"),
    }
}

#[test]
fn completion_options_emits_nonempty_triggers() {
    let c = CompletionOptions { resolve_provider: None, trigger_characters: vec![".".to_string()] };
    match c.encode() {
        WireValue::Obj(fields) => {
            assert_eq!(fields.len(), 1);
            assert_eq!(fields[0].0, "triggerCharacters");
            match &fields[0].1 {
                WireValue::Arr(items) => {
                    assert_eq!(items.len(), 1);
                    assert!(matches!(&items[0], WireValue::Str(s) if s == "."));
                },
                _ => panic!("expected an array"),
            }
        },
        _ => panic!("expected an object"),
    }
}

#[test]
fn change_event_full_vs_incremental() {
    let full = obj(vec![("text", WireValue::Str("whole doc".to_string()))]);
    let e = TextDocumentContentChangeEvent::decode(&full).unwrap();
    assert!(e.range.is_none());
    assert_eq!(e.text, "whole doc");

    let start = obj(vec![("line", WireValue::Num(0)), ("character", WireValue::Num(0))]);
    let end = obj(vec![("line", WireValue::Num(0)), ("character", WireValue::Num(2))]);
    let inc = obj(vec![
        ("range", obj(vec![("start", start), ("end", end)])),
        ("rangeLength", WireValue::Num(2)),
        ("text", WireValue::Str("ab".to_string())),
    ]);
    let e2 = TextDocumentContentChangeEvent::decode(&inc).unwrap();
    assert!(e2.range.is_some());
    assert_eq!(e2.range_length, Some(2));
    assert_eq!(e2.text, "ab");
}

#[test]
fn range_round_trips_any_pair() {
    let r = Range {
        start: Position { line: 9, character: 9 },
        end: Position { line: 1, character: 0 },
    };
    let back = Range::decode(&r.encode()).unwrap();
    assert_eq!(back.start.line, 9);
    assert_eq!(back.end.character, 0);
}
