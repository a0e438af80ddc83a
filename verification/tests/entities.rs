use lsp_codec::capabilities::ServerCapabilities;
use lsp_codec::commands::{CodeLens, Command};
use lsp_codec::completion::{CompletionItem, CompletionList};
use lsp_codec::diagnostics::{Diagnostic, PublishDiagnosticsParams};
use lsp_codec::documents::{DidChangeTextDocumentParams, FileEvent};
use lsp_codec::enums::{
    CompletionItemKind, DocumentHighlightKind, FileChangeType, MessageType, SymbolKind,
    TextDocumentSyncKind,
};
use lsp_codec::error::DecodeError;
use lsp_codec::markup::{Hover, MarkedString, ParameterInformation, SignatureInformation};
use lsp_codec::messages::{MessageActionItem, ShowMessageRequestParams};
use lsp_codec::primitives::{Position, Range, TextEdit};
use lsp_codec::symbols::SymbolInformation;
use lsp_codec::wire::WireValue;
use lsp_codec::workspace::WorkspaceEdit;

fn obj(fields: Vec<(&str, WireValue)>) -> WireValue {
    WireValue::Obj(fields.into_iter().map(|(k, v)| (k.to_string(), v)).collect())
}

fn range(l0: u64, c0: u64, l1: u64, c1: u64) -> Range {
    Range {
        start: Position { line: l0, character: c0 },
        end: Position { line: l1, character: c1 },
    }
}

#[test]
fn sync_kind_table_total() {
    let all = [
        (TextDocumentSyncKind::NoSync, 0),
        (TextDocumentSyncKind::Full, 1),
        (TextDocumentSyncKind::Incremental, 2),
    ];
    for (k, code) in all {
        assert_eq!(k.code(), code);
        assert_eq!(TextDocumentSyncKind::from_code(code).unwrap(), k);
    }
    assert!(matches!(
        TextDocumentSyncKind::from_code(3),
        Err(DecodeError::InvalidEnumValue(_, 3))
    ));
}

#[test]
fn file_change_table_total() {
    let all = [
        (FileChangeType::Created, 1),
        (FileChangeType::Changed, 2),
        (FileChangeType::Deleted, 3),
    ];
    for (k, code) in all {
        assert_eq!(k.code(), code);
        assert_eq!(FileChangeType::from_code(code).unwrap(), k);
    }
    assert!(FileChangeType::from_code(0).is_err());
    assert!(FileChangeType::from_code(4).is_err());
}

#[test]
fn completion_kind_table_total() {
    for code in 1..=18u64 {
        let k = CompletionItemKind::from_code(code).unwrap();
        assert_eq!(k.code(), code);
    }
    assert_eq!(CompletionItemKind::Text.code(), 1);
    assert_eq!(CompletionItemKind::Reference.code(), 18);
    assert!(CompletionItemKind::from_code(0).is_err());
    assert!(CompletionItemKind::from_code(19).is_err());
}

#[test]
fn symbol_kind_table_total() {
    for code in 1..=18u64 {
        let k = SymbolKind::from_code(code).unwrap();
        assert_eq!(k.code(), code);
    }
    assert_eq!(SymbolKind::File.code(), 1);
    assert_eq!(SymbolKind::Array.code(), 18);
    assert!(SymbolKind::from_code(19).is_err());
}

#[test]
fn highlight_kind_table_total() {
    for code in 1..=3u64 {
        let k = DocumentHighlightKind::from_code(code).unwrap();
        assert_eq!(k.code(), code);
    }
    assert!(DocumentHighlightKind::from_code(0).is_err());
}

#[test]
fn message_type_table_total() {
    let all = [
        (MessageType::Error, 1),
        (MessageType::Warning, 2),
        (MessageType::Info, 3),
        (MessageType::Log, 4),
    ];
    for (k, code) in all {
        assert_eq!(k.code(), code);
        assert_eq!(MessageType::from_code(code).unwrap(), k);
    }
    assert!(MessageType::from_code(5).is_err());
}

#[test]
fn diagnostic_round_trip() {
    let d = Diagnostic {
        range: range(1, 2, 3, 4),
        severity: Some(lsp_codec::enums::DiagnosticSeverity::Warning),
        code: "E042".to_string(),
        source: None,
        message: "something looks off".to_string(),
    };
    let back = Diagnostic::decode(&d.encode()).unwrap();
    assert_eq!(back.range, range(1, 2, 3, 4));
    assert!(matches!(back.severity, Some(lsp_codec::enums::DiagnosticSeverity::Warning)));
    assert_eq!(back.code, "E042");
    assert!(back.source.is_none());
    assert_eq!(back.message, "something looks off");
}

#[test]
fn diagnostic_fixture_re_encodes_identically() {
    let start = obj(vec![("line", WireValue::Num(0)), ("character", WireValue::Num(1))]);
    let end = obj(vec![("line", WireValue::Num(0)), ("character", WireValue::Num(5))]);
    let w = obj(vec![
        ("range", obj(vec![("start", start), ("end", end)])),
        ("severity", WireValue::Num(1)),
        ("code", WireValue::Str("E1".to_string())),
        ("source", WireValue::Str("lint".to_string())),
        ("message", WireValue::Str("bad".to_string())),
    ]);
    let d = Diagnostic::decode(&w).unwrap();
    assert_eq!(d.encode(), w);
}

#[test]
fn publish_diagnostics_keeps_order() {
    let mk = |msg: &str| Diagnostic {
        range: range(0, 0, 0, 0),
        severity: None,
        code: String::new(),
        source: None,
        message: msg.to_string(),
    };
    let p = PublishDiagnosticsParams {
        uri: "file:///a.rs".to_string(),
        diagnostics: vec![mk("first"), mk("second"), mk("third")],
    };
    let back = PublishDiagnosticsParams::decode(&p.encode()).unwrap();
    assert_eq!(back.uri, "file:///a.rs");
    let messages: Vec<&str> = back.diagnostics.iter().map(|d| d.message.as_str()).collect();
    assert_eq!(messages, vec!["first", "second", "third"]);
}

#[test]
fn workspace_edit_round_trip() {
    let e = WorkspaceEdit {
        changes: vec![(
            "file:///a.rs".to_string(),
            vec![TextEdit { range: range(0, 0, 0, 0), new_text: "x".to_string() }],
        )],
    };
    let back = WorkspaceEdit::decode(&e.encode()).unwrap();
    assert_eq!(back.changes.len(), 1);
    assert_eq!(back.changes[0].0, "file:///a.rs");
    assert_eq!(back.changes[0].1.len(), 1);
    assert_eq!(back.changes[0].1[0].new_text, "x");
}

#[test]
fn hover_round_trip_both_shapes() {
    let h = Hover {
        contents: vec![
            MarkedString::PlainString("summary".to_string()),
            MarkedString::LanguageBlock {
                language: "rust".to_string(),
                value: "fn f() {}".to_string(),
            },
        ],
        range: None,
    };
    let back = Hover::decode(&h.encode()).unwrap();
    assert_eq!(back.contents.len(), 2);
    assert!(matches!(&back.contents[0], MarkedString::PlainString(s) if s == "summary"));
    assert!(matches!(&back.contents[1], MarkedString::LanguageBlock { language, .. } if language == "rust"));
    assert!(back.range.is_none());
}

#[test]
fn parameter_information_empty_doc_omitted() {
    let p = ParameterInformation { label: "x: u8".to_string(), documentation: String::new() };
    match p.encode() {
        WireValue::Obj(fields) => {
            assert_eq!(fields.len(), 1);
            assert_eq!(fields[0].0, "label");
        }
        _ => panic!("expected an object"),
    }
    let back = ParameterInformation::decode(&p.encode()).unwrap();
    assert_eq!(back.documentation, "");
}

#[test]
fn signature_information_params_omitted_when_empty() {
    let s = SignatureInformation {
        label: "f()".to_string(),
        documentation: "does f".to_string(),
        parameters: vec![],
    };
    match s.encode() {
        WireValue::Obj(fields) => {
            assert!(fields.iter().all(|(k, _)| k != "parameters"));
        }
        _ => panic!("expected an object"),
    }
    let back = SignatureInformation::decode(&s.encode()).unwrap();
    assert!(back.parameters.is_empty());
}

#[test]
fn show_message_request_actions_omitted_when_empty() {
    let p = ShowMessageRequestParams {
        typ: MessageType::Warning,
        message: "careful".to_string(),
        actions: vec![],
    };
    match p.encode() {
        WireValue::Obj(fields) => {
            assert!(fields.iter().all(|(k, _)| k != "actions"));
        }
        _ => panic!("expected an object"),
    }
    let with = ShowMessageRequestParams {
        typ: MessageType::Error,
        message: "pick one".to_string(),
        actions: vec![MessageActionItem { title: "Retry".to_string() }],
    };
    let back = ShowMessageRequestParams::decode(&with.encode()).unwrap();
    assert_eq!(back.actions.len(), 1);
    assert_eq!(back.actions[0].title, "Retry");
}

#[test]
fn command_arguments_pass_through() {
    let c = Command {
        title: "Run".to_string(),
        command: "run.it".to_string(),
        arguments: vec![WireValue::Num(3), WireValue::Null, WireValue::Str("a".to_string())],
    };
    let back = Command::decode(&c.encode()).unwrap();
    assert_eq!(back.arguments.len(), 3);
    assert_eq!(back.arguments[0], WireValue::Num(3));
    assert_eq!(back.arguments[1], WireValue::Null);

    let bare = Command {
        title: "Run".to_string(),
        command: "run.it".to_string(),
        arguments: vec![],
    };
    match bare.encode() {
        WireValue::Obj(fields) => assert!(fields.iter().all(|(k, _)| k != "arguments")),
        _ => panic!("expected an object"),
    }
}

#[test]
fn code_lens_unresolved_round_trip() {
    let lens = CodeLens {
        range: range(7, 0, 7, 10),
        command: None,
        data: Some(WireValue::Str("token".to_string())),
    };
    let back = CodeLens::decode(&lens.encode()).unwrap();
    assert!(back.command.is_none());
    assert_eq!(back.data, Some(WireValue::Str("token".to_string())));
}

#[test]
fn completion_item_text_edit_round_trip() {
    let item = CompletionItem {
        label: "push".to_string(),
        kind: Some(CompletionItemKind::Method),
        detail: None,
        documentation: None,
        sort_text: None,
        filter_text: None,
        insert_text: Some("push($0)".to_string()),
        text_edit: Some(TextEdit { range: range(2, 4, 2, 8), new_text: "push".to_string() }),
        data: None,
    };
    let list = CompletionList { is_incomplete: true, items: vec![item] };
    let back = CompletionList::decode(&list.encode()).unwrap();
    assert!(back.is_incomplete);
    assert_eq!(back.items.len(), 1);
    assert_eq!(back.items[0].label, "push");
    assert!(matches!(back.items[0].kind, Some(CompletionItemKind::Method)));
    assert_eq!(back.items[0].text_edit.as_ref().unwrap().new_text, "push");
    assert!(back.items[0].detail.is_none());
}

#[test]
fn server_capabilities_absent_means_not_offered() {
    let caps = ServerCapabilities {
        text_document_sync: Some(TextDocumentSyncKind::Full),
        hover_provider: Some(true),
        completion_provider: None,
        signature_help_provider: None,
        definition_provider: None,
        references_provider: None,
        document_highlight_provider: None,
        document_symbol_provider: None,
        workspace_symbol_provider: None,
        code_action_provider: None,
        code_lens_provider: None,
        document_formatting_provider: None,
        document_range_formatting_provider: None,
        document_on_type_formatting_provider: None,
        rename_provider: None,
    };
    match caps.encode() {
        WireValue::Obj(fields) => {
            assert_eq!(fields.len(), 2);
            assert_eq!(fields[0].0, "textDocumentSync");
            assert_eq!(fields[0].1, WireValue::Num(1));
            assert_eq!(fields[1].0, "hoverProvider");
        }
        _ => panic!("expected an object"),
    }
    let back = ServerCapabilities::decode(&obj(vec![])).unwrap();
    assert!(back.text_document_sync.is_none());
    assert!(back.rename_provider.is_none());
}

#[test]
fn did_change_decodes_changes_in_order() {
    let ident = obj(vec![
        ("uri", WireValue::Str("file:///a.rs".to_string())),
        ("version", WireValue::Num(9)),
    ]);
    let change = obj(vec![("text", WireValue::Str("whole".to_string()))]);
    let w = obj(vec![
        ("textDocument", ident),
        ("contentChanges", WireValue::Arr(vec![change])),
    ]);
    let p = DidChangeTextDocumentParams::decode(&w).unwrap();
    assert_eq!(p.text_document.uri, "file:///a.rs");
    assert_eq!(p.text_document.version, 9);
    assert_eq!(p.content_changes.len(), 1);
    assert_eq!(p.content_changes[0].text, "whole");
}

#[test]
fn file_event_wire_key_is_type() {
    let e = FileEvent { uri: "file:///b.rs".to_string(), typ: FileChangeType::Deleted };
    match e.encode() {
        WireValue::Obj(fields) => {
            assert_eq!(fields[1].0, "type");
            assert_eq!(fields[1].1, WireValue::Num(3));
        }
        _ => panic!("expected an object"),
    }
}

#[test]
fn symbol_information_round_trip() {
    let s = SymbolInformation {
        name: "main".to_string(),
        kind: SymbolKind::Function,
        location: lsp_codec::primitives::Location {
            uri: "file:///m.rs".to_string(),
            range: range(0, 0, 0, 4),
        },
        container_name: "m".to_string(),
    };
    let back = SymbolInformation::decode(&s.encode()).unwrap();
    assert_eq!(back.name, "main");
    assert!(matches!(back.kind, SymbolKind::Function));
    assert_eq!(back.location.uri, "file:///m.rs");
    assert_eq!(back.container_name, "m");
}
