//! Commands, code lenses and code actions.

use vstd::prelude::*;
use vstd::string::StrSliceExecFns;
use crate::error::{missing, DecodeError, DecodeErrorView};
use crate::wire::{
    emit_fields, key_string, obj_get, opt_field, FieldTable, WireValue, WireValueView,
    finish_obj, table_view, wire_obj_get, wire_obj_get_opt, distinct_keys,
    lemma_emit_fields_get, wire_arr_view, wire_view, lemma_wire_arr_view,
    lemma_wire_obj_view, wire_obj_view, duplicate_wire_list, encode_str_list,
    decode_str_list, str_list_to_wire, lemma_str_list_round_trip, req_num, opt_num,
    req_bool, opt_bool, req_str, opt_str, emp_str, emp_str_list, req_raw, opt_raw,
    emp_arr,
};
use crate::primitives::{lemma_range_round_trip, range_of_wire, range_to_wire, req_range, Range};
use crate::documents::{lemma_text_document_identifier_round_trip, req_text_document_identifier, text_document_identifier_of_wire, text_document_identifier_to_wire, TextDocumentIdentifier, TextDocumentIdentifierView};
use crate::diagnostics::{diagnostic_list_decode, diagnostic_list_encode, diagnostic_list_of_wire, diagnostic_list_to_wire, lemma_diagnostic_list_round_trip, req_diagnostic_list, Diagnostic, DiagnosticView};

verus! {

/// A command reference: a title for the UI, a handler identifier and
/// opaque arguments handed back to the handler.
#[derive(Debug)]
pub struct Command {
    pub title: String,
    pub command: String,
    pub arguments: Vec<WireValue>,
}

/// The mathematical model of this entity.
#[verifier::ext_equal]
pub struct CommandView {
    pub title: Seq<char>,
    pub command: Seq<char>,
    pub arguments: Seq<WireValueView>,
}

impl View for Command {
    type V = CommandView;

    open spec fn view(&self) -> CommandView {
        CommandView {
            title: self.title@,
            command: self.command@,
            arguments: wire_arr_view(self.arguments@),
        }
    }
}

impl DeepView for Command {
    type V = CommandView;

    open spec fn deep_view(&self) -> CommandView {
        self.view()
    }
}

/// The field table: each wire key with its value, or `None` where the
/// field's omission policy drops it.
pub open spec fn command_fields(v: CommandView) -> FieldTable {
    seq![
        ("title"@, Some(WireValueView::Str(v.title))),
        ("command"@, Some(WireValueView::Str(v.command))),
        ("arguments"@, if v.arguments.len() == 0 {
                None
            } else {
                Some(WireValueView::Arr(v.arguments))
            }),
    ]
}

/// What encoding this entity produces.
pub open spec fn command_to_wire(v: CommandView) -> WireValueView {
    WireValueView::Obj(emit_fields(command_fields(v)))
}

/// What decoding a wire value as this entity yields. Unknown extra
/// fields are ignored; a missing or ill-shaped field fails.
pub open spec fn command_of_wire(w: WireValueView) -> Result<CommandView, DecodeErrorView> {
    match w {
        WireValueView::Obj(fs) => match req_str(fs, "title"@) {
                Ok(title) => match req_str(fs, "command"@) {
                    Ok(command) => match emp_arr(fs, "arguments"@) {
                        Ok(arguments) => Ok(CommandView { title, command, arguments }),
                        Err(e) => Err(e),
                    },
                    Err(e) => Err(e),
                },
                Err(e) => Err(e),
            },
        _ => Err(missing("title"@)),
    }
}

impl Command {
    pub fn encode(&self) -> (r: WireValue)
        ensures
            r@ == command_to_wire(self@),
    {
        let mut table: Vec<(String, Option<WireValue>)> = Vec::new();
        table.push((key_string("title"), Some(WireValue::Str(self.title.clone()))));
        table.push((key_string("command"), Some(WireValue::Str(self.command.clone()))));
        table.push((key_string("arguments"), if self.arguments.len() == 0 {
            None
        } else {
            Some(WireValue::Arr(duplicate_wire_list(&self.arguments)))
        }));
        proof {
            assert(table_view(table@) =~= command_fields(self@));
        }
        finish_obj(table)
    }

    pub fn decode(w: &WireValue) -> (r: Result<Command, DecodeError>)
        ensures
            match r {
                Ok(x) => command_of_wire(w@) == Ok::<CommandView, DecodeErrorView>(x@),
                Err(e) => command_of_wire(w@) == Err::<CommandView, DecodeErrorView>(e@),
            },
    {
        let fields = match w {
            WireValue::Obj(fields) => fields,
            _ => {
                return Err(DecodeError::MissingOrInvalidField(key_string("title")));
            },
        };
        let title: String = match wire_obj_get(fields, &key_string("title")) {
            Some(WireValue::Str(s)) => s.clone(),
            _ => {
                return Err(DecodeError::MissingOrInvalidField(key_string("title")));
            },
        };
        let command: String = match wire_obj_get(fields, &key_string("command")) {
            Some(WireValue::Str(s)) => s.clone(),
            _ => {
                return Err(DecodeError::MissingOrInvalidField(key_string("command")));
            },
        };
        let arguments: Vec<WireValue> = match wire_obj_get_opt(fields, &key_string("arguments")) {
            Some(WireValue::Arr(items)) => duplicate_wire_list(items),
            Some(_) => {
                return Err(DecodeError::MissingOrInvalidField(key_string("arguments")));
            },
            None => {
                let fresh: Vec<WireValue> = Vec::new();
                proof {
                    assert(wire_arr_view(fresh@) =~= Seq::<WireValueView>::empty());
                }
                fresh
            },
        };
        Ok(Command { title, command, arguments })
    }
}

/// Decoding an encoded value of this entity gives the value back.
pub proof fn lemma_command_round_trip(v: CommandView)
    ensures
        command_of_wire(command_to_wire(v)) == Ok::<CommandView, DecodeErrorView>(v),
{
    let t = command_fields(v);
    assert(distinct_keys(t)) by {
        reveal_strlit("title");
        reveal_strlit("command");
        reveal_strlit("arguments");
        assert forall|i: int, j: int| 0 <= i < j < t.len() implies t[i].0 != t[j].0 by {
            assert(t[0].0 == "title"@);
            assert(t[1].0 == "command"@);
            assert(t[2].0 == "arguments"@);
        }
    }
    lemma_emit_fields_get(t, 0);
    lemma_emit_fields_get(t, 1);
    lemma_emit_fields_get(t, 2);
    if v.arguments.len() == 0 {
        assert(v.arguments =~= Seq::<WireValueView>::empty());
    }
}

/// An optional field holding this entity; absent and null are `None`.
pub open spec fn opt_command(fs: Seq<(Seq<char>, WireValueView)>, key: Seq<char>) -> Result<
    Option<CommandView>,
    DecodeErrorView,
> {
    match opt_field(fs, key) {
        Some(wv) => match command_of_wire(wv) {
            Ok(x) => Ok(Some(x)),
            Err(e) => Err(e),
        },
        None => Ok(None),
    }
}

/// A command shown along source text. Without a command it is
/// unresolved; `data` is an opaque value kept for the resolve step.
#[derive(Debug)]
pub struct CodeLens {
    pub range: Range,
    pub command: Option<Command>,
    pub data: Option<WireValue>,
}

/// The mathematical model of this entity.
#[verifier::ext_equal]
pub struct CodeLensView {
    pub range: Range,
    pub command: Option<CommandView>,
    pub data: Option<WireValueView>,
}

impl View for CodeLens {
    type V = CodeLensView;

    open spec fn view(&self) -> CodeLensView {
        CodeLensView {
            range: self.range@,
            command: match self.command {
                Some(x) => Some(x@),
                None => None,
            },
            data: match self.data {
                Some(w) => Some(w@),
                None => None,
            },
        }
    }
}

impl DeepView for CodeLens {
    type V = CodeLensView;

    open spec fn deep_view(&self) -> CodeLensView {
        self.view()
    }
}

/// An opaque passthrough field holding an explicit null cannot be told
/// apart from an absent one on the wire; a well-formed entity holds none.
pub open spec fn code_lens_wf(v: CodeLensView) -> bool {
    (v.data matches Some(w) ==> !(w is Null))
}

/// The field table: each wire key with its value, or `None` where the
/// field's omission policy drops it.
pub open spec fn code_lens_fields(v: CodeLensView) -> FieldTable {
    seq![
        ("range"@, Some(range_to_wire(v.range))),
        ("command"@, match v.command {
                Some(x) => Some(command_to_wire(x)),
                None => None,
            }),
        ("data"@, v.data),
    ]
}

/// What encoding this entity produces.
pub open spec fn code_lens_to_wire(v: CodeLensView) -> WireValueView {
    WireValueView::Obj(emit_fields(code_lens_fields(v)))
}

/// What decoding a wire value as this entity yields. Unknown extra
/// fields are ignored; a missing or ill-shaped field fails.
pub open spec fn code_lens_of_wire(w: WireValueView) -> Result<CodeLensView, DecodeErrorView> {
    match w {
        WireValueView::Obj(fs) => match req_range(fs, "range"@) {
                Ok(range) => match opt_command(fs, "command"@) {
                    Ok(command) => match opt_raw(fs, "data"@) {
                        Ok(data) => Ok(CodeLensView { range, command, data }),
                        Err(e) => Err(e),
                    },
                    Err(e) => Err(e),
                },
                Err(e) => Err(e),
            },
        _ => Err(missing("range"@)),
    }
}

impl CodeLens {
    pub fn encode(&self) -> (r: WireValue)
        ensures
            r@ == code_lens_to_wire(self@),
    {
        let mut table: Vec<(String, Option<WireValue>)> = Vec::new();
        table.push((key_string("range"), Some(self.range.encode())));
        table.push((key_string("command"), match &self.command {
            Some(x) => Some(x.encode()),
            None => None,
        }));
        table.push((key_string("data"), match &self.data {
            Some(w) => Some(w.duplicate()),
            None => None,
        }));
        proof {
            assert(table_view(table@) =~= code_lens_fields(self@));
        }
        finish_obj(table)
    }

    pub fn decode(w: &WireValue) -> (r: Result<CodeLens, DecodeError>)
        ensures
            match r {
                Ok(x) => code_lens_of_wire(w@) == Ok::<CodeLensView, DecodeErrorView>(x@),
                Err(e) => code_lens_of_wire(w@) == Err::<CodeLensView, DecodeErrorView>(e@),
            },
    {
        let fields = match w {
            WireValue::Obj(fields) => fields,
            _ => {
                return Err(DecodeError::MissingOrInvalidField(key_string("range")));
            },
        };
        let range: Range = match wire_obj_get(fields, &key_string("range")) {
            Some(v) => match Range::decode(v) {
                Ok(x) => x,
                Err(e) => {
                    return Err(e);
                },
            },
            None => {
                return Err(DecodeError::MissingOrInvalidField(key_string("range")));
            },
        };
        let command: Option<Command> = match wire_obj_get_opt(fields, &key_string("command")) {
            Some(v) => match Command::decode(v) {
                Ok(x) => Some(x),
                Err(e) => {
                    return Err(e);
                },
            },
            None => None,
        };
        let data: Option<WireValue> = match wire_obj_get_opt(fields, &key_string("data")) {
            Some(v) => Some(v.duplicate()),
            None => None,
        };
        Ok(CodeLens { range, command, data })
    }
}

/// Decoding an encoded value of this entity gives the value back.
pub proof fn lemma_code_lens_round_trip(v: CodeLensView)
    requires
        code_lens_wf(v),
    ensures
        code_lens_of_wire(code_lens_to_wire(v)) == Ok::<CodeLensView, DecodeErrorView>(v),
{
    let t = code_lens_fields(v);
    assert(distinct_keys(t)) by {
        reveal_strlit("range");
        reveal_strlit("command");
        reveal_strlit("data");
        assert forall|i: int, j: int| 0 <= i < j < t.len() implies t[i].0 != t[j].0 by {
            assert(t[0].0 == "range"@);
            assert(t[1].0 == "command"@);
            assert(t[2].0 == "data"@);
        }
    }
    lemma_emit_fields_get(t, 0);
    lemma_emit_fields_get(t, 1);
    lemma_emit_fields_get(t, 2);
    lemma_range_round_trip(v.range);
    match v.command {
        Some(x) => lemma_command_round_trip(x),
        None => (),
    }
}

/// Asks for the code lenses of one document.
#[derive(Debug)]
pub struct CodeLensParams {
    pub text_document: TextDocumentIdentifier,
}

/// The mathematical model of this entity.
#[verifier::ext_equal]
pub struct CodeLensParamsView {
    pub text_document: TextDocumentIdentifierView,
}

impl View for CodeLensParams {
    type V = CodeLensParamsView;

    open spec fn view(&self) -> CodeLensParamsView {
        CodeLensParamsView {
            text_document: self.text_document@,
        }
    }
}

impl DeepView for CodeLensParams {
    type V = CodeLensParamsView;

    open spec fn deep_view(&self) -> CodeLensParamsView {
        self.view()
    }
}

/// The field table: each wire key with its value, or `None` where the
/// field's omission policy drops it.
pub open spec fn code_lens_params_fields(v: CodeLensParamsView) -> FieldTable {
    seq![
        ("textDocument"@, Some(text_document_identifier_to_wire(v.text_document))),
    ]
}

/// What encoding this entity produces.
pub open spec fn code_lens_params_to_wire(v: CodeLensParamsView) -> WireValueView {
    WireValueView::Obj(emit_fields(code_lens_params_fields(v)))
}

/// What decoding a wire value as this entity yields. Unknown extra
/// fields are ignored; a missing or ill-shaped field fails.
pub open spec fn code_lens_params_of_wire(w: WireValueView) -> Result<CodeLensParamsView, DecodeErrorView> {
    match w {
        WireValueView::Obj(fs) => match req_text_document_identifier(fs, "textDocument"@) {
                Ok(text_document) => Ok(CodeLensParamsView { text_document }),
                Err(e) => Err(e),
            },
        _ => Err(missing("textDocument"@)),
    }
}

impl CodeLensParams {
    pub fn encode(&self) -> (r: WireValue)
        ensures
            r@ == code_lens_params_to_wire(self@),
    {
        let mut table: Vec<(String, Option<WireValue>)> = Vec::new();
        table.push((key_string("textDocument"), Some(self.text_document.encode())));
        proof {
            assert(table_view(table@) =~= code_lens_params_fields(self@));
        }
        finish_obj(table)
    }

    pub fn decode(w: &WireValue) -> (r: Result<CodeLensParams, DecodeError>)
        ensures
            match r {
                Ok(x) => code_lens_params_of_wire(w@) == Ok::<CodeLensParamsView, DecodeErrorView>(x@),
                Err(e) => code_lens_params_of_wire(w@) == Err::<CodeLensParamsView, DecodeErrorView>(e@),
            },
    {
        let fields = match w {
            WireValue::Obj(fields) => fields,
            _ => {
                return Err(DecodeError::MissingOrInvalidField(key_string("textDocument")));
            },
        };
        let text_document: TextDocumentIdentifier = match wire_obj_get(fields, &key_string("textDocument")) {
            Some(v) => match TextDocumentIdentifier::decode(v) {
                Ok(x) => x,
                Err(e) => {
                    return Err(e);
                },
            },
            None => {
                return Err(DecodeError::MissingOrInvalidField(key_string("textDocument")));
            },
        };
        Ok(CodeLensParams { text_document })
    }
}

/// Decoding an encoded value of this entity gives the value back.
pub proof fn lemma_code_lens_params_round_trip(v: CodeLensParamsView)
    ensures
        code_lens_params_of_wire(code_lens_params_to_wire(v)) == Ok::<CodeLensParamsView, DecodeErrorView>(v),
{
    let t = code_lens_params_fields(v);
    assert(distinct_keys(t)) by {
        reveal_strlit("textDocument");
    }
    lemma_emit_fields_get(t, 0);
    lemma_text_document_identifier_round_trip(v.text_document);
}

/// The diagnostics at the spot a code action was asked for.
#[derive(Debug)]
pub struct CodeActionContext {
    pub diagnostics: Vec<Diagnostic>,
}

/// The mathematical model of this entity.
#[verifier::ext_equal]
pub struct CodeActionContextView {
    pub diagnostics: Seq<DiagnosticView>,
}

impl View for CodeActionContext {
    type V = CodeActionContextView;

    open spec fn view(&self) -> CodeActionContextView {
        CodeActionContextView {
            diagnostics: self.diagnostics.deep_view(),
        }
    }
}

impl DeepView for CodeActionContext {
    type V = CodeActionContextView;

    open spec fn deep_view(&self) -> CodeActionContextView {
        self.view()
    }
}

/// The field table: each wire key with its value, or `None` where the
/// field's omission policy drops it.
pub open spec fn code_action_context_fields(v: CodeActionContextView) -> FieldTable {
    seq![
        ("diagnostics"@, Some(WireValueView::Arr(diagnostic_list_to_wire(v.diagnostics)))),
    ]
}

/// What encoding this entity produces.
pub open spec fn code_action_context_to_wire(v: CodeActionContextView) -> WireValueView {
    WireValueView::Obj(emit_fields(code_action_context_fields(v)))
}

/// What decoding a wire value as this entity yields. Unknown extra
/// fields are ignored; a missing or ill-shaped field fails.
pub open spec fn code_action_context_of_wire(w: WireValueView) -> Result<CodeActionContextView, DecodeErrorView> {
    match w {
        WireValueView::Obj(fs) => match req_diagnostic_list(fs, "diagnostics"@) {
                Ok(diagnostics) => Ok(CodeActionContextView { diagnostics }),
                Err(e) => Err(e),
            },
        _ => Err(missing("diagnostics"@)),
    }
}

impl CodeActionContext {
    pub fn encode(&self) -> (r: WireValue)
        ensures
            r@ == code_action_context_to_wire(self@),
    {
        let mut table: Vec<(String, Option<WireValue>)> = Vec::new();
        table.push((key_string("diagnostics"), Some(WireValue::Arr(diagnostic_list_encode(&self.diagnostics)))));
        proof {
            assert(table_view(table@) =~= code_action_context_fields(self@));
        }
        finish_obj(table)
    }

    pub fn decode(w: &WireValue) -> (r: Result<CodeActionContext, DecodeError>)
        ensures
            match r {
                Ok(x) => code_action_context_of_wire(w@) == Ok::<CodeActionContextView, DecodeErrorView>(x@),
                Err(e) => code_action_context_of_wire(w@) == Err::<CodeActionContextView, DecodeErrorView>(e@),
            },
    {
        let fields = match w {
            WireValue::Obj(fields) => fields,
            _ => {
                return Err(DecodeError::MissingOrInvalidField(key_string("diagnostics")));
            },
        };
        let diagnostics: Vec<Diagnostic> = match wire_obj_get(fields, &key_string("diagnostics")) {
            Some(WireValue::Arr(items)) => match diagnostic_list_decode(items) {
                Ok(v) => v,
                Err(e) => {
                    return Err(e);
                },
            },
            _ => {
                return Err(DecodeError::MissingOrInvalidField(key_string("diagnostics")));
            },
        };
        Ok(CodeActionContext { diagnostics })
    }
}

/// Decoding an encoded value of this entity gives the value back.
pub proof fn lemma_code_action_context_round_trip(v: CodeActionContextView)
    ensures
        code_action_context_of_wire(code_action_context_to_wire(v)) == Ok::<CodeActionContextView, DecodeErrorView>(v),
{
    let t = code_action_context_fields(v);
    assert(distinct_keys(t)) by {
        reveal_strlit("diagnostics");
    }
    lemma_emit_fields_get(t, 0);
    lemma_diagnostic_list_round_trip(v.diagnostics);
}

/// A required field holding this entity.
pub open spec fn req_code_action_context(fs: Seq<(Seq<char>, WireValueView)>, key: Seq<char>) -> Result<
    CodeActionContextView,
    DecodeErrorView,
> {
    match obj_get(fs, key) {
        Some(wv) => code_action_context_of_wire(wv),
        None => Err(missing(key)),
    }
}

/// Asks for code actions on a range of a document.
#[derive(Debug)]
pub struct CodeActionParams {
    pub text_document: TextDocumentIdentifier,
    pub range: Range,
    pub context: CodeActionContext,
}

/// The mathematical model of this entity.
#[verifier::ext_equal]
pub struct CodeActionParamsView {
    pub text_document: TextDocumentIdentifierView,
    pub range: Range,
    pub context: CodeActionContextView,
}

impl View for CodeActionParams {
    type V = CodeActionParamsView;

    open spec fn view(&self) -> CodeActionParamsView {
        CodeActionParamsView {
            text_document: self.text_document@,
            range: self.range@,
            context: self.context@,
        }
    }
}

impl DeepView for CodeActionParams {
    type V = CodeActionParamsView;

    open spec fn deep_view(&self) -> CodeActionParamsView {
        self.view()
    }
}

/// The field table: each wire key with its value, or `None` where the
/// field's omission policy drops it.
pub open spec fn code_action_params_fields(v: CodeActionParamsView) -> FieldTable {
    seq![
        ("textDocument"@, Some(text_document_identifier_to_wire(v.text_document))),
        ("range"@, Some(range_to_wire(v.range))),
        ("context"@, Some(code_action_context_to_wire(v.context))),
    ]
}

/// What encoding this entity produces.
pub open spec fn code_action_params_to_wire(v: CodeActionParamsView) -> WireValueView {
    WireValueView::Obj(emit_fields(code_action_params_fields(v)))
}

/// What decoding a wire value as this entity yields. Unknown extra
/// fields are ignored; a missing or ill-shaped field fails.
pub open spec fn code_action_params_of_wire(w: WireValueView) -> Result<CodeActionParamsView, DecodeErrorView> {
    match w {
        WireValueView::Obj(fs) => match req_text_document_identifier(fs, "textDocument"@) {
                Ok(text_document) => match req_range(fs, "range"@) {
                    Ok(range) => match req_code_action_context(fs, "context"@) {
                        Ok(context) => Ok(CodeActionParamsView { text_document, range, context }),
                        Err(e) => Err(e),
                    },
                    Err(e) => Err(e),
                },
                Err(e) => Err(e),
            },
        _ => Err(missing("textDocument"@)),
    }
}

impl CodeActionParams {
    pub fn encode(&self) -> (r: WireValue)
        ensures
            r@ == code_action_params_to_wire(self@),
    {
        let mut table: Vec<(String, Option<WireValue>)> = Vec::new();
        table.push((key_string("textDocument"), Some(self.text_document.encode())));
        table.push((key_string("range"), Some(self.range.encode())));
        table.push((key_string("context"), Some(self.context.encode())));
        proof {
            assert(table_view(table@) =~= code_action_params_fields(self@));
        }
        finish_obj(table)
    }

    pub fn decode(w: &WireValue) -> (r: Result<CodeActionParams, DecodeError>)
        ensures
            match r {
                Ok(x) => code_action_params_of_wire(w@) == Ok::<CodeActionParamsView, DecodeErrorView>(x@),
                Err(e) => code_action_params_of_wire(w@) == Err::<CodeActionParamsView, DecodeErrorView>(e@),
            },
    {
        let fields = match w {
            WireValue::Obj(fields) => fields,
            _ => {
                return Err(DecodeError::MissingOrInvalidField(key_string("textDocument")));
            },
        };
        let text_document: TextDocumentIdentifier = match wire_obj_get(fields, &key_string("textDocument")) {
            Some(v) => match TextDocumentIdentifier::decode(v) {
                Ok(x) => x,
                Err(e) => {
                    return Err(e);
                },
            },
            None => {
                return Err(DecodeError::MissingOrInvalidField(key_string("textDocument")));
            },
        };
        let range: Range = match wire_obj_get(fields, &key_string("range")) {
            Some(v) => match Range::decode(v) {
                Ok(x) => x,
                Err(e) => {
                    return Err(e);
                },
            },
            None => {
                return Err(DecodeError::MissingOrInvalidField(key_string("range")));
            },
        };
        let context: CodeActionContext = match wire_obj_get(fields, &key_string("context")) {
            Some(v) => match CodeActionContext::decode(v) {
                Ok(x) => x,
                Err(e) => {
                    return Err(e);
                },
            },
            None => {
                return Err(DecodeError::MissingOrInvalidField(key_string("context")));
            },
        };
        Ok(CodeActionParams { text_document, range, context })
    }
}

/// Decoding an encoded value of this entity gives the value back.
pub proof fn lemma_code_action_params_round_trip(v: CodeActionParamsView)
    ensures
        code_action_params_of_wire(code_action_params_to_wire(v)) == Ok::<CodeActionParamsView, DecodeErrorView>(v),
{
    let t = code_action_params_fields(v);
    assert(distinct_keys(t)) by {
        reveal_strlit("textDocument");
        reveal_strlit("range");
        reveal_strlit("context");
        assert forall|i: int, j: int| 0 <= i < j < t.len() implies t[i].0 != t[j].0 by {
            assert(t[0].0 == "textDocument"@);
            assert(t[1].0 == "range"@);
            assert(t[2].0 == "context"@);
        }
    }
    lemma_emit_fields_get(t, 0);
    lemma_emit_fields_get(t, 1);
    lemma_emit_fields_get(t, 2);
    lemma_text_document_identifier_round_trip(v.text_document);
    lemma_range_round_trip(v.range);
    lemma_code_action_context_round_trip(v.context);
}

} // verus!
