//! Symbol, highlight and reference query entities.

use vstd::prelude::*;
use vstd::string::StrSliceExecFns;
use crate::error::{missing, DecodeError, DecodeErrorView};
use crate::wire::{
    emit_fields, key_string, obj_get, opt_field, FieldTable, WireValue, WireValueView,
    finish_obj, table_view, wire_obj_get, wire_obj_get_opt, distinct_keys,
    lemma_emit_fields_get, wire_arr_view, wire_view, lemma_wire_arr_view,
    lemma_wire_obj_view, wire_obj_view, duplicate_wire_list, encode_str_list,
    decode_str_list, str_list_to_wire, lemma_str_list_round_trip, req_num, opt_num,
    req_bool, opt_bool, req_str, opt_str, emp_str, emp_str_list, req_raw, opt_raw,
    emp_arr,
};
use crate::enums::{opt_document_highlight_kind, req_symbol_kind, DocumentHighlightKind, SymbolKind};
use crate::primitives::{lemma_location_round_trip, lemma_position_round_trip, lemma_range_round_trip, location_of_wire, location_to_wire, position_of_wire, position_to_wire, range_of_wire, range_to_wire, req_location, req_position, req_range, Location, LocationView, Position, Range};
use crate::documents::{lemma_text_document_identifier_round_trip, req_text_document_identifier, text_document_identifier_of_wire, text_document_identifier_to_wire, TextDocumentIdentifier, TextDocumentIdentifierView};

verus! {

/// Asks for the symbols of one document.
#[derive(Debug)]
pub struct DocumentSymbolParams {
    pub text_document: TextDocumentIdentifier,
}

/// The mathematical model of this entity.
#[verifier::ext_equal]
pub struct DocumentSymbolParamsView {
    pub text_document: TextDocumentIdentifierView,
}

impl View for DocumentSymbolParams {
    type V = DocumentSymbolParamsView;

    open spec fn view(&self) -> DocumentSymbolParamsView {
        DocumentSymbolParamsView {
            text_document: self.text_document@,
        }
    }
}

impl DeepView for DocumentSymbolParams {
    type V = DocumentSymbolParamsView;

    open spec fn deep_view(&self) -> DocumentSymbolParamsView {
        self.view()
    }
}

/// The field table: each wire key with its value, or `None` where the
/// field's omission policy drops it.
pub open spec fn document_symbol_params_fields(v: DocumentSymbolParamsView) -> FieldTable {
    seq![
        ("textDocument"@, Some(text_document_identifier_to_wire(v.text_document))),
    ]
}

/// What encoding this entity produces.
pub open spec fn document_symbol_params_to_wire(v: DocumentSymbolParamsView) -> WireValueView {
    WireValueView::Obj(emit_fields(document_symbol_params_fields(v)))
}

/// What decoding a wire value as this entity yields. Unknown extra
/// fields are ignored; a missing or ill-shaped field fails.
pub open spec fn document_symbol_params_of_wire(w: WireValueView) -> Result<DocumentSymbolParamsView, DecodeErrorView> {
    match w {
        WireValueView::Obj(fs) => match req_text_document_identifier(fs, "textDocument"@) {
                Ok(text_document) => Ok(DocumentSymbolParamsView { text_document }),
                Err(e) => Err(e),
            },
        _ => Err(missing("textDocument"@)),
    }
}

impl DocumentSymbolParams {
    pub fn encode(&self) -> (r: WireValue)
        ensures
            r@ == document_symbol_params_to_wire(self@),
    {
        let mut table: Vec<(String, Option<WireValue>)> = Vec::new();
        table.push((key_string("textDocument"), Some(self.text_document.encode())));
        proof {
            assert(table_view(table@) =~= document_symbol_params_fields(self@));
        }
        finish_obj(table)
    }

    pub fn decode(w: &WireValue) -> (r: Result<DocumentSymbolParams, DecodeError>)
        ensures
            match r {
                Ok(x) => document_symbol_params_of_wire(w@) == Ok::<DocumentSymbolParamsView, DecodeErrorView>(x@),
                Err(e) => document_symbol_params_of_wire(w@) == Err::<DocumentSymbolParamsView, DecodeErrorView>(e@),
            },
    {
        let fields = match w {
            WireValue::Obj(fields) => fields,
            _ => {
                return Err(DecodeError::MissingOrInvalidField(key_string("textDocument")));
            },
        };
        let text_document: TextDocumentIdentifier = match wire_obj_get(fields, &key_string("textDocument")) {
            Some(v) => match TextDocumentIdentifier::decode(v) {
                Ok(x) => x,
                Err(e) => {
                    return Err(e);
                },
            },
            None => {
                return Err(DecodeError::MissingOrInvalidField(key_string("textDocument")));
            },
        };
        Ok(DocumentSymbolParams { text_document })
    }
}

/// Decoding an encoded value of this entity gives the value back.
pub proof fn lemma_document_symbol_params_round_trip(v: DocumentSymbolParamsView)
    ensures
        document_symbol_params_of_wire(document_symbol_params_to_wire(v)) == Ok::<DocumentSymbolParamsView, DecodeErrorView>(v),
{
    let t = document_symbol_params_fields(v);
    assert(distinct_keys(t)) by {
        reveal_strlit("textDocument");
    }
    lemma_emit_fields_get(t, 0);
    lemma_text_document_identifier_round_trip(v.text_document);
}

/// A named programming construct: its kind, location and container.
#[derive(Debug)]
pub struct SymbolInformation {
    pub name: String,
    pub kind: SymbolKind,
    pub location: Location,
    pub container_name: String,
}

/// The mathematical model of this entity.
#[verifier::ext_equal]
pub struct SymbolInformationView {
    pub name: Seq<char>,
    pub kind: SymbolKind,
    pub location: LocationView,
    pub container_name: Seq<char>,
}

impl View for SymbolInformation {
    type V = SymbolInformationView;

    open spec fn view(&self) -> SymbolInformationView {
        SymbolInformationView {
            name: self.name@,
            kind: self.kind,
            location: self.location@,
            container_name: self.container_name@,
        }
    }
}

impl DeepView for SymbolInformation {
    type V = SymbolInformationView;

    open spec fn deep_view(&self) -> SymbolInformationView {
        self.view()
    }
}

/// The field table: each wire key with its value, or `None` where the
/// field's omission policy drops it.
pub open spec fn symbol_information_fields(v: SymbolInformationView) -> FieldTable {
    seq![
        ("name"@, Some(WireValueView::Str(v.name))),
        ("kind"@, Some(WireValueView::Num(v.kind.code_spec()))),
        ("location"@, Some(location_to_wire(v.location))),
        ("containerName"@, Some(WireValueView::Str(v.container_name))),
    ]
}

/// What encoding this entity produces.
pub open spec fn symbol_information_to_wire(v: SymbolInformationView) -> WireValueView {
    WireValueView::Obj(emit_fields(symbol_information_fields(v)))
}

/// What decoding a wire value as this entity yields. Unknown extra
/// fields are ignored; a missing or ill-shaped field fails.
pub open spec fn symbol_information_of_wire(w: WireValueView) -> Result<SymbolInformationView, DecodeErrorView> {
    match w {
        WireValueView::Obj(fs) => match req_str(fs, "name"@) {
                Ok(name) => match req_symbol_kind(fs, "kind"@) {
                    Ok(kind) => match req_location(fs, "location"@) {
                        Ok(location) => match req_str(fs, "containerName"@) {
                            Ok(container_name) => Ok(SymbolInformationView { name, kind, location, container_name }),
                            Err(e) => Err(e),
                        },
                        Err(e) => Err(e),
                    },
                    Err(e) => Err(e),
                },
                Err(e) => Err(e),
            },
        _ => Err(missing("name"@)),
    }
}

impl SymbolInformation {
    pub fn encode(&self) -> (r: WireValue)
        ensures
            r@ == symbol_information_to_wire(self@),
    {
        let mut table: Vec<(String, Option<WireValue>)> = Vec::new();
        table.push((key_string("name"), Some(WireValue::Str(self.name.clone()))));
        table.push((key_string("kind"), Some(WireValue::Num(self.kind.code()))));
        table.push((key_string("location"), Some(self.location.encode())));
        table.push((key_string("containerName"), Some(WireValue::Str(self.container_name.clone()))));
        proof {
            assert(table_view(table@) =~= symbol_information_fields(self@));
        }
        finish_obj(table)
    }

    pub fn decode(w: &WireValue) -> (r: Result<SymbolInformation, DecodeError>)
        ensures
            match r {
                Ok(x) => symbol_information_of_wire(w@) == Ok::<SymbolInformationView, DecodeErrorView>(x@),
                Err(e) => symbol_information_of_wire(w@) == Err::<SymbolInformationView, DecodeErrorView>(e@),
            },
    {
        let fields = match w {
            WireValue::Obj(fields) => fields,
            _ => {
                return Err(DecodeError::MissingOrInvalidField(key_string("name")));
            },
        };
        let name: String = match wire_obj_get(fields, &key_string("name")) {
            Some(WireValue::Str(s)) => s.clone(),
            _ => {
                return Err(DecodeError::MissingOrInvalidField(key_string("name")));
            },
        };
        let kind: SymbolKind = match wire_obj_get(fields, &key_string("kind")) {
            Some(WireValue::Num(n)) => match SymbolKind::from_code(*n) {
                Ok(k) => k,
                Err(e) => {
                    return Err(e);
                },
            },
            _ => {
                return Err(DecodeError::MissingOrInvalidField(key_string("kind")));
            },
        };
        let location: Location = match wire_obj_get(fields, &key_string("location")) {
            Some(v) => match Location::decode(v) {
                Ok(x) => x,
                Err(e) => {
                    return Err(e);
                },
            },
            None => {
                return Err(DecodeError::MissingOrInvalidField(key_string("location")));
            },
        };
        let container_name: String = match wire_obj_get(fields, &key_string("containerName")) {
            Some(WireValue::Str(s)) => s.clone(),
            _ => {
                return Err(DecodeError::MissingOrInvalidField(key_string("containerName")));
            },
        };
        Ok(SymbolInformation { name, kind, location, container_name })
    }
}

/// Decoding an encoded value of this entity gives the value back.
pub proof fn lemma_symbol_information_round_trip(v: SymbolInformationView)
    ensures
        symbol_information_of_wire(symbol_information_to_wire(v)) == Ok::<SymbolInformationView, DecodeErrorView>(v),
{
    let t = symbol_information_fields(v);
    assert(distinct_keys(t)) by {
        reveal_strlit("name");
        reveal_strlit("kind");
        reveal_strlit("location");
        reveal_strlit("containerName");
        assert forall|i: int, j: int| 0 <= i < j < t.len() implies t[i].0 != t[j].0 by {
            assert(t[0].0 == "name"@);
            assert(t[1].0 == "kind"@);
            assert(t[2].0 == "location"@);
            assert(t[3].0 == "containerName"@);
            assert("name"@[0] != "kind"@[0]);
        }
    }
    lemma_emit_fields_get(t, 0);
    lemma_emit_fields_get(t, 1);
    lemma_emit_fields_get(t, 2);
    lemma_emit_fields_get(t, 3);
    lemma_location_round_trip(v.location);
}

/// A workspace-wide symbol query.
#[derive(Debug)]
pub struct WorkspaceSymbolParams {
    pub query: String,
}

/// The mathematical model of this entity.
#[verifier::ext_equal]
pub struct WorkspaceSymbolParamsView {
    pub query: Seq<char>,
}

impl View for WorkspaceSymbolParams {
    type V = WorkspaceSymbolParamsView;

    open spec fn view(&self) -> WorkspaceSymbolParamsView {
        WorkspaceSymbolParamsView {
            query: self.query@,
        }
    }
}

impl DeepView for WorkspaceSymbolParams {
    type V = WorkspaceSymbolParamsView;

    open spec fn deep_view(&self) -> WorkspaceSymbolParamsView {
        self.view()
    }
}

/// The field table: each wire key with its value, or `None` where the
/// field's omission policy drops it.
pub open spec fn workspace_symbol_params_fields(v: WorkspaceSymbolParamsView) -> FieldTable {
    seq![
        ("query"@, Some(WireValueView::Str(v.query))),
    ]
}

/// What encoding this entity produces.
pub open spec fn workspace_symbol_params_to_wire(v: WorkspaceSymbolParamsView) -> WireValueView {
    WireValueView::Obj(emit_fields(workspace_symbol_params_fields(v)))
}

/// What decoding a wire value as this entity yields. Unknown extra
/// fields are ignored; a missing or ill-shaped field fails.
pub open spec fn workspace_symbol_params_of_wire(w: WireValueView) -> Result<WorkspaceSymbolParamsView, DecodeErrorView> {
    match w {
        WireValueView::Obj(fs) => match req_str(fs, "query"@) {
                Ok(query) => Ok(WorkspaceSymbolParamsView { query }),
                Err(e) => Err(e),
            },
        _ => Err(missing("query"@)),
    }
}

impl WorkspaceSymbolParams {
    pub fn encode(&self) -> (r: WireValue)
        ensures
            r@ == workspace_symbol_params_to_wire(self@),
    {
        let mut table: Vec<(String, Option<WireValue>)> = Vec::new();
        table.push((key_string("query"), Some(WireValue::Str(self.query.clone()))));
        proof {
            assert(table_view(table@) =~= workspace_symbol_params_fields(self@));
        }
        finish_obj(table)
    }

    pub fn decode(w: &WireValue) -> (r: Result<WorkspaceSymbolParams, DecodeError>)
        ensures
            match r {
                Ok(x) => workspace_symbol_params_of_wire(w@) == Ok::<WorkspaceSymbolParamsView, DecodeErrorView>(x@),
                Err(e) => workspace_symbol_params_of_wire(w@) == Err::<WorkspaceSymbolParamsView, DecodeErrorView>(e@),
            },
    {
        let fields = match w {
            WireValue::Obj(fields) => fields,
            _ => {
                return Err(DecodeError::MissingOrInvalidField(key_string("query")));
            },
        };
        let query: String = match wire_obj_get(fields, &key_string("query")) {
            Some(WireValue::Str(s)) => s.clone(),
            _ => {
                return Err(DecodeError::MissingOrInvalidField(key_string("query")));
            },
        };
        Ok(WorkspaceSymbolParams { query })
    }
}

/// Decoding an encoded value of this entity gives the value back.
pub proof fn lemma_workspace_symbol_params_round_trip(v: WorkspaceSymbolParamsView)
    ensures
        workspace_symbol_params_of_wire(workspace_symbol_params_to_wire(v)) == Ok::<WorkspaceSymbolParamsView, DecodeErrorView>(v),
{
    let t = workspace_symbol_params_fields(v);
    assert(distinct_keys(t)) by {
        reveal_strlit("query");
    }
    lemma_emit_fields_get(t, 0);
}

/// A range deserving attention, with an optional kind (consumers read
/// an absent kind as Text).
#[derive(Debug)]
pub struct DocumentHighlight {
    pub range: Range,
    pub kind: Option<DocumentHighlightKind>,
}

/// The mathematical model of this entity.
#[verifier::ext_equal]
pub struct DocumentHighlightView {
    pub range: Range,
    pub kind: Option<DocumentHighlightKind>,
}

impl View for DocumentHighlight {
    type V = DocumentHighlightView;

    open spec fn view(&self) -> DocumentHighlightView {
        DocumentHighlightView {
            range: self.range@,
            kind: self.kind,
        }
    }
}

impl DeepView for DocumentHighlight {
    type V = DocumentHighlightView;

    open spec fn deep_view(&self) -> DocumentHighlightView {
        self.view()
    }
}

/// The field table: each wire key with its value, or `None` where the
/// field's omission policy drops it.
pub open spec fn document_highlight_fields(v: DocumentHighlightView) -> FieldTable {
    seq![
        ("range"@, Some(range_to_wire(v.range))),
        ("kind"@, match v.kind {
                Some(k) => Some(WireValueView::Num(k.code_spec())),
                None => None,
            }),
    ]
}

/// What encoding this entity produces.
pub open spec fn document_highlight_to_wire(v: DocumentHighlightView) -> WireValueView {
    WireValueView::Obj(emit_fields(document_highlight_fields(v)))
}

/// What decoding a wire value as this entity yields. Unknown extra
/// fields are ignored; a missing or ill-shaped field fails.
pub open spec fn document_highlight_of_wire(w: WireValueView) -> Result<DocumentHighlightView, DecodeErrorView> {
    match w {
        WireValueView::Obj(fs) => match req_range(fs, "range"@) {
                Ok(range) => match opt_document_highlight_kind(fs, "kind"@) {
                    Ok(kind) => Ok(DocumentHighlightView { range, kind }),
                    Err(e) => Err(e),
                },
                Err(e) => Err(e),
            },
        _ => Err(missing("range"@)),
    }
}

impl DocumentHighlight {
    pub fn encode(&self) -> (r: WireValue)
        ensures
            r@ == document_highlight_to_wire(self@),
    {
        let mut table: Vec<(String, Option<WireValue>)> = Vec::new();
        table.push((key_string("range"), Some(self.range.encode())));
        table.push((key_string("kind"), match self.kind {
            Some(k) => Some(WireValue::Num(k.code())),
            None => None,
        }));
        proof {
            assert(table_view(table@) =~= document_highlight_fields(self@));
        }
        finish_obj(table)
    }

    pub fn decode(w: &WireValue) -> (r: Result<DocumentHighlight, DecodeError>)
        ensures
            match r {
                Ok(x) => document_highlight_of_wire(w@) == Ok::<DocumentHighlightView, DecodeErrorView>(x@),
                Err(e) => document_highlight_of_wire(w@) == Err::<DocumentHighlightView, DecodeErrorView>(e@),
            },
    {
        let fields = match w {
            WireValue::Obj(fields) => fields,
            _ => {
                return Err(DecodeError::MissingOrInvalidField(key_string("range")));
            },
        };
        let range: Range = match wire_obj_get(fields, &key_string("range")) {
            Some(v) => match Range::decode(v) {
                Ok(x) => x,
                Err(e) => {
                    return Err(e);
                },
            },
            None => {
                return Err(DecodeError::MissingOrInvalidField(key_string("range")));
            },
        };
        let kind: Option<DocumentHighlightKind> = match wire_obj_get_opt(fields, &key_string("kind")) {
            Some(WireValue::Num(n)) => match DocumentHighlightKind::from_code(*n) {
                Ok(k) => Some(k),
                Err(e) => {
                    return Err(e);
                },
            },
            Some(_) => {
                return Err(DecodeError::MissingOrInvalidField(key_string("kind")));
            },
            None => None,
        };
        Ok(DocumentHighlight { range, kind })
    }
}

/// Decoding an encoded value of this entity gives the value back.
pub proof fn lemma_document_highlight_round_trip(v: DocumentHighlightView)
    ensures
        document_highlight_of_wire(document_highlight_to_wire(v)) == Ok::<DocumentHighlightView, DecodeErrorView>(v),
{
    let t = document_highlight_fields(v);
    assert(distinct_keys(t)) by {
        reveal_strlit("range");
        reveal_strlit("kind");
        assert forall|i: int, j: int| 0 <= i < j < t.len() implies t[i].0 != t[j].0 by {
            assert(t[0].0 == "range"@);
            assert(t[1].0 == "kind"@);
        }
    }
    lemma_emit_fields_get(t, 0);
    lemma_emit_fields_get(t, 1);
    lemma_range_round_trip(v.range);
}

/// Whether the declaration itself counts as a reference.
#[derive(Debug)]
pub struct ReferenceContext {
    pub include_declaration: bool,
}

/// The mathematical model of this entity.
#[verifier::ext_equal]
pub struct ReferenceContextView {
    pub include_declaration: bool,
}

impl View for ReferenceContext {
    type V = ReferenceContextView;

    open spec fn view(&self) -> ReferenceContextView {
        ReferenceContextView {
            include_declaration: self.include_declaration,
        }
    }
}

impl DeepView for ReferenceContext {
    type V = ReferenceContextView;

    open spec fn deep_view(&self) -> ReferenceContextView {
        self.view()
    }
}

/// The field table: each wire key with its value, or `None` where the
/// field's omission policy drops it.
pub open spec fn reference_context_fields(v: ReferenceContextView) -> FieldTable {
    seq![
        ("includeDeclaration"@, Some(WireValueView::Bool(v.include_declaration))),
    ]
}

/// What encoding this entity produces.
pub open spec fn reference_context_to_wire(v: ReferenceContextView) -> WireValueView {
    WireValueView::Obj(emit_fields(reference_context_fields(v)))
}

/// What decoding a wire value as this entity yields. Unknown extra
/// fields are ignored; a missing or ill-shaped field fails.
pub open spec fn reference_context_of_wire(w: WireValueView) -> Result<ReferenceContextView, DecodeErrorView> {
    match w {
        WireValueView::Obj(fs) => match req_bool(fs, "includeDeclaration"@) {
                Ok(include_declaration) => Ok(ReferenceContextView { include_declaration }),
                Err(e) => Err(e),
            },
        _ => Err(missing("includeDeclaration"@)),
    }
}

impl ReferenceContext {
    pub fn encode(&self) -> (r: WireValue)
        ensures
            r@ == reference_context_to_wire(self@),
    {
        let mut table: Vec<(String, Option<WireValue>)> = Vec::new();
        table.push((key_string("includeDeclaration"), Some(WireValue::Bool(self.include_declaration))));
        proof {
            assert(table_view(table@) =~= reference_context_fields(self@));
        }
        finish_obj(table)
    }

    pub fn decode(w: &WireValue) -> (r: Result<ReferenceContext, DecodeError>)
        ensures
            match r {
                Ok(x) => reference_context_of_wire(w@) == Ok::<ReferenceContextView, DecodeErrorView>(x@),
                Err(e) => reference_context_of_wire(w@) == Err::<ReferenceContextView, DecodeErrorView>(e@),
            },
    {
        let fields = match w {
            WireValue::Obj(fields) => fields,
            _ => {
                return Err(DecodeError::MissingOrInvalidField(key_string("includeDeclaration")));
            },
        };
        let include_declaration: bool = match wire_obj_get(fields, &key_string("includeDeclaration")) {
            Some(WireValue::Bool(b)) => *b,
            _ => {
                return Err(DecodeError::MissingOrInvalidField(key_string("includeDeclaration")));
            },
        };
        Ok(ReferenceContext { include_declaration })
    }
}

/// Decoding an encoded value of this entity gives the value back.
pub proof fn lemma_reference_context_round_trip(v: ReferenceContextView)
    ensures
        reference_context_of_wire(reference_context_to_wire(v)) == Ok::<ReferenceContextView, DecodeErrorView>(v),
{
    let t = reference_context_fields(v);
    assert(distinct_keys(t)) by {
        reveal_strlit("includeDeclaration");
    }
    lemma_emit_fields_get(t, 0);
}

/// A required field holding this entity.
pub open spec fn req_reference_context(fs: Seq<(Seq<char>, WireValueView)>, key: Seq<char>) -> Result<
    ReferenceContextView,
    DecodeErrorView,
> {
    match obj_get(fs, key) {
        Some(wv) => reference_context_of_wire(wv),
        None => Err(missing(key)),
    }
}

/// Asks for all references to the symbol at a position.
#[derive(Debug)]
pub struct ReferenceParams {
    pub text_document: TextDocumentIdentifier,
    pub position: Position,
    pub context: ReferenceContext,
}

/// The mathematical model of this entity.
#[verifier::ext_equal]
pub struct ReferenceParamsView {
    pub text_document: TextDocumentIdentifierView,
    pub position: Position,
    pub context: ReferenceContextView,
}

impl View for ReferenceParams {
    type V = ReferenceParamsView;

    open spec fn view(&self) -> ReferenceParamsView {
        ReferenceParamsView {
            text_document: self.text_document@,
            position: self.position@,
            context: self.context@,
        }
    }
}

impl DeepView for ReferenceParams {
    type V = ReferenceParamsView;

    open spec fn deep_view(&self) -> ReferenceParamsView {
        self.view()
    }
}

/// The field table: each wire key with its value, or `None` where the
/// field's omission policy drops it.
pub open spec fn reference_params_fields(v: ReferenceParamsView) -> FieldTable {
    seq![
        ("textDocument"@, Some(text_document_identifier_to_wire(v.text_document))),
        ("position"@, Some(position_to_wire(v.position))),
        ("context"@, Some(reference_context_to_wire(v.context))),
    ]
}

/// What encoding this entity produces.
pub open spec fn reference_params_to_wire(v: ReferenceParamsView) -> WireValueView {
    WireValueView::Obj(emit_fields(reference_params_fields(v)))
}

/// What decoding a wire value as this entity yields. Unknown extra
/// fields are ignored; a missing or ill-shaped field fails.
pub open spec fn reference_params_of_wire(w: WireValueView) -> Result<ReferenceParamsView, DecodeErrorView> {
    match w {
        WireValueView::Obj(fs) => match req_text_document_identifier(fs, "textDocument"@) {
                Ok(text_document) => match req_position(fs, "position"@) {
                    Ok(position) => match req_reference_context(fs, "context"@) {
                        Ok(context) => Ok(ReferenceParamsView { text_document, position, context }),
                        Err(e) => Err(e),
                    },
                    Err(e) => Err(e),
                },
                Err(e) => Err(e),
            },
        _ => Err(missing("textDocument"@)),
    }
}

impl ReferenceParams {
    pub fn encode(&self) -> (r: WireValue)
        ensures
            r@ == reference_params_to_wire(self@),
    {
        let mut table: Vec<(String, Option<WireValue>)> = Vec::new();
        table.push((key_string("textDocument"), Some(self.text_document.encode())));
        table.push((key_string("position"), Some(self.position.encode())));
        table.push((key_string("context"), Some(self.context.encode())));
        proof {
            assert(table_view(table@) =~= reference_params_fields(self@));
        }
        finish_obj(table)
    }

    pub fn decode(w: &WireValue) -> (r: Result<ReferenceParams, DecodeError>)
        ensures
            match r {
                Ok(x) => reference_params_of_wire(w@) == Ok::<ReferenceParamsView, DecodeErrorView>(x@),
                Err(e) => reference_params_of_wire(w@) == Err::<ReferenceParamsView, DecodeErrorView>(e@),
            },
    {
        let fields = match w {
            WireValue::Obj(fields) => fields,
            _ => {
                return Err(DecodeError::MissingOrInvalidField(key_string("textDocument")));
            },
        };
        let text_document: TextDocumentIdentifier = match wire_obj_get(fields, &key_string("textDocument")) {
            Some(v) => match TextDocumentIdentifier::decode(v) {
                Ok(x) => x,
                Err(e) => {
                    return Err(e);
                },
            },
            None => {
                return Err(DecodeError::MissingOrInvalidField(key_string("textDocument")));
            },
        };
        let position: Position = match wire_obj_get(fields, &key_string("position")) {
            Some(v) => match Position::decode(v) {
                Ok(x) => x,
                Err(e) => {
                    return Err(e);
                },
            },
            None => {
                return Err(DecodeError::MissingOrInvalidField(key_string("position")));
            },
        };
        let context: ReferenceContext = match wire_obj_get(fields, &key_string("context")) {
            Some(v) => match ReferenceContext::decode(v) {
                Ok(x) => x,
                Err(e) => {
                    return Err(e);
                },
            },
            None => {
                return Err(DecodeError::MissingOrInvalidField(key_string("context")));
            },
        };
        Ok(ReferenceParams { text_document, position, context })
    }
}

/// Decoding an encoded value of this entity gives the value back.
pub proof fn lemma_reference_params_round_trip(v: ReferenceParamsView)
    ensures
        reference_params_of_wire(reference_params_to_wire(v)) == Ok::<ReferenceParamsView, DecodeErrorView>(v),
{
    let t = reference_params_fields(v);
    assert(distinct_keys(t)) by {
        reveal_strlit("textDocument");
        reveal_strlit("position");
        reveal_strlit("context");
        assert forall|i: int, j: int| 0 <= i < j < t.len() implies t[i].0 != t[j].0 by {
            assert(t[0].0 == "textDocument"@);
            assert(t[1].0 == "position"@);
            assert(t[2].0 == "context"@);
        }
    }
    lemma_emit_fields_get(t, 0);
    lemma_emit_fields_get(t, 1);
    lemma_emit_fields_get(t, 2);
    lemma_text_document_identifier_round_trip(v.text_document);
    lemma_position_round_trip(v.position);
    lemma_reference_context_round_trip(v.context);
}

} // verus!
