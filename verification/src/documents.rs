//! Document identity, lifecycle and change entities.

use vstd::prelude::*;
use vstd::string::StrSliceExecFns;
use crate::error::{missing, DecodeError, DecodeErrorView};
use crate::wire::{
    emit_fields, key_string, obj_get, opt_field, FieldTable, WireValue, WireValueView,
    finish_obj, table_view, wire_obj_get, wire_obj_get_opt, distinct_keys,
    lemma_emit_fields_get, wire_arr_view, wire_view, lemma_wire_arr_view,
    duplicate_wire_list, encode_str_list, decode_str_list, str_list_to_wire,
    lemma_str_list_round_trip, req_num, opt_num, req_bool, opt_bool, req_str, opt_str,
    emp_str, emp_str_list, req_raw, opt_raw, emp_arr,
};
use crate::enums::{req_file_change_type, FileChangeType};
use crate::primitives::{
    lemma_position_round_trip, lemma_range_round_trip, opt_range, position_of_wire,
    position_to_wire, range_of_wire, range_to_wire, req_position, Position, Range,
};

verus! {

/// Asks to cancel the request with the given id.
#[derive(Debug)]
pub struct CancelParams {
    pub id: String,
}

/// The mathematical model of this entity.
#[verifier::ext_equal]
pub struct CancelParamsView {
    pub id: Seq<char>,
}

impl View for CancelParams {
    type V = CancelParamsView;

    open spec fn view(&self) -> CancelParamsView {
        CancelParamsView {
            id: self.id@,
        }
    }
}

impl DeepView for CancelParams {
    type V = CancelParamsView;

    open spec fn deep_view(&self) -> CancelParamsView {
        self.view()
    }
}

/// The field table: each wire key with its value, or `None` where the
/// field's omission policy drops it.
pub open spec fn cancel_params_fields(v: CancelParamsView) -> FieldTable {
    seq![
        ("id"@, Some(WireValueView::Str(v.id))),
    ]
}

/// What encoding this entity produces.
pub open spec fn cancel_params_to_wire(v: CancelParamsView) -> WireValueView {
    WireValueView::Obj(emit_fields(cancel_params_fields(v)))
}

/// What decoding a wire value as this entity yields. Unknown extra
/// fields are ignored; a missing or ill-shaped field fails.
pub open spec fn cancel_params_of_wire(w: WireValueView) -> Result<CancelParamsView, DecodeErrorView> {
    match w {
        WireValueView::Obj(fs) => match req_str(fs, "id"@) {
                Ok(id) => Ok(CancelParamsView { id }),
                Err(e) => Err(e),
            },
        _ => Err(missing("id"@)),
    }
}

impl CancelParams {
    pub fn encode(&self) -> (r: WireValue)
        ensures
            r@ == cancel_params_to_wire(self@),
    {
        let mut table: Vec<(String, Option<WireValue>)> = Vec::new();
        table.push((key_string("id"), Some(WireValue::Str(self.id.clone()))));
        proof {
            assert(table_view(table@) =~= cancel_params_fields(self@));
        }
        finish_obj(table)
    }

    pub fn decode(w: &WireValue) -> (r: Result<CancelParams, DecodeError>)
        ensures
            match r {
                Ok(x) => cancel_params_of_wire(w@) == Ok::<CancelParamsView, DecodeErrorView>(x@),
                Err(e) => cancel_params_of_wire(w@) == Err::<CancelParamsView, DecodeErrorView>(e@),
            },
    {
        let fields = match w {
            WireValue::Obj(fields) => fields,
            _ => {
                return Err(DecodeError::MissingOrInvalidField(key_string("id")));
            },
        };
        let id: String = match wire_obj_get(fields, &key_string("id")) {
            Some(WireValue::Str(s)) => s.clone(),
            _ => {
                return Err(DecodeError::MissingOrInvalidField(key_string("id")));
            },
        };
        Ok(CancelParams { id })
    }
}

/// Decoding an encoded value of this entity gives the value back.
pub proof fn lemma_cancel_params_round_trip(v: CancelParamsView)
    ensures
        cancel_params_of_wire(cancel_params_to_wire(v)) == Ok::<CancelParamsView, DecodeErrorView>(v),
{
    let t = cancel_params_fields(v);
    assert(distinct_keys(t)) by {
        reveal_strlit("id");
    }
    lemma_emit_fields_get(t, 0);
}

/// Identifies a text document by its URI.
#[derive(Debug)]
pub struct TextDocumentIdentifier {
    pub uri: String,
}

/// The mathematical model of this entity.
#[verifier::ext_equal]
pub struct TextDocumentIdentifierView {
    pub uri: Seq<char>,
}

impl View for TextDocumentIdentifier {
    type V = TextDocumentIdentifierView;

    open spec fn view(&self) -> TextDocumentIdentifierView {
        TextDocumentIdentifierView {
            uri: self.uri@,
        }
    }
}

impl DeepView for TextDocumentIdentifier {
    type V = TextDocumentIdentifierView;

    open spec fn deep_view(&self) -> TextDocumentIdentifierView {
        self.view()
    }
}

/// The field table: each wire key with its value, or `None` where the
/// field's omission policy drops it.
pub open spec fn text_document_identifier_fields(v: TextDocumentIdentifierView) -> FieldTable {
    seq![
        ("uri"@, Some(WireValueView::Str(v.uri))),
    ]
}

/// What encoding this entity produces.
pub open spec fn text_document_identifier_to_wire(v: TextDocumentIdentifierView) -> WireValueView {
    WireValueView::Obj(emit_fields(text_document_identifier_fields(v)))
}

/// What decoding a wire value as this entity yields. Unknown extra
/// fields are ignored; a missing or ill-shaped field fails.
pub open spec fn text_document_identifier_of_wire(w: WireValueView) -> Result<TextDocumentIdentifierView, DecodeErrorView> {
    match w {
        WireValueView::Obj(fs) => match req_str(fs, "uri"@) {
                Ok(uri) => Ok(TextDocumentIdentifierView { uri }),
                Err(e) => Err(e),
            },
        _ => Err(missing("uri"@)),
    }
}

impl TextDocumentIdentifier {
    pub fn encode(&self) -> (r: WireValue)
        ensures
            r@ == text_document_identifier_to_wire(self@),
    {
        let mut table: Vec<(String, Option<WireValue>)> = Vec::new();
        table.push((key_string("uri"), Some(WireValue::Str(self.uri.clone()))));
        proof {
            assert(table_view(table@) =~= text_document_identifier_fields(self@));
        }
        finish_obj(table)
    }

    pub fn decode(w: &WireValue) -> (r: Result<TextDocumentIdentifier, DecodeError>)
        ensures
            match r {
                Ok(x) => text_document_identifier_of_wire(w@) == Ok::<TextDocumentIdentifierView, DecodeErrorView>(x@),
                Err(e) => text_document_identifier_of_wire(w@) == Err::<TextDocumentIdentifierView, DecodeErrorView>(e@),
            },
    {
        let fields = match w {
            WireValue::Obj(fields) => fields,
            _ => {
                return Err(DecodeError::MissingOrInvalidField(key_string("uri")));
            },
        };
        let uri: String = match wire_obj_get(fields, &key_string("uri")) {
            Some(WireValue::Str(s)) => s.clone(),
            _ => {
                return Err(DecodeError::MissingOrInvalidField(key_string("uri")));
            },
        };
        Ok(TextDocumentIdentifier { uri })
    }
}

/// Decoding an encoded value of this entity gives the value back.
pub proof fn lemma_text_document_identifier_round_trip(v: TextDocumentIdentifierView)
    ensures
        text_document_identifier_of_wire(text_document_identifier_to_wire(v)) == Ok::<TextDocumentIdentifierView, DecodeErrorView>(v),
{
    let t = text_document_identifier_fields(v);
    assert(distinct_keys(t)) by {
        reveal_strlit("uri");
    }
    lemma_emit_fields_get(t, 0);
}

/// A required field holding this entity.
pub open spec fn req_text_document_identifier(fs: Seq<(Seq<char>, WireValueView)>, key: Seq<char>) -> Result<
    TextDocumentIdentifierView,
    DecodeErrorView,
> {
    match obj_get(fs, key) {
        Some(wv) => text_document_identifier_of_wire(wv),
        None => Err(missing(key)),
    }
}

/// Identifies a specific version of a text document.
#[derive(Debug)]
pub struct VersionedTextDocumentIdentifier {
    pub uri: String,
    pub version: u64,
}

/// The mathematical model of this entity.
#[verifier::ext_equal]
pub struct VersionedTextDocumentIdentifierView {
    pub uri: Seq<char>,
    pub version: u64,
}

impl View for VersionedTextDocumentIdentifier {
    type V = VersionedTextDocumentIdentifierView;

    open spec fn view(&self) -> VersionedTextDocumentIdentifierView {
        VersionedTextDocumentIdentifierView {
            uri: self.uri@,
            version: self.version,
        }
    }
}

impl DeepView for VersionedTextDocumentIdentifier {
    type V = VersionedTextDocumentIdentifierView;

    open spec fn deep_view(&self) -> VersionedTextDocumentIdentifierView {
        self.view()
    }
}

/// The field table: each wire key with its value, or `None` where the
/// field's omission policy drops it.
pub open spec fn versioned_text_document_identifier_fields(v: VersionedTextDocumentIdentifierView) -> FieldTable {
    seq![
        ("uri"@, Some(WireValueView::Str(v.uri))),
        ("version"@, Some(WireValueView::Num(v.version))),
    ]
}

/// What encoding this entity produces.
pub open spec fn versioned_text_document_identifier_to_wire(v: VersionedTextDocumentIdentifierView) -> WireValueView {
    WireValueView::Obj(emit_fields(versioned_text_document_identifier_fields(v)))
}

/// What decoding a wire value as this entity yields. Unknown extra
/// fields are ignored; a missing or ill-shaped field fails.
pub open spec fn versioned_text_document_identifier_of_wire(w: WireValueView) -> Result<VersionedTextDocumentIdentifierView, DecodeErrorView> {
    match w {
        WireValueView::Obj(fs) => match req_str(fs, "uri"@) {
                Ok(uri) => match req_num(fs, "version"@) {
                    Ok(version) => Ok(VersionedTextDocumentIdentifierView { uri, version }),
                    Err(e) => Err(e),
                },
                Err(e) => Err(e),
            },
        _ => Err(missing("uri"@)),
    }
}

impl VersionedTextDocumentIdentifier {
    pub fn encode(&self) -> (r: WireValue)
        ensures
            r@ == versioned_text_document_identifier_to_wire(self@),
    {
        let mut table: Vec<(String, Option<WireValue>)> = Vec::new();
        table.push((key_string("uri"), Some(WireValue::Str(self.uri.clone()))));
        table.push((key_string("version"), Some(WireValue::Num(self.version))));
        proof {
            assert(table_view(table@) =~= versioned_text_document_identifier_fields(self@));
        }
        finish_obj(table)
    }

    pub fn decode(w: &WireValue) -> (r: Result<VersionedTextDocumentIdentifier, DecodeError>)
        ensures
            match r {
                Ok(x) => versioned_text_document_identifier_of_wire(w@) == Ok::<VersionedTextDocumentIdentifierView, DecodeErrorView>(x@),
                Err(e) => versioned_text_document_identifier_of_wire(w@) == Err::<VersionedTextDocumentIdentifierView, DecodeErrorView>(e@),
            },
    {
        let fields = match w {
            WireValue::Obj(fields) => fields,
            _ => {
                return Err(DecodeError::MissingOrInvalidField(key_string("uri")));
            },
        };
        let uri: String = match wire_obj_get(fields, &key_string("uri")) {
            Some(WireValue::Str(s)) => s.clone(),
            _ => {
                return Err(DecodeError::MissingOrInvalidField(key_string("uri")));
            },
        };
        let version: u64 = match wire_obj_get(fields, &key_string("version")) {
            Some(WireValue::Num(n)) => *n,
            _ => {
                return Err(DecodeError::MissingOrInvalidField(key_string("version")));
            },
        };
        Ok(VersionedTextDocumentIdentifier { uri, version })
    }
}

/// Decoding an encoded value of this entity gives the value back.
pub proof fn lemma_versioned_text_document_identifier_round_trip(v: VersionedTextDocumentIdentifierView)
    ensures
        versioned_text_document_identifier_of_wire(versioned_text_document_identifier_to_wire(v)) == Ok::<VersionedTextDocumentIdentifierView, DecodeErrorView>(v),
{
    let t = versioned_text_document_identifier_fields(v);
    assert(distinct_keys(t)) by {
        reveal_strlit("uri");
        reveal_strlit("version");
        assert forall|i: int, j: int| 0 <= i < j < t.len() implies t[i].0 != t[j].0 by {
            assert(t[0].0 == "uri"@);
            assert(t[1].0 == "version"@);
        }
    }
    lemma_emit_fields_get(t, 0);
    lemma_emit_fields_get(t, 1);
}

/// A required field holding this entity.
pub open spec fn req_versioned_text_document_identifier(fs: Seq<(Seq<char>, WireValueView)>, key: Seq<char>) -> Result<
    VersionedTextDocumentIdentifierView,
    DecodeErrorView,
> {
    match obj_get(fs, key) {
        Some(wv) => versioned_text_document_identifier_of_wire(wv),
        None => Err(missing(key)),
    }
}

/// A document's full identity and content, sent when it opens.
#[derive(Debug)]
pub struct TextDocumentItem {
    pub uri: String,
    pub language_id: String,
    pub version: u64,
    pub text: String,
}

/// The mathematical model of this entity.
#[verifier::ext_equal]
pub struct TextDocumentItemView {
    pub uri: Seq<char>,
    pub language_id: Seq<char>,
    pub version: u64,
    pub text: Seq<char>,
}

impl View for TextDocumentItem {
    type V = TextDocumentItemView;

    open spec fn view(&self) -> TextDocumentItemView {
        TextDocumentItemView {
            uri: self.uri@,
            language_id: self.language_id@,
            version: self.version,
            text: self.text@,
        }
    }
}

impl DeepView for TextDocumentItem {
    type V = TextDocumentItemView;

    open spec fn deep_view(&self) -> TextDocumentItemView {
        self.view()
    }
}

/// The field table: each wire key with its value, or `None` where the
/// field's omission policy drops it.
pub open spec fn text_document_item_fields(v: TextDocumentItemView) -> FieldTable {
    seq![
        ("uri"@, Some(WireValueView::Str(v.uri))),
        ("languageId"@, Some(WireValueView::Str(v.language_id))),
        ("version"@, Some(WireValueView::Num(v.version))),
        ("text"@, Some(WireValueView::Str(v.text))),
    ]
}

/// What encoding this entity produces.
pub open spec fn text_document_item_to_wire(v: TextDocumentItemView) -> WireValueView {
    WireValueView::Obj(emit_fields(text_document_item_fields(v)))
}

/// What decoding a wire value as this entity yields. Unknown extra
/// fields are ignored; a missing or ill-shaped field fails.
pub open spec fn text_document_item_of_wire(w: WireValueView) -> Result<TextDocumentItemView, DecodeErrorView> {
    match w {
        WireValueView::Obj(fs) => match req_str(fs, "uri"@) {
                Ok(uri) => match req_str(fs, "languageId"@) {
                    Ok(language_id) => match req_num(fs, "version"@) {
                        Ok(version) => match req_str(fs, "text"@) {
                            Ok(text) => Ok(TextDocumentItemView { uri, language_id, version, text }),
                            Err(e) => Err(e),
                        },
                        Err(e) => Err(e),
                    },
                    Err(e) => Err(e),
                },
                Err(e) => Err(e),
            },
        _ => Err(missing("uri"@)),
    }
}

impl TextDocumentItem {
    pub fn encode(&self) -> (r: WireValue)
        ensures
            r@ == text_document_item_to_wire(self@),
    {
        let mut table: Vec<(String, Option<WireValue>)> = Vec::new();
        table.push((key_string("uri"), Some(WireValue::Str(self.uri.clone()))));
        table.push((key_string("languageId"), Some(WireValue::Str(self.language_id.clone()))));
        table.push((key_string("version"), Some(WireValue::Num(self.version))));
        table.push((key_string("text"), Some(WireValue::Str(self.text.clone()))));
        proof {
            assert(table_view(table@) =~= text_document_item_fields(self@));
        }
        finish_obj(table)
    }

    pub fn decode(w: &WireValue) -> (r: Result<TextDocumentItem, DecodeError>)
        ensures
            match r {
                Ok(x) => text_document_item_of_wire(w@) == Ok::<TextDocumentItemView, DecodeErrorView>(x@),
                Err(e) => text_document_item_of_wire(w@) == Err::<TextDocumentItemView, DecodeErrorView>(e@),
            },
    {
        let fields = match w {
            WireValue::Obj(fields) => fields,
            _ => {
                return Err(DecodeError::MissingOrInvalidField(key_string("uri")));
            },
        };
        let uri: String = match wire_obj_get(fields, &key_string("uri")) {
            Some(WireValue::Str(s)) => s.clone(),
            _ => {
                return Err(DecodeError::MissingOrInvalidField(key_string("uri")));
            },
        };
        let language_id: String = match wire_obj_get(fields, &key_string("languageId")) {
            Some(WireValue::Str(s)) => s.clone(),
            _ => {
                return Err(DecodeError::MissingOrInvalidField(key_string("languageId")));
            },
        };
        let version: u64 = match wire_obj_get(fields, &key_string("version")) {
            Some(WireValue::Num(n)) => *n,
            _ => {
                return Err(DecodeError::MissingOrInvalidField(key_string("version")));
            },
        };
        let text: String = match wire_obj_get(fields, &key_string("text")) {
            Some(WireValue::Str(s)) => s.clone(),
            _ => {
                return Err(DecodeError::MissingOrInvalidField(key_string("text")));
            },
        };
        Ok(TextDocumentItem { uri, language_id, version, text })
    }
}

/// Decoding an encoded value of this entity gives the value back.
pub proof fn lemma_text_document_item_round_trip(v: TextDocumentItemView)
    ensures
        text_document_item_of_wire(text_document_item_to_wire(v)) == Ok::<TextDocumentItemView, DecodeErrorView>(v),
{
    let t = text_document_item_fields(v);
    assert(distinct_keys(t)) by {
        reveal_strlit("uri");
        reveal_strlit("languageId");
        reveal_strlit("version");
        reveal_strlit("text");
        assert forall|i: int, j: int| 0 <= i < j < t.len() implies t[i].0 != t[j].0 by {
            assert(t[0].0 == "uri"@);
            assert(t[1].0 == "languageId"@);
            assert(t[2].0 == "version"@);
            assert(t[3].0 == "text"@);
        }
    }
    lemma_emit_fields_get(t, 0);
    lemma_emit_fields_get(t, 1);
    lemma_emit_fields_get(t, 2);
    lemma_emit_fields_get(t, 3);
}

/// A required field holding this entity.
pub open spec fn req_text_document_item(fs: Seq<(Seq<char>, WireValueView)>, key: Seq<char>) -> Result<
    TextDocumentItemView,
    DecodeErrorView,
> {
    match obj_get(fs, key) {
        Some(wv) => text_document_item_of_wire(wv),
        None => Err(missing(key)),
    }
}

/// A text document and a position inside it.
#[derive(Debug)]
pub struct TextDocumentPositionParams {
    pub text_document: TextDocumentIdentifier,
    pub position: Position,
}

/// The mathematical model of this entity.
#[verifier::ext_equal]
pub struct TextDocumentPositionParamsView {
    pub text_document: TextDocumentIdentifierView,
    pub position: Position,
}

impl View for TextDocumentPositionParams {
    type V = TextDocumentPositionParamsView;

    open spec fn view(&self) -> TextDocumentPositionParamsView {
        TextDocumentPositionParamsView {
            text_document: self.text_document@,
            position: self.position@,
        }
    }
}

impl DeepView for TextDocumentPositionParams {
    type V = TextDocumentPositionParamsView;

    open spec fn deep_view(&self) -> TextDocumentPositionParamsView {
        self.view()
    }
}

/// The field table: each wire key with its value, or `None` where the
/// field's omission policy drops it.
pub open spec fn text_document_position_params_fields(v: TextDocumentPositionParamsView) -> FieldTable {
    seq![
        ("textDocument"@, Some(text_document_identifier_to_wire(v.text_document))),
        ("position"@, Some(position_to_wire(v.position))),
    ]
}

/// What encoding this entity produces.
pub open spec fn text_document_position_params_to_wire(v: TextDocumentPositionParamsView) -> WireValueView {
    WireValueView::Obj(emit_fields(text_document_position_params_fields(v)))
}

/// What decoding a wire value as this entity yields. Unknown extra
/// fields are ignored; a missing or ill-shaped field fails.
pub open spec fn text_document_position_params_of_wire(w: WireValueView) -> Result<TextDocumentPositionParamsView, DecodeErrorView> {
    match w {
        WireValueView::Obj(fs) => match req_text_document_identifier(fs, "textDocument"@) {
                Ok(text_document) => match req_position(fs, "position"@) {
                    Ok(position) => Ok(TextDocumentPositionParamsView { text_document, position }),
                    Err(e) => Err(e),
                },
                Err(e) => Err(e),
            },
        _ => Err(missing("textDocument"@)),
    }
}

impl TextDocumentPositionParams {
    pub fn encode(&self) -> (r: WireValue)
        ensures
            r@ == text_document_position_params_to_wire(self@),
    {
        let mut table: Vec<(String, Option<WireValue>)> = Vec::new();
        table.push((key_string("textDocument"), Some(self.text_document.encode())));
        table.push((key_string("position"), Some(self.position.encode())));
        proof {
            assert(table_view(table@) =~= text_document_position_params_fields(self@));
        }
        finish_obj(table)
    }

    pub fn decode(w: &WireValue) -> (r: Result<TextDocumentPositionParams, DecodeError>)
        ensures
            match r {
                Ok(x) => text_document_position_params_of_wire(w@) == Ok::<TextDocumentPositionParamsView, DecodeErrorView>(x@),
                Err(e) => text_document_position_params_of_wire(w@) == Err::<TextDocumentPositionParamsView, DecodeErrorView>(e@),
            },
    {
        let fields = match w {
            WireValue::Obj(fields) => fields,
            _ => {
                return Err(DecodeError::MissingOrInvalidField(key_string("textDocument")));
            },
        };
        let text_document: TextDocumentIdentifier = match wire_obj_get(fields, &key_string("textDocument")) {
            Some(v) => match TextDocumentIdentifier::decode(v) {
                Ok(x) => x,
                Err(e) => {
                    return Err(e);
                },
            },
            None => {
                return Err(DecodeError::MissingOrInvalidField(key_string("textDocument")));
            },
        };
        let position: Position = match wire_obj_get(fields, &key_string("position")) {
            Some(v) => match Position::decode(v) {
                Ok(x) => x,
                Err(e) => {
                    return Err(e);
                },
            },
            None => {
                return Err(DecodeError::MissingOrInvalidField(key_string("position")));
            },
        };
        Ok(TextDocumentPositionParams { text_document, position })
    }
}

/// Decoding an encoded value of this entity gives the value back.
pub proof fn lemma_text_document_position_params_round_trip(v: TextDocumentPositionParamsView)
    ensures
        text_document_position_params_of_wire(text_document_position_params_to_wire(v)) == Ok::<TextDocumentPositionParamsView, DecodeErrorView>(v),
{
    let t = text_document_position_params_fields(v);
    assert(distinct_keys(t)) by {
        reveal_strlit("textDocument");
        reveal_strlit("position");
        assert forall|i: int, j: int| 0 <= i < j < t.len() implies t[i].0 != t[j].0 by {
            assert(t[0].0 == "textDocument"@);
            assert(t[1].0 == "position"@);
        }
    }
    lemma_emit_fields_get(t, 0);
    lemma_emit_fields_get(t, 1);
    lemma_text_document_identifier_round_trip(v.text_document);
    lemma_position_round_trip(v.position);
}

/// Notifies that a document was opened.
#[derive(Debug)]
pub struct DidOpenTextDocumentParams {
    pub text_document: TextDocumentItem,
}

/// The mathematical model of this entity.
#[verifier::ext_equal]
pub struct DidOpenTextDocumentParamsView {
    pub text_document: TextDocumentItemView,
}

impl View for DidOpenTextDocumentParams {
    type V = DidOpenTextDocumentParamsView;

    open spec fn view(&self) -> DidOpenTextDocumentParamsView {
        DidOpenTextDocumentParamsView {
            text_document: self.text_document@,
        }
    }
}

impl DeepView for DidOpenTextDocumentParams {
    type V = DidOpenTextDocumentParamsView;

    open spec fn deep_view(&self) -> DidOpenTextDocumentParamsView {
        self.view()
    }
}

/// The field table: each wire key with its value, or `None` where the
/// field's omission policy drops it.
pub open spec fn did_open_text_document_params_fields(v: DidOpenTextDocumentParamsView) -> FieldTable {
    seq![
        ("textDocument"@, Some(text_document_item_to_wire(v.text_document))),
    ]
}

/// What encoding this entity produces.
pub open spec fn did_open_text_document_params_to_wire(v: DidOpenTextDocumentParamsView) -> WireValueView {
    WireValueView::Obj(emit_fields(did_open_text_document_params_fields(v)))
}

/// What decoding a wire value as this entity yields. Unknown extra
/// fields are ignored; a missing or ill-shaped field fails.
pub open spec fn did_open_text_document_params_of_wire(w: WireValueView) -> Result<DidOpenTextDocumentParamsView, DecodeErrorView> {
    match w {
        WireValueView::Obj(fs) => match req_text_document_item(fs, "textDocument"@) {
                Ok(text_document) => Ok(DidOpenTextDocumentParamsView { text_document }),
                Err(e) => Err(e),
            },
        _ => Err(missing("textDocument"@)),
    }
}

impl DidOpenTextDocumentParams {
    pub fn encode(&self) -> (r: WireValue)
        ensures
            r@ == did_open_text_document_params_to_wire(self@),
    {
        let mut table: Vec<(String, Option<WireValue>)> = Vec::new();
        table.push((key_string("textDocument"), Some(self.text_document.encode())));
        proof {
            assert(table_view(table@) =~= did_open_text_document_params_fields(self@));
        }
        finish_obj(table)
    }

    pub fn decode(w: &WireValue) -> (r: Result<DidOpenTextDocumentParams, DecodeError>)
        ensures
            match r {
                Ok(x) => did_open_text_document_params_of_wire(w@) == Ok::<DidOpenTextDocumentParamsView, DecodeErrorView>(x@),
                Err(e) => did_open_text_document_params_of_wire(w@) == Err::<DidOpenTextDocumentParamsView, DecodeErrorView>(e@),
            },
    {
        let fields = match w {
            WireValue::Obj(fields) => fields,
            _ => {
                return Err(DecodeError::MissingOrInvalidField(key_string("textDocument")));
            },
        };
        let text_document: TextDocumentItem = match wire_obj_get(fields, &key_string("textDocument")) {
            Some(v) => match TextDocumentItem::decode(v) {
                Ok(x) => x,
                Err(e) => {
                    return Err(e);
                },
            },
            None => {
                return Err(DecodeError::MissingOrInvalidField(key_string("textDocument")));
            },
        };
        Ok(DidOpenTextDocumentParams { text_document })
    }
}

/// Decoding an encoded value of this entity gives the value back.
pub proof fn lemma_did_open_text_document_params_round_trip(v: DidOpenTextDocumentParamsView)
    ensures
        did_open_text_document_params_of_wire(did_open_text_document_params_to_wire(v)) == Ok::<DidOpenTextDocumentParamsView, DecodeErrorView>(v),
{
    let t = did_open_text_document_params_fields(v);
    assert(distinct_keys(t)) by {
        reveal_strlit("textDocument");
    }
    lemma_emit_fields_get(t, 0);
    lemma_text_document_item_round_trip(v.text_document);
}

/// Notifies that a document was closed.
#[derive(Debug)]
pub struct DidCloseTextDocumentParams {
    pub text_document: TextDocumentIdentifier,
}

/// The mathematical model of this entity.
#[verifier::ext_equal]
pub struct DidCloseTextDocumentParamsView {
    pub text_document: TextDocumentIdentifierView,
}

impl View for DidCloseTextDocumentParams {
    type V = DidCloseTextDocumentParamsView;

    open spec fn view(&self) -> DidCloseTextDocumentParamsView {
        DidCloseTextDocumentParamsView {
            text_document: self.text_document@,
        }
    }
}

impl DeepView for DidCloseTextDocumentParams {
    type V = DidCloseTextDocumentParamsView;

    open spec fn deep_view(&self) -> DidCloseTextDocumentParamsView {
        self.view()
    }
}

/// The field table: each wire key with its value, or `None` where the
/// field's omission policy drops it.
pub open spec fn did_close_text_document_params_fields(v: DidCloseTextDocumentParamsView) -> FieldTable {
    seq![
        ("textDocument"@, Some(text_document_identifier_to_wire(v.text_document))),
    ]
}

/// What encoding this entity produces.
pub open spec fn did_close_text_document_params_to_wire(v: DidCloseTextDocumentParamsView) -> WireValueView {
    WireValueView::Obj(emit_fields(did_close_text_document_params_fields(v)))
}

/// What decoding a wire value as this entity yields. Unknown extra
/// fields are ignored; a missing or ill-shaped field fails.
pub open spec fn did_close_text_document_params_of_wire(w: WireValueView) -> Result<DidCloseTextDocumentParamsView, DecodeErrorView> {
    match w {
        WireValueView::Obj(fs) => match req_text_document_identifier(fs, "textDocument"@) {
                Ok(text_document) => Ok(DidCloseTextDocumentParamsView { text_document }),
                Err(e) => Err(e),
            },
        _ => Err(missing("textDocument"@)),
    }
}

impl DidCloseTextDocumentParams {
    pub fn encode(&self) -> (r: WireValue)
        ensures
            r@ == did_close_text_document_params_to_wire(self@),
    {
        let mut table: Vec<(String, Option<WireValue>)> = Vec::new();
        table.push((key_string("textDocument"), Some(self.text_document.encode())));
        proof {
            assert(table_view(table@) =~= did_close_text_document_params_fields(self@));
        }
        finish_obj(table)
    }

    pub fn decode(w: &WireValue) -> (r: Result<DidCloseTextDocumentParams, DecodeError>)
        ensures
            match r {
                Ok(x) => did_close_text_document_params_of_wire(w@) == Ok::<DidCloseTextDocumentParamsView, DecodeErrorView>(x@),
                Err(e) => did_close_text_document_params_of_wire(w@) == Err::<DidCloseTextDocumentParamsView, DecodeErrorView>(e@),
            },
    {
        let fields = match w {
            WireValue::Obj(fields) => fields,
            _ => {
                return Err(DecodeError::MissingOrInvalidField(key_string("textDocument")));
            },
        };
        let text_document: TextDocumentIdentifier = match wire_obj_get(fields, &key_string("textDocument")) {
            Some(v) => match TextDocumentIdentifier::decode(v) {
                Ok(x) => x,
                Err(e) => {
                    return Err(e);
                },
            },
            None => {
                return Err(DecodeError::MissingOrInvalidField(key_string("textDocument")));
            },
        };
        Ok(DidCloseTextDocumentParams { text_document })
    }
}

/// Decoding an encoded value of this entity gives the value back.
pub proof fn lemma_did_close_text_document_params_round_trip(v: DidCloseTextDocumentParamsView)
    ensures
        did_close_text_document_params_of_wire(did_close_text_document_params_to_wire(v)) == Ok::<DidCloseTextDocumentParamsView, DecodeErrorView>(v),
{
    let t = did_close_text_document_params_fields(v);
    assert(distinct_keys(t)) by {
        reveal_strlit("textDocument");
    }
    lemma_emit_fields_get(t, 0);
    lemma_text_document_identifier_round_trip(v.text_document);
}

/// Notifies that a document was saved.
#[derive(Debug)]
pub struct DidSaveTextDocumentParams {
    pub text_document: TextDocumentIdentifier,
}

/// The mathematical model of this entity.
#[verifier::ext_equal]
pub struct DidSaveTextDocumentParamsView {
    pub text_document: TextDocumentIdentifierView,
}

impl View for DidSaveTextDocumentParams {
    type V = DidSaveTextDocumentParamsView;

    open spec fn view(&self) -> DidSaveTextDocumentParamsView {
        DidSaveTextDocumentParamsView {
            text_document: self.text_document@,
        }
    }
}

impl DeepView for DidSaveTextDocumentParams {
    type V = DidSaveTextDocumentParamsView;

    open spec fn deep_view(&self) -> DidSaveTextDocumentParamsView {
        self.view()
    }
}

/// The field table: each wire key with its value, or `None` where the
/// field's omission policy drops it.
pub open spec fn did_save_text_document_params_fields(v: DidSaveTextDocumentParamsView) -> FieldTable {
    seq![
        ("textDocument"@, Some(text_document_identifier_to_wire(v.text_document))),
    ]
}

/// What encoding this entity produces.
pub open spec fn did_save_text_document_params_to_wire(v: DidSaveTextDocumentParamsView) -> WireValueView {
    WireValueView::Obj(emit_fields(did_save_text_document_params_fields(v)))
}

/// What decoding a wire value as this entity yields. Unknown extra
/// fields are ignored; a missing or ill-shaped field fails.
pub open spec fn did_save_text_document_params_of_wire(w: WireValueView) -> Result<DidSaveTextDocumentParamsView, DecodeErrorView> {
    match w {
        WireValueView::Obj(fs) => match req_text_document_identifier(fs, "textDocument"@) {
                Ok(text_document) => Ok(DidSaveTextDocumentParamsView { text_document }),
                Err(e) => Err(e),
            },
        _ => Err(missing("textDocument"@)),
    }
}

impl DidSaveTextDocumentParams {
    pub fn encode(&self) -> (r: WireValue)
        ensures
            r@ == did_save_text_document_params_to_wire(self@),
    {
        let mut table: Vec<(String, Option<WireValue>)> = Vec::new();
        table.push((key_string("textDocument"), Some(self.text_document.encode())));
        proof {
            assert(table_view(table@) =~= did_save_text_document_params_fields(self@));
        }
        finish_obj(table)
    }

    pub fn decode(w: &WireValue) -> (r: Result<DidSaveTextDocumentParams, DecodeError>)
        ensures
            match r {
                Ok(x) => did_save_text_document_params_of_wire(w@) == Ok::<DidSaveTextDocumentParamsView, DecodeErrorView>(x@),
                Err(e) => did_save_text_document_params_of_wire(w@) == Err::<DidSaveTextDocumentParamsView, DecodeErrorView>(e@),
            },
    {
        let fields = match w {
            WireValue::Obj(fields) => fields,
            _ => {
                return Err(DecodeError::MissingOrInvalidField(key_string("textDocument")));
            },
        };
        let text_document: TextDocumentIdentifier = match wire_obj_get(fields, &key_string("textDocument")) {
            Some(v) => match TextDocumentIdentifier::decode(v) {
                Ok(x) => x,
                Err(e) => {
                    return Err(e);
                },
            },
            None => {
                return Err(DecodeError::MissingOrInvalidField(key_string("textDocument")));
            },
        };
        Ok(DidSaveTextDocumentParams { text_document })
    }
}

/// Decoding an encoded value of this entity gives the value back.
pub proof fn lemma_did_save_text_document_params_round_trip(v: DidSaveTextDocumentParamsView)
    ensures
        did_save_text_document_params_of_wire(did_save_text_document_params_to_wire(v)) == Ok::<DidSaveTextDocumentParamsView, DecodeErrorView>(v),
{
    let t = did_save_text_document_params_fields(v);
    assert(distinct_keys(t)) by {
        reveal_strlit("textDocument");
    }
    lemma_emit_fields_get(t, 0);
    lemma_text_document_identifier_round_trip(v.text_document);
}

/// One change to a text document: with a range it is an incremental
/// edit, without one the text is the entire new document content.
#[derive(Debug)]
pub struct TextDocumentContentChangeEvent {
    pub range: Option<Range>,
    pub range_length: Option<u64>,
    pub text: String,
}

/// The mathematical model of this entity.
#[verifier::ext_equal]
pub struct TextDocumentContentChangeEventView {
    pub range: Option<Range>,
    pub range_length: Option<u64>,
    pub text: Seq<char>,
}

impl View for TextDocumentContentChangeEvent {
    type V = TextDocumentContentChangeEventView;

    open spec fn view(&self) -> TextDocumentContentChangeEventView {
        TextDocumentContentChangeEventView {
            range: match self.range {
                Some(x) => Some(x@),
                None => None,
            },
            range_length: self.range_length,
            text: self.text@,
        }
    }
}

impl DeepView for TextDocumentContentChangeEvent {
    type V = TextDocumentContentChangeEventView;

    open spec fn deep_view(&self) -> TextDocumentContentChangeEventView {
        self.view()
    }
}

/// The field table: each wire key with its value, or `None` where the
/// field's omission policy drops it.
pub open spec fn text_document_content_change_event_fields(v: TextDocumentContentChangeEventView) -> FieldTable {
    seq![
        ("range"@, match v.range {
                Some(x) => Some(range_to_wire(x)),
                None => None,
            }),
        ("rangeLength"@, match v.range_length {
                Some(n) => Some(WireValueView::Num(n)),
                None => None,
            }),
        ("text"@, Some(WireValueView::Str(v.text))),
    ]
}

/// What encoding this entity produces.
pub open spec fn text_document_content_change_event_to_wire(v: TextDocumentContentChangeEventView) -> WireValueView {
    WireValueView::Obj(emit_fields(text_document_content_change_event_fields(v)))
}

/// What decoding a wire value as this entity yields. Unknown extra
/// fields are ignored; a missing or ill-shaped field fails.
pub open spec fn text_document_content_change_event_of_wire(w: WireValueView) -> Result<TextDocumentContentChangeEventView, DecodeErrorView> {
    match w {
        WireValueView::Obj(fs) => match opt_range(fs, "range"@) {
                Ok(range) => match opt_num(fs, "rangeLength"@) {
                    Ok(range_length) => match req_str(fs, "text"@) {
                        Ok(text) => Ok(TextDocumentContentChangeEventView { range, range_length, text }),
                        Err(e) => Err(e),
                    },
                    Err(e) => Err(e),
                },
                Err(e) => Err(e),
            },
        _ => Err(missing("range"@)),
    }
}

impl TextDocumentContentChangeEvent {
    pub fn encode(&self) -> (r: WireValue)
        ensures
            r@ == text_document_content_change_event_to_wire(self@),
    {
        let mut table: Vec<(String, Option<WireValue>)> = Vec::new();
        table.push((key_string("range"), match &self.range {
            Some(x) => Some(x.encode()),
            None => None,
        }));
        table.push((key_string("rangeLength"), match self.range_length {
            Some(n) => Some(WireValue::Num(n)),
            None => None,
        }));
        table.push((key_string("text"), Some(WireValue::Str(self.text.clone()))));
        proof {
            assert(table_view(table@) =~= text_document_content_change_event_fields(self@));
        }
        finish_obj(table)
    }

    pub fn decode(w: &WireValue) -> (r: Result<TextDocumentContentChangeEvent, DecodeError>)
        ensures
            match r {
                Ok(x) => text_document_content_change_event_of_wire(w@) == Ok::<TextDocumentContentChangeEventView, DecodeErrorView>(x@),
                Err(e) => text_document_content_change_event_of_wire(w@) == Err::<TextDocumentContentChangeEventView, DecodeErrorView>(e@),
            },
    {
        let fields = match w {
            WireValue::Obj(fields) => fields,
            _ => {
                return Err(DecodeError::MissingOrInvalidField(key_string("range")));
            },
        };
        let range: Option<Range> = match wire_obj_get_opt(fields, &key_string("range")) {
            Some(v) => match Range::decode(v) {
                Ok(x) => Some(x),
                Err(e) => {
                    return Err(e);
                },
            },
            None => None,
        };
        let range_length: Option<u64> = match wire_obj_get_opt(fields, &key_string("rangeLength")) {
            Some(WireValue::Num(n)) => Some(*n),
            Some(_) => {
                return Err(DecodeError::MissingOrInvalidField(key_string("rangeLength")));
            },
            None => None,
        };
        let text: String = match wire_obj_get(fields, &key_string("text")) {
            Some(WireValue::Str(s)) => s.clone(),
            _ => {
                return Err(DecodeError::MissingOrInvalidField(key_string("text")));
            },
        };
        Ok(TextDocumentContentChangeEvent { range, range_length, text })
    }
}

/// Decoding an encoded value of this entity gives the value back.
pub proof fn lemma_text_document_content_change_event_round_trip(v: TextDocumentContentChangeEventView)
    ensures
        text_document_content_change_event_of_wire(text_document_content_change_event_to_wire(v)) == Ok::<TextDocumentContentChangeEventView, DecodeErrorView>(v),
{
    let t = text_document_content_change_event_fields(v);
    assert(distinct_keys(t)) by {
        reveal_strlit("range");
        reveal_strlit("rangeLength");
        reveal_strlit("text");
        assert forall|i: int, j: int| 0 <= i < j < t.len() implies t[i].0 != t[j].0 by {
            assert(t[0].0 == "range"@);
            assert(t[1].0 == "rangeLength"@);
            assert(t[2].0 == "text"@);
        }
    }
    lemma_emit_fields_get(t, 0);
    lemma_emit_fields_get(t, 1);
    lemma_emit_fields_get(t, 2);
    match v.range {
        Some(x) => lemma_range_round_trip(x),
        None => (),
    }
}

/// What encoding a list of these entities produces, element for element.
pub open spec fn text_document_content_change_event_list_to_wire(s: Seq<TextDocumentContentChangeEventView>) -> Seq<WireValueView>
    decreases s.len(),
{
    if s.len() == 0 {
        Seq::empty()
    } else {
        seq![text_document_content_change_event_to_wire(s[0])] + text_document_content_change_event_list_to_wire(s.drop_first())
    }
}

/// What decoding a list of these entities yields: the first ill-shaped
/// element fails the whole list.
pub open spec fn text_document_content_change_event_list_of_wire(elems: Seq<WireValueView>) -> Result<
    Seq<TextDocumentContentChangeEventView>,
    DecodeErrorView,
>
    decreases elems.len(),
{
    if elems.len() == 0 {
        Ok(Seq::empty())
    } else {
        match text_document_content_change_event_of_wire(elems[0]) {
            Ok(x) => match text_document_content_change_event_list_of_wire(elems.drop_first()) {
                Ok(rest) => Ok(seq![x] + rest),
                Err(e) => Err(e),
            },
            Err(e) => Err(e),
        }
    }
}

/// The elements of an encoded list, pointwise.
pub proof fn lemma_text_document_content_change_event_list_pointwise(s: Seq<TextDocumentContentChangeEventView>)
    ensures
        text_document_content_change_event_list_to_wire(s).len() == s.len(),
        forall|i: int|
            0 <= i < s.len() ==> #[trigger] text_document_content_change_event_list_to_wire(s)[i] == text_document_content_change_event_to_wire(s[i]),
    decreases s.len(),
{
    if s.len() > 0 {
        lemma_text_document_content_change_event_list_pointwise(s.drop_first());
    }
}

/// Decoding an encoded list gives the list back.
pub proof fn lemma_text_document_content_change_event_list_round_trip(s: Seq<TextDocumentContentChangeEventView>)
    ensures
        text_document_content_change_event_list_of_wire(text_document_content_change_event_list_to_wire(s)) == Ok::<Seq<TextDocumentContentChangeEventView>, DecodeErrorView>(s),
    decreases s.len(),
{
    if s.len() == 0 {
        assert(s =~= Seq::<TextDocumentContentChangeEventView>::empty());
    } else {
        lemma_text_document_content_change_event_round_trip(s[0]);
        lemma_text_document_content_change_event_list_round_trip(s.drop_first());
        let m = text_document_content_change_event_list_to_wire(s);
        assert(m[0] == text_document_content_change_event_to_wire(s[0]));
        assert(m.drop_first() =~= text_document_content_change_event_list_to_wire(s.drop_first()));
        assert(seq![s[0]] + s.drop_first() =~= s);
    }
}

/// Encodes a list of these entities, element for element.
pub fn text_document_content_change_event_list_encode(xs: &Vec<TextDocumentContentChangeEvent>) -> (r: Vec<WireValue>)
    ensures
        wire_arr_view(r@) == text_document_content_change_event_list_to_wire(xs.deep_view()),
        r@.len() == xs@.len(),
{
    let n: usize = xs.len();
    let mut out: Vec<WireValue> = Vec::new();
    let mut i: usize = 0;
    while i < n
        invariant
            n == xs@.len(),
            0 <= i <= n,
            out@.len() == i,
            forall|j: int| 0 <= j < i ==> wire_view(#[trigger] out@[j]) == text_document_content_change_event_to_wire(
                xs@[j]@,
            ),
        decreases n - i,
    {
        out.push(xs[i].encode());
        i = i + 1;
    }
    proof {
        lemma_wire_arr_view(out@);
        lemma_text_document_content_change_event_list_pointwise(xs.deep_view());
        assert(wire_arr_view(out@) =~= text_document_content_change_event_list_to_wire(xs.deep_view()));
    }
    out
}

/// Decodes a list of these entities, element for element.
pub fn text_document_content_change_event_list_decode(items: &Vec<WireValue>) -> (r: Result<Vec<TextDocumentContentChangeEvent>, DecodeError>)
    ensures
        match r {
            Ok(v) => text_document_content_change_event_list_of_wire(wire_arr_view(items@)) == Ok::<
                Seq<TextDocumentContentChangeEventView>,
                DecodeErrorView,
            >(v.deep_view()),
            Err(e) => text_document_content_change_event_list_of_wire(wire_arr_view(items@)) == Err::<
                Seq<TextDocumentContentChangeEventView>,
                DecodeErrorView,
            >(e@),
        },
{
    let ghost ev = wire_arr_view(items@);
    proof {
        lemma_wire_arr_view(items@);
        assert(ev.skip(0) =~= ev);
    }
    let n: usize = items.len();
    let mut out: Vec<TextDocumentContentChangeEvent> = Vec::new();
    let mut i: usize = 0;
    while i < n
        invariant
            n == items@.len(),
            ev == wire_arr_view(items@),
            ev.len() == n,
            forall|j: int| 0 <= j < n ==> #[trigger] ev[j] == wire_view(items@[j]),
            0 <= i <= n,
            out.deep_view().len() == i,
            text_document_content_change_event_list_of_wire(ev) == (match text_document_content_change_event_list_of_wire(ev.skip(i as int)) {
                Ok(rest) => Ok::<Seq<TextDocumentContentChangeEventView>, DecodeErrorView>(out.deep_view() + rest),
                Err(e) => Err::<Seq<TextDocumentContentChangeEventView>, DecodeErrorView>(e),
            }),
        decreases n - i,
    {
        proof {
            assert(ev.skip(i as int)[0] == ev[i as int]);
            assert(ev.skip(i as int).drop_first() =~= ev.skip(i + 1));
        }
        let ghost prev = out.deep_view();
        match TextDocumentContentChangeEvent::decode(&items[i]) {
            Ok(x) => {
                out.push(x);
                proof {
                    assert(out.deep_view() =~= prev.push(x@));
                    assert(forall|rest: Seq<TextDocumentContentChangeEventView>|
                        prev + (#[trigger] (seq![x@] + rest)) =~= out.deep_view() + rest);
                }
            },
            Err(e) => {
                return Err(e);
            },
        }
        i = i + 1;
    }
    proof {
        assert(ev.skip(n as int) =~= Seq::<WireValueView>::empty());
        assert(out.deep_view() + Seq::<TextDocumentContentChangeEventView>::empty() =~= out.deep_view());
    }
    Ok(out)
}

/// A required field holding a list of these entities.
pub open spec fn req_text_document_content_change_event_list(fs: Seq<(Seq<char>, WireValueView)>, key: Seq<char>) -> Result<
    Seq<TextDocumentContentChangeEventView>,
    DecodeErrorView,
> {
    match obj_get(fs, key) {
        Some(WireValueView::Arr(elems)) => text_document_content_change_event_list_of_wire(elems),
        _ => Err(missing(key)),
    }
}

/// An omit-when-empty field holding a list of these entities.
pub open spec fn emp_text_document_content_change_event_list(fs: Seq<(Seq<char>, WireValueView)>, key: Seq<char>) -> Result<
    Seq<TextDocumentContentChangeEventView>,
    DecodeErrorView,
> {
    match opt_field(fs, key) {
        Some(WireValueView::Arr(elems)) => text_document_content_change_event_list_of_wire(elems),
        Some(_) => Err(missing(key)),
        None => Ok(Seq::empty()),
    }
}

/// Notifies that a document changed; the version is the one after all
/// the listed changes have been applied.
#[derive(Debug)]
pub struct DidChangeTextDocumentParams {
    pub text_document: VersionedTextDocumentIdentifier,
    pub content_changes: Vec<TextDocumentContentChangeEvent>,
}

/// The mathematical model of this entity.
#[verifier::ext_equal]
pub struct DidChangeTextDocumentParamsView {
    pub text_document: VersionedTextDocumentIdentifierView,
    pub content_changes: Seq<TextDocumentContentChangeEventView>,
}

impl View for DidChangeTextDocumentParams {
    type V = DidChangeTextDocumentParamsView;

    open spec fn view(&self) -> DidChangeTextDocumentParamsView {
        DidChangeTextDocumentParamsView {
            text_document: self.text_document@,
            content_changes: self.content_changes.deep_view(),
        }
    }
}

impl DeepView for DidChangeTextDocumentParams {
    type V = DidChangeTextDocumentParamsView;

    open spec fn deep_view(&self) -> DidChangeTextDocumentParamsView {
        self.view()
    }
}

/// The field table: each wire key with its value, or `None` where the
/// field's omission policy drops it.
pub open spec fn did_change_text_document_params_fields(v: DidChangeTextDocumentParamsView) -> FieldTable {
    seq![
        ("textDocument"@, Some(versioned_text_document_identifier_to_wire(v.text_document))),
        ("contentChanges"@, Some(WireValueView::Arr(text_document_content_change_event_list_to_wire(v.content_changes)))),
    ]
}

/// What encoding this entity produces.
pub open spec fn did_change_text_document_params_to_wire(v: DidChangeTextDocumentParamsView) -> WireValueView {
    WireValueView::Obj(emit_fields(did_change_text_document_params_fields(v)))
}

/// What decoding a wire value as this entity yields. Unknown extra
/// fields are ignored; a missing or ill-shaped field fails.
pub open spec fn did_change_text_document_params_of_wire(w: WireValueView) -> Result<DidChangeTextDocumentParamsView, DecodeErrorView> {
    match w {
        WireValueView::Obj(fs) => match req_versioned_text_document_identifier(fs, "textDocument"@) {
                Ok(text_document) => match req_text_document_content_change_event_list(fs, "contentChanges"@) {
                    Ok(content_changes) => Ok(DidChangeTextDocumentParamsView { text_document, content_changes }),
                    Err(e) => Err(e),
                },
                Err(e) => Err(e),
            },
        _ => Err(missing("textDocument"@)),
    }
}

impl DidChangeTextDocumentParams {
    pub fn encode(&self) -> (r: WireValue)
        ensures
            r@ == did_change_text_document_params_to_wire(self@),
    {
        let mut table: Vec<(String, Option<WireValue>)> = Vec::new();
        table.push((key_string("textDocument"), Some(self.text_document.encode())));
        table.push((key_string("contentChanges"), Some(WireValue::Arr(text_document_content_change_event_list_encode(&self.content_changes)))));
        proof {
            assert(table_view(table@) =~= did_change_text_document_params_fields(self@));
        }
        finish_obj(table)
    }

    pub fn decode(w: &WireValue) -> (r: Result<DidChangeTextDocumentParams, DecodeError>)
        ensures
            match r {
                Ok(x) => did_change_text_document_params_of_wire(w@) == Ok::<DidChangeTextDocumentParamsView, DecodeErrorView>(x@),
                Err(e) => did_change_text_document_params_of_wire(w@) == Err::<DidChangeTextDocumentParamsView, DecodeErrorView>(e@),
            },
    {
        let fields = match w {
            WireValue::Obj(fields) => fields,
            _ => {
                return Err(DecodeError::MissingOrInvalidField(key_string("textDocument")));
            },
        };
        let text_document: VersionedTextDocumentIdentifier = match wire_obj_get(fields, &key_string("textDocument")) {
            Some(v) => match VersionedTextDocumentIdentifier::decode(v) {
                Ok(x) => x,
                Err(e) => {
                    return Err(e);
                },
            },
            None => {
                return Err(DecodeError::MissingOrInvalidField(key_string("textDocument")));
            },
        };
        let content_changes: Vec<TextDocumentContentChangeEvent> = match wire_obj_get(fields, &key_string("contentChanges")) {
            Some(WireValue::Arr(items)) => match text_document_content_change_event_list_decode(items) {
                Ok(v) => v,
                Err(e) => {
                    return Err(e);
                },
            },
            _ => {
                return Err(DecodeError::MissingOrInvalidField(key_string("contentChanges")));
            },
        };
        Ok(DidChangeTextDocumentParams { text_document, content_changes })
    }
}

/// Decoding an encoded value of this entity gives the value back.
pub proof fn lemma_did_change_text_document_params_round_trip(v: DidChangeTextDocumentParamsView)
    ensures
        did_change_text_document_params_of_wire(did_change_text_document_params_to_wire(v)) == Ok::<DidChangeTextDocumentParamsView, DecodeErrorView>(v),
{
    let t = did_change_text_document_params_fields(v);
    assert(distinct_keys(t)) by {
        reveal_strlit("textDocument");
        reveal_strlit("contentChanges");
        assert forall|i: int, j: int| 0 <= i < j < t.len() implies t[i].0 != t[j].0 by {
            assert(t[0].0 == "textDocument"@);
            assert(t[1].0 == "contentChanges"@);
        }
    }
    lemma_emit_fields_get(t, 0);
    lemma_emit_fields_get(t, 1);
    lemma_versioned_text_document_identifier_round_trip(v.text_document);
    lemma_text_document_content_change_event_list_round_trip(v.content_changes);
}

/// A change to a watched file.
#[derive(Debug)]
pub struct FileEvent {
    pub uri: String,
    pub typ: FileChangeType,
}

/// The mathematical model of this entity.
#[verifier::ext_equal]
pub struct FileEventView {
    pub uri: Seq<char>,
    pub typ: FileChangeType,
}

impl View for FileEvent {
    type V = FileEventView;

    open spec fn view(&self) -> FileEventView {
        FileEventView {
            uri: self.uri@,
            typ: self.typ,
        }
    }
}

impl DeepView for FileEvent {
    type V = FileEventView;

    open spec fn deep_view(&self) -> FileEventView {
        self.view()
    }
}

/// The field table: each wire key with its value, or `None` where the
/// field's omission policy drops it.
pub open spec fn file_event_fields(v: FileEventView) -> FieldTable {
    seq![
        ("uri"@, Some(WireValueView::Str(v.uri))),
        ("type"@, Some(WireValueView::Num(v.typ.code_spec()))),
    ]
}

/// What encoding this entity produces.
pub open spec fn file_event_to_wire(v: FileEventView) -> WireValueView {
    WireValueView::Obj(emit_fields(file_event_fields(v)))
}

/// What decoding a wire value as this entity yields. Unknown extra
/// fields are ignored; a missing or ill-shaped field fails.
pub open spec fn file_event_of_wire(w: WireValueView) -> Result<FileEventView, DecodeErrorView> {
    match w {
        WireValueView::Obj(fs) => match req_str(fs, "uri"@) {
                Ok(uri) => match req_file_change_type(fs, "type"@) {
                    Ok(typ) => Ok(FileEventView { uri, typ }),
                    Err(e) => Err(e),
                },
                Err(e) => Err(e),
            },
        _ => Err(missing("uri"@)),
    }
}

impl FileEvent {
    pub fn encode(&self) -> (r: WireValue)
        ensures
            r@ == file_event_to_wire(self@),
    {
        let mut table: Vec<(String, Option<WireValue>)> = Vec::new();
        table.push((key_string("uri"), Some(WireValue::Str(self.uri.clone()))));
        table.push((key_string("type"), Some(WireValue::Num(self.typ.code()))));
        proof {
            assert(table_view(table@) =~= file_event_fields(self@));
        }
        finish_obj(table)
    }

    pub fn decode(w: &WireValue) -> (r: Result<FileEvent, DecodeError>)
        ensures
            match r {
                Ok(x) => file_event_of_wire(w@) == Ok::<FileEventView, DecodeErrorView>(x@),
                Err(e) => file_event_of_wire(w@) == Err::<FileEventView, DecodeErrorView>(e@),
            },
    {
        let fields = match w {
            WireValue::Obj(fields) => fields,
            _ => {
                return Err(DecodeError::MissingOrInvalidField(key_string("uri")));
            },
        };
        let uri: String = match wire_obj_get(fields, &key_string("uri")) {
            Some(WireValue::Str(s)) => s.clone(),
            _ => {
                return Err(DecodeError::MissingOrInvalidField(key_string("uri")));
            },
        };
        let typ: FileChangeType = match wire_obj_get(fields, &key_string("type")) {
            Some(WireValue::Num(n)) => match FileChangeType::from_code(*n) {
                Ok(k) => k,
                Err(e) => {
                    return Err(e);
                },
            },
            _ => {
                return Err(DecodeError::MissingOrInvalidField(key_string("type")));
            },
        };
        Ok(FileEvent { uri, typ })
    }
}

/// Decoding an encoded value of this entity gives the value back.
pub proof fn lemma_file_event_round_trip(v: FileEventView)
    ensures
        file_event_of_wire(file_event_to_wire(v)) == Ok::<FileEventView, DecodeErrorView>(v),
{
    let t = file_event_fields(v);
    assert(distinct_keys(t)) by {
        reveal_strlit("uri");
        reveal_strlit("type");
        assert forall|i: int, j: int| 0 <= i < j < t.len() implies t[i].0 != t[j].0 by {
            assert(t[0].0 == "uri"@);
            assert(t[1].0 == "type"@);
        }
    }
    lemma_emit_fields_get(t, 0);
    lemma_emit_fields_get(t, 1);
}

/// What encoding a list of these entities produces, element for element.
pub open spec fn file_event_list_to_wire(s: Seq<FileEventView>) -> Seq<WireValueView>
    decreases s.len(),
{
    if s.len() == 0 {
        Seq::empty()
    } else {
        seq![file_event_to_wire(s[0])] + file_event_list_to_wire(s.drop_first())
    }
}

/// What decoding a list of these entities yields: the first ill-shaped
/// element fails the whole list.
pub open spec fn file_event_list_of_wire(elems: Seq<WireValueView>) -> Result<
    Seq<FileEventView>,
    DecodeErrorView,
>
    decreases elems.len(),
{
    if elems.len() == 0 {
        Ok(Seq::empty())
    } else {
        match file_event_of_wire(elems[0]) {
            Ok(x) => match file_event_list_of_wire(elems.drop_first()) {
                Ok(rest) => Ok(seq![x] + rest),
                Err(e) => Err(e),
            },
            Err(e) => Err(e),
        }
    }
}

/// The elements of an encoded list, pointwise.
pub proof fn lemma_file_event_list_pointwise(s: Seq<FileEventView>)
    ensures
        file_event_list_to_wire(s).len() == s.len(),
        forall|i: int|
            0 <= i < s.len() ==> #[trigger] file_event_list_to_wire(s)[i] == file_event_to_wire(s[i]),
    decreases s.len(),
{
    if s.len() > 0 {
        lemma_file_event_list_pointwise(s.drop_first());
    }
}

/// Decoding an encoded list gives the list back.
pub proof fn lemma_file_event_list_round_trip(s: Seq<FileEventView>)
    ensures
        file_event_list_of_wire(file_event_list_to_wire(s)) == Ok::<Seq<FileEventView>, DecodeErrorView>(s),
    decreases s.len(),
{
    if s.len() == 0 {
        assert(s =~= Seq::<FileEventView>::empty());
    } else {
        lemma_file_event_round_trip(s[0]);
        lemma_file_event_list_round_trip(s.drop_first());
        let m = file_event_list_to_wire(s);
        assert(m[0] == file_event_to_wire(s[0]));
        assert(m.drop_first() =~= file_event_list_to_wire(s.drop_first()));
        assert(seq![s[0]] + s.drop_first() =~= s);
    }
}

/// Encodes a list of these entities, element for element.
pub fn file_event_list_encode(xs: &Vec<FileEvent>) -> (r: Vec<WireValue>)
    ensures
        wire_arr_view(r@) == file_event_list_to_wire(xs.deep_view()),
        r@.len() == xs@.len(),
{
    let n: usize = xs.len();
    let mut out: Vec<WireValue> = Vec::new();
    let mut i: usize = 0;
    while i < n
        invariant
            n == xs@.len(),
            0 <= i <= n,
            out@.len() == i,
            forall|j: int| 0 <= j < i ==> wire_view(#[trigger] out@[j]) == file_event_to_wire(
                xs@[j]@,
            ),
        decreases n - i,
    {
        out.push(xs[i].encode());
        i = i + 1;
    }
    proof {
        lemma_wire_arr_view(out@);
        lemma_file_event_list_pointwise(xs.deep_view());
        assert(wire_arr_view(out@) =~= file_event_list_to_wire(xs.deep_view()));
    }
    out
}

/// Decodes a list of these entities, element for element.
pub fn file_event_list_decode(items: &Vec<WireValue>) -> (r: Result<Vec<FileEvent>, DecodeError>)
    ensures
        match r {
            Ok(v) => file_event_list_of_wire(wire_arr_view(items@)) == Ok::<
                Seq<FileEventView>,
                DecodeErrorView,
            >(v.deep_view()),
            Err(e) => file_event_list_of_wire(wire_arr_view(items@)) == Err::<
                Seq<FileEventView>,
                DecodeErrorView,
            >(e@),
        },
{
    let ghost ev = wire_arr_view(items@);
    proof {
        lemma_wire_arr_view(items@);
        assert(ev.skip(0) =~= ev);
    }
    let n: usize = items.len();
    let mut out: Vec<FileEvent> = Vec::new();
    let mut i: usize = 0;
    while i < n
        invariant
            n == items@.len(),
            ev == wire_arr_view(items@),
            ev.len() == n,
            forall|j: int| 0 <= j < n ==> #[trigger] ev[j] == wire_view(items@[j]),
            0 <= i <= n,
            out.deep_view().len() == i,
            file_event_list_of_wire(ev) == (match file_event_list_of_wire(ev.skip(i as int)) {
                Ok(rest) => Ok::<Seq<FileEventView>, DecodeErrorView>(out.deep_view() + rest),
                Err(e) => Err::<Seq<FileEventView>, DecodeErrorView>(e),
            }),
        decreases n - i,
    {
        proof {
            assert(ev.skip(i as int)[0] == ev[i as int]);
            assert(ev.skip(i as int).drop_first() =~= ev.skip(i + 1));
        }
        let ghost prev = out.deep_view();
        match FileEvent::decode(&items[i]) {
            Ok(x) => {
                out.push(x);
                proof {
                    assert(out.deep_view() =~= prev.push(x@));
                    assert(forall|rest: Seq<FileEventView>|
                        prev + (#[trigger] (seq![x@] + rest)) =~= out.deep_view() + rest);
                }
            },
            Err(e) => {
                return Err(e);
            },
        }
        i = i + 1;
    }
    proof {
        assert(ev.skip(n as int) =~= Seq::<WireValueView>::empty());
        assert(out.deep_view() + Seq::<FileEventView>::empty() =~= out.deep_view());
    }
    Ok(out)
}

/// A required field holding a list of these entities.
pub open spec fn req_file_event_list(fs: Seq<(Seq<char>, WireValueView)>, key: Seq<char>) -> Result<
    Seq<FileEventView>,
    DecodeErrorView,
> {
    match obj_get(fs, key) {
        Some(WireValueView::Arr(elems)) => file_event_list_of_wire(elems),
        _ => Err(missing(key)),
    }
}

/// An omit-when-empty field holding a list of these entities.
pub open spec fn emp_file_event_list(fs: Seq<(Seq<char>, WireValueView)>, key: Seq<char>) -> Result<
    Seq<FileEventView>,
    DecodeErrorView,
> {
    match opt_field(fs, key) {
        Some(WireValueView::Arr(elems)) => file_event_list_of_wire(elems),
        Some(_) => Err(missing(key)),
        None => Ok(Seq::empty()),
    }
}

/// Notifies of changes to watched files.
#[derive(Debug)]
pub struct DidChangeWatchedFilesParams {
    pub changes: Vec<FileEvent>,
}

/// The mathematical model of this entity.
#[verifier::ext_equal]
pub struct DidChangeWatchedFilesParamsView {
    pub changes: Seq<FileEventView>,
}

impl View for DidChangeWatchedFilesParams {
    type V = DidChangeWatchedFilesParamsView;

    open spec fn view(&self) -> DidChangeWatchedFilesParamsView {
        DidChangeWatchedFilesParamsView {
            changes: self.changes.deep_view(),
        }
    }
}

impl DeepView for DidChangeWatchedFilesParams {
    type V = DidChangeWatchedFilesParamsView;

    open spec fn deep_view(&self) -> DidChangeWatchedFilesParamsView {
        self.view()
    }
}

/// The field table: each wire key with its value, or `None` where the
/// field's omission policy drops it.
pub open spec fn did_change_watched_files_params_fields(v: DidChangeWatchedFilesParamsView) -> FieldTable {
    seq![
        ("changes"@, Some(WireValueView::Arr(file_event_list_to_wire(v.changes)))),
    ]
}

/// What encoding this entity produces.
pub open spec fn did_change_watched_files_params_to_wire(v: DidChangeWatchedFilesParamsView) -> WireValueView {
    WireValueView::Obj(emit_fields(did_change_watched_files_params_fields(v)))
}

/// What decoding a wire value as this entity yields. Unknown extra
/// fields are ignored; a missing or ill-shaped field fails.
pub open spec fn did_change_watched_files_params_of_wire(w: WireValueView) -> Result<DidChangeWatchedFilesParamsView, DecodeErrorView> {
    match w {
        WireValueView::Obj(fs) => match req_file_event_list(fs, "changes"@) {
                Ok(changes) => Ok(DidChangeWatchedFilesParamsView { changes }),
                Err(e) => Err(e),
            },
        _ => Err(missing("changes"@)),
    }
}

impl DidChangeWatchedFilesParams {
    pub fn encode(&self) -> (r: WireValue)
        ensures
            r@ == did_change_watched_files_params_to_wire(self@),
    {
        let mut table: Vec<(String, Option<WireValue>)> = Vec::new();
        table.push((key_string("changes"), Some(WireValue::Arr(file_event_list_encode(&self.changes)))));
        proof {
            assert(table_view(table@) =~= did_change_watched_files_params_fields(self@));
        }
        finish_obj(table)
    }

    pub fn decode(w: &WireValue) -> (r: Result<DidChangeWatchedFilesParams, DecodeError>)
        ensures
            match r {
                Ok(x) => did_change_watched_files_params_of_wire(w@) == Ok::<DidChangeWatchedFilesParamsView, DecodeErrorView>(x@),
                Err(e) => did_change_watched_files_params_of_wire(w@) == Err::<DidChangeWatchedFilesParamsView, DecodeErrorView>(e@),
            },
    {
        let fields = match w {
            WireValue::Obj(fields) => fields,
            _ => {
                return Err(DecodeError::MissingOrInvalidField(key_string("changes")));
            },
        };
        let changes: Vec<FileEvent> = match wire_obj_get(fields, &key_string("changes")) {
            Some(WireValue::Arr(items)) => match file_event_list_decode(items) {
                Ok(v) => v,
                Err(e) => {
                    return Err(e);
                },
            },
            _ => {
                return Err(DecodeError::MissingOrInvalidField(key_string("changes")));
            },
        };
        Ok(DidChangeWatchedFilesParams { changes })
    }
}

/// Decoding an encoded value of this entity gives the value back.
pub proof fn lemma_did_change_watched_files_params_round_trip(v: DidChangeWatchedFilesParamsView)
    ensures
        did_change_watched_files_params_of_wire(did_change_watched_files_params_to_wire(v)) == Ok::<DidChangeWatchedFilesParamsView, DecodeErrorView>(v),
{
    let t = did_change_watched_files_params_fields(v);
    assert(distinct_keys(t)) by {
        reveal_strlit("changes");
    }
    lemma_emit_fields_get(t, 0);
    lemma_file_event_list_round_trip(v.changes);
}
} // verus!
