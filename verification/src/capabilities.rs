//! Capability negotiation: what the client announces and what the server offers.

use vstd::prelude::*;
use vstd::string::StrSliceExecFns;
use crate::error::{missing, DecodeError, DecodeErrorView};
use crate::wire::{
    emit_fields, key_string, obj_get, opt_field, FieldTable, WireValue, WireValueView,
    finish_obj, table_view, wire_obj_get, wire_obj_get_opt, distinct_keys,
    lemma_emit_fields_get, wire_arr_view, wire_view, lemma_wire_arr_view,
    lemma_wire_obj_view, wire_obj_view, duplicate_wire_list, encode_str_list,
    decode_str_list, str_list_to_wire, lemma_str_list_round_trip, req_num, opt_num,
    req_bool, opt_bool, req_str, opt_str, emp_str, emp_str_list, req_raw, opt_raw,
    emp_arr,
};
use crate::enums::{opt_sync_kind, TextDocumentSyncKind};

verus! {

/// The capabilities the client announces. None are modeled yet: decoding
/// accepts any object and ignores everything in it.
#[derive(Debug)]
pub struct ClientCapabilities {
}

/// The mathematical model of the client capabilities.
#[verifier::ext_equal]
pub struct ClientCapabilitiesView {
}

impl View for ClientCapabilities {
    type V = ClientCapabilitiesView;

    open spec fn view(&self) -> ClientCapabilitiesView {
        ClientCapabilitiesView {  }
    }
}

impl DeepView for ClientCapabilities {
    type V = ClientCapabilitiesView;

    open spec fn deep_view(&self) -> ClientCapabilitiesView {
        self.view()
    }
}

/// What encoding the client capabilities produces: an empty object.
pub open spec fn client_capabilities_to_wire(v: ClientCapabilitiesView) -> WireValueView {
    WireValueView::Obj(Seq::empty())
}

/// What decoding a wire value as client capabilities yields: any object
/// does, and nothing else.
pub open spec fn client_capabilities_of_wire(w: WireValueView) -> Result<
    ClientCapabilitiesView,
    DecodeErrorView,
> {
    match w {
        WireValueView::Obj(_) => Ok(ClientCapabilitiesView {  }),
        _ => Err(DecodeErrorView::UnrecognizedShape("ClientCapabilities"@)),
    }
}

impl ClientCapabilities {
    pub fn encode(&self) -> (r: WireValue)
        ensures
            r@ == client_capabilities_to_wire(self@),
    {
        let fields: Vec<(String, WireValue)> = Vec::new();
        proof {
            assert(wire_obj_view(fields@) =~= Seq::<(Seq<char>, WireValueView)>::empty());
        }
        WireValue::Obj(fields)
    }

    pub fn decode(w: &WireValue) -> (r: Result<ClientCapabilities, DecodeError>)
        ensures
            match r {
                Ok(x) => client_capabilities_of_wire(w@) == Ok::<
                    ClientCapabilitiesView,
                    DecodeErrorView,
                >(x@),
                Err(e) => client_capabilities_of_wire(w@) == Err::<
                    ClientCapabilitiesView,
                    DecodeErrorView,
                >(e@),
            },
    {
        match w {
            WireValue::Obj(_) => Ok(ClientCapabilities {  }),
            _ => Err(DecodeError::UnrecognizedShape(key_string("ClientCapabilities"))),
        }
    }
}

/// Decoding encoded client capabilities gives them back.
pub proof fn lemma_client_capabilities_round_trip(v: ClientCapabilitiesView)
    ensures
        client_capabilities_of_wire(client_capabilities_to_wire(v)) == Ok::<
            ClientCapabilitiesView,
            DecodeErrorView,
        >(v),
{
}

/// A required field holding the client capabilities.
pub open spec fn req_client_capabilities(
    fs: Seq<(Seq<char>, WireValueView)>,
    key: Seq<char>,
) -> Result<ClientCapabilitiesView, DecodeErrorView> {
    match obj_get(fs, key) {
        Some(wv) => client_capabilities_of_wire(wv),
        None => Err(missing(key)),
    }
}

/// Completion support as the server offers it.
#[derive(Debug)]
pub struct CompletionOptions {
    pub resolve_provider: Option<bool>,
    pub trigger_characters: Vec<String>,
}

/// The mathematical model of this entity.
#[verifier::ext_equal]
pub struct CompletionOptionsView {
    pub resolve_provider: Option<bool>,
    pub trigger_characters: Seq<Seq<char>>,
}

impl View for CompletionOptions {
    type V = CompletionOptionsView;

    open spec fn view(&self) -> CompletionOptionsView {
        CompletionOptionsView {
            resolve_provider: self.resolve_provider,
            trigger_characters: self.trigger_characters.deep_view(),
        }
    }
}

impl DeepView for CompletionOptions {
    type V = CompletionOptionsView;

    open spec fn deep_view(&self) -> CompletionOptionsView {
        self.view()
    }
}

/// The field table: each wire key with its value, or `None` where the
/// field's omission policy drops it.
pub open spec fn completion_options_fields(v: CompletionOptionsView) -> FieldTable {
    seq![
        ("resolveProvider"@, match v.resolve_provider {
                Some(b) => Some(WireValueView::Bool(b)),
                None => None,
            }),
        ("triggerCharacters"@, if v.trigger_characters.len() == 0 {
                None
            } else {
                Some(WireValueView::Arr(str_list_to_wire(v.trigger_characters)))
            }),
    ]
}

/// What encoding this entity produces.
#[verifier::opaque]
pub open spec fn completion_options_to_wire(v: CompletionOptionsView) -> WireValueView {
    WireValueView::Obj(emit_fields(completion_options_fields(v)))
}

/// What decoding a wire value as this entity yields. Unknown extra
/// fields are ignored; a missing or ill-shaped field fails.
#[verifier::opaque]
pub open spec fn completion_options_of_wire(w: WireValueView) -> Result<CompletionOptionsView, DecodeErrorView> {
    match w {
        WireValueView::Obj(fs) => match opt_bool(fs, "resolveProvider"@) {
                Ok(resolve_provider) => match emp_str_list(fs, "triggerCharacters"@) {
                    Ok(trigger_characters) => Ok(CompletionOptionsView { resolve_provider, trigger_characters }),
                    Err(e) => Err(e),
                },
                Err(e) => Err(e),
            },
        _ => Err(missing("resolveProvider"@)),
    }
}

impl CompletionOptions {
    pub fn encode(&self) -> (r: WireValue)
        ensures
            r@ == completion_options_to_wire(self@),
    {
        reveal(completion_options_to_wire);
        let mut table: Vec<(String, Option<WireValue>)> = Vec::new();
        table.push((key_string("resolveProvider"), match self.resolve_provider {
            Some(b) => Some(WireValue::Bool(b)),
            None => None,
        }));
        table.push((key_string("triggerCharacters"), if self.trigger_characters.len() == 0 {
            None
        } else {
            Some(WireValue::Arr(encode_str_list(&self.trigger_characters)))
        }));
        proof {
            assert(table_view(table@) =~= completion_options_fields(self@));
        }
        finish_obj(table)
    }

    pub fn decode(w: &WireValue) -> (r: Result<CompletionOptions, DecodeError>)
        ensures
            match r {
                Ok(x) => completion_options_of_wire(w@) == Ok::<CompletionOptionsView, DecodeErrorView>(x@),
                Err(e) => completion_options_of_wire(w@) == Err::<CompletionOptionsView, DecodeErrorView>(e@),
            },
    {
        reveal(completion_options_of_wire);
        let fields = match w {
            WireValue::Obj(fields) => fields,
            _ => {
                return Err(DecodeError::MissingOrInvalidField(key_string("resolveProvider")));
            },
        };
        let resolve_provider: Option<bool> = match wire_obj_get_opt(fields, &key_string("resolveProvider")) {
            Some(WireValue::Bool(b)) => Some(*b),
            Some(_) => {
                return Err(DecodeError::MissingOrInvalidField(key_string("resolveProvider")));
            },
            None => None,
        };
        let trigger_characters: Vec<String> = match wire_obj_get_opt(fields, &key_string("triggerCharacters")) {
            Some(WireValue::Arr(items)) => match decode_str_list(items, &key_string("triggerCharacters")) {
                Ok(v) => v,
                Err(e) => {
                    return Err(e);
                },
            },
            Some(_) => {
                return Err(DecodeError::MissingOrInvalidField(key_string("triggerCharacters")));
            },
            None => {
                let fresh: Vec<String> = Vec::new();
                proof {
                    assert(fresh.deep_view() =~= Seq::<Seq<char>>::empty());
                }
                fresh
            },
        };
        Ok(CompletionOptions { resolve_provider, trigger_characters })
    }
}

/// Decoding an encoded value of this entity gives the value back.
pub proof fn lemma_completion_options_round_trip(v: CompletionOptionsView)
    ensures
        completion_options_of_wire(completion_options_to_wire(v)) == Ok::<CompletionOptionsView, DecodeErrorView>(v),
        completion_options_to_wire(v) is Obj,
{
    reveal(completion_options_to_wire);
    reveal(completion_options_of_wire);
    let t = completion_options_fields(v);
    assert(distinct_keys(t)) by {
        reveal_strlit("resolveProvider");
        reveal_strlit("triggerCharacters");
        assert forall|i: int, j: int| 0 <= i < j < t.len() implies t[i].0 != t[j].0 by {
            assert(t[0].0 == "resolveProvider"@);
            assert(t[1].0 == "triggerCharacters"@);
        }
    }
    lemma_emit_fields_get(t, 0);
    lemma_emit_fields_get(t, 1);
    lemma_str_list_round_trip(v.trigger_characters, "triggerCharacters"@);
    if v.trigger_characters.len() == 0 {
        assert(v.trigger_characters =~= Seq::<Seq<char>>::empty());
    }
}

/// Omission law: with the resolve flag absent and no trigger characters the
/// encoded completion options carry no field at all; with trigger characters
/// present exactly the one field is emitted.
pub proof fn lemma_completion_options_omission(v: CompletionOptionsView)
    ensures
        v.resolve_provider is None && v.trigger_characters.len() == 0
            ==> completion_options_to_wire(v) == WireValueView::Obj(
            Seq::<(Seq<char>, WireValueView)>::empty(),
        ),
        v.resolve_provider is None && v.trigger_characters.len() > 0
            ==> completion_options_to_wire(v) == WireValueView::Obj(
            seq![
                (
                    "triggerCharacters"@,
                    WireValueView::Arr(str_list_to_wire(v.trigger_characters)),
                ),
            ],
        ),
{
    reveal(completion_options_to_wire);
    reveal_with_fuel(emit_fields, 4);
    let t = completion_options_fields(v);
    let rest = t.drop_first();
    assert(rest[0] == t[1]);
    assert(rest.drop_first() =~= Seq::<(Seq<char>, Option<WireValueView>)>::empty());
    if v.resolve_provider is None && v.trigger_characters.len() == 0 {
        assert(emit_fields(t) =~= Seq::<(Seq<char>, WireValueView)>::empty());
    }
    if v.resolve_provider is None && v.trigger_characters.len() > 0 {
        assert(emit_fields(t) =~= seq![
            (
                "triggerCharacters"@,
                WireValueView::Arr(str_list_to_wire(v.trigger_characters)),
            ),
        ]);
    }
}

/// An optional field holding this entity; absent and null are `None`.
pub open spec fn opt_completion_options(fs: Seq<(Seq<char>, WireValueView)>, key: Seq<char>) -> Result<
    Option<CompletionOptionsView>,
    DecodeErrorView,
> {
    match opt_field(fs, key) {
        Some(wv) => match completion_options_of_wire(wv) {
            Ok(x) => Ok(Some(x)),
            Err(e) => Err(e),
        },
        None => Ok(None),
    }
}

/// Signature-help support as the server offers it.
#[derive(Debug)]
pub struct SignatureHelpOptions {
    pub trigger_characters: Vec<String>,
}

/// The mathematical model of this entity.
#[verifier::ext_equal]
pub struct SignatureHelpOptionsView {
    pub trigger_characters: Seq<Seq<char>>,
}

impl View for SignatureHelpOptions {
    type V = SignatureHelpOptionsView;

    open spec fn view(&self) -> SignatureHelpOptionsView {
        SignatureHelpOptionsView {
            trigger_characters: self.trigger_characters.deep_view(),
        }
    }
}

impl DeepView for SignatureHelpOptions {
    type V = SignatureHelpOptionsView;

    open spec fn deep_view(&self) -> SignatureHelpOptionsView {
        self.view()
    }
}

/// The field table: each wire key with its value, or `None` where the
/// field's omission policy drops it.
pub open spec fn signature_help_options_fields(v: SignatureHelpOptionsView) -> FieldTable {
    seq![
        ("triggerCharacters"@, if v.trigger_characters.len() == 0 {
                None
            } else {
                Some(WireValueView::Arr(str_list_to_wire(v.trigger_characters)))
            }),
    ]
}

/// What encoding this entity produces.
#[verifier::opaque]
pub open spec fn signature_help_options_to_wire(v: SignatureHelpOptionsView) -> WireValueView {
    WireValueView::Obj(emit_fields(signature_help_options_fields(v)))
}

/// What decoding a wire value as this entity yields. Unknown extra
/// fields are ignored; a missing or ill-shaped field fails.
#[verifier::opaque]
pub open spec fn signature_help_options_of_wire(w: WireValueView) -> Result<SignatureHelpOptionsView, DecodeErrorView> {
    match w {
        WireValueView::Obj(fs) => match emp_str_list(fs, "triggerCharacters"@) {
                Ok(trigger_characters) => Ok(SignatureHelpOptionsView { trigger_characters }),
                Err(e) => Err(e),
            },
        _ => Err(missing("triggerCharacters"@)),
    }
}

impl SignatureHelpOptions {
    pub fn encode(&self) -> (r: WireValue)
        ensures
            r@ == signature_help_options_to_wire(self@),
    {
        reveal(signature_help_options_to_wire);
        let mut table: Vec<(String, Option<WireValue>)> = Vec::new();
        table.push((key_string("triggerCharacters"), if self.trigger_characters.len() == 0 {
            None
        } else {
            Some(WireValue::Arr(encode_str_list(&self.trigger_characters)))
        }));
        proof {
            assert(table_view(table@) =~= signature_help_options_fields(self@));
        }
        finish_obj(table)
    }

    pub fn decode(w: &WireValue) -> (r: Result<SignatureHelpOptions, DecodeError>)
        ensures
            match r {
                Ok(x) => signature_help_options_of_wire(w@) == Ok::<SignatureHelpOptionsView, DecodeErrorView>(x@),
                Err(e) => signature_help_options_of_wire(w@) == Err::<SignatureHelpOptionsView, DecodeErrorView>(e@),
            },
    {
        reveal(signature_help_options_of_wire);
        let fields = match w {
            WireValue::Obj(fields) => fields,
            _ => {
                return Err(DecodeError::MissingOrInvalidField(key_string("triggerCharacters")));
            },
        };
        let trigger_characters: Vec<String> = match wire_obj_get_opt(fields, &key_string("triggerCharacters")) {
            Some(WireValue::Arr(items)) => match decode_str_list(items, &key_string("triggerCharacters")) {
                Ok(v) => v,
                Err(e) => {
                    return Err(e);
                },
            },
            Some(_) => {
                return Err(DecodeError::MissingOrInvalidField(key_string("triggerCharacters")));
            },
            None => {
                let fresh: Vec<String> = Vec::new();
                proof {
                    assert(fresh.deep_view() =~= Seq::<Seq<char>>::empty());
                }
                fresh
            },
        };
        Ok(SignatureHelpOptions { trigger_characters })
    }
}

/// Decoding an encoded value of this entity gives the value back.
pub proof fn lemma_signature_help_options_round_trip(v: SignatureHelpOptionsView)
    ensures
        signature_help_options_of_wire(signature_help_options_to_wire(v)) == Ok::<SignatureHelpOptionsView, DecodeErrorView>(v),
        signature_help_options_to_wire(v) is Obj,
{
    reveal(signature_help_options_to_wire);
    reveal(signature_help_options_of_wire);
    let t = signature_help_options_fields(v);
    assert(distinct_keys(t)) by {
        reveal_strlit("triggerCharacters");
    }
    lemma_emit_fields_get(t, 0);
    lemma_str_list_round_trip(v.trigger_characters, "triggerCharacters"@);
    if v.trigger_characters.len() == 0 {
        assert(v.trigger_characters =~= Seq::<Seq<char>>::empty());
    }
}

/// An optional field holding this entity; absent and null are `None`.
pub open spec fn opt_signature_help_options(fs: Seq<(Seq<char>, WireValueView)>, key: Seq<char>) -> Result<
    Option<SignatureHelpOptionsView>,
    DecodeErrorView,
> {
    match opt_field(fs, key) {
        Some(wv) => match signature_help_options_of_wire(wv) {
            Ok(x) => Ok(Some(x)),
            Err(e) => Err(e),
        },
        None => Ok(None),
    }
}

/// Code-lens support as the server offers it.
#[derive(Debug)]
pub struct CodeLensOptions {
    pub resolve_provider: Option<bool>,
}

/// The mathematical model of this entity.
#[verifier::ext_equal]
pub struct CodeLensOptionsView {
    pub resolve_provider: Option<bool>,
}

impl View for CodeLensOptions {
    type V = CodeLensOptionsView;

    open spec fn view(&self) -> CodeLensOptionsView {
        CodeLensOptionsView {
            resolve_provider: self.resolve_provider,
        }
    }
}

impl DeepView for CodeLensOptions {
    type V = CodeLensOptionsView;

    open spec fn deep_view(&self) -> CodeLensOptionsView {
        self.view()
    }
}

/// The field table: each wire key with its value, or `None` where the
/// field's omission policy drops it.
pub open spec fn code_lens_options_fields(v: CodeLensOptionsView) -> FieldTable {
    seq![
        ("resolveProvider"@, match v.resolve_provider {
                Some(b) => Some(WireValueView::Bool(b)),
                None => None,
            }),
    ]
}

/// What encoding this entity produces.
#[verifier::opaque]
pub open spec fn code_lens_options_to_wire(v: CodeLensOptionsView) -> WireValueView {
    WireValueView::Obj(emit_fields(code_lens_options_fields(v)))
}

/// What decoding a wire value as this entity yields. Unknown extra
/// fields are ignored; a missing or ill-shaped field fails.
#[verifier::opaque]
pub open spec fn code_lens_options_of_wire(w: WireValueView) -> Result<CodeLensOptionsView, DecodeErrorView> {
    match w {
        WireValueView::Obj(fs) => match opt_bool(fs, "resolveProvider"@) {
                Ok(resolve_provider) => Ok(CodeLensOptionsView { resolve_provider }),
                Err(e) => Err(e),
            },
        _ => Err(missing("resolveProvider"@)),
    }
}

impl CodeLensOptions {
    pub fn encode(&self) -> (r: WireValue)
        ensures
            r@ == code_lens_options_to_wire(self@),
    {
        reveal(code_lens_options_to_wire);
        let mut table: Vec<(String, Option<WireValue>)> = Vec::new();
        table.push((key_string("resolveProvider"), match self.resolve_provider {
            Some(b) => Some(WireValue::Bool(b)),
            None => None,
        }));
        proof {
            assert(table_view(table@) =~= code_lens_options_fields(self@));
        }
        finish_obj(table)
    }

    pub fn decode(w: &WireValue) -> (r: Result<CodeLensOptions, DecodeError>)
        ensures
            match r {
                Ok(x) => code_lens_options_of_wire(w@) == Ok::<CodeLensOptionsView, DecodeErrorView>(x@),
                Err(e) => code_lens_options_of_wire(w@) == Err::<CodeLensOptionsView, DecodeErrorView>(e@),
            },
    {
        reveal(code_lens_options_of_wire);
        let fields = match w {
            WireValue::Obj(fields) => fields,
            _ => {
                return Err(DecodeError::MissingOrInvalidField(key_string("resolveProvider")));
            },
        };
        let resolve_provider: Option<bool> = match wire_obj_get_opt(fields, &key_string("resolveProvider")) {
            Some(WireValue::Bool(b)) => Some(*b),
            Some(_) => {
                return Err(DecodeError::MissingOrInvalidField(key_string("resolveProvider")));
            },
            None => None,
        };
        Ok(CodeLensOptions { resolve_provider })
    }
}

/// Decoding an encoded value of this entity gives the value back.
pub proof fn lemma_code_lens_options_round_trip(v: CodeLensOptionsView)
    ensures
        code_lens_options_of_wire(code_lens_options_to_wire(v)) == Ok::<CodeLensOptionsView, DecodeErrorView>(v),
        code_lens_options_to_wire(v) is Obj,
{
    reveal(code_lens_options_to_wire);
    reveal(code_lens_options_of_wire);
    let t = code_lens_options_fields(v);
    assert(distinct_keys(t)) by {
        reveal_strlit("resolveProvider");
    }
    lemma_emit_fields_get(t, 0);
}

/// An optional field holding this entity; absent and null are `None`.
pub open spec fn opt_code_lens_options(fs: Seq<(Seq<char>, WireValueView)>, key: Seq<char>) -> Result<
    Option<CodeLensOptionsView>,
    DecodeErrorView,
> {
    match opt_field(fs, key) {
        Some(wv) => match code_lens_options_of_wire(wv) {
            Ok(x) => Ok(Some(x)),
            Err(e) => Err(e),
        },
        None => Ok(None),
    }
}

/// Formatting-on-typing support as the server offers it.
#[derive(Debug)]
pub struct DocumentOnTypeFormattingOptions {
    pub first_trigger_character: String,
    pub more_trigger_character: Vec<String>,
}

/// The mathematical model of this entity.
#[verifier::ext_equal]
pub struct DocumentOnTypeFormattingOptionsView {
    pub first_trigger_character: Seq<char>,
    pub more_trigger_character: Seq<Seq<char>>,
}

impl View for DocumentOnTypeFormattingOptions {
    type V = DocumentOnTypeFormattingOptionsView;

    open spec fn view(&self) -> DocumentOnTypeFormattingOptionsView {
        DocumentOnTypeFormattingOptionsView {
            first_trigger_character: self.first_trigger_character@,
            more_trigger_character: self.more_trigger_character.deep_view(),
        }
    }
}

impl DeepView for DocumentOnTypeFormattingOptions {
    type V = DocumentOnTypeFormattingOptionsView;

    open spec fn deep_view(&self) -> DocumentOnTypeFormattingOptionsView {
        self.view()
    }
}

/// The field table: each wire key with its value, or `None` where the
/// field's omission policy drops it.
pub open spec fn document_on_type_formatting_options_fields(v: DocumentOnTypeFormattingOptionsView) -> FieldTable {
    seq![
        ("firstTriggerCharacter"@, Some(WireValueView::Str(v.first_trigger_character))),
        ("moreTriggerCharacter"@, if v.more_trigger_character.len() == 0 {
                None
            } else {
                Some(WireValueView::Arr(str_list_to_wire(v.more_trigger_character)))
            }),
    ]
}

/// What encoding this entity produces.
#[verifier::opaque]
pub open spec fn document_on_type_formatting_options_to_wire(v: DocumentOnTypeFormattingOptionsView) -> WireValueView {
    WireValueView::Obj(emit_fields(document_on_type_formatting_options_fields(v)))
}

/// What decoding a wire value as this entity yields. Unknown extra
/// fields are ignored; a missing or ill-shaped field fails.
#[verifier::opaque]
pub open spec fn document_on_type_formatting_options_of_wire(w: WireValueView) -> Result<DocumentOnTypeFormattingOptionsView, DecodeErrorView> {
    match w {
        WireValueView::Obj(fs) => match req_str(fs, "firstTriggerCharacter"@) {
                Ok(first_trigger_character) => match emp_str_list(fs, "moreTriggerCharacter"@) {
                    Ok(more_trigger_character) => Ok(DocumentOnTypeFormattingOptionsView { first_trigger_character, more_trigger_character }),
                    Err(e) => Err(e),
                },
                Err(e) => Err(e),
            },
        _ => Err(missing("firstTriggerCharacter"@)),
    }
}

impl DocumentOnTypeFormattingOptions {
    pub fn encode(&self) -> (r: WireValue)
        ensures
            r@ == document_on_type_formatting_options_to_wire(self@),
    {
        reveal(document_on_type_formatting_options_to_wire);
        let mut table: Vec<(String, Option<WireValue>)> = Vec::new();
        table.push((key_string("firstTriggerCharacter"), Some(WireValue::Str(self.first_trigger_character.clone()))));
        table.push((key_string("moreTriggerCharacter"), if self.more_trigger_character.len() == 0 {
            None
        } else {
            Some(WireValue::Arr(encode_str_list(&self.more_trigger_character)))
        }));
        proof {
            assert(table_view(table@) =~= document_on_type_formatting_options_fields(self@));
        }
        finish_obj(table)
    }

    pub fn decode(w: &WireValue) -> (r: Result<DocumentOnTypeFormattingOptions, DecodeError>)
        ensures
            match r {
                Ok(x) => document_on_type_formatting_options_of_wire(w@) == Ok::<DocumentOnTypeFormattingOptionsView, DecodeErrorView>(x@),
                Err(e) => document_on_type_formatting_options_of_wire(w@) == Err::<DocumentOnTypeFormattingOptionsView, DecodeErrorView>(e@),
            },
    {
        reveal(document_on_type_formatting_options_of_wire);
        let fields = match w {
            WireValue::Obj(fields) => fields,
            _ => {
                return Err(DecodeError::MissingOrInvalidField(key_string("firstTriggerCharacter")));
            },
        };
        let first_trigger_character: String = match wire_obj_get(fields, &key_string("firstTriggerCharacter")) {
            Some(WireValue::Str(s)) => s.clone(),
            _ => {
                return Err(DecodeError::MissingOrInvalidField(key_string("firstTriggerCharacter")));
            },
        };
        let more_trigger_character: Vec<String> = match wire_obj_get_opt(fields, &key_string("moreTriggerCharacter")) {
            Some(WireValue::Arr(items)) => match decode_str_list(items, &key_string("moreTriggerCharacter")) {
                Ok(v) => v,
                Err(e) => {
                    return Err(e);
                },
            },
            Some(_) => {
                return Err(DecodeError::MissingOrInvalidField(key_string("moreTriggerCharacter")));
            },
            None => {
                let fresh: Vec<String> = Vec::new();
                proof {
                    assert(fresh.deep_view() =~= Seq::<Seq<char>>::empty());
                }
                fresh
            },
        };
        Ok(DocumentOnTypeFormattingOptions { first_trigger_character, more_trigger_character })
    }
}

/// Decoding an encoded value of this entity gives the value back.
pub proof fn lemma_document_on_type_formatting_options_round_trip(v: DocumentOnTypeFormattingOptionsView)
    ensures
        document_on_type_formatting_options_of_wire(document_on_type_formatting_options_to_wire(v)) == Ok::<DocumentOnTypeFormattingOptionsView, DecodeErrorView>(v),
        document_on_type_formatting_options_to_wire(v) is Obj,
{
    reveal(document_on_type_formatting_options_to_wire);
    reveal(document_on_type_formatting_options_of_wire);
    let t = document_on_type_formatting_options_fields(v);
    assert(distinct_keys(t)) by {
        reveal_strlit("firstTriggerCharacter");
        reveal_strlit("moreTriggerCharacter");
        assert forall|i: int, j: int| 0 <= i < j < t.len() implies t[i].0 != t[j].0 by {
            assert(t[0].0 == "firstTriggerCharacter"@);
            assert(t[1].0 == "moreTriggerCharacter"@);
        }
    }
    lemma_emit_fields_get(t, 0);
    lemma_emit_fields_get(t, 1);
    lemma_str_list_round_trip(v.more_trigger_character, "moreTriggerCharacter"@);
    if v.more_trigger_character.len() == 0 {
        assert(v.more_trigger_character =~= Seq::<Seq<char>>::empty());
    }
}

/// An optional field holding this entity; absent and null are `None`.
pub open spec fn opt_document_on_type_formatting_options(fs: Seq<(Seq<char>, WireValueView)>, key: Seq<char>) -> Result<
    Option<DocumentOnTypeFormattingOptionsView>,
    DecodeErrorView,
> {
    match opt_field(fs, key) {
        Some(wv) => match document_on_type_formatting_options_of_wire(wv) {
            Ok(x) => Ok(Some(x)),
            Err(e) => Err(e),
        },
        None => Ok(None),
    }
}

/// What the server offers. A field absent on the wire means the
/// feature is not offered, never "offered with defaults".
#[derive(Debug)]
pub struct ServerCapabilities {
    pub text_document_sync: Option<TextDocumentSyncKind>,
    pub hover_provider: Option<bool>,
    pub completion_provider: Option<CompletionOptions>,
    pub signature_help_provider: Option<SignatureHelpOptions>,
    pub definition_provider: Option<bool>,
    pub references_provider: Option<bool>,
    pub document_highlight_provider: Option<bool>,
    pub document_symbol_provider: Option<bool>,
    pub workspace_symbol_provider: Option<bool>,
    pub code_action_provider: Option<bool>,
    pub code_lens_provider: Option<CodeLensOptions>,
    pub document_formatting_provider: Option<bool>,
    pub document_range_formatting_provider: Option<bool>,
    pub document_on_type_formatting_provider: Option<DocumentOnTypeFormattingOptions>,
    pub rename_provider: Option<bool>,
}

/// The mathematical model of this entity.
#[verifier::ext_equal]
pub struct ServerCapabilitiesView {
    pub text_document_sync: Option<TextDocumentSyncKind>,
    pub hover_provider: Option<bool>,
    pub completion_provider: Option<CompletionOptionsView>,
    pub signature_help_provider: Option<SignatureHelpOptionsView>,
    pub definition_provider: Option<bool>,
    pub references_provider: Option<bool>,
    pub document_highlight_provider: Option<bool>,
    pub document_symbol_provider: Option<bool>,
    pub workspace_symbol_provider: Option<bool>,
    pub code_action_provider: Option<bool>,
    pub code_lens_provider: Option<CodeLensOptionsView>,
    pub document_formatting_provider: Option<bool>,
    pub document_range_formatting_provider: Option<bool>,
    pub document_on_type_formatting_provider: Option<DocumentOnTypeFormattingOptionsView>,
    pub rename_provider: Option<bool>,
}

impl View for ServerCapabilities {
    type V = ServerCapabilitiesView;

    open spec fn view(&self) -> ServerCapabilitiesView {
        ServerCapabilitiesView {
            text_document_sync: self.text_document_sync,
            hover_provider: self.hover_provider,
            completion_provider: match self.completion_provider {
                Some(x) => Some(x@),
                None => None,
            },
            signature_help_provider: match self.signature_help_provider {
                Some(x) => Some(x@),
                None => None,
            },
            definition_provider: self.definition_provider,
            references_provider: self.references_provider,
            document_highlight_provider: self.document_highlight_provider,
            document_symbol_provider: self.document_symbol_provider,
            workspace_symbol_provider: self.workspace_symbol_provider,
            code_action_provider: self.code_action_provider,
            code_lens_provider: match self.code_lens_provider {
                Some(x) => Some(x@),
                None => None,
            },
            document_formatting_provider: self.document_formatting_provider,
            document_range_formatting_provider: self.document_range_formatting_provider,
            document_on_type_formatting_provider: match self.document_on_type_formatting_provider {
                Some(x) => Some(x@),
                None => None,
            },
            rename_provider: self.rename_provider,
        }
    }
}

impl DeepView for ServerCapabilities {
    type V = ServerCapabilitiesView;

    open spec fn deep_view(&self) -> ServerCapabilitiesView {
        self.view()
    }
}

/// The field table: each wire key with its value, or `None` where the
/// field's omission policy drops it.
pub open spec fn server_capabilities_fields(v: ServerCapabilitiesView) -> FieldTable {
    seq![
        ("textDocumentSync"@, match v.text_document_sync {
                Some(k) => Some(WireValueView::Num(k.code_spec())),
                None => None,
            }),
        ("hoverProvider"@, match v.hover_provider {
                Some(b) => Some(WireValueView::Bool(b)),
                None => None,
            }),
        ("completionProvider"@, match v.completion_provider {
                Some(x) => Some(completion_options_to_wire(x)),
                None => None,
            }),
        ("signatureHelpProvider"@, match v.signature_help_provider {
                Some(x) => Some(signature_help_options_to_wire(x)),
                None => None,
            }),
        ("definitionProvider"@, match v.definition_provider {
                Some(b) => Some(WireValueView::Bool(b)),
                None => None,
            }),
        ("referencesProvider"@, match v.references_provider {
                Some(b) => Some(WireValueView::Bool(b)),
                None => None,
            }),
        ("documentHighlightProvider"@, match v.document_highlight_provider {
                Some(b) => Some(WireValueView::Bool(b)),
                None => None,
            }),
        ("documentSymbolProvider"@, match v.document_symbol_provider {
                Some(b) => Some(WireValueView::Bool(b)),
                None => None,
            }),
        ("workspaceSymbolProvider"@, match v.workspace_symbol_provider {
                Some(b) => Some(WireValueView::Bool(b)),
                None => None,
            }),
        ("codeActionProvider"@, match v.code_action_provider {
                Some(b) => Some(WireValueView::Bool(b)),
                None => None,
            }),
        ("codeLensProvider"@, match v.code_lens_provider {
                Some(x) => Some(code_lens_options_to_wire(x)),
                None => None,
            }),
        ("documentFormattingProvider"@, match v.document_formatting_provider {
                Some(b) => Some(WireValueView::Bool(b)),
                None => None,
            }),
        ("documentRangeFormattingProvider"@, match v.document_range_formatting_provider {
                Some(b) => Some(WireValueView::Bool(b)),
                None => None,
            }),
        ("documentOnTypeFormattingProvider"@, match v.document_on_type_formatting_provider {
                Some(x) => Some(document_on_type_formatting_options_to_wire(x)),
                None => None,
            }),
        ("renameProvider"@, match v.rename_provider {
                Some(b) => Some(WireValueView::Bool(b)),
                None => None,
            }),
    ]
}

/// What encoding this entity produces.
pub open spec fn server_capabilities_to_wire(v: ServerCapabilitiesView) -> WireValueView {
    WireValueView::Obj(emit_fields(server_capabilities_fields(v)))
}

/// The first half of the server-capability fields, in field order.
pub type ServerCapabilitiesFrontView = (
    Option<TextDocumentSyncKind>,
    Option<bool>,
    Option<CompletionOptionsView>,
    Option<SignatureHelpOptionsView>,
    Option<bool>,
    Option<bool>,
    Option<bool>,
    Option<bool>,
);

/// The second half of the server-capability fields, in field order.
pub type ServerCapabilitiesBackView = (
    Option<bool>,
    Option<bool>,
    Option<CodeLensOptionsView>,
    Option<bool>,
    Option<bool>,
    Option<DocumentOnTypeFormattingOptionsView>,
    Option<bool>,
);

/// What decoding the first half of the fields yields.
pub open spec fn server_capabilities_front_of_wire(fs: Seq<(Seq<char>, WireValueView)>) -> Result<
    ServerCapabilitiesFrontView,
    DecodeErrorView,
> {
    match opt_sync_kind(fs, "textDocumentSync"@) {
        Ok(text_document_sync) => match opt_bool(fs, "hoverProvider"@) {
            Ok(hover_provider) => match opt_completion_options(fs, "completionProvider"@) {
                Ok(completion_provider) => match opt_signature_help_options(
                    fs,
                    "signatureHelpProvider"@,
                ) {
                    Ok(signature_help_provider) => match opt_bool(fs, "definitionProvider"@) {
                        Ok(definition_provider) => match opt_bool(fs, "referencesProvider"@) {
                            Ok(references_provider) => match opt_bool(
                                fs,
                                "documentHighlightProvider"@,
                            ) {
                                Ok(document_highlight_provider) => match opt_bool(
                                    fs,
                                    "documentSymbolProvider"@,
                                ) {
                                    Ok(document_symbol_provider) => Ok(
                                        (
                                            text_document_sync,
                                            hover_provider,
                                            completion_provider,
                                            signature_help_provider,
                                            definition_provider,
                                            references_provider,
                                            document_highlight_provider,
                                            document_symbol_provider,
                                        ),
                                    ),
                                    Err(e) => Err(e),
                                },
                                Err(e) => Err(e),
                            },
                            Err(e) => Err(e),
                        },
                        Err(e) => Err(e),
                    },
                    Err(e) => Err(e),
                },
                Err(e) => Err(e),
            },
            Err(e) => Err(e),
        },
        Err(e) => Err(e),
    }
}

/// What decoding the second half of the fields yields.
pub open spec fn server_capabilities_back_of_wire(fs: Seq<(Seq<char>, WireValueView)>) -> Result<
    ServerCapabilitiesBackView,
    DecodeErrorView,
> {
    match opt_bool(fs, "workspaceSymbolProvider"@) {
        Ok(workspace_symbol_provider) => match opt_bool(fs, "codeActionProvider"@) {
            Ok(code_action_provider) => match opt_code_lens_options(fs, "codeLensProvider"@) {
                Ok(code_lens_provider) => match opt_bool(fs, "documentFormattingProvider"@) {
                    Ok(document_formatting_provider) => match opt_bool(
                        fs,
                        "documentRangeFormattingProvider"@,
                    ) {
                        Ok(document_range_formatting_provider) => match opt_document_on_type_formatting_options(
                            fs,
                            "documentOnTypeFormattingProvider"@,
                        ) {
                            Ok(document_on_type_formatting_provider) => match opt_bool(
                                fs,
                                "renameProvider"@,
                            ) {
                                Ok(rename_provider) => Ok(
                                    (
                                        workspace_symbol_provider,
                                        code_action_provider,
                                        code_lens_provider,
                                        document_formatting_provider,
                                        document_range_formatting_provider,
                                        document_on_type_formatting_provider,
                                        rename_provider,
                                    ),
                                ),
                                Err(e) => Err(e),
                            },
                            Err(e) => Err(e),
                        },
                        Err(e) => Err(e),
                    },
                    Err(e) => Err(e),
                },
                Err(e) => Err(e),
            },
            Err(e) => Err(e),
        },
        Err(e) => Err(e),
    }
}

/// What decoding a wire value as this entity yields. Unknown extra
/// fields are ignored; a missing or ill-shaped field fails. The fields are
/// read in declaration order, the first half before the second.
pub open spec fn server_capabilities_of_wire(w: WireValueView) -> Result<
    ServerCapabilitiesView,
    DecodeErrorView,
> {
    match w {
        WireValueView::Obj(fs) => match server_capabilities_front_of_wire(fs) {
            Ok(front) => match server_capabilities_back_of_wire(fs) {
                Ok(back) => Ok(
                    ServerCapabilitiesView {
                        text_document_sync: front.0,
                        hover_provider: front.1,
                        completion_provider: front.2,
                        signature_help_provider: front.3,
                        definition_provider: front.4,
                        references_provider: front.5,
                        document_highlight_provider: front.6,
                        document_symbol_provider: front.7,
                        workspace_symbol_provider: back.0,
                        code_action_provider: back.1,
                        code_lens_provider: back.2,
                        document_formatting_provider: back.3,
                        document_range_formatting_provider: back.4,
                        document_on_type_formatting_provider: back.5,
                        rename_provider: back.6,
                    },
                ),
                Err(e) => Err(e),
            },
            Err(e) => Err(e),
        },
        _ => Err(missing("textDocumentSync"@)),
    }
}

impl ServerCapabilities {
    /// The table entries of the first half of the fields.
    #[verifier::spinoff_prover]
    #[verifier::rlimit(100)]
    fn table_front(&self) -> (t: Vec<(String, Option<WireValue>)>)
        ensures
            table_view(t@) == server_capabilities_fields(self@).take(8),
    {
        let mut table: Vec<(String, Option<WireValue>)> = Vec::new();
        table.push((key_string("textDocumentSync"), match self.text_document_sync {
            Some(k) => Some(WireValue::Num(k.code())),
            None => None,
        }));
        table.push((key_string("hoverProvider"), match self.hover_provider {
            Some(b) => Some(WireValue::Bool(b)),
            None => None,
        }));
        table.push((key_string("completionProvider"), match &self.completion_provider {
            Some(x) => Some(x.encode()),
            None => None,
        }));
        table.push((key_string("signatureHelpProvider"), match &self.signature_help_provider {
            Some(x) => Some(x.encode()),
            None => None,
        }));
        table.push((key_string("definitionProvider"), match self.definition_provider {
            Some(b) => Some(WireValue::Bool(b)),
            None => None,
        }));
        table.push((key_string("referencesProvider"), match self.references_provider {
            Some(b) => Some(WireValue::Bool(b)),
            None => None,
        }));
        table.push((key_string("documentHighlightProvider"), match self.document_highlight_provider {
            Some(b) => Some(WireValue::Bool(b)),
            None => None,
        }));
        table.push((key_string("documentSymbolProvider"), match self.document_symbol_provider {
            Some(b) => Some(WireValue::Bool(b)),
            None => None,
        }));
        proof {
            let tv = table_view(table@);
            let sf = server_capabilities_fields(self@);
            assert(tv.len() == 8);
            assert(tv[0] == sf[0]);
            assert(tv[1] == sf[1]);
            assert(tv[2] == sf[2]);
            assert(tv[3] == sf[3]);
            assert(tv[4] == sf[4]);
            assert(tv[5] == sf[5]);
            assert(tv[6] == sf[6]);
            assert(tv[7] == sf[7]);
            assert(tv =~= sf.take(8));
        }
        table
    }

    /// The table entries of the second half of the fields.
    #[verifier::spinoff_prover]
    #[verifier::rlimit(100)]
    fn table_back(&self) -> (t: Vec<(String, Option<WireValue>)>)
        ensures
            table_view(t@) == server_capabilities_fields(self@).skip(8),
    {
        let mut table: Vec<(String, Option<WireValue>)> = Vec::new();
        table.push((key_string("workspaceSymbolProvider"), match self.workspace_symbol_provider {
            Some(b) => Some(WireValue::Bool(b)),
            None => None,
        }));
        table.push((key_string("codeActionProvider"), match self.code_action_provider {
            Some(b) => Some(WireValue::Bool(b)),
            None => None,
        }));
        table.push((key_string("codeLensProvider"), match &self.code_lens_provider {
            Some(x) => Some(x.encode()),
            None => None,
        }));
        table.push((key_string("documentFormattingProvider"), match self.document_formatting_provider {
            Some(b) => Some(WireValue::Bool(b)),
            None => None,
        }));
        table.push((key_string("documentRangeFormattingProvider"), match self.document_range_formatting_provider {
            Some(b) => Some(WireValue::Bool(b)),
            None => None,
        }));
        table.push((key_string("documentOnTypeFormattingProvider"), match &self.document_on_type_formatting_provider {
            Some(x) => Some(x.encode()),
            None => None,
        }));
        table.push((key_string("renameProvider"), match self.rename_provider {
            Some(b) => Some(WireValue::Bool(b)),
            None => None,
        }));
        proof {
            let tv = table_view(table@);
            let sf = server_capabilities_fields(self@);
            assert(tv.len() == 7);
            assert(tv[0] == sf[8]);
            assert(tv[1] == sf[9]);
            assert(tv[2] == sf[10]);
            assert(tv[3] == sf[11]);
            assert(tv[4] == sf[12]);
            assert(tv[5] == sf[13]);
            assert(tv[6] == sf[14]);
            assert(tv =~= sf.skip(8));
        }
        table
    }

    #[verifier::spinoff_prover]
    #[verifier::rlimit(100)]
    pub fn encode(&self) -> (r: WireValue)
        ensures
            r@ == server_capabilities_to_wire(self@),
    {
        let mut table = self.table_front();
        let mut rest = self.table_back();
        let ghost fv = table@;
        let ghost bv = rest@;
        table.append(&mut rest);
        proof {
            let sf = server_capabilities_fields(self@);
            assert(sf.len() == 15);
            assert(fv.len() == 8) by {
                assert(table_view(fv).len() == fv.len());
            }
            assert(bv.len() == 7) by {
                assert(table_view(bv).len() == bv.len());
            }
            assert(table@ == fv + bv);
            assert(table@.len() == 15);
            assert forall|j: int|
                0 <= j < table_view(table@).len() implies table_view(table@)[j] == sf[j] by {
                if j < 8 {
                    assert(table@[j] == (fv + bv)[j]);
                    assert((fv + bv)[j] == fv[j]);
                    assert(table_view(fv)[j] == sf.take(8)[j]);
                    assert(sf.take(8)[j] == sf[j]);
                } else {
                    assert(table@[j] == (fv + bv)[j]);
                    assert((fv + bv)[j] == bv[j - 8]);
                    assert(table_view(bv)[j - 8] == sf.skip(8)[j - 8]);
                    assert(sf.skip(8)[j - 8] == sf[j]);
                }
            }
            assert(table_view(table@) =~= sf);
        }
        finish_obj(table)
    }

    /// Decodes the first half of the fields.
    #[verifier::spinoff_prover]
    #[verifier::rlimit(100)]
    fn decode_front(fields: &Vec<(String, WireValue)>) -> (r: Result<
        (
            Option<TextDocumentSyncKind>,
            Option<bool>,
            Option<CompletionOptions>,
            Option<SignatureHelpOptions>,
            Option<bool>,
            Option<bool>,
            Option<bool>,
            Option<bool>,
        ),
        DecodeError,
    >)
        ensures
            match r {
                Ok(t) => server_capabilities_front_of_wire(wire_obj_view(fields@)) == Ok::<
                    ServerCapabilitiesFrontView,
                    DecodeErrorView,
                >(
                    (
                        t.0,
                        t.1,
                        match t.2 {
                            Some(x) => Some(x@),
                            None => None,
                        },
                        match t.3 {
                            Some(x) => Some(x@),
                            None => None,
                        },
                        t.4,
                        t.5,
                        t.6,
                        t.7,
                    ),
                ),
                Err(e) => server_capabilities_front_of_wire(wire_obj_view(fields@)) == Err::<
                    ServerCapabilitiesFrontView,
                    DecodeErrorView,
                >(e@),
            },
    {
        let text_document_sync: Option<TextDocumentSyncKind> = match wire_obj_get_opt(fields, &key_string("textDocumentSync")) {
            Some(WireValue::Num(n)) => match TextDocumentSyncKind::from_code(*n) {
                Ok(k) => Some(k),
                Err(e) => {
                    return Err(e);
                },
            },
            Some(_) => {
                return Err(DecodeError::MissingOrInvalidField(key_string("textDocumentSync")));
            },
            None => None,
        };
        let hover_provider: Option<bool> = match wire_obj_get_opt(fields, &key_string("hoverProvider")) {
            Some(WireValue::Bool(b)) => Some(*b),
            Some(_) => {
                return Err(DecodeError::MissingOrInvalidField(key_string("hoverProvider")));
            },
            None => None,
        };
        let completion_provider: Option<CompletionOptions> = match wire_obj_get_opt(fields, &key_string("completionProvider")) {
            Some(v) => match CompletionOptions::decode(v) {
                Ok(x) => Some(x),
                Err(e) => {
                    return Err(e);
                },
            },
            None => None,
        };
        let signature_help_provider: Option<SignatureHelpOptions> = match wire_obj_get_opt(fields, &key_string("signatureHelpProvider")) {
            Some(v) => match SignatureHelpOptions::decode(v) {
                Ok(x) => Some(x),
                Err(e) => {
                    return Err(e);
                },
            },
            None => None,
        };
        let definition_provider: Option<bool> = match wire_obj_get_opt(fields, &key_string("definitionProvider")) {
            Some(WireValue::Bool(b)) => Some(*b),
            Some(_) => {
                return Err(DecodeError::MissingOrInvalidField(key_string("definitionProvider")));
            },
            None => None,
        };
        let references_provider: Option<bool> = match wire_obj_get_opt(fields, &key_string("referencesProvider")) {
            Some(WireValue::Bool(b)) => Some(*b),
            Some(_) => {
                return Err(DecodeError::MissingOrInvalidField(key_string("referencesProvider")));
            },
            None => None,
        };
        let document_highlight_provider: Option<bool> = match wire_obj_get_opt(fields, &key_string("documentHighlightProvider")) {
            Some(WireValue::Bool(b)) => Some(*b),
            Some(_) => {
                return Err(DecodeError::MissingOrInvalidField(key_string("documentHighlightProvider")));
            },
            None => None,
        };
        let document_symbol_provider: Option<bool> = match wire_obj_get_opt(fields, &key_string("documentSymbolProvider")) {
            Some(WireValue::Bool(b)) => Some(*b),
            Some(_) => {
                return Err(DecodeError::MissingOrInvalidField(key_string("documentSymbolProvider")));
            },
            None => None,
        };
        Ok(
            (
                text_document_sync,
                hover_provider,
                completion_provider,
                signature_help_provider,
                definition_provider,
                references_provider,
                document_highlight_provider,
                document_symbol_provider,
            ),
        )
    }

    /// Decodes the second half of the fields.
    #[verifier::spinoff_prover]
    #[verifier::rlimit(100)]
    fn decode_back(fields: &Vec<(String, WireValue)>) -> (r: Result<
        (
            Option<bool>,
            Option<bool>,
            Option<CodeLensOptions>,
            Option<bool>,
            Option<bool>,
            Option<DocumentOnTypeFormattingOptions>,
            Option<bool>,
        ),
        DecodeError,
    >)
        ensures
            match r {
                Ok(t) => server_capabilities_back_of_wire(wire_obj_view(fields@)) == Ok::<
                    ServerCapabilitiesBackView,
                    DecodeErrorView,
                >(
                    (
                        t.0,
                        t.1,
                        match t.2 {
                            Some(x) => Some(x@),
                            None => None,
                        },
                        t.3,
                        t.4,
                        match t.5 {
                            Some(x) => Some(x@),
                            None => None,
                        },
                        t.6,
                    ),
                ),
                Err(e) => server_capabilities_back_of_wire(wire_obj_view(fields@)) == Err::<
                    ServerCapabilitiesBackView,
                    DecodeErrorView,
                >(e@),
            },
    {
        let workspace_symbol_provider: Option<bool> = match wire_obj_get_opt(fields, &key_string("workspaceSymbolProvider")) {
            Some(WireValue::Bool(b)) => Some(*b),
            Some(_) => {
                return Err(DecodeError::MissingOrInvalidField(key_string("workspaceSymbolProvider")));
            },
            None => None,
        };
        let code_action_provider: Option<bool> = match wire_obj_get_opt(fields, &key_string("codeActionProvider")) {
            Some(WireValue::Bool(b)) => Some(*b),
            Some(_) => {
                return Err(DecodeError::MissingOrInvalidField(key_string("codeActionProvider")));
            },
            None => None,
        };
        let code_lens_provider: Option<CodeLensOptions> = match wire_obj_get_opt(fields, &key_string("codeLensProvider")) {
            Some(v) => match CodeLensOptions::decode(v) {
                Ok(x) => Some(x),
                Err(e) => {
                    return Err(e);
                },
            },
            None => None,
        };
        let document_formatting_provider: Option<bool> = match wire_obj_get_opt(fields, &key_string("documentFormattingProvider")) {
            Some(WireValue::Bool(b)) => Some(*b),
            Some(_) => {
                return Err(DecodeError::MissingOrInvalidField(key_string("documentFormattingProvider")));
            },
            None => None,
        };
        let document_range_formatting_provider: Option<bool> = match wire_obj_get_opt(fields, &key_string("documentRangeFormattingProvider")) {
            Some(WireValue::Bool(b)) => Some(*b),
            Some(_) => {
                return Err(DecodeError::MissingOrInvalidField(key_string("documentRangeFormattingProvider")));
            },
            None => None,
        };
        let document_on_type_formatting_provider: Option<DocumentOnTypeFormattingOptions> = match wire_obj_get_opt(fields, &key_string("documentOnTypeFormattingProvider")) {
            Some(v) => match DocumentOnTypeFormattingOptions::decode(v) {
                Ok(x) => Some(x),
                Err(e) => {
                    return Err(e);
                },
            },
            None => None,
        };
        let rename_provider: Option<bool> = match wire_obj_get_opt(fields, &key_string("renameProvider")) {
            Some(WireValue::Bool(b)) => Some(*b),
            Some(_) => {
                return Err(DecodeError::MissingOrInvalidField(key_string("renameProvider")));
            },
            None => None,
        };
        Ok(
            (
                workspace_symbol_provider,
                code_action_provider,
                code_lens_provider,
                document_formatting_provider,
                document_range_formatting_provider,
                document_on_type_formatting_provider,
                rename_provider,
            ),
        )
    }

    pub fn decode(w: &WireValue) -> (r: Result<ServerCapabilities, DecodeError>)
        ensures
            match r {
                Ok(x) => server_capabilities_of_wire(w@) == Ok::<ServerCapabilitiesView, DecodeErrorView>(x@),
                Err(e) => server_capabilities_of_wire(w@) == Err::<ServerCapabilitiesView, DecodeErrorView>(e@),
            },
    {
        let fields = match w {
            WireValue::Obj(fields) => fields,
            _ => {
                return Err(DecodeError::MissingOrInvalidField(key_string("textDocumentSync")));
            },
        };
        let front = match Self::decode_front(fields) {
            Ok(t) => t,
            Err(e) => {
                return Err(e);
            },
        };
        let back = match Self::decode_back(fields) {
            Ok(t) => t,
            Err(e) => {
                return Err(e);
            },
        };
        Ok(ServerCapabilities {
            text_document_sync: front.0,
            hover_provider: front.1,
            completion_provider: front.2,
            signature_help_provider: front.3,
            definition_provider: front.4,
            references_provider: front.5,
            document_highlight_provider: front.6,
            document_symbol_provider: front.7,
            workspace_symbol_provider: back.0,
            code_action_provider: back.1,
            code_lens_provider: back.2,
            document_formatting_provider: back.3,
            document_range_formatting_provider: back.4,
            document_on_type_formatting_provider: back.5,
            rename_provider: back.6,
        })
    }
}

/// Decoding an encoded value of this entity gives the value back.
#[verifier::spinoff_prover]
#[verifier::rlimit(100)]
pub proof fn lemma_server_capabilities_round_trip(v: ServerCapabilitiesView)
    ensures
        server_capabilities_of_wire(server_capabilities_to_wire(v)) == Ok::<ServerCapabilitiesView, DecodeErrorView>(v),
{
    let t = server_capabilities_fields(v);
    assert(distinct_keys(t)) by {
        reveal_strlit("textDocumentSync");
        reveal_strlit("hoverProvider");
        reveal_strlit("completionProvider");
        reveal_strlit("signatureHelpProvider");
        reveal_strlit("definitionProvider");
        reveal_strlit("referencesProvider");
        reveal_strlit("documentHighlightProvider");
        reveal_strlit("documentSymbolProvider");
        reveal_strlit("workspaceSymbolProvider");
        reveal_strlit("codeActionProvider");
        reveal_strlit("codeLensProvider");
        reveal_strlit("documentFormattingProvider");
        reveal_strlit("documentRangeFormattingProvider");
        reveal_strlit("documentOnTypeFormattingProvider");
        reveal_strlit("renameProvider");
        assert forall|i: int, j: int| 0 <= i < j < t.len() implies t[i].0 != t[j].0 by {
            assert(t[0].0 == "textDocumentSync"@);
            assert(t[1].0 == "hoverProvider"@);
            assert(t[2].0 == "completionProvider"@);
            assert(t[3].0 == "signatureHelpProvider"@);
            assert(t[4].0 == "definitionProvider"@);
            assert(t[5].0 == "referencesProvider"@);
            assert(t[6].0 == "documentHighlightProvider"@);
            assert(t[7].0 == "documentSymbolProvider"@);
            assert(t[8].0 == "workspaceSymbolProvider"@);
            assert(t[9].0 == "codeActionProvider"@);
            assert(t[10].0 == "codeLensProvider"@);
            assert(t[11].0 == "documentFormattingProvider"@);
            assert(t[12].0 == "documentRangeFormattingProvider"@);
            assert(t[13].0 == "documentOnTypeFormattingProvider"@);
            assert(t[14].0 == "renameProvider"@);
            assert("textDocumentSync"@[0] != "codeLensProvider"@[0]);
            assert("completionProvider"@[0] != "definitionProvider"@[0]);
            assert("completionProvider"@[0] != "referencesProvider"@[0]);
            assert("completionProvider"@[2] != "codeActionProvider"@[2]);
            assert("definitionProvider"@[0] != "referencesProvider"@[0]);
            assert("definitionProvider"@[0] != "codeActionProvider"@[0]);
            assert("referencesProvider"@[0] != "codeActionProvider"@[0]);
        }
    }
    lemma_emit_fields_get(t, 0);
    lemma_emit_fields_get(t, 1);
    lemma_emit_fields_get(t, 2);
    lemma_emit_fields_get(t, 3);
    lemma_emit_fields_get(t, 4);
    lemma_emit_fields_get(t, 5);
    lemma_emit_fields_get(t, 6);
    lemma_emit_fields_get(t, 7);
    lemma_emit_fields_get(t, 8);
    lemma_emit_fields_get(t, 9);
    lemma_emit_fields_get(t, 10);
    lemma_emit_fields_get(t, 11);
    lemma_emit_fields_get(t, 12);
    lemma_emit_fields_get(t, 13);
    lemma_emit_fields_get(t, 14);
    match v.completion_provider {
        Some(x) => lemma_completion_options_round_trip(x),
        None => (),
    }
    match v.signature_help_provider {
        Some(x) => lemma_signature_help_options_round_trip(x),
        None => (),
    }
    match v.code_lens_provider {
        Some(x) => lemma_code_lens_options_round_trip(x),
        None => (),
    }
    match v.document_on_type_formatting_provider {
        Some(x) => lemma_document_on_type_formatting_options_round_trip(x),
        None => (),
    }
    assert(opt_sync_kind(emit_fields(t), "textDocumentSync"@) == Ok::<Option<TextDocumentSyncKind>, DecodeErrorView>(v.text_document_sync));
    assert(opt_bool(emit_fields(t), "hoverProvider"@) == Ok::<Option<bool>, DecodeErrorView>(v.hover_provider));
    assert(opt_completion_options(emit_fields(t), "completionProvider"@) == Ok::<Option<CompletionOptionsView>, DecodeErrorView>(v.completion_provider));
    assert(opt_signature_help_options(emit_fields(t), "signatureHelpProvider"@) == Ok::<Option<SignatureHelpOptionsView>, DecodeErrorView>(v.signature_help_provider));
    assert(opt_bool(emit_fields(t), "definitionProvider"@) == Ok::<Option<bool>, DecodeErrorView>(v.definition_provider));
    assert(opt_bool(emit_fields(t), "referencesProvider"@) == Ok::<Option<bool>, DecodeErrorView>(v.references_provider));
    assert(opt_bool(emit_fields(t), "documentHighlightProvider"@) == Ok::<Option<bool>, DecodeErrorView>(v.document_highlight_provider));
    assert(opt_bool(emit_fields(t), "documentSymbolProvider"@) == Ok::<Option<bool>, DecodeErrorView>(v.document_symbol_provider));
    assert(opt_bool(emit_fields(t), "workspaceSymbolProvider"@) == Ok::<Option<bool>, DecodeErrorView>(v.workspace_symbol_provider));
    assert(opt_bool(emit_fields(t), "codeActionProvider"@) == Ok::<Option<bool>, DecodeErrorView>(v.code_action_provider));
    assert(opt_code_lens_options(emit_fields(t), "codeLensProvider"@) == Ok::<Option<CodeLensOptionsView>, DecodeErrorView>(v.code_lens_provider));
    assert(opt_bool(emit_fields(t), "documentFormattingProvider"@) == Ok::<Option<bool>, DecodeErrorView>(v.document_formatting_provider));
    assert(opt_bool(emit_fields(t), "documentRangeFormattingProvider"@) == Ok::<Option<bool>, DecodeErrorView>(v.document_range_formatting_provider));
    assert(opt_document_on_type_formatting_options(emit_fields(t), "documentOnTypeFormattingProvider"@) == Ok::<Option<DocumentOnTypeFormattingOptionsView>, DecodeErrorView>(v.document_on_type_formatting_provider));
    assert(opt_bool(emit_fields(t), "renameProvider"@) == Ok::<Option<bool>, DecodeErrorView>(v.rename_provider));
    assert(server_capabilities_front_of_wire(emit_fields(t)) == Ok::<ServerCapabilitiesFrontView, DecodeErrorView>(
        (
            v.text_document_sync,
            v.hover_provider,
            v.completion_provider,
            v.signature_help_provider,
            v.definition_provider,
            v.references_provider,
            v.document_highlight_provider,
            v.document_symbol_provider,
        ),
    ));
    assert(server_capabilities_back_of_wire(emit_fields(t)) == Ok::<ServerCapabilitiesBackView, DecodeErrorView>(
        (
            v.workspace_symbol_provider,
            v.code_action_provider,
            v.code_lens_provider,
            v.document_formatting_provider,
            v.document_range_formatting_provider,
            v.document_on_type_formatting_provider,
            v.rename_provider,
        ),
    ));
}

/// A required field holding this entity.
pub open spec fn req_server_capabilities(fs: Seq<(Seq<char>, WireValueView)>, key: Seq<char>) -> Result<
    ServerCapabilitiesView,
    DecodeErrorView,
> {
    match obj_get(fs, key) {
        Some(wv) => server_capabilities_of_wire(wv),
        None => Err(missing(key)),
    }
}

/// The first request's parameters: process id, workspace root and the
/// client's capabilities.
#[derive(Debug)]
pub struct InitializeParams {
    pub process_id: u64,
    pub root_path: Option<String>,
    pub capabilities: ClientCapabilities,
}

/// The mathematical model of this entity.
#[verifier::ext_equal]
pub struct InitializeParamsView {
    pub process_id: u64,
    pub root_path: Option<Seq<char>>,
    pub capabilities: ClientCapabilitiesView,
}

impl View for InitializeParams {
    type V = InitializeParamsView;

    open spec fn view(&self) -> InitializeParamsView {
        InitializeParamsView {
            process_id: self.process_id,
            root_path: match self.root_path {
                Some(s) => Some(s@),
                None => None,
            },
            capabilities: self.capabilities@,
        }
    }
}

impl DeepView for InitializeParams {
    type V = InitializeParamsView;

    open spec fn deep_view(&self) -> InitializeParamsView {
        self.view()
    }
}

/// The field table: each wire key with its value, or `None` where the
/// field's omission policy drops it.
pub open spec fn initialize_params_fields(v: InitializeParamsView) -> FieldTable {
    seq![
        ("processId"@, Some(WireValueView::Num(v.process_id))),
        ("rootPath"@, match v.root_path {
                Some(s) => Some(WireValueView::Str(s)),
                None => None,
            }),
        ("capabilities"@, Some(client_capabilities_to_wire(v.capabilities))),
    ]
}

/// What encoding this entity produces.
pub open spec fn initialize_params_to_wire(v: InitializeParamsView) -> WireValueView {
    WireValueView::Obj(emit_fields(initialize_params_fields(v)))
}

/// What decoding a wire value as this entity yields. Unknown extra
/// fields are ignored; a missing or ill-shaped field fails.
pub open spec fn initialize_params_of_wire(w: WireValueView) -> Result<InitializeParamsView, DecodeErrorView> {
    match w {
        WireValueView::Obj(fs) => match req_num(fs, "processId"@) {
                Ok(process_id) => match opt_str(fs, "rootPath"@) {
                    Ok(root_path) => match req_client_capabilities(fs, "capabilities"@) {
                        Ok(capabilities) => Ok(InitializeParamsView { process_id, root_path, capabilities }),
                        Err(e) => Err(e),
                    },
                    Err(e) => Err(e),
                },
                Err(e) => Err(e),
            },
        _ => Err(missing("processId"@)),
    }
}

impl InitializeParams {
    pub fn encode(&self) -> (r: WireValue)
        ensures
            r@ == initialize_params_to_wire(self@),
    {
        let mut table: Vec<(String, Option<WireValue>)> = Vec::new();
        table.push((key_string("processId"), Some(WireValue::Num(self.process_id))));
        table.push((key_string("rootPath"), match &self.root_path {
            Some(s) => Some(WireValue::Str(s.clone())),
            None => None,
        }));
        table.push((key_string("capabilities"), Some(self.capabilities.encode())));
        proof {
            assert(table_view(table@) =~= initialize_params_fields(self@));
        }
        finish_obj(table)
    }

    pub fn decode(w: &WireValue) -> (r: Result<InitializeParams, DecodeError>)
        ensures
            match r {
                Ok(x) => initialize_params_of_wire(w@) == Ok::<InitializeParamsView, DecodeErrorView>(x@),
                Err(e) => initialize_params_of_wire(w@) == Err::<InitializeParamsView, DecodeErrorView>(e@),
            },
    {
        let fields = match w {
            WireValue::Obj(fields) => fields,
            _ => {
                return Err(DecodeError::MissingOrInvalidField(key_string("processId")));
            },
        };
        let process_id: u64 = match wire_obj_get(fields, &key_string("processId")) {
            Some(WireValue::Num(n)) => *n,
            _ => {
                return Err(DecodeError::MissingOrInvalidField(key_string("processId")));
            },
        };
        let root_path: Option<String> = match wire_obj_get_opt(fields, &key_string("rootPath")) {
            Some(WireValue::Str(s)) => Some(s.clone()),
            Some(_) => {
                return Err(DecodeError::MissingOrInvalidField(key_string("rootPath")));
            },
            None => None,
        };
        let capabilities: ClientCapabilities = match wire_obj_get(fields, &key_string("capabilities")) {
            Some(v) => match ClientCapabilities::decode(v) {
                Ok(x) => x,
                Err(e) => {
                    return Err(e);
                },
            },
            None => {
                return Err(DecodeError::MissingOrInvalidField(key_string("capabilities")));
            },
        };
        Ok(InitializeParams { process_id, root_path, capabilities })
    }
}

/// Decoding an encoded value of this entity gives the value back.
pub proof fn lemma_initialize_params_round_trip(v: InitializeParamsView)
    ensures
        initialize_params_of_wire(initialize_params_to_wire(v)) == Ok::<InitializeParamsView, DecodeErrorView>(v),
{
    let t = initialize_params_fields(v);
    assert(distinct_keys(t)) by {
        reveal_strlit("processId");
        reveal_strlit("rootPath");
        reveal_strlit("capabilities");
        assert forall|i: int, j: int| 0 <= i < j < t.len() implies t[i].0 != t[j].0 by {
            assert(t[0].0 == "processId"@);
            assert(t[1].0 == "rootPath"@);
            assert(t[2].0 == "capabilities"@);
        }
    }
    lemma_emit_fields_get(t, 0);
    lemma_emit_fields_get(t, 1);
    lemma_emit_fields_get(t, 2);
    lemma_client_capabilities_round_trip(v.capabilities);
}

/// The answer to the first request: what the server can do.
#[derive(Debug)]
pub struct InitializeResult {
    pub capabilities: ServerCapabilities,
}

/// The mathematical model of this entity.
#[verifier::ext_equal]
pub struct InitializeResultView {
    pub capabilities: ServerCapabilitiesView,
}

impl View for InitializeResult {
    type V = InitializeResultView;

    open spec fn view(&self) -> InitializeResultView {
        InitializeResultView {
            capabilities: self.capabilities@,
        }
    }
}

impl DeepView for InitializeResult {
    type V = InitializeResultView;

    open spec fn deep_view(&self) -> InitializeResultView {
        self.view()
    }
}

/// The field table: each wire key with its value, or `None` where the
/// field's omission policy drops it.
pub open spec fn initialize_result_fields(v: InitializeResultView) -> FieldTable {
    seq![
        ("capabilities"@, Some(server_capabilities_to_wire(v.capabilities))),
    ]
}

/// What encoding this entity produces.
pub open spec fn initialize_result_to_wire(v: InitializeResultView) -> WireValueView {
    WireValueView::Obj(emit_fields(initialize_result_fields(v)))
}

/// What decoding a wire value as this entity yields. Unknown extra
/// fields are ignored; a missing or ill-shaped field fails.
pub open spec fn initialize_result_of_wire(w: WireValueView) -> Result<InitializeResultView, DecodeErrorView> {
    match w {
        WireValueView::Obj(fs) => match req_server_capabilities(fs, "capabilities"@) {
                Ok(capabilities) => Ok(InitializeResultView { capabilities }),
                Err(e) => Err(e),
            },
        _ => Err(missing("capabilities"@)),
    }
}

impl InitializeResult {
    pub fn encode(&self) -> (r: WireValue)
        ensures
            r@ == initialize_result_to_wire(self@),
    {
        let mut table: Vec<(String, Option<WireValue>)> = Vec::new();
        table.push((key_string("capabilities"), Some(self.capabilities.encode())));
        proof {
            assert(table_view(table@) =~= initialize_result_fields(self@));
        }
        finish_obj(table)
    }

    pub fn decode(w: &WireValue) -> (r: Result<InitializeResult, DecodeError>)
        ensures
            match r {
                Ok(x) => initialize_result_of_wire(w@) == Ok::<InitializeResultView, DecodeErrorView>(x@),
                Err(e) => initialize_result_of_wire(w@) == Err::<InitializeResultView, DecodeErrorView>(e@),
            },
    {
        let fields = match w {
            WireValue::Obj(fields) => fields,
            _ => {
                return Err(DecodeError::MissingOrInvalidField(key_string("capabilities")));
            },
        };
        let capabilities: ServerCapabilities = match wire_obj_get(fields, &key_string("capabilities")) {
            Some(v) => match ServerCapabilities::decode(v) {
                Ok(x) => x,
                Err(e) => {
                    return Err(e);
                },
            },
            None => {
                return Err(DecodeError::MissingOrInvalidField(key_string("capabilities")));
            },
        };
        Ok(InitializeResult { capabilities })
    }
}

/// Decoding an encoded value of this entity gives the value back.
pub proof fn lemma_initialize_result_round_trip(v: InitializeResultView)
    ensures
        initialize_result_of_wire(initialize_result_to_wire(v)) == Ok::<InitializeResultView, DecodeErrorView>(v),
{
    let t = initialize_result_fields(v);
    assert(distinct_keys(t)) by {
        reveal_strlit("capabilities");
    }
    lemma_emit_fields_get(t, 0);
    lemma_server_capabilities_round_trip(v.capabilities);
}

/// Whether the client should retry the first request.
#[derive(Debug)]
pub struct InitializeError {
    pub retry: bool,
}

/// The mathematical model of this entity.
#[verifier::ext_equal]
pub struct InitializeErrorView {
    pub retry: bool,
}

impl View for InitializeError {
    type V = InitializeErrorView;

    open spec fn view(&self) -> InitializeErrorView {
        InitializeErrorView {
            retry: self.retry,
        }
    }
}

impl DeepView for InitializeError {
    type V = InitializeErrorView;

    open spec fn deep_view(&self) -> InitializeErrorView {
        self.view()
    }
}

/// The field table: each wire key with its value, or `None` where the
/// field's omission policy drops it.
pub open spec fn initialize_error_fields(v: InitializeErrorView) -> FieldTable {
    seq![
        ("retry"@, Some(WireValueView::Bool(v.retry))),
    ]
}

/// What encoding this entity produces.
pub open spec fn initialize_error_to_wire(v: InitializeErrorView) -> WireValueView {
    WireValueView::Obj(emit_fields(initialize_error_fields(v)))
}

/// What decoding a wire value as this entity yields. Unknown extra
/// fields are ignored; a missing or ill-shaped field fails.
pub open spec fn initialize_error_of_wire(w: WireValueView) -> Result<InitializeErrorView, DecodeErrorView> {
    match w {
        WireValueView::Obj(fs) => match req_bool(fs, "retry"@) {
                Ok(retry) => Ok(InitializeErrorView { retry }),
                Err(e) => Err(e),
            },
        _ => Err(missing("retry"@)),
    }
}

impl InitializeError {
    pub fn encode(&self) -> (r: WireValue)
        ensures
            r@ == initialize_error_to_wire(self@),
    {
        let mut table: Vec<(String, Option<WireValue>)> = Vec::new();
        table.push((key_string("retry"), Some(WireValue::Bool(self.retry))));
        proof {
            assert(table_view(table@) =~= initialize_error_fields(self@));
        }
        finish_obj(table)
    }

    pub fn decode(w: &WireValue) -> (r: Result<InitializeError, DecodeError>)
        ensures
            match r {
                Ok(x) => initialize_error_of_wire(w@) == Ok::<InitializeErrorView, DecodeErrorView>(x@),
                Err(e) => initialize_error_of_wire(w@) == Err::<InitializeErrorView, DecodeErrorView>(e@),
            },
    {
        let fields = match w {
            WireValue::Obj(fields) => fields,
            _ => {
                return Err(DecodeError::MissingOrInvalidField(key_string("retry")));
            },
        };
        let retry: bool = match wire_obj_get(fields, &key_string("retry")) {
            Some(WireValue::Bool(b)) => *b,
            _ => {
                return Err(DecodeError::MissingOrInvalidField(key_string("retry")));
            },
        };
        Ok(InitializeError { retry })
    }
}

/// Decoding an encoded value of this entity gives the value back.
pub proof fn lemma_initialize_error_round_trip(v: InitializeErrorView)
    ensures
        initialize_error_of_wire(initialize_error_to_wire(v)) == Ok::<InitializeErrorView, DecodeErrorView>(v),
{
    let t = initialize_error_fields(v);
    assert(distinct_keys(t)) by {
        reveal_strlit("retry");
    }
    lemma_emit_fields_get(t, 0);
}

} // verus!
