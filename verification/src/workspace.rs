//! Workspace-wide entities: multi-resource edits, rename and configuration.

use vstd::prelude::*;
use vstd::string::StrSliceExecFns;
use crate::error::{missing, DecodeError, DecodeErrorView};
use crate::wire::{
    emit_fields, key_string, obj_get, opt_field, FieldTable, WireValue, WireValueView,
    finish_obj, table_view, wire_obj_get, wire_obj_get_opt, distinct_keys,
    lemma_emit_fields_get, wire_arr_view, wire_view, lemma_wire_arr_view,
    lemma_wire_obj_view, wire_obj_view, duplicate_wire_list, encode_str_list,
    decode_str_list, str_list_to_wire, lemma_str_list_round_trip, req_num, opt_num,
    req_bool, opt_bool, req_str, opt_str, emp_str, emp_str_list, req_raw, opt_raw,
    emp_arr,
};
use crate::primitives::{lemma_position_round_trip, lemma_text_edit_list_round_trip, position_of_wire, position_to_wire, req_position, text_edit_list_decode, text_edit_list_encode, text_edit_list_of_wire, text_edit_list_to_wire, Position, TextEdit, TextEditView};
use crate::documents::{lemma_text_document_identifier_round_trip, req_text_document_identifier, text_document_identifier_of_wire, text_document_identifier_to_wire, TextDocumentIdentifier, TextDocumentIdentifierView};

verus! {

/// Changes to many resources: for each URI, the edits to apply there, in
/// order. Keys are unique URIs; the application order across distinct URIs
/// is not specified at this layer.
#[derive(Debug)]
pub struct WorkspaceEdit {
    /// The edits, keyed by the URI of the resource they apply to.
    pub changes: Vec<(String, Vec<TextEdit>)>,
}

/// The models of the per-resource edit lists, in order.
pub open spec fn changes_view(cs: Seq<(String, Vec<TextEdit>)>) -> Seq<
    (Seq<char>, Seq<TextEditView>),
> {
    Seq::new(cs.len(), |i: int| (cs[i].0@, cs[i].1.deep_view()))
}

/// The mathematical model of a workspace edit.
#[verifier::ext_equal]
pub struct WorkspaceEditView {
    pub changes: Seq<(Seq<char>, Seq<TextEditView>)>,
}

impl View for WorkspaceEdit {
    type V = WorkspaceEditView;

    open spec fn view(&self) -> WorkspaceEditView {
        WorkspaceEditView { changes: changes_view(self.changes@) }
    }
}

impl DeepView for WorkspaceEdit {
    type V = WorkspaceEditView;

    open spec fn deep_view(&self) -> WorkspaceEditView {
        self.view()
    }
}

/// What encoding the edit mapping produces: one object field per URI, each
/// holding that resource's edits, in order.
pub open spec fn edit_map_to_wire(m: Seq<(Seq<char>, Seq<TextEditView>)>) -> Seq<
    (Seq<char>, WireValueView),
>
    decreases m.len(),
{
    if m.len() == 0 {
        Seq::empty()
    } else {
        seq![(m[0].0, WireValueView::Arr(text_edit_list_to_wire(m[0].1)))] + edit_map_to_wire(
            m.drop_first(),
        )
    }
}

/// What decoding the edit mapping yields: every field's value must be a
/// list of edits.
pub open spec fn edit_map_of_wire(fs: Seq<(Seq<char>, WireValueView)>) -> Result<
    Seq<(Seq<char>, Seq<TextEditView>)>,
    DecodeErrorView,
>
    decreases fs.len(),
{
    if fs.len() == 0 {
        Ok(Seq::empty())
    } else {
        match fs[0].1 {
            WireValueView::Arr(elems) => match text_edit_list_of_wire(elems) {
                Ok(edits) => match edit_map_of_wire(fs.drop_first()) {
                    Ok(rest) => Ok(seq![(fs[0].0, edits)] + rest),
                    Err(e) => Err(e),
                },
                Err(e) => Err(e),
            },
            _ => Err(missing("changes"@)),
        }
    }
}

/// The fields of an encoded edit mapping, pointwise.
pub proof fn lemma_edit_map_pointwise(m: Seq<(Seq<char>, Seq<TextEditView>)>)
    ensures
        edit_map_to_wire(m).len() == m.len(),
        forall|i: int|
            0 <= i < m.len() ==> #[trigger] edit_map_to_wire(m)[i] == (
            m[i].0,
            WireValueView::Arr(text_edit_list_to_wire(m[i].1)),
            ),
    decreases m.len(),
{
    if m.len() > 0 {
        lemma_edit_map_pointwise(m.drop_first());
    }
}

/// Decoding an encoded edit mapping gives the mapping back.
pub proof fn lemma_edit_map_round_trip(m: Seq<(Seq<char>, Seq<TextEditView>)>)
    ensures
        edit_map_of_wire(edit_map_to_wire(m)) == Ok::<
            Seq<(Seq<char>, Seq<TextEditView>)>,
            DecodeErrorView,
        >(m),
    decreases m.len(),
{
    if m.len() == 0 {
        assert(m =~= Seq::<(Seq<char>, Seq<TextEditView>)>::empty());
    } else {
        lemma_text_edit_list_round_trip(m[0].1);
        lemma_edit_map_round_trip(m.drop_first());
        let w = edit_map_to_wire(m);
        assert(w[0] == (m[0].0, WireValueView::Arr(text_edit_list_to_wire(m[0].1))));
        assert(w.drop_first() =~= edit_map_to_wire(m.drop_first()));
        assert(seq![(m[0].0, m[0].1)] + m.drop_first() =~= m);
    }
}

/// The field table of a workspace edit: the mapping is always present.
pub open spec fn workspace_edit_fields(v: WorkspaceEditView) -> FieldTable {
    seq![("changes"@, Some(WireValueView::Obj(edit_map_to_wire(v.changes))))]
}

/// What encoding a workspace edit produces.
pub open spec fn workspace_edit_to_wire(v: WorkspaceEditView) -> WireValueView {
    WireValueView::Obj(emit_fields(workspace_edit_fields(v)))
}

/// What decoding a wire value as a workspace edit yields.
pub open spec fn workspace_edit_of_wire(w: WireValueView) -> Result<
    WorkspaceEditView,
    DecodeErrorView,
> {
    match w {
        WireValueView::Obj(fs) => match obj_get(fs, "changes"@) {
            Some(WireValueView::Obj(inner)) => match edit_map_of_wire(inner) {
                Ok(changes) => Ok(WorkspaceEditView { changes }),
                Err(e) => Err(e),
            },
            _ => Err(missing("changes"@)),
        },
        _ => Err(missing("changes"@)),
    }
}

impl WorkspaceEdit {
    pub fn encode(&self) -> (r: WireValue)
        ensures
            r@ == workspace_edit_to_wire(self@),
    {
        let n: usize = self.changes.len();
        let mut out: Vec<(String, WireValue)> = Vec::new();
        let mut i: usize = 0;
        while i < n
            invariant
                n == self.changes@.len(),
                0 <= i <= n,
                out@.len() == i,
                forall|j: int| 0 <= j < i ==> (#[trigger] out@[j]).0@ == self.changes@[j].0@
                    && wire_view(out@[j].1) == WireValueView::Arr(text_edit_list_to_wire(
                    self.changes@[j].1.deep_view(),
                )),
            decreases n - i,
        {
            let name = self.changes[i].0.clone();
            let edits = WireValue::Arr(text_edit_list_encode(&self.changes[i].1));
            out.push((name, edits));
            i = i + 1;
        }
        proof {
            lemma_wire_obj_view(out@);
            lemma_edit_map_pointwise(self@.changes);
            assert(wire_obj_view(out@) =~= edit_map_to_wire(self@.changes));
        }
        let mut table: Vec<(String, Option<WireValue>)> = Vec::new();
        table.push((key_string("changes"), Some(WireValue::Obj(out))));
        proof {
            assert(table_view(table@) =~= workspace_edit_fields(self@));
        }
        finish_obj(table)
    }

    #[verifier::loop_isolation(false)]
    pub fn decode(w: &WireValue) -> (r: Result<WorkspaceEdit, DecodeError>)
        ensures
            match r {
                Ok(x) => workspace_edit_of_wire(w@) == Ok::<WorkspaceEditView, DecodeErrorView>(
                    x@,
                ),
                Err(e) => workspace_edit_of_wire(w@) == Err::<WorkspaceEditView, DecodeErrorView>(
                    e@,
                ),
            },
    {
        let fields = match w {
            WireValue::Obj(fields) => fields,
            _ => {
                return Err(DecodeError::MissingOrInvalidField(key_string("changes")));
            },
        };
        let inner = match wire_obj_get(fields, &key_string("changes")) {
            Some(WireValue::Obj(inner)) => inner,
            _ => {
                return Err(DecodeError::MissingOrInvalidField(key_string("changes")));
            },
        };
        let ghost iv = wire_obj_view(inner@);
        proof {
            lemma_wire_obj_view(inner@);
            assert(iv.skip(0) =~= iv);
        }
        let n: usize = inner.len();
        let mut out: Vec<(String, Vec<TextEdit>)> = Vec::new();
        let mut i: usize = 0;
        while i < n
            invariant
                n == inner@.len(),
                iv == wire_obj_view(inner@),
                iv.len() == n,
                forall|j: int| 0 <= j < n ==> #[trigger] iv[j] == (
                    inner@[j].0@,
                    wire_view(inner@[j].1),
                ),
                0 <= i <= n,
                changes_view(out@).len() == i,
                edit_map_of_wire(iv) == (match edit_map_of_wire(iv.skip(i as int)) {
                    Ok(rest) => Ok::<Seq<(Seq<char>, Seq<TextEditView>)>, DecodeErrorView>(
                        changes_view(out@) + rest,
                    ),
                    Err(e) => Err::<Seq<(Seq<char>, Seq<TextEditView>)>, DecodeErrorView>(e),
                }),
            decreases n - i,
        {
            proof {
                assert(iv.skip(i as int)[0] == iv[i as int]);
                assert(iv.skip(i as int).drop_first() =~= iv.skip(i + 1));
            }
            let ghost prev = changes_view(out@);
            let name = inner[i].0.clone();
            let edits: Vec<TextEdit> = match &inner[i].1 {
                WireValue::Arr(items) => match text_edit_list_decode(items) {
                    Ok(v) => v,
                    Err(e) => {
                        return Err(e);
                    },
                },
                _ => {
                    return Err(DecodeError::MissingOrInvalidField(key_string("changes")));
                },
            };
            out.push((name, edits));
            proof {
                assert(changes_view(out@) =~= prev.push((inner@[i as int].0@, edits.deep_view())));
                assert(forall|rest: Seq<(Seq<char>, Seq<TextEditView>)>|
                    prev + (#[trigger] (seq![(iv[i as int].0, edits.deep_view())] + rest)) =~= changes_view(
                        out@,
                    ) + rest);
            }
            i = i + 1;
        }
        proof {
            assert(iv.skip(n as int) =~= Seq::<(Seq<char>, WireValueView)>::empty());
            assert(changes_view(out@) + Seq::<(Seq<char>, Seq<TextEditView>)>::empty()
                =~= changes_view(out@));
        }
        Ok(WorkspaceEdit { changes: out })
    }
}

/// Decoding an encoded workspace edit gives the edit back.
pub proof fn lemma_workspace_edit_round_trip(v: WorkspaceEditView)
    ensures
        workspace_edit_of_wire(workspace_edit_to_wire(v)) == Ok::<
            WorkspaceEditView,
            DecodeErrorView,
        >(v),
{
    let t = workspace_edit_fields(v);
    lemma_emit_fields_get(t, 0);
    lemma_edit_map_round_trip(v.changes);
}

/// Asks to rename the symbol at a position.
#[derive(Debug)]
pub struct RenameParams {
    pub text_document: TextDocumentIdentifier,
    pub position: Position,
    pub new_name: String,
}

/// The mathematical model of this entity.
#[verifier::ext_equal]
pub struct RenameParamsView {
    pub text_document: TextDocumentIdentifierView,
    pub position: Position,
    pub new_name: Seq<char>,
}

impl View for RenameParams {
    type V = RenameParamsView;

    open spec fn view(&self) -> RenameParamsView {
        RenameParamsView {
            text_document: self.text_document@,
            position: self.position@,
            new_name: self.new_name@,
        }
    }
}

impl DeepView for RenameParams {
    type V = RenameParamsView;

    open spec fn deep_view(&self) -> RenameParamsView {
        self.view()
    }
}

/// The field table: each wire key with its value, or `None` where the
/// field's omission policy drops it.
pub open spec fn rename_params_fields(v: RenameParamsView) -> FieldTable {
    seq![
        ("textDocument"@, Some(text_document_identifier_to_wire(v.text_document))),
        ("position"@, Some(position_to_wire(v.position))),
        ("newName"@, Some(WireValueView::Str(v.new_name))),
    ]
}

/// What encoding this entity produces.
pub open spec fn rename_params_to_wire(v: RenameParamsView) -> WireValueView {
    WireValueView::Obj(emit_fields(rename_params_fields(v)))
}

/// What decoding a wire value as this entity yields. Unknown extra
/// fields are ignored; a missing or ill-shaped field fails.
pub open spec fn rename_params_of_wire(w: WireValueView) -> Result<RenameParamsView, DecodeErrorView> {
    match w {
        WireValueView::Obj(fs) => match req_text_document_identifier(fs, "textDocument"@) {
                Ok(text_document) => match req_position(fs, "position"@) {
                    Ok(position) => match req_str(fs, "newName"@) {
                        Ok(new_name) => Ok(RenameParamsView { text_document, position, new_name }),
                        Err(e) => Err(e),
                    },
                    Err(e) => Err(e),
                },
                Err(e) => Err(e),
            },
        _ => Err(missing("textDocument"@)),
    }
}

impl RenameParams {
    pub fn encode(&self) -> (r: WireValue)
        ensures
            r@ == rename_params_to_wire(self@),
    {
        let mut table: Vec<(String, Option<WireValue>)> = Vec::new();
        table.push((key_string("textDocument"), Some(self.text_document.encode())));
        table.push((key_string("position"), Some(self.position.encode())));
        table.push((key_string("newName"), Some(WireValue::Str(self.new_name.clone()))));
        proof {
            assert(table_view(table@) =~= rename_params_fields(self@));
        }
        finish_obj(table)
    }

    pub fn decode(w: &WireValue) -> (r: Result<RenameParams, DecodeError>)
        ensures
            match r {
                Ok(x) => rename_params_of_wire(w@) == Ok::<RenameParamsView, DecodeErrorView>(x@),
                Err(e) => rename_params_of_wire(w@) == Err::<RenameParamsView, DecodeErrorView>(e@),
            },
    {
        let fields = match w {
            WireValue::Obj(fields) => fields,
            _ => {
                return Err(DecodeError::MissingOrInvalidField(key_string("textDocument")));
            },
        };
        let text_document: TextDocumentIdentifier = match wire_obj_get(fields, &key_string("textDocument")) {
            Some(v) => match TextDocumentIdentifier::decode(v) {
                Ok(x) => x,
                Err(e) => {
                    return Err(e);
                },
            },
            None => {
                return Err(DecodeError::MissingOrInvalidField(key_string("textDocument")));
            },
        };
        let position: Position = match wire_obj_get(fields, &key_string("position")) {
            Some(v) => match Position::decode(v) {
                Ok(x) => x,
                Err(e) => {
                    return Err(e);
                },
            },
            None => {
                return Err(DecodeError::MissingOrInvalidField(key_string("position")));
            },
        };
        let new_name: String = match wire_obj_get(fields, &key_string("newName")) {
            Some(WireValue::Str(s)) => s.clone(),
            _ => {
                return Err(DecodeError::MissingOrInvalidField(key_string("newName")));
            },
        };
        Ok(RenameParams { text_document, position, new_name })
    }
}

/// Decoding an encoded value of this entity gives the value back.
pub proof fn lemma_rename_params_round_trip(v: RenameParamsView)
    ensures
        rename_params_of_wire(rename_params_to_wire(v)) == Ok::<RenameParamsView, DecodeErrorView>(v),
{
    let t = rename_params_fields(v);
    assert(distinct_keys(t)) by {
        reveal_strlit("textDocument");
        reveal_strlit("position");
        reveal_strlit("newName");
        assert forall|i: int, j: int| 0 <= i < j < t.len() implies t[i].0 != t[j].0 by {
            assert(t[0].0 == "textDocument"@);
            assert(t[1].0 == "position"@);
            assert(t[2].0 == "newName"@);
        }
    }
    lemma_emit_fields_get(t, 0);
    lemma_emit_fields_get(t, 1);
    lemma_emit_fields_get(t, 2);
    lemma_text_document_identifier_round_trip(v.text_document);
    lemma_position_round_trip(v.position);
}

/// Carries the changed settings as an opaque wire value.
#[derive(Debug)]
pub struct DidChangeConfigurationParams {
    pub settings: WireValue,
}

/// The mathematical model of this entity.
#[verifier::ext_equal]
pub struct DidChangeConfigurationParamsView {
    pub settings: WireValueView,
}

impl View for DidChangeConfigurationParams {
    type V = DidChangeConfigurationParamsView;

    open spec fn view(&self) -> DidChangeConfigurationParamsView {
        DidChangeConfigurationParamsView {
            settings: self.settings@,
        }
    }
}

impl DeepView for DidChangeConfigurationParams {
    type V = DidChangeConfigurationParamsView;

    open spec fn deep_view(&self) -> DidChangeConfigurationParamsView {
        self.view()
    }
}

/// The field table: each wire key with its value, or `None` where the
/// field's omission policy drops it.
pub open spec fn did_change_configuration_params_fields(v: DidChangeConfigurationParamsView) -> FieldTable {
    seq![
        ("settings"@, Some(v.settings)),
    ]
}

/// What encoding this entity produces.
pub open spec fn did_change_configuration_params_to_wire(v: DidChangeConfigurationParamsView) -> WireValueView {
    WireValueView::Obj(emit_fields(did_change_configuration_params_fields(v)))
}

/// What decoding a wire value as this entity yields. Unknown extra
/// fields are ignored; a missing or ill-shaped field fails.
pub open spec fn did_change_configuration_params_of_wire(w: WireValueView) -> Result<DidChangeConfigurationParamsView, DecodeErrorView> {
    match w {
        WireValueView::Obj(fs) => match req_raw(fs, "settings"@) {
                Ok(settings) => Ok(DidChangeConfigurationParamsView { settings }),
                Err(e) => Err(e),
            },
        _ => Err(missing("settings"@)),
    }
}

impl DidChangeConfigurationParams {
    pub fn encode(&self) -> (r: WireValue)
        ensures
            r@ == did_change_configuration_params_to_wire(self@),
    {
        let mut table: Vec<(String, Option<WireValue>)> = Vec::new();
        table.push((key_string("settings"), Some(self.settings.duplicate())));
        proof {
            assert(table_view(table@) =~= did_change_configuration_params_fields(self@));
        }
        finish_obj(table)
    }

    pub fn decode(w: &WireValue) -> (r: Result<DidChangeConfigurationParams, DecodeError>)
        ensures
            match r {
                Ok(x) => did_change_configuration_params_of_wire(w@) == Ok::<DidChangeConfigurationParamsView, DecodeErrorView>(x@),
                Err(e) => did_change_configuration_params_of_wire(w@) == Err::<DidChangeConfigurationParamsView, DecodeErrorView>(e@),
            },
    {
        let fields = match w {
            WireValue::Obj(fields) => fields,
            _ => {
                return Err(DecodeError::MissingOrInvalidField(key_string("settings")));
            },
        };
        let settings: WireValue = match wire_obj_get(fields, &key_string("settings")) {
            Some(v) => v.duplicate(),
            None => {
                return Err(DecodeError::MissingOrInvalidField(key_string("settings")));
            },
        };
        Ok(DidChangeConfigurationParams { settings })
    }
}

/// Decoding an encoded value of this entity gives the value back.
pub proof fn lemma_did_change_configuration_params_round_trip(v: DidChangeConfigurationParamsView)
    ensures
        did_change_configuration_params_of_wire(did_change_configuration_params_to_wire(v)) == Ok::<DidChangeConfigurationParamsView, DecodeErrorView>(v),
{
    let t = did_change_configuration_params_fields(v);
    assert(distinct_keys(t)) by {
        reveal_strlit("settings");
    }
    lemma_emit_fields_get(t, 0);
}

} // verus!
