//! Completion entities: proposals and the list that carries them.

use vstd::prelude::*;
use vstd::string::StrSliceExecFns;
use crate::error::{missing, DecodeError, DecodeErrorView};
use crate::wire::{
    emit_fields, key_string, obj_get, opt_field, FieldTable, WireValue, WireValueView,
    finish_obj, table_view, wire_obj_get, wire_obj_get_opt, distinct_keys,
    lemma_emit_fields_get, wire_arr_view, wire_view, lemma_wire_arr_view,
    lemma_wire_obj_view, wire_obj_view, duplicate_wire_list, encode_str_list,
    decode_str_list, str_list_to_wire, lemma_str_list_round_trip, req_num, opt_num,
    req_bool, opt_bool, req_str, opt_str, emp_str, emp_str_list, req_raw, opt_raw,
    emp_arr,
};
use crate::enums::{opt_completion_item_kind, CompletionItemKind};
use crate::primitives::{lemma_text_edit_round_trip, opt_text_edit, text_edit_of_wire, text_edit_to_wire, TextEdit, TextEditView};

verus! {

/// One completion proposal. Only the label is required; `textEdit`
/// takes precedence over `insertText`, and the label is the fallback for both.
#[derive(Debug)]
pub struct CompletionItem {
    pub label: String,
    pub kind: Option<CompletionItemKind>,
    pub detail: Option<String>,
    pub documentation: Option<String>,
    pub sort_text: Option<String>,
    pub filter_text: Option<String>,
    pub insert_text: Option<String>,
    pub text_edit: Option<TextEdit>,
    pub data: Option<WireValue>,
}

/// The mathematical model of this entity.
#[verifier::ext_equal]
pub struct CompletionItemView {
    pub label: Seq<char>,
    pub kind: Option<CompletionItemKind>,
    pub detail: Option<Seq<char>>,
    pub documentation: Option<Seq<char>>,
    pub sort_text: Option<Seq<char>>,
    pub filter_text: Option<Seq<char>>,
    pub insert_text: Option<Seq<char>>,
    pub text_edit: Option<TextEditView>,
    pub data: Option<WireValueView>,
}

impl View for CompletionItem {
    type V = CompletionItemView;

    open spec fn view(&self) -> CompletionItemView {
        CompletionItemView {
            label: self.label@,
            kind: self.kind,
            detail: match self.detail {
                Some(s) => Some(s@),
                None => None,
            },
            documentation: match self.documentation {
                Some(s) => Some(s@),
                None => None,
            },
            sort_text: match self.sort_text {
                Some(s) => Some(s@),
                None => None,
            },
            filter_text: match self.filter_text {
                Some(s) => Some(s@),
                None => None,
            },
            insert_text: match self.insert_text {
                Some(s) => Some(s@),
                None => None,
            },
            text_edit: match self.text_edit {
                Some(x) => Some(x@),
                None => None,
            },
            data: match self.data {
                Some(w) => Some(w@),
                None => None,
            },
        }
    }
}

impl DeepView for CompletionItem {
    type V = CompletionItemView;

    open spec fn deep_view(&self) -> CompletionItemView {
        self.view()
    }
}

/// An opaque passthrough field holding an explicit null cannot be told
/// apart from an absent one on the wire; a well-formed entity holds none.
pub open spec fn completion_item_wf(v: CompletionItemView) -> bool {
    (v.data matches Some(w) ==> !(w is Null))
}

/// The field table: each wire key with its value, or `None` where the
/// field's omission policy drops it.
pub open spec fn completion_item_fields(v: CompletionItemView) -> FieldTable {
    seq![
        ("label"@, Some(WireValueView::Str(v.label))),
        ("kind"@, match v.kind {
                Some(k) => Some(WireValueView::Num(k.code_spec())),
                None => None,
            }),
        ("detail"@, match v.detail {
                Some(s) => Some(WireValueView::Str(s)),
                None => None,
            }),
        ("documentation"@, match v.documentation {
                Some(s) => Some(WireValueView::Str(s)),
                None => None,
            }),
        ("sortText"@, match v.sort_text {
                Some(s) => Some(WireValueView::Str(s)),
                None => None,
            }),
        ("filterText"@, match v.filter_text {
                Some(s) => Some(WireValueView::Str(s)),
                None => None,
            }),
        ("insertText"@, match v.insert_text {
                Some(s) => Some(WireValueView::Str(s)),
                None => None,
            }),
        ("textEdit"@, match v.text_edit {
                Some(x) => Some(text_edit_to_wire(x)),
                None => None,
            }),
        ("data"@, v.data),
    ]
}

/// What encoding this entity produces.
pub open spec fn completion_item_to_wire(v: CompletionItemView) -> WireValueView {
    WireValueView::Obj(emit_fields(completion_item_fields(v)))
}

/// What decoding a wire value as this entity yields. Unknown extra
/// fields are ignored; a missing or ill-shaped field fails.
pub open spec fn completion_item_of_wire(w: WireValueView) -> Result<CompletionItemView, DecodeErrorView> {
    match w {
        WireValueView::Obj(fs) => match req_str(fs, "label"@) {
                Ok(label) => match opt_completion_item_kind(fs, "kind"@) {
                    Ok(kind) => match opt_str(fs, "detail"@) {
                        Ok(detail) => match opt_str(fs, "documentation"@) {
                            Ok(documentation) => match opt_str(fs, "sortText"@) {
                                Ok(sort_text) => match opt_str(fs, "filterText"@) {
                                    Ok(filter_text) => match opt_str(fs, "insertText"@) {
                                        Ok(insert_text) => match opt_text_edit(fs, "textEdit"@) {
                                            Ok(text_edit) => match opt_raw(fs, "data"@) {
                                                Ok(data) => Ok(CompletionItemView { label, kind, detail, documentation, sort_text, filter_text, insert_text, text_edit, data }),
                                                Err(e) => Err(e),
                                            },
                                            Err(e) => Err(e),
                                        },
                                        Err(e) => Err(e),
                                    },
                                    Err(e) => Err(e),
                                },
                                Err(e) => Err(e),
                            },
                            Err(e) => Err(e),
                        },
                        Err(e) => Err(e),
                    },
                    Err(e) => Err(e),
                },
                Err(e) => Err(e),
            },
        _ => Err(missing("label"@)),
    }
}

impl CompletionItem {
    #[verifier::spinoff_prover]
    #[verifier::rlimit(100)]
    pub fn encode(&self) -> (r: WireValue)
        ensures
            r@ == completion_item_to_wire(self@),
    {
        let mut table: Vec<(String, Option<WireValue>)> = Vec::new();
        table.push((key_string("label"), Some(WireValue::Str(self.label.clone()))));
        table.push((key_string("kind"), match self.kind {
            Some(k) => Some(WireValue::Num(k.code())),
            None => None,
        }));
        table.push((key_string("detail"), match &self.detail {
            Some(s) => Some(WireValue::Str(s.clone())),
            None => None,
        }));
        table.push((key_string("documentation"), match &self.documentation {
            Some(s) => Some(WireValue::Str(s.clone())),
            None => None,
        }));
        table.push((key_string("sortText"), match &self.sort_text {
            Some(s) => Some(WireValue::Str(s.clone())),
            None => None,
        }));
        table.push((key_string("filterText"), match &self.filter_text {
            Some(s) => Some(WireValue::Str(s.clone())),
            None => None,
        }));
        table.push((key_string("insertText"), match &self.insert_text {
            Some(s) => Some(WireValue::Str(s.clone())),
            None => None,
        }));
        table.push((key_string("textEdit"), match &self.text_edit {
            Some(x) => Some(x.encode()),
            None => None,
        }));
        table.push((key_string("data"), match &self.data {
            Some(w) => Some(w.duplicate()),
            None => None,
        }));
        proof {
            let tv = table_view(table@);
            let sf = completion_item_fields(self@);
            assert(tv.len() == sf.len());
            assert(tv[0] == sf[0]);
            assert(tv[1] == sf[1]);
            assert(tv[2] == sf[2]);
            assert(tv[3] == sf[3]);
            assert(tv[4] == sf[4]);
            assert(tv[5] == sf[5]);
            assert(tv[6] == sf[6]);
            assert(tv[7] == sf[7]);
            assert(tv[8] == sf[8]);
            assert(tv =~= sf);
        }
        finish_obj(table)
    }

    #[verifier::spinoff_prover]
    #[verifier::rlimit(100)]
    pub fn decode(w: &WireValue) -> (r: Result<CompletionItem, DecodeError>)
        ensures
            match r {
                Ok(x) => completion_item_of_wire(w@) == Ok::<CompletionItemView, DecodeErrorView>(x@),
                Err(e) => completion_item_of_wire(w@) == Err::<CompletionItemView, DecodeErrorView>(e@),
            },
    {
        let fields = match w {
            WireValue::Obj(fields) => fields,
            _ => {
                return Err(DecodeError::MissingOrInvalidField(key_string("label")));
            },
        };
        let label: String = match wire_obj_get(fields, &key_string("label")) {
            Some(WireValue::Str(s)) => s.clone(),
            _ => {
                return Err(DecodeError::MissingOrInvalidField(key_string("label")));
            },
        };
        let kind: Option<CompletionItemKind> = match wire_obj_get_opt(fields, &key_string("kind")) {
            Some(WireValue::Num(n)) => match CompletionItemKind::from_code(*n) {
                Ok(k) => Some(k),
                Err(e) => {
                    return Err(e);
                },
            },
            Some(_) => {
                return Err(DecodeError::MissingOrInvalidField(key_string("kind")));
            },
            None => None,
        };
        let detail: Option<String> = match wire_obj_get_opt(fields, &key_string("detail")) {
            Some(WireValue::Str(s)) => Some(s.clone()),
            Some(_) => {
                return Err(DecodeError::MissingOrInvalidField(key_string("detail")));
            },
            None => None,
        };
        let documentation: Option<String> = match wire_obj_get_opt(fields, &key_string("documentation")) {
            Some(WireValue::Str(s)) => Some(s.clone()),
            Some(_) => {
                return Err(DecodeError::MissingOrInvalidField(key_string("documentation")));
            },
            None => None,
        };
        let sort_text: Option<String> = match wire_obj_get_opt(fields, &key_string("sortText")) {
            Some(WireValue::Str(s)) => Some(s.clone()),
            Some(_) => {
                return Err(DecodeError::MissingOrInvalidField(key_string("sortText")));
            },
            None => None,
        };
        let filter_text: Option<String> = match wire_obj_get_opt(fields, &key_string("filterText")) {
            Some(WireValue::Str(s)) => Some(s.clone()),
            Some(_) => {
                return Err(DecodeError::MissingOrInvalidField(key_string("filterText")));
            },
            None => None,
        };
        let insert_text: Option<String> = match wire_obj_get_opt(fields, &key_string("insertText")) {
            Some(WireValue::Str(s)) => Some(s.clone()),
            Some(_) => {
                return Err(DecodeError::MissingOrInvalidField(key_string("insertText")));
            },
            None => None,
        };
        let text_edit: Option<TextEdit> = match wire_obj_get_opt(fields, &key_string("textEdit")) {
            Some(v) => match TextEdit::decode(v) {
                Ok(x) => Some(x),
                Err(e) => {
                    return Err(e);
                },
            },
            None => None,
        };
        let data: Option<WireValue> = match wire_obj_get_opt(fields, &key_string("data")) {
            Some(v) => Some(v.duplicate()),
            None => None,
        };
        proof {
            let fs_v = wire_obj_view(fields@);
            assert(req_str(fs_v, "label"@) == Ok::<Seq<char>, DecodeErrorView>(label@));
            assert(opt_completion_item_kind(fs_v, "kind"@) == Ok::<Option<CompletionItemKind>, DecodeErrorView>(kind));
            assert(opt_str(fs_v, "detail"@) == Ok::<Option<Seq<char>>, DecodeErrorView>(match detail { Some(s) => Some(s@), None => None }));
            assert(opt_str(fs_v, "documentation"@) == Ok::<Option<Seq<char>>, DecodeErrorView>(match documentation { Some(s) => Some(s@), None => None }));
            assert(opt_str(fs_v, "sortText"@) == Ok::<Option<Seq<char>>, DecodeErrorView>(match sort_text { Some(s) => Some(s@), None => None }));
            assert(opt_str(fs_v, "filterText"@) == Ok::<Option<Seq<char>>, DecodeErrorView>(match filter_text { Some(s) => Some(s@), None => None }));
            assert(opt_str(fs_v, "insertText"@) == Ok::<Option<Seq<char>>, DecodeErrorView>(match insert_text { Some(s) => Some(s@), None => None }));
            assert(opt_text_edit(fs_v, "textEdit"@) == Ok::<Option<TextEditView>, DecodeErrorView>(match text_edit { Some(x) => Some(x@), None => None }));
            assert(opt_raw(fs_v, "data"@) == Ok::<Option<WireValueView>, DecodeErrorView>(match data { Some(w) => Some(w@), None => None }));
        }
        Ok(CompletionItem { label, kind, detail, documentation, sort_text, filter_text, insert_text, text_edit, data })
    }
}

/// Decoding an encoded value of this entity gives the value back.
#[verifier::spinoff_prover]
#[verifier::rlimit(100)]
pub proof fn lemma_completion_item_round_trip(v: CompletionItemView)
    requires
        completion_item_wf(v),
    ensures
        completion_item_of_wire(completion_item_to_wire(v)) == Ok::<CompletionItemView, DecodeErrorView>(v),
{
    let t = completion_item_fields(v);
    assert(distinct_keys(t)) by {
        reveal_strlit("label");
        reveal_strlit("kind");
        reveal_strlit("detail");
        reveal_strlit("documentation");
        reveal_strlit("sortText");
        reveal_strlit("filterText");
        reveal_strlit("insertText");
        reveal_strlit("textEdit");
        reveal_strlit("data");
        assert forall|i: int, j: int| 0 <= i < j < t.len() implies t[i].0 != t[j].0 by {
            assert(t[0].0 == "label"@);
            assert(t[1].0 == "kind"@);
            assert(t[2].0 == "detail"@);
            assert(t[3].0 == "documentation"@);
            assert(t[4].0 == "sortText"@);
            assert(t[5].0 == "filterText"@);
            assert(t[6].0 == "insertText"@);
            assert(t[7].0 == "textEdit"@);
            assert(t[8].0 == "data"@);
            assert("kind"@[0] != "data"@[0]);
            assert("sortText"@[0] != "textEdit"@[0]);
            assert("filterText"@[0] != "insertText"@[0]);
        }
    }
    lemma_emit_fields_get(t, 0);
    lemma_emit_fields_get(t, 1);
    lemma_emit_fields_get(t, 2);
    lemma_emit_fields_get(t, 3);
    lemma_emit_fields_get(t, 4);
    lemma_emit_fields_get(t, 5);
    lemma_emit_fields_get(t, 6);
    lemma_emit_fields_get(t, 7);
    lemma_emit_fields_get(t, 8);
    match v.text_edit {
        Some(x) => lemma_text_edit_round_trip(x),
        None => (),
    }
    assert(req_str(emit_fields(t), "label"@) == Ok::<Seq<char>, DecodeErrorView>(v.label));
    assert(opt_completion_item_kind(emit_fields(t), "kind"@) == Ok::<Option<CompletionItemKind>, DecodeErrorView>(v.kind));
    assert(opt_str(emit_fields(t), "detail"@) == Ok::<Option<Seq<char>>, DecodeErrorView>(v.detail));
    assert(opt_str(emit_fields(t), "documentation"@) == Ok::<Option<Seq<char>>, DecodeErrorView>(v.documentation));
    assert(opt_str(emit_fields(t), "sortText"@) == Ok::<Option<Seq<char>>, DecodeErrorView>(v.sort_text));
    assert(opt_str(emit_fields(t), "filterText"@) == Ok::<Option<Seq<char>>, DecodeErrorView>(v.filter_text));
    assert(opt_str(emit_fields(t), "insertText"@) == Ok::<Option<Seq<char>>, DecodeErrorView>(v.insert_text));
    assert(opt_text_edit(emit_fields(t), "textEdit"@) == Ok::<Option<TextEditView>, DecodeErrorView>(v.text_edit));
    assert(opt_raw(emit_fields(t), "data"@) == Ok::<Option<WireValueView>, DecodeErrorView>(v.data));
}

/// What encoding a list of these entities produces, element for element.
pub open spec fn completion_item_list_to_wire(s: Seq<CompletionItemView>) -> Seq<WireValueView>
    decreases s.len(),
{
    if s.len() == 0 {
        Seq::empty()
    } else {
        seq![completion_item_to_wire(s[0])] + completion_item_list_to_wire(s.drop_first())
    }
}

/// What decoding a list of these entities yields: the first ill-shaped
/// element fails the whole list.
pub open spec fn completion_item_list_of_wire(elems: Seq<WireValueView>) -> Result<
    Seq<CompletionItemView>,
    DecodeErrorView,
>
    decreases elems.len(),
{
    if elems.len() == 0 {
        Ok(Seq::empty())
    } else {
        match completion_item_of_wire(elems[0]) {
            Ok(x) => match completion_item_list_of_wire(elems.drop_first()) {
                Ok(rest) => Ok(seq![x] + rest),
                Err(e) => Err(e),
            },
            Err(e) => Err(e),
        }
    }
}

/// Every element of the list is well formed.
pub open spec fn completion_item_list_wf(s: Seq<CompletionItemView>) -> bool {
    forall|i: int| 0 <= i < s.len() ==> completion_item_wf(#[trigger] s[i])
}

/// The elements of an encoded list, pointwise.
pub proof fn lemma_completion_item_list_pointwise(s: Seq<CompletionItemView>)
    ensures
        completion_item_list_to_wire(s).len() == s.len(),
        forall|i: int|
            0 <= i < s.len() ==> #[trigger] completion_item_list_to_wire(s)[i] == completion_item_to_wire(s[i]),
    decreases s.len(),
{
    if s.len() > 0 {
        lemma_completion_item_list_pointwise(s.drop_first());
    }
}

/// Decoding an encoded list gives the list back.
pub proof fn lemma_completion_item_list_round_trip(s: Seq<CompletionItemView>)
    requires
        completion_item_list_wf(s),
    ensures
        completion_item_list_of_wire(completion_item_list_to_wire(s)) == Ok::<Seq<CompletionItemView>, DecodeErrorView>(s),
    decreases s.len(),
{
    if s.len() == 0 {
        assert(s =~= Seq::<CompletionItemView>::empty());
    } else {
        lemma_completion_item_round_trip(s[0]);
        assert(completion_item_list_wf(s.drop_first())) by {
            assert(forall|i: int|
                0 <= i < s.drop_first().len() ==> #[trigger] s.drop_first()[i] == s[i + 1]);
        }
        lemma_completion_item_list_round_trip(s.drop_first());
        let m = completion_item_list_to_wire(s);
        assert(m[0] == completion_item_to_wire(s[0]));
        assert(m.drop_first() =~= completion_item_list_to_wire(s.drop_first()));
        assert(seq![s[0]] + s.drop_first() =~= s);
    }
}

/// Encodes a list of these entities, element for element.
pub fn completion_item_list_encode(xs: &Vec<CompletionItem>) -> (r: Vec<WireValue>)
    ensures
        wire_arr_view(r@) == completion_item_list_to_wire(xs.deep_view()),
        r@.len() == xs@.len(),
{
    let n: usize = xs.len();
    let mut out: Vec<WireValue> = Vec::new();
    let mut i: usize = 0;
    while i < n
        invariant
            n == xs@.len(),
            0 <= i <= n,
            out@.len() == i,
            forall|j: int| 0 <= j < i ==> wire_view(#[trigger] out@[j]) == completion_item_to_wire(
                xs@[j]@,
            ),
        decreases n - i,
    {
        out.push(xs[i].encode());
        i = i + 1;
    }
    proof {
        lemma_wire_arr_view(out@);
        lemma_completion_item_list_pointwise(xs.deep_view());
        assert(wire_arr_view(out@) =~= completion_item_list_to_wire(xs.deep_view()));
    }
    out
}

/// Decodes a list of these entities, element for element.
pub fn completion_item_list_decode(items: &Vec<WireValue>) -> (r: Result<Vec<CompletionItem>, DecodeError>)
    ensures
        match r {
            Ok(v) => completion_item_list_of_wire(wire_arr_view(items@)) == Ok::<
                Seq<CompletionItemView>,
                DecodeErrorView,
            >(v.deep_view()),
            Err(e) => completion_item_list_of_wire(wire_arr_view(items@)) == Err::<
                Seq<CompletionItemView>,
                DecodeErrorView,
            >(e@),
        },
{
    let ghost ev = wire_arr_view(items@);
    proof {
        lemma_wire_arr_view(items@);
        assert(ev.skip(0) =~= ev);
    }
    let n: usize = items.len();
    let mut out: Vec<CompletionItem> = Vec::new();
    let mut i: usize = 0;
    while i < n
        invariant
            n == items@.len(),
            ev == wire_arr_view(items@),
            ev.len() == n,
            forall|j: int| 0 <= j < n ==> #[trigger] ev[j] == wire_view(items@[j]),
            0 <= i <= n,
            out.deep_view().len() == i,
            completion_item_list_of_wire(ev) == (match completion_item_list_of_wire(ev.skip(i as int)) {
                Ok(rest) => Ok::<Seq<CompletionItemView>, DecodeErrorView>(out.deep_view() + rest),
                Err(e) => Err::<Seq<CompletionItemView>, DecodeErrorView>(e),
            }),
        decreases n - i,
    {
        proof {
            assert(ev.skip(i as int)[0] == ev[i as int]);
            assert(ev.skip(i as int).drop_first() =~= ev.skip(i + 1));
        }
        let ghost prev = out.deep_view();
        match CompletionItem::decode(&items[i]) {
            Ok(x) => {
                out.push(x);
                proof {
                    assert(out.deep_view() =~= prev.push(x@));
                    assert(forall|rest: Seq<CompletionItemView>|
                        prev + (#[trigger] (seq![x@] + rest)) =~= out.deep_view() + rest);
                }
            },
            Err(e) => {
                return Err(e);
            },
        }
        i = i + 1;
    }
    proof {
        assert(ev.skip(n as int) =~= Seq::<WireValueView>::empty());
        assert(out.deep_view() + Seq::<CompletionItemView>::empty() =~= out.deep_view());
    }
    Ok(out)
}

/// A required field holding a list of these entities.
pub open spec fn req_completion_item_list(fs: Seq<(Seq<char>, WireValueView)>, key: Seq<char>) -> Result<
    Seq<CompletionItemView>,
    DecodeErrorView,
> {
    match obj_get(fs, key) {
        Some(WireValueView::Arr(elems)) => completion_item_list_of_wire(elems),
        _ => Err(missing(key)),
    }
}

/// An omit-when-empty field holding a list of these entities.
pub open spec fn emp_completion_item_list(fs: Seq<(Seq<char>, WireValueView)>, key: Seq<char>) -> Result<
    Seq<CompletionItemView>,
    DecodeErrorView,
> {
    match opt_field(fs, key) {
        Some(WireValueView::Arr(elems)) => completion_item_list_of_wire(elems),
        Some(_) => Err(missing(key)),
        None => Ok(Seq::empty()),
    }
}

/// Completion proposals, with a flag that more typing should recompute
/// them.
#[derive(Debug)]
pub struct CompletionList {
    pub is_incomplete: bool,
    pub items: Vec<CompletionItem>,
}

/// The mathematical model of this entity.
#[verifier::ext_equal]
pub struct CompletionListView {
    pub is_incomplete: bool,
    pub items: Seq<CompletionItemView>,
}

impl View for CompletionList {
    type V = CompletionListView;

    open spec fn view(&self) -> CompletionListView {
        CompletionListView {
            is_incomplete: self.is_incomplete,
            items: self.items.deep_view(),
        }
    }
}

impl DeepView for CompletionList {
    type V = CompletionListView;

    open spec fn deep_view(&self) -> CompletionListView {
        self.view()
    }
}

/// An opaque passthrough field holding an explicit null cannot be told
/// apart from an absent one on the wire; a well-formed entity holds none.
pub open spec fn completion_list_wf(v: CompletionListView) -> bool {
    completion_item_list_wf(v.items)
}

/// The field table: each wire key with its value, or `None` where the
/// field's omission policy drops it.
pub open spec fn completion_list_fields(v: CompletionListView) -> FieldTable {
    seq![
        ("isIncomplete"@, Some(WireValueView::Bool(v.is_incomplete))),
        ("items"@, Some(WireValueView::Arr(completion_item_list_to_wire(v.items)))),
    ]
}

/// What encoding this entity produces.
pub open spec fn completion_list_to_wire(v: CompletionListView) -> WireValueView {
    WireValueView::Obj(emit_fields(completion_list_fields(v)))
}

/// What decoding a wire value as this entity yields. Unknown extra
/// fields are ignored; a missing or ill-shaped field fails.
pub open spec fn completion_list_of_wire(w: WireValueView) -> Result<CompletionListView, DecodeErrorView> {
    match w {
        WireValueView::Obj(fs) => match req_bool(fs, "isIncomplete"@) {
                Ok(is_incomplete) => match req_completion_item_list(fs, "items"@) {
                    Ok(items) => Ok(CompletionListView { is_incomplete, items }),
                    Err(e) => Err(e),
                },
                Err(e) => Err(e),
            },
        _ => Err(missing("isIncomplete"@)),
    }
}

impl CompletionList {
    pub fn encode(&self) -> (r: WireValue)
        ensures
            r@ == completion_list_to_wire(self@),
    {
        let mut table: Vec<(String, Option<WireValue>)> = Vec::new();
        table.push((key_string("isIncomplete"), Some(WireValue::Bool(self.is_incomplete))));
        table.push((key_string("items"), Some(WireValue::Arr(completion_item_list_encode(&self.items)))));
        proof {
            assert(table_view(table@) =~= completion_list_fields(self@));
        }
        finish_obj(table)
    }

    pub fn decode(w: &WireValue) -> (r: Result<CompletionList, DecodeError>)
        ensures
            match r {
                Ok(x) => completion_list_of_wire(w@) == Ok::<CompletionListView, DecodeErrorView>(x@),
                Err(e) => completion_list_of_wire(w@) == Err::<CompletionListView, DecodeErrorView>(e@),
            },
    {
        let fields = match w {
            WireValue::Obj(fields) => fields,
            _ => {
                return Err(DecodeError::MissingOrInvalidField(key_string("isIncomplete")));
            },
        };
        let is_incomplete: bool = match wire_obj_get(fields, &key_string("isIncomplete")) {
            Some(WireValue::Bool(b)) => *b,
            _ => {
                return Err(DecodeError::MissingOrInvalidField(key_string("isIncomplete")));
            },
        };
        let items: Vec<CompletionItem> = match wire_obj_get(fields, &key_string("items")) {
            Some(WireValue::Arr(items)) => match completion_item_list_decode(items) {
                Ok(v) => v,
                Err(e) => {
                    return Err(e);
                },
            },
            _ => {
                return Err(DecodeError::MissingOrInvalidField(key_string("items")));
            },
        };
        Ok(CompletionList { is_incomplete, items })
    }
}

/// Decoding an encoded value of this entity gives the value back.
pub proof fn lemma_completion_list_round_trip(v: CompletionListView)
    requires
        completion_list_wf(v),
    ensures
        completion_list_of_wire(completion_list_to_wire(v)) == Ok::<CompletionListView, DecodeErrorView>(v),
{
    let t = completion_list_fields(v);
    assert(distinct_keys(t)) by {
        reveal_strlit("isIncomplete");
        reveal_strlit("items");
        assert forall|i: int, j: int| 0 <= i < j < t.len() implies t[i].0 != t[j].0 by {
            assert(t[0].0 == "isIncomplete"@);
            assert(t[1].0 == "items"@);
        }
    }
    lemma_emit_fields_get(t, 0);
    lemma_emit_fields_get(t, 1);
    lemma_completion_item_list_round_trip(v.items);
}

} // verus!
