//! Messages shown or logged by the client, with optional actions.

use vstd::prelude::*;
use vstd::string::StrSliceExecFns;
use crate::error::{missing, DecodeError, DecodeErrorView};
use crate::wire::{
    emit_fields, key_string, obj_get, opt_field, FieldTable, WireValue, WireValueView,
    finish_obj, table_view, wire_obj_get, wire_obj_get_opt, distinct_keys,
    lemma_emit_fields_get, wire_arr_view, wire_view, lemma_wire_arr_view,
    lemma_wire_obj_view, wire_obj_view, duplicate_wire_list, encode_str_list,
    decode_str_list, str_list_to_wire, lemma_str_list_round_trip, req_num, opt_num,
    req_bool, opt_bool, req_str, opt_str, emp_str, emp_str_list, req_raw, opt_raw,
    emp_arr,
};
use crate::enums::{req_message_type, MessageType};

verus! {

/// A short action title, such as "Retry".
#[derive(Debug)]
pub struct MessageActionItem {
    pub title: String,
}

/// The mathematical model of this entity.
#[verifier::ext_equal]
pub struct MessageActionItemView {
    pub title: Seq<char>,
}

impl View for MessageActionItem {
    type V = MessageActionItemView;

    open spec fn view(&self) -> MessageActionItemView {
        MessageActionItemView {
            title: self.title@,
        }
    }
}

impl DeepView for MessageActionItem {
    type V = MessageActionItemView;

    open spec fn deep_view(&self) -> MessageActionItemView {
        self.view()
    }
}

/// The field table: each wire key with its value, or `None` where the
/// field's omission policy drops it.
pub open spec fn message_action_item_fields(v: MessageActionItemView) -> FieldTable {
    seq![
        ("title"@, Some(WireValueView::Str(v.title))),
    ]
}

/// What encoding this entity produces.
pub open spec fn message_action_item_to_wire(v: MessageActionItemView) -> WireValueView {
    WireValueView::Obj(emit_fields(message_action_item_fields(v)))
}

/// What decoding a wire value as this entity yields. Unknown extra
/// fields are ignored; a missing or ill-shaped field fails.
pub open spec fn message_action_item_of_wire(w: WireValueView) -> Result<MessageActionItemView, DecodeErrorView> {
    match w {
        WireValueView::Obj(fs) => match req_str(fs, "title"@) {
                Ok(title) => Ok(MessageActionItemView { title }),
                Err(e) => Err(e),
            },
        _ => Err(missing("title"@)),
    }
}

impl MessageActionItem {
    pub fn encode(&self) -> (r: WireValue)
        ensures
            r@ == message_action_item_to_wire(self@),
    {
        let mut table: Vec<(String, Option<WireValue>)> = Vec::new();
        table.push((key_string("title"), Some(WireValue::Str(self.title.clone()))));
        proof {
            assert(table_view(table@) =~= message_action_item_fields(self@));
        }
        finish_obj(table)
    }

    pub fn decode(w: &WireValue) -> (r: Result<MessageActionItem, DecodeError>)
        ensures
            match r {
                Ok(x) => message_action_item_of_wire(w@) == Ok::<MessageActionItemView, DecodeErrorView>(x@),
                Err(e) => message_action_item_of_wire(w@) == Err::<MessageActionItemView, DecodeErrorView>(e@),
            },
    {
        let fields = match w {
            WireValue::Obj(fields) => fields,
            _ => {
                return Err(DecodeError::MissingOrInvalidField(key_string("title")));
            },
        };
        let title: String = match wire_obj_get(fields, &key_string("title")) {
            Some(WireValue::Str(s)) => s.clone(),
            _ => {
                return Err(DecodeError::MissingOrInvalidField(key_string("title")));
            },
        };
        Ok(MessageActionItem { title })
    }
}

/// Decoding an encoded value of this entity gives the value back.
pub proof fn lemma_message_action_item_round_trip(v: MessageActionItemView)
    ensures
        message_action_item_of_wire(message_action_item_to_wire(v)) == Ok::<MessageActionItemView, DecodeErrorView>(v),
{
    let t = message_action_item_fields(v);
    assert(distinct_keys(t)) by {
        reveal_strlit("title");
    }
    lemma_emit_fields_get(t, 0);
}

/// What encoding a list of these entities produces, element for element.
pub open spec fn message_action_item_list_to_wire(s: Seq<MessageActionItemView>) -> Seq<WireValueView>
    decreases s.len(),
{
    if s.len() == 0 {
        Seq::empty()
    } else {
        seq![message_action_item_to_wire(s[0])] + message_action_item_list_to_wire(s.drop_first())
    }
}

/// What decoding a list of these entities yields: the first ill-shaped
/// element fails the whole list.
pub open spec fn message_action_item_list_of_wire(elems: Seq<WireValueView>) -> Result<
    Seq<MessageActionItemView>,
    DecodeErrorView,
>
    decreases elems.len(),
{
    if elems.len() == 0 {
        Ok(Seq::empty())
    } else {
        match message_action_item_of_wire(elems[0]) {
            Ok(x) => match message_action_item_list_of_wire(elems.drop_first()) {
                Ok(rest) => Ok(seq![x] + rest),
                Err(e) => Err(e),
            },
            Err(e) => Err(e),
        }
    }
}

/// The elements of an encoded list, pointwise.
pub proof fn lemma_message_action_item_list_pointwise(s: Seq<MessageActionItemView>)
    ensures
        message_action_item_list_to_wire(s).len() == s.len(),
        forall|i: int|
            0 <= i < s.len() ==> #[trigger] message_action_item_list_to_wire(s)[i] == message_action_item_to_wire(s[i]),
    decreases s.len(),
{
    if s.len() > 0 {
        lemma_message_action_item_list_pointwise(s.drop_first());
    }
}

/// Decoding an encoded list gives the list back.
pub proof fn lemma_message_action_item_list_round_trip(s: Seq<MessageActionItemView>)
    ensures
        message_action_item_list_of_wire(message_action_item_list_to_wire(s)) == Ok::<Seq<MessageActionItemView>, DecodeErrorView>(s),
    decreases s.len(),
{
    if s.len() == 0 {
        assert(s =~= Seq::<MessageActionItemView>::empty());
    } else {
        lemma_message_action_item_round_trip(s[0]);
        lemma_message_action_item_list_round_trip(s.drop_first());
        let m = message_action_item_list_to_wire(s);
        assert(m[0] == message_action_item_to_wire(s[0]));
        assert(m.drop_first() =~= message_action_item_list_to_wire(s.drop_first()));
        assert(seq![s[0]] + s.drop_first() =~= s);
    }
}

/// Encodes a list of these entities, element for element.
pub fn message_action_item_list_encode(xs: &Vec<MessageActionItem>) -> (r: Vec<WireValue>)
    ensures
        wire_arr_view(r@) == message_action_item_list_to_wire(xs.deep_view()),
        r@.len() == xs@.len(),
{
    let n: usize = xs.len();
    let mut out: Vec<WireValue> = Vec::new();
    let mut i: usize = 0;
    while i < n
        invariant
            n == xs@.len(),
            0 <= i <= n,
            out@.len() == i,
            forall|j: int| 0 <= j < i ==> wire_view(#[trigger] out@[j]) == message_action_item_to_wire(
                xs@[j]@,
            ),
        decreases n - i,
    {
        out.push(xs[i].encode());
        i = i + 1;
    }
    proof {
        lemma_wire_arr_view(out@);
        lemma_message_action_item_list_pointwise(xs.deep_view());
        assert(wire_arr_view(out@) =~= message_action_item_list_to_wire(xs.deep_view()));
    }
    out
}

/// Decodes a list of these entities, element for element.
pub fn message_action_item_list_decode(items: &Vec<WireValue>) -> (r: Result<Vec<MessageActionItem>, DecodeError>)
    ensures
        match r {
            Ok(v) => message_action_item_list_of_wire(wire_arr_view(items@)) == Ok::<
                Seq<MessageActionItemView>,
                DecodeErrorView,
            >(v.deep_view()),
            Err(e) => message_action_item_list_of_wire(wire_arr_view(items@)) == Err::<
                Seq<MessageActionItemView>,
                DecodeErrorView,
            >(e@),
        },
{
    let ghost ev = wire_arr_view(items@);
    proof {
        lemma_wire_arr_view(items@);
        assert(ev.skip(0) =~= ev);
    }
    let n: usize = items.len();
    let mut out: Vec<MessageActionItem> = Vec::new();
    let mut i: usize = 0;
    while i < n
        invariant
            n == items@.len(),
            ev == wire_arr_view(items@),
            ev.len() == n,
            forall|j: int| 0 <= j < n ==> #[trigger] ev[j] == wire_view(items@[j]),
            0 <= i <= n,
            out.deep_view().len() == i,
            message_action_item_list_of_wire(ev) == (match message_action_item_list_of_wire(ev.skip(i as int)) {
                Ok(rest) => Ok::<Seq<MessageActionItemView>, DecodeErrorView>(out.deep_view() + rest),
                Err(e) => Err::<Seq<MessageActionItemView>, DecodeErrorView>(e),
            }),
        decreases n - i,
    {
        proof {
            assert(ev.skip(i as int)[0] == ev[i as int]);
            assert(ev.skip(i as int).drop_first() =~= ev.skip(i + 1));
        }
        let ghost prev = out.deep_view();
        match MessageActionItem::decode(&items[i]) {
            Ok(x) => {
                out.push(x);
                proof {
                    assert(out.deep_view() =~= prev.push(x@));
                    assert(forall|rest: Seq<MessageActionItemView>|
                        prev + (#[trigger] (seq![x@] + rest)) =~= out.deep_view() + rest);
                }
            },
            Err(e) => {
                return Err(e);
            },
        }
        i = i + 1;
    }
    proof {
        assert(ev.skip(n as int) =~= Seq::<WireValueView>::empty());
        assert(out.deep_view() + Seq::<MessageActionItemView>::empty() =~= out.deep_view());
    }
    Ok(out)
}

/// A required field holding a list of these entities.
pub open spec fn req_message_action_item_list(fs: Seq<(Seq<char>, WireValueView)>, key: Seq<char>) -> Result<
    Seq<MessageActionItemView>,
    DecodeErrorView,
> {
    match obj_get(fs, key) {
        Some(WireValueView::Arr(elems)) => message_action_item_list_of_wire(elems),
        _ => Err(missing(key)),
    }
}

/// An omit-when-empty field holding a list of these entities.
pub open spec fn emp_message_action_item_list(fs: Seq<(Seq<char>, WireValueView)>, key: Seq<char>) -> Result<
    Seq<MessageActionItemView>,
    DecodeErrorView,
> {
    match opt_field(fs, key) {
        Some(WireValueView::Arr(elems)) => message_action_item_list_of_wire(elems),
        Some(_) => Err(missing(key)),
        None => Ok(Seq::empty()),
    }
}

/// Asks the client to show a message.
#[derive(Debug)]
pub struct ShowMessageParams {
    pub typ: MessageType,
    pub message: String,
}

/// The mathematical model of this entity.
#[verifier::ext_equal]
pub struct ShowMessageParamsView {
    pub typ: MessageType,
    pub message: Seq<char>,
}

impl View for ShowMessageParams {
    type V = ShowMessageParamsView;

    open spec fn view(&self) -> ShowMessageParamsView {
        ShowMessageParamsView {
            typ: self.typ,
            message: self.message@,
        }
    }
}

impl DeepView for ShowMessageParams {
    type V = ShowMessageParamsView;

    open spec fn deep_view(&self) -> ShowMessageParamsView {
        self.view()
    }
}

/// The field table: each wire key with its value, or `None` where the
/// field's omission policy drops it.
pub open spec fn show_message_params_fields(v: ShowMessageParamsView) -> FieldTable {
    seq![
        ("type"@, Some(WireValueView::Num(v.typ.code_spec()))),
        ("message"@, Some(WireValueView::Str(v.message))),
    ]
}

/// What encoding this entity produces.
pub open spec fn show_message_params_to_wire(v: ShowMessageParamsView) -> WireValueView {
    WireValueView::Obj(emit_fields(show_message_params_fields(v)))
}

/// What decoding a wire value as this entity yields. Unknown extra
/// fields are ignored; a missing or ill-shaped field fails.
pub open spec fn show_message_params_of_wire(w: WireValueView) -> Result<ShowMessageParamsView, DecodeErrorView> {
    match w {
        WireValueView::Obj(fs) => match req_message_type(fs, "type"@) {
                Ok(typ) => match req_str(fs, "message"@) {
                    Ok(message) => Ok(ShowMessageParamsView { typ, message }),
                    Err(e) => Err(e),
                },
                Err(e) => Err(e),
            },
        _ => Err(missing("type"@)),
    }
}

impl ShowMessageParams {
    pub fn encode(&self) -> (r: WireValue)
        ensures
            r@ == show_message_params_to_wire(self@),
    {
        let mut table: Vec<(String, Option<WireValue>)> = Vec::new();
        table.push((key_string("type"), Some(WireValue::Num(self.typ.code()))));
        table.push((key_string("message"), Some(WireValue::Str(self.message.clone()))));
        proof {
            assert(table_view(table@) =~= show_message_params_fields(self@));
        }
        finish_obj(table)
    }

    pub fn decode(w: &WireValue) -> (r: Result<ShowMessageParams, DecodeError>)
        ensures
            match r {
                Ok(x) => show_message_params_of_wire(w@) == Ok::<ShowMessageParamsView, DecodeErrorView>(x@),
                Err(e) => show_message_params_of_wire(w@) == Err::<ShowMessageParamsView, DecodeErrorView>(e@),
            },
    {
        let fields = match w {
            WireValue::Obj(fields) => fields,
            _ => {
                return Err(DecodeError::MissingOrInvalidField(key_string("type")));
            },
        };
        let typ: MessageType = match wire_obj_get(fields, &key_string("type")) {
            Some(WireValue::Num(n)) => match MessageType::from_code(*n) {
                Ok(k) => k,
                Err(e) => {
                    return Err(e);
                },
            },
            _ => {
                return Err(DecodeError::MissingOrInvalidField(key_string("type")));
            },
        };
        let message: String = match wire_obj_get(fields, &key_string("message")) {
            Some(WireValue::Str(s)) => s.clone(),
            _ => {
                return Err(DecodeError::MissingOrInvalidField(key_string("message")));
            },
        };
        Ok(ShowMessageParams { typ, message })
    }
}

/// Decoding an encoded value of this entity gives the value back.
pub proof fn lemma_show_message_params_round_trip(v: ShowMessageParamsView)
    ensures
        show_message_params_of_wire(show_message_params_to_wire(v)) == Ok::<ShowMessageParamsView, DecodeErrorView>(v),
{
    let t = show_message_params_fields(v);
    assert(distinct_keys(t)) by {
        reveal_strlit("type");
        reveal_strlit("message");
        assert forall|i: int, j: int| 0 <= i < j < t.len() implies t[i].0 != t[j].0 by {
            assert(t[0].0 == "type"@);
            assert(t[1].0 == "message"@);
        }
    }
    lemma_emit_fields_get(t, 0);
    lemma_emit_fields_get(t, 1);
}

/// Asks the client to log a message.
#[derive(Debug)]
pub struct LogMessageParams {
    pub typ: MessageType,
    pub message: String,
}

/// The mathematical model of this entity.
#[verifier::ext_equal]
pub struct LogMessageParamsView {
    pub typ: MessageType,
    pub message: Seq<char>,
}

impl View for LogMessageParams {
    type V = LogMessageParamsView;

    open spec fn view(&self) -> LogMessageParamsView {
        LogMessageParamsView {
            typ: self.typ,
            message: self.message@,
        }
    }
}

impl DeepView for LogMessageParams {
    type V = LogMessageParamsView;

    open spec fn deep_view(&self) -> LogMessageParamsView {
        self.view()
    }
}

/// The field table: each wire key with its value, or `None` where the
/// field's omission policy drops it.
pub open spec fn log_message_params_fields(v: LogMessageParamsView) -> FieldTable {
    seq![
        ("type"@, Some(WireValueView::Num(v.typ.code_spec()))),
        ("message"@, Some(WireValueView::Str(v.message))),
    ]
}

/// What encoding this entity produces.
pub open spec fn log_message_params_to_wire(v: LogMessageParamsView) -> WireValueView {
    WireValueView::Obj(emit_fields(log_message_params_fields(v)))
}

/// What decoding a wire value as this entity yields. Unknown extra
/// fields are ignored; a missing or ill-shaped field fails.
pub open spec fn log_message_params_of_wire(w: WireValueView) -> Result<LogMessageParamsView, DecodeErrorView> {
    match w {
        WireValueView::Obj(fs) => match req_message_type(fs, "type"@) {
                Ok(typ) => match req_str(fs, "message"@) {
                    Ok(message) => Ok(LogMessageParamsView { typ, message }),
                    Err(e) => Err(e),
                },
                Err(e) => Err(e),
            },
        _ => Err(missing("type"@)),
    }
}

impl LogMessageParams {
    pub fn encode(&self) -> (r: WireValue)
        ensures
            r@ == log_message_params_to_wire(self@),
    {
        let mut table: Vec<(String, Option<WireValue>)> = Vec::new();
        table.push((key_string("type"), Some(WireValue::Num(self.typ.code()))));
        table.push((key_string("message"), Some(WireValue::Str(self.message.clone()))));
        proof {
            assert(table_view(table@) =~= log_message_params_fields(self@));
        }
        finish_obj(table)
    }

    pub fn decode(w: &WireValue) -> (r: Result<LogMessageParams, DecodeError>)
        ensures
            match r {
                Ok(x) => log_message_params_of_wire(w@) == Ok::<LogMessageParamsView, DecodeErrorView>(x@),
                Err(e) => log_message_params_of_wire(w@) == Err::<LogMessageParamsView, DecodeErrorView>(e@),
            },
    {
        let fields = match w {
            WireValue::Obj(fields) => fields,
            _ => {
                return Err(DecodeError::MissingOrInvalidField(key_string("type")));
            },
        };
        let typ: MessageType = match wire_obj_get(fields, &key_string("type")) {
            Some(WireValue::Num(n)) => match MessageType::from_code(*n) {
                Ok(k) => k,
                Err(e) => {
                    return Err(e);
                },
            },
            _ => {
                return Err(DecodeError::MissingOrInvalidField(key_string("type")));
            },
        };
        let message: String = match wire_obj_get(fields, &key_string("message")) {
            Some(WireValue::Str(s)) => s.clone(),
            _ => {
                return Err(DecodeError::MissingOrInvalidField(key_string("message")));
            },
        };
        Ok(LogMessageParams { typ, message })
    }
}

/// Decoding an encoded value of this entity gives the value back.
pub proof fn lemma_log_message_params_round_trip(v: LogMessageParamsView)
    ensures
        log_message_params_of_wire(log_message_params_to_wire(v)) == Ok::<LogMessageParamsView, DecodeErrorView>(v),
{
    let t = log_message_params_fields(v);
    assert(distinct_keys(t)) by {
        reveal_strlit("type");
        reveal_strlit("message");
        assert forall|i: int, j: int| 0 <= i < j < t.len() implies t[i].0 != t[j].0 by {
            assert(t[0].0 == "type"@);
            assert(t[1].0 == "message"@);
        }
    }
    lemma_emit_fields_get(t, 0);
    lemma_emit_fields_get(t, 1);
}

/// Asks the client to show a message and pick an action.
#[derive(Debug)]
pub struct ShowMessageRequestParams {
    pub typ: MessageType,
    pub message: String,
    pub actions: Vec<MessageActionItem>,
}

/// The mathematical model of this entity.
#[verifier::ext_equal]
pub struct ShowMessageRequestParamsView {
    pub typ: MessageType,
    pub message: Seq<char>,
    pub actions: Seq<MessageActionItemView>,
}

impl View for ShowMessageRequestParams {
    type V = ShowMessageRequestParamsView;

    open spec fn view(&self) -> ShowMessageRequestParamsView {
        ShowMessageRequestParamsView {
            typ: self.typ,
            message: self.message@,
            actions: self.actions.deep_view(),
        }
    }
}

impl DeepView for ShowMessageRequestParams {
    type V = ShowMessageRequestParamsView;

    open spec fn deep_view(&self) -> ShowMessageRequestParamsView {
        self.view()
    }
}

/// The field table: each wire key with its value, or `None` where the
/// field's omission policy drops it.
pub open spec fn show_message_request_params_fields(v: ShowMessageRequestParamsView) -> FieldTable {
    seq![
        ("type"@, Some(WireValueView::Num(v.typ.code_spec()))),
        ("message"@, Some(WireValueView::Str(v.message))),
        ("actions"@, if v.actions.len() == 0 {
                None
            } else {
                Some(WireValueView::Arr(message_action_item_list_to_wire(v.actions)))
            }),
    ]
}

/// What encoding this entity produces.
pub open spec fn show_message_request_params_to_wire(v: ShowMessageRequestParamsView) -> WireValueView {
    WireValueView::Obj(emit_fields(show_message_request_params_fields(v)))
}

/// What decoding a wire value as this entity yields. Unknown extra
/// fields are ignored; a missing or ill-shaped field fails.
pub open spec fn show_message_request_params_of_wire(w: WireValueView) -> Result<ShowMessageRequestParamsView, DecodeErrorView> {
    match w {
        WireValueView::Obj(fs) => match req_message_type(fs, "type"@) {
                Ok(typ) => match req_str(fs, "message"@) {
                    Ok(message) => match emp_message_action_item_list(fs, "actions"@) {
                        Ok(actions) => Ok(ShowMessageRequestParamsView { typ, message, actions }),
                        Err(e) => Err(e),
                    },
                    Err(e) => Err(e),
                },
                Err(e) => Err(e),
            },
        _ => Err(missing("type"@)),
    }
}

impl ShowMessageRequestParams {
    pub fn encode(&self) -> (r: WireValue)
        ensures
            r@ == show_message_request_params_to_wire(self@),
    {
        let mut table: Vec<(String, Option<WireValue>)> = Vec::new();
        table.push((key_string("type"), Some(WireValue::Num(self.typ.code()))));
        table.push((key_string("message"), Some(WireValue::Str(self.message.clone()))));
        table.push((key_string("actions"), if self.actions.len() == 0 {
            None
        } else {
            Some(WireValue::Arr(message_action_item_list_encode(&self.actions)))
        }));
        proof {
            assert(table_view(table@) =~= show_message_request_params_fields(self@));
        }
        finish_obj(table)
    }

    pub fn decode(w: &WireValue) -> (r: Result<ShowMessageRequestParams, DecodeError>)
        ensures
            match r {
                Ok(x) => show_message_request_params_of_wire(w@) == Ok::<ShowMessageRequestParamsView, DecodeErrorView>(x@),
                Err(e) => show_message_request_params_of_wire(w@) == Err::<ShowMessageRequestParamsView, DecodeErrorView>(e@),
            },
    {
        let fields = match w {
            WireValue::Obj(fields) => fields,
            _ => {
                return Err(DecodeError::MissingOrInvalidField(key_string("type")));
            },
        };
        let typ: MessageType = match wire_obj_get(fields, &key_string("type")) {
            Some(WireValue::Num(n)) => match MessageType::from_code(*n) {
                Ok(k) => k,
                Err(e) => {
                    return Err(e);
                },
            },
            _ => {
                return Err(DecodeError::MissingOrInvalidField(key_string("type")));
            },
        };
        let message: String = match wire_obj_get(fields, &key_string("message")) {
            Some(WireValue::Str(s)) => s.clone(),
            _ => {
                return Err(DecodeError::MissingOrInvalidField(key_string("message")));
            },
        };
        let actions: Vec<MessageActionItem> = match wire_obj_get_opt(fields, &key_string("actions")) {
            Some(WireValue::Arr(items)) => match message_action_item_list_decode(items) {
                Ok(v) => v,
                Err(e) => {
                    return Err(e);
                },
            },
            Some(_) => {
                return Err(DecodeError::MissingOrInvalidField(key_string("actions")));
            },
            None => {
                let fresh: Vec<MessageActionItem> = Vec::new();
                proof {
                    assert(fresh.deep_view() =~= Seq::<MessageActionItemView>::empty());
                }
                fresh
            },
        };
        Ok(ShowMessageRequestParams { typ, message, actions })
    }
}

/// Decoding an encoded value of this entity gives the value back.
pub proof fn lemma_show_message_request_params_round_trip(v: ShowMessageRequestParamsView)
    ensures
        show_message_request_params_of_wire(show_message_request_params_to_wire(v)) == Ok::<ShowMessageRequestParamsView, DecodeErrorView>(v),
{
    let t = show_message_request_params_fields(v);
    assert(distinct_keys(t)) by {
        reveal_strlit("type");
        reveal_strlit("message");
        reveal_strlit("actions");
        assert forall|i: int, j: int| 0 <= i < j < t.len() implies t[i].0 != t[j].0 by {
            assert(t[0].0 == "type"@);
            assert(t[1].0 == "message"@);
            assert(t[2].0 == "actions"@);
            assert("message"@[0] != "actions"@[0]);
        }
    }
    lemma_emit_fields_get(t, 0);
    lemma_emit_fields_get(t, 1);
    lemma_emit_fields_get(t, 2);
    lemma_message_action_item_list_round_trip(v.actions);
    if v.actions.len() == 0 {
        assert(v.actions =~= Seq::<MessageActionItemView>::empty());
    }
}

} // verus!
