//! The untyped wire value: a JSON-compatible tree of objects, arrays,
//! strings, non-negative integers, booleans and null, together with its
//! mathematical model and the helpers every entity codec is built on:
//! object-field lookup and the per-field omission machinery.

use vstd::prelude::*;
use vstd::string::StringExecFns;
use crate::error::{missing, DecodeError, DecodeErrorView};

verus! {

/// An untyped wire value, as handed over by (or to) the transport layer.
#[derive(Debug, PartialEq)]
pub enum WireValue {
    Null,
    Bool(bool),
    Num(u64),
    Str(String),
    Arr(Vec<WireValue>),
    Obj(Vec<(String, WireValue)>),
}

/// The mathematical model of a wire value.
pub enum WireValueView {
    Null,
    Bool(bool),
    Num(u64),
    Str(Seq<char>),
    Arr(Seq<WireValueView>),
    Obj(Seq<(Seq<char>, WireValueView)>),
}

pub open spec fn wire_view(v: WireValue) -> WireValueView
    decreases v,
    via wire_view_decreases
{
    match v {
        WireValue::Null => WireValueView::Null,
        WireValue::Bool(b) => WireValueView::Bool(b),
        WireValue::Num(n) => WireValueView::Num(n),
        WireValue::Str(s) => WireValueView::Str(s@),
        WireValue::Arr(items) => WireValueView::Arr(wire_arr_view(items@)),
        WireValue::Obj(fields) => WireValueView::Obj(wire_obj_view(fields@)),
    }
}

/// The models of an array's elements, in order.
pub open spec fn wire_arr_view(items: Seq<WireValue>) -> Seq<WireValueView>
    decreases items,
{
    if items.len() == 0 {
        Seq::empty()
    } else {
        seq![wire_view(items[0])] + wire_arr_view(items.subrange(1, items.len() as int))
    }
}

/// The models of an object's fields, in order.
pub open spec fn wire_obj_view(fields: Seq<(String, WireValue)>) -> Seq<(Seq<char>, WireValueView)>
    decreases fields,
    via wire_obj_view_decreases
{
    if fields.len() == 0 {
        Seq::empty()
    } else {
        seq![(fields[0].0@, wire_view(fields[0].1))] + wire_obj_view(
            fields.subrange(1, fields.len() as int),
        )
    }
}

#[via_fn]
proof fn wire_view_decreases(v: WireValue) {
    match v {
        WireValue::Arr(items) => {
            assert(decreases_to!(v => items));
            assert(decreases_to!(items => items@));
        },
        WireValue::Obj(fields) => {
            assert(decreases_to!(v => fields));
            assert(decreases_to!(fields => fields@));
        },
        _ => {},
    }
}

#[via_fn]
proof fn wire_obj_view_decreases(fields: Seq<(String, WireValue)>) {
    if fields.len() > 0 {
        assert(decreases_to!(fields => fields[0]));
        assert(decreases_to!(fields[0] => fields[0].1));
    }
}

impl View for WireValue {
    type V = WireValueView;

    open spec fn view(&self) -> WireValueView {
        wire_view(*self)
    }
}

/// The element models of an array are the models of its elements.
pub proof fn lemma_wire_arr_view(items: Seq<WireValue>)
    ensures
        wire_arr_view(items).len() == items.len(),
        forall|i: int|
            0 <= i < items.len() ==> #[trigger] wire_arr_view(items)[i] == wire_view(items[i]),
    decreases items.len(),
{
    if items.len() > 0 {
        lemma_wire_arr_view(items.subrange(1, items.len() as int));
    }
}

/// The field models of an object are the models of its fields.
pub proof fn lemma_wire_obj_view(fields: Seq<(String, WireValue)>)
    ensures
        wire_obj_view(fields).len() == fields.len(),
        forall|i: int|
            0 <= i < fields.len() ==> #[trigger] wire_obj_view(fields)[i] == (
            fields[i].0@,
            wire_view(fields[i].1),
            ),
    decreases fields.len(),
{
    if fields.len() > 0 {
        lemma_wire_obj_view(fields.subrange(1, fields.len() as int));
    }
}

/// The value under `key` in an object's field list: the first binding wins.
pub open spec fn obj_get(fields: Seq<(Seq<char>, WireValueView)>, key: Seq<char>) -> Option<
    WireValueView,
>
    decreases fields.len(),
{
    if fields.len() == 0 {
        None
    } else if fields[0].0 == key {
        Some(fields[0].1)
    } else {
        obj_get(fields.drop_first(), key)
    }
}

/// Looks `key` up in an object's field list, first binding first.
pub fn wire_obj_get<'a>(fields: &'a Vec<(String, WireValue)>, key: &String) -> (r: Option<
    &'a WireValue,
>)
    ensures
        match r {
            Some(v) => obj_get(wire_obj_view(fields@), key@) == Some(v@),
            None => obj_get(wire_obj_view(fields@), key@) is None,
        },
{
    proof {
        lemma_wire_obj_view(fields@);
    }
    let ghost fs = wire_obj_view(fields@);
    let n: usize = fields.len();
    let mut i: usize = 0;
    proof {
        assert(fs.skip(0) =~= fs);
    }
    while i < n
        invariant
            n == fields.len(),
            fs == wire_obj_view(fields@),
            fs.len() == n,
            forall|j: int| 0 <= j < n ==> #[trigger] fs[j] == (fields@[j].0@, wire_view(fields@[j].1)),
            0 <= i <= n,
            obj_get(fs, key@) == obj_get(fs.skip(i as int), key@),
        decreases n - i,
    {
        proof {
            assert(fs.skip(i as int)[0] == fs[i as int]);
        }
        if fields[i].0 == *key {
            return Some(&fields[i].1);
        }
        proof {
            assert(fs.skip(i as int).drop_first() =~= fs.skip(i + 1));
        }
        i = i + 1;
    }
    proof {
        assert(fs.skip(n as int) =~= Seq::<(Seq<char>, WireValueView)>::empty());
    }
    None
}

/// A record's field table before omission is applied: each field's wire key
/// paired with its encoded value, or `None` where the field's omission policy
/// drops it from the output.
pub type FieldTable = Seq<(Seq<char>, Option<WireValueView>)>;

/// Applies the omission policy: keeps the present fields, in order.
pub open spec fn emit_fields(table: FieldTable) -> Seq<(Seq<char>, WireValueView)>
    decreases table.len(),
{
    if table.len() == 0 {
        Seq::empty()
    } else {
        (match table[0].1 {
            Some(v) => seq![(table[0].0, v)],
            None => Seq::empty(),
        }) + emit_fields(table.drop_first())
    }
}

/// No two fields of a record share a wire key.
pub open spec fn distinct_keys(table: FieldTable) -> bool {
    forall|i: int, j: int| 0 <= i < j < table.len() ==> table[i].0 != table[j].0
}

/// Looking an emitted object up under a record's own key yields exactly that
/// field's entry of the table: `Some` where the field was present, `None`
/// where the omission policy dropped it.
pub proof fn lemma_emit_fields_get(table: FieldTable, i: int)
    requires
        distinct_keys(table),
        0 <= i < table.len(),
    ensures
        obj_get(emit_fields(table), table[i].0) == table[i].1,
    decreases table.len(),
{
    let rest = table.drop_first();
    if i == 0 {
        match table[0].1 {
            Some(v) => {
                assert(emit_fields(table)[0] == (table[0].0, v));
            },
            None => {
                assert(forall|j: int| 0 <= j < rest.len() ==> #[trigger] rest[j].0 != table[0].0)
                    by {
                    assert(forall|j: int| 0 <= j < rest.len() ==> rest[j] == table[j + 1]);
                }
                lemma_emit_fields_absent(rest, table[0].0);
            },
        }
    } else {
        assert(distinct_keys(rest)) by {
            assert(forall|p: int, q: int|
                0 <= p < q < rest.len() ==> rest[p] == table[p + 1] && rest[q] == table[q + 1]);
        }
        assert(rest[i - 1] == table[i]);
        lemma_emit_fields_get(rest, i - 1);
        assert(table[0].0 != table[i].0);
        match table[0].1 {
            Some(v) => {
                let whole = emit_fields(table);
                assert(whole == seq![(table[0].0, v)] + emit_fields(rest));
                assert(whole[0] == (table[0].0, v));
                assert(whole.drop_first() =~= emit_fields(rest));
            },
            None => {
                assert(emit_fields(table) =~= emit_fields(rest));
            },
        }
    }
}

/// A key that is nowhere in the table is nowhere in the emitted object.
pub proof fn lemma_emit_fields_absent(table: FieldTable, key: Seq<char>)
    requires
        forall|i: int| 0 <= i < table.len() ==> #[trigger] table[i].0 != key,
    ensures
        obj_get(emit_fields(table), key) is None,
    decreases table.len(),
{
    if table.len() > 0 {
        assert(table[0].0 != key);
        let rest = table.drop_first();
        assert(forall|i: int| 0 <= i < rest.len() ==> #[trigger] rest[i].0 != key) by {
            assert(forall|i: int| 0 <= i < rest.len() ==> rest[i] == table[i + 1]);
        }
        lemma_emit_fields_absent(rest, key);
        match table[0].1 {
            Some(v) => {
                let whole = emit_fields(table);
                assert(whole[0] == (table[0].0, v));
                assert(whole.drop_first() =~= emit_fields(rest));
            },
            None => {
                assert(emit_fields(table) =~= emit_fields(rest));
            },
        }
    }
}

/// The model of an exec field table.
pub open spec fn table_view(table: Seq<(String, Option<WireValue>)>) -> FieldTable {
    Seq::new(
        table.len(),
        |i: int| (table[i].0@, match table[i].1 {
            Some(v) => Some(wire_view(v)),
            None => None,
        }),
    )
}

/// Builds an object from a record's field table, applying each field's
/// omission policy: an absent entry leaves no key behind.
pub fn finish_obj(table: Vec<(String, Option<WireValue>)>) -> (r: WireValue)
    ensures
        r@ == WireValueView::Obj(emit_fields(table_view(table@))),
{
    let ghost tv = table_view(table@);
    let mut table = table;
    let mut out: Vec<(String, WireValue)> = Vec::new();
    let mut i: usize = table.len();
    proof {
        assert(tv.skip(i as int) =~= Seq::<(Seq<char>, Option<WireValueView>)>::empty());
        lemma_wire_obj_view(out@);
        assert(wire_obj_view(out@) =~= emit_fields(tv.skip(i as int)));
    }
    while i > 0
        invariant
            0 <= i <= tv.len(),
            table@.len() == i,
            forall|j: int| 0 <= j < i ==> (#[trigger] table@[j].0@, match table@[j].1 {
                Some(v) => Some(wire_view(v)),
                None => None::<WireValueView>,
            }) == tv[j],
            wire_obj_view(out@) == emit_fields(tv.skip(i as int)),
        decreases i,
    {
        let ghost prev_out = out@;
        let entry = table.pop().unwrap();
        i = i - 1;
        proof {
            assert((entry.0@, match entry.1 {
                Some(v) => Some(wire_view(v)),
                None => None::<WireValueView>,
            }) == tv[i as int]);
            assert(tv.skip(i as int)[0] == tv[i as int]);
            assert(tv.skip(i as int).drop_first() =~= tv.skip(i + 1));
        }
        match entry.1 {
            Some(v) => {
                out.insert(0, (entry.0, v));
                proof {
                    lemma_wire_obj_view(out@);
                    lemma_wire_obj_view(prev_out);
                    assert(wire_obj_view(out@) =~= seq![(tv[i as int].0, tv[i as int].1->0)]
                        + wire_obj_view(prev_out)) by {
                        assert(forall|j: int|
                            1 <= j < out@.len() ==> out@[j] == prev_out[j - 1]);
                    }
                    assert(wire_obj_view(out@) =~= emit_fields(tv.skip(i as int)));
                }
            },
            None => {
                proof {
                    assert(wire_obj_view(out@) =~= emit_fields(tv.skip(i as int)));
                }
            },
        }
    }
    proof {
        assert(tv.skip(0) =~= tv);
    }
    WireValue::Obj(out)
}

/// A `String` key for a fixed wire name.
pub fn key_string(s: &str) -> (r: String)
    ensures
        r@ == s@,
{
    String::from_str(s)
}

/// An optional field's value: absent and null are both "not there", the
/// reading the protocol gives every optional field.
pub open spec fn opt_field(fields: Seq<(Seq<char>, WireValueView)>, key: Seq<char>) -> Option<
    WireValueView,
> {
    match obj_get(fields, key) {
        Some(WireValueView::Null) => None,
        Some(v) => Some(v),
        None => None,
    }
}

/// Looks an optional field up; a missing key and an explicit null are both
/// `None`.
pub fn wire_obj_get_opt<'a>(fields: &'a Vec<(String, WireValue)>, key: &String) -> (r: Option<
    &'a WireValue,
>)
    ensures
        match r {
            Some(v) => opt_field(wire_obj_view(fields@), key@) == Some(v@),
            None => opt_field(wire_obj_view(fields@), key@) is None,
        },
{
    match wire_obj_get(fields, key) {
        Some(v) => match v {
            WireValue::Null => None,
            _ => Some(v),
        },
        None => None,
    }
}

impl WireValue {
    /// A structurally identical copy of this wire value.
    #[verifier::loop_isolation(false)]
    pub fn duplicate(&self) -> (r: WireValue)
        ensures
            r@ == self@,
        decreases *self,
    {
        match self {
            WireValue::Null => WireValue::Null,
            WireValue::Bool(b) => WireValue::Bool(*b),
            WireValue::Num(n) => WireValue::Num(*n),
            WireValue::Str(s) => WireValue::Str(s.clone()),
            WireValue::Arr(items) => {
                let n: usize = items.len();
                let mut out: Vec<WireValue> = Vec::new();
                let mut i: usize = 0;
                while i < n
                    invariant
                        n == items@.len(),
                        0 <= i <= n,
                        out@.len() == i,
                        forall|j: int| 0 <= j < i ==> wire_view(#[trigger] out@[j]) == wire_view(
                            items@[j],
                        ),
                    decreases n - i,
                {
                    proof {
                        assert(decreases_to!(*self => (*self)->Arr_0));
                        assert((*self)->Arr_0 == *items);
                        assert(decreases_to!(*items => items@));
                        assert(decreases_to!(items@ => items@[i as int]));
                    }
                    out.push(items[i].duplicate());
                    i = i + 1;
                }
                proof {
                    lemma_wire_arr_view(out@);
                    lemma_wire_arr_view(items@);
                    assert(wire_arr_view(out@) =~= wire_arr_view(items@));
                }
                WireValue::Arr(out)
            },
            WireValue::Obj(fields) => {
                let n: usize = fields.len();
                let mut out: Vec<(String, WireValue)> = Vec::new();
                let mut i: usize = 0;
                while i < n
                    invariant
                        n == fields@.len(),
                        0 <= i <= n,
                        out@.len() == i,
                        forall|j: int| 0 <= j < i ==> (#[trigger] out@[j]).0@ == fields@[j].0@
                            && wire_view(out@[j].1) == wire_view(fields@[j].1),
                    decreases n - i,
                {
                    proof {
                        assert(decreases_to!(*self => (*self)->Obj_0));
                        assert((*self)->Obj_0 == *fields);
                        assert(decreases_to!(*fields => fields@));
                        assert(decreases_to!(fields@ => fields@[i as int]));
                        assert(decreases_to!(fields@[i as int] => fields@[i as int].1));
                    }
                    let name = fields[i].0.clone();
                    let value = fields[i].1.duplicate();
                    out.push((name, value));
                    i = i + 1;
                }
                proof {
                    lemma_wire_obj_view(out@);
                    lemma_wire_obj_view(fields@);
                    assert(wire_obj_view(out@) =~= wire_obj_view(fields@));
                }
                WireValue::Obj(out)
            },
        }
    }
}

/// Structurally identical copies of a list of wire values.
pub fn duplicate_wire_list(items: &Vec<WireValue>) -> (r: Vec<WireValue>)
    ensures
        wire_arr_view(r@) == wire_arr_view(items@),
        r@.len() == items@.len(),
{
    let n: usize = items.len();
    let mut out: Vec<WireValue> = Vec::new();
    let mut i: usize = 0;
    while i < n
        invariant
            n == items@.len(),
            0 <= i <= n,
            out@.len() == i,
            forall|j: int| 0 <= j < i ==> wire_view(#[trigger] out@[j]) == wire_view(items@[j]),
        decreases n - i,
    {
        out.push(items[i].duplicate());
        i = i + 1;
    }
    proof {
        lemma_wire_arr_view(out@);
        lemma_wire_arr_view(items@);
        assert(wire_arr_view(out@) =~= wire_arr_view(items@));
    }
    out
}

/// What encoding a list of strings produces, element for element.
pub open spec fn str_list_to_wire(ss: Seq<Seq<char>>) -> Seq<WireValueView>
    decreases ss.len(),
{
    if ss.len() == 0 {
        Seq::empty()
    } else {
        seq![WireValueView::Str(ss[0])] + str_list_to_wire(ss.drop_first())
    }
}

/// What decoding a list of strings yields: every element must be a string;
/// an element of any other shape fails under the owning field's name.
pub open spec fn str_list_of_wire(elems: Seq<WireValueView>, key: Seq<char>) -> Result<
    Seq<Seq<char>>,
    DecodeErrorView,
>
    decreases elems.len(),
{
    if elems.len() == 0 {
        Ok(Seq::empty())
    } else {
        match elems[0] {
            WireValueView::Str(s) => match str_list_of_wire(elems.drop_first(), key) {
                Ok(rest) => Ok(seq![s] + rest),
                Err(e) => Err(e),
            },
            _ => Err(DecodeErrorView::MissingOrInvalidField(key)),
        }
    }
}

/// Decoding an encoded list of strings gives the list back.
pub proof fn lemma_str_list_round_trip(ss: Seq<Seq<char>>, key: Seq<char>)
    ensures
        str_list_of_wire(str_list_to_wire(ss), key) == Ok::<Seq<Seq<char>>, DecodeErrorView>(ss),
        str_list_to_wire(ss).len() == ss.len(),
    decreases ss.len(),
{
    if ss.len() == 0 {
        assert(ss =~= Seq::<Seq<char>>::empty());
    } else {
        lemma_str_list_round_trip(ss.drop_first(), key);
        let m = str_list_to_wire(ss);
        assert(m[0] == WireValueView::Str(ss[0]));
        assert(m.drop_first() =~= str_list_to_wire(ss.drop_first()));
        assert(seq![ss[0]] + ss.drop_first() =~= ss);
    }
}

/// Encodes a list of strings, element for element.
pub fn encode_str_list(ss: &Vec<String>) -> (r: Vec<WireValue>)
    ensures
        wire_arr_view(r@) == str_list_to_wire(ss.deep_view()),
        r@.len() == ss@.len(),
{
    let n: usize = ss.len();
    let mut out: Vec<WireValue> = Vec::new();
    let mut i: usize = 0;
    while i < n
        invariant
            n == ss@.len(),
            0 <= i <= n,
            out@.len() == i,
            forall|j: int| 0 <= j < i ==> wire_view(#[trigger] out@[j]) == WireValueView::Str(
                ss@[j]@,
            ),
        decreases n - i,
    {
        out.push(WireValue::Str(ss[i].clone()));
        i = i + 1;
    }
    proof {
        lemma_wire_arr_view(out@);
        lemma_str_list_pointwise(ss.deep_view());
        assert(wire_arr_view(out@) =~= str_list_to_wire(ss.deep_view()));
    }
    out
}

/// The elements of an encoded string list, pointwise.
pub proof fn lemma_str_list_pointwise(ss: Seq<Seq<char>>)
    ensures
        str_list_to_wire(ss).len() == ss.len(),
        forall|i: int|
            0 <= i < ss.len() ==> #[trigger] str_list_to_wire(ss)[i] == WireValueView::Str(ss[i]),
    decreases ss.len(),
{
    if ss.len() > 0 {
        lemma_str_list_pointwise(ss.drop_first());
    }
}

/// Decodes a list of strings, element for element; `key` is the owning
/// field's wire name, used for the failure.
pub fn decode_str_list(items: &Vec<WireValue>, key: &String) -> (r: Result<
    Vec<String>,
    DecodeError,
>)
    ensures
        match r {
            Ok(v) => str_list_of_wire(wire_arr_view(items@), key@) == Ok::<
                Seq<Seq<char>>,
                DecodeErrorView,
            >(v.deep_view()),
            Err(e) => str_list_of_wire(wire_arr_view(items@), key@) == Err::<
                Seq<Seq<char>>,
                DecodeErrorView,
            >(e@),
        },
{
    let ghost ev = wire_arr_view(items@);
    proof {
        lemma_wire_arr_view(items@);
        assert(ev.skip(0) =~= ev);
    }
    let n: usize = items.len();
    let mut out: Vec<String> = Vec::new();
    let mut i: usize = 0;
    while i < n
        invariant
            n == items@.len(),
            ev == wire_arr_view(items@),
            ev.len() == n,
            forall|j: int| 0 <= j < n ==> #[trigger] ev[j] == wire_view(items@[j]),
            0 <= i <= n,
            out.deep_view().len() == i,
            str_list_of_wire(ev, key@) == (match str_list_of_wire(ev.skip(i as int), key@) {
                Ok(rest) => Ok::<Seq<Seq<char>>, DecodeErrorView>(out.deep_view() + rest),
                Err(e) => Err::<Seq<Seq<char>>, DecodeErrorView>(e),
            }),
        decreases n - i,
    {
        proof {
            assert(ev.skip(i as int)[0] == ev[i as int]);
            assert(ev.skip(i as int).drop_first() =~= ev.skip(i + 1));
        }
        let ghost prev = out.deep_view();
        match &items[i] {
            WireValue::Str(s) => {
                out.push(s.clone());
                proof {
                    assert(out.deep_view() =~= prev.push(s@));
                    assert(forall|rest: Seq<Seq<char>>|
                        prev + (#[trigger] (seq![s@] + rest)) =~= out.deep_view() + rest);
                }
            },
            _ => {
                return Err(DecodeError::MissingOrInvalidField(key.clone()));
            },
        }
        i = i + 1;
    }
    proof {
        assert(ev.skip(n as int) =~= Seq::<WireValueView>::empty());
        assert(out.deep_view() + Seq::<Seq<char>>::empty() =~= out.deep_view());
    }
    Ok(out)
}

/// A required integer field.
pub open spec fn req_num(fs: Seq<(Seq<char>, WireValueView)>, key: Seq<char>) -> Result<
    u64,
    DecodeErrorView,
> {
    match obj_get(fs, key) {
        Some(WireValueView::Num(n)) => Ok(n),
        _ => Err(missing(key)),
    }
}

/// An optional integer field.
pub open spec fn opt_num(fs: Seq<(Seq<char>, WireValueView)>, key: Seq<char>) -> Result<
    Option<u64>,
    DecodeErrorView,
> {
    match opt_field(fs, key) {
        Some(WireValueView::Num(n)) => Ok(Some(n)),
        Some(_) => Err(missing(key)),
        None => Ok(None),
    }
}

/// A required boolean field.
pub open spec fn req_bool(fs: Seq<(Seq<char>, WireValueView)>, key: Seq<char>) -> Result<
    bool,
    DecodeErrorView,
> {
    match obj_get(fs, key) {
        Some(WireValueView::Bool(b)) => Ok(b),
        _ => Err(missing(key)),
    }
}

/// An optional boolean field.
pub open spec fn opt_bool(fs: Seq<(Seq<char>, WireValueView)>, key: Seq<char>) -> Result<
    Option<bool>,
    DecodeErrorView,
> {
    match opt_field(fs, key) {
        Some(WireValueView::Bool(b)) => Ok(Some(b)),
        Some(_) => Err(missing(key)),
        None => Ok(None),
    }
}

/// A required string field.
pub open spec fn req_str(fs: Seq<(Seq<char>, WireValueView)>, key: Seq<char>) -> Result<
    Seq<char>,
    DecodeErrorView,
> {
    match obj_get(fs, key) {
        Some(WireValueView::Str(s)) => Ok(s),
        _ => Err(missing(key)),
    }
}

/// An optional string field.
pub open spec fn opt_str(fs: Seq<(Seq<char>, WireValueView)>, key: Seq<char>) -> Result<
    Option<Seq<char>>,
    DecodeErrorView,
> {
    match opt_field(fs, key) {
        Some(WireValueView::Str(s)) => Ok(Some(s)),
        Some(_) => Err(missing(key)),
        None => Ok(None),
    }
}

/// An omit-when-empty string field: absent reads as the empty string.
pub open spec fn emp_str(fs: Seq<(Seq<char>, WireValueView)>, key: Seq<char>) -> Result<
    Seq<char>,
    DecodeErrorView,
> {
    match opt_field(fs, key) {
        Some(WireValueView::Str(s)) => Ok(s),
        Some(_) => Err(missing(key)),
        None => Ok(Seq::empty()),
    }
}

/// An omit-when-empty field holding a list of strings.
pub open spec fn emp_str_list(fs: Seq<(Seq<char>, WireValueView)>, key: Seq<char>) -> Result<
    Seq<Seq<char>>,
    DecodeErrorView,
> {
    match opt_field(fs, key) {
        Some(WireValueView::Arr(elems)) => str_list_of_wire(elems, key),
        Some(_) => Err(missing(key)),
        None => Ok(Seq::empty()),
    }
}

/// A required field passed through untyped; an explicit null is a value here.
pub open spec fn req_raw(fs: Seq<(Seq<char>, WireValueView)>, key: Seq<char>) -> Result<
    WireValueView,
    DecodeErrorView,
> {
    match obj_get(fs, key) {
        Some(v) => Ok(v),
        None => Err(missing(key)),
    }
}

/// An optional field passed through untyped; absent and null are `None`.
pub open spec fn opt_raw(fs: Seq<(Seq<char>, WireValueView)>, key: Seq<char>) -> Result<
    Option<WireValueView>,
    DecodeErrorView,
> {
    match opt_field(fs, key) {
        Some(v) => Ok(Some(v)),
        None => Ok(None),
    }
}

/// An omit-when-empty field holding a list passed through untyped.
pub open spec fn emp_arr(fs: Seq<(Seq<char>, WireValueView)>, key: Seq<char>) -> Result<
    Seq<WireValueView>,
    DecodeErrorView,
> {
    match opt_field(fs, key) {
        Some(WireValueView::Arr(elems)) => Ok(elems),
        Some(_) => Err(missing(key)),
        None => Ok(Seq::empty()),
    }
}


/// A binding under a different key never changes a lookup: decoders read
/// only the keys they know, so an unknown extra field cannot change what
/// they see, let alone fail them.
pub proof fn lemma_obj_get_other_key(
    fields: Seq<(Seq<char>, WireValueView)>,
    extra: (Seq<char>, WireValueView),
    key: Seq<char>,
)
    requires
        extra.0 != key,
    ensures
        obj_get(fields.push(extra), key) == obj_get(fields, key),
    decreases fields.len(),
{
    if fields.len() == 0 {
        assert(fields.push(extra)[0] == extra);
        assert(fields.push(extra).drop_first() =~= Seq::<(Seq<char>, WireValueView)>::empty());
    } else {
        assert(fields.push(extra)[0] == fields[0]);
        assert(fields.push(extra).drop_first() =~= fields.drop_first().push(extra));
        lemma_obj_get_other_key(fields.drop_first(), extra, key);
    }
}

} // verus!
