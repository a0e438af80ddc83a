//! Presentation entities: hover contents, marked strings and signature help.

use vstd::prelude::*;
use vstd::string::StrSliceExecFns;
use crate::error::{missing, DecodeError, DecodeErrorView};
use crate::wire::{
    emit_fields, key_string, obj_get, opt_field, FieldTable, WireValue, WireValueView,
    finish_obj, table_view, wire_obj_get, wire_obj_get_opt, distinct_keys,
    lemma_emit_fields_get, wire_arr_view, wire_view, lemma_wire_arr_view,
    lemma_wire_obj_view, wire_obj_view, duplicate_wire_list, encode_str_list,
    decode_str_list, str_list_to_wire, lemma_str_list_round_trip, req_num, opt_num,
    req_bool, opt_bool, req_str, opt_str, emp_str, emp_str_list, req_raw, opt_raw,
    emp_arr,
};
use crate::primitives::{lemma_range_round_trip, opt_range, range_of_wire, range_to_wire, Range};

verus! {

/// A marked string: plain text, or a code block tagged with the language it
/// is written in. No discriminant field exists on the wire — a bare string
/// is plain text, an object is a language block; the shape is the tag, and
/// any third shape is rejected.
#[derive(Debug)]
pub enum MarkedString {
    /// Plain text.
    PlainString(String),
    /// A code block and the language to render it as.
    LanguageBlock { language: String, value: String },
}

/// The mathematical model of a marked string.
#[verifier::ext_equal]
pub enum MarkedStringView {
    PlainString(Seq<char>),
    LanguageBlock { language: Seq<char>, value: Seq<char> },
}

impl View for MarkedString {
    type V = MarkedStringView;

    open spec fn view(&self) -> MarkedStringView {
        match self {
            MarkedString::PlainString(s) => MarkedStringView::PlainString(s@),
            MarkedString::LanguageBlock { language, value } => MarkedStringView::LanguageBlock {
                language: language@,
                value: value@,
            },
        }
    }
}

impl DeepView for MarkedString {
    type V = MarkedStringView;

    open spec fn deep_view(&self) -> MarkedStringView {
        self.view()
    }
}

/// The field table of a language block: exactly the two keys.
pub open spec fn language_block_fields(language: Seq<char>, value: Seq<char>) -> FieldTable {
    seq![
        ("language"@, Some(WireValueView::Str(language))),
        ("value"@, Some(WireValueView::Str(value))),
    ]
}

/// What encoding a marked string produces: a bare string, or an object with
/// exactly the keys `language` and `value`.
pub open spec fn marked_string_to_wire(v: MarkedStringView) -> WireValueView {
    match v {
        MarkedStringView::PlainString(s) => WireValueView::Str(s),
        MarkedStringView::LanguageBlock { language, value } => WireValueView::Obj(
            emit_fields(language_block_fields(language, value)),
        ),
    }
}

/// What decoding a wire value as a marked string yields: the wire value's
/// shape picks the variant; both keys of a language block are required.
pub open spec fn marked_string_of_wire(w: WireValueView) -> Result<
    MarkedStringView,
    DecodeErrorView,
> {
    match w {
        WireValueView::Str(s) => Ok(MarkedStringView::PlainString(s)),
        WireValueView::Obj(fs) => match req_str(fs, "language"@) {
            Ok(language) => match req_str(fs, "value"@) {
                Ok(value) => Ok(MarkedStringView::LanguageBlock { language, value }),
                Err(e) => Err(e),
            },
            Err(e) => Err(e),
        },
        _ => Err(DecodeErrorView::UnrecognizedShape("MarkedString"@)),
    }
}

impl MarkedString {
    pub fn encode(&self) -> (r: WireValue)
        ensures
            r@ == marked_string_to_wire(self@),
    {
        match self {
            MarkedString::PlainString(s) => WireValue::Str(s.clone()),
            MarkedString::LanguageBlock { language, value } => {
                let mut table: Vec<(String, Option<WireValue>)> = Vec::new();
                table.push((key_string("language"), Some(WireValue::Str(language.clone()))));
                table.push((key_string("value"), Some(WireValue::Str(value.clone()))));
                proof {
                    assert(table_view(table@) =~= language_block_fields(language@, value@));
                }
                finish_obj(table)
            },
        }
    }

    pub fn decode(w: &WireValue) -> (r: Result<MarkedString, DecodeError>)
        ensures
            match r {
                Ok(m) => marked_string_of_wire(w@) == Ok::<MarkedStringView, DecodeErrorView>(m@),
                Err(e) => marked_string_of_wire(w@) == Err::<MarkedStringView, DecodeErrorView>(
                    e@,
                ),
            },
    {
        match w {
            WireValue::Str(s) => Ok(MarkedString::PlainString(s.clone())),
            WireValue::Obj(fields) => {
                let language: String = match wire_obj_get(fields, &key_string("language")) {
                    Some(WireValue::Str(s)) => s.clone(),
                    _ => {
                        return Err(DecodeError::MissingOrInvalidField(key_string("language")));
                    },
                };
                let value: String = match wire_obj_get(fields, &key_string("value")) {
                    Some(WireValue::Str(s)) => s.clone(),
                    _ => {
                        return Err(DecodeError::MissingOrInvalidField(key_string("value")));
                    },
                };
                Ok(MarkedString::LanguageBlock { language, value })
            },
            _ => Err(DecodeError::UnrecognizedShape(key_string("MarkedString"))),
        }
    }
}

/// Decoding an encoded marked string gives the marked string back.
pub proof fn lemma_marked_string_round_trip(v: MarkedStringView)
    ensures
        marked_string_of_wire(marked_string_to_wire(v)) == Ok::<
            MarkedStringView,
            DecodeErrorView,
        >(v),
{
    match v {
        MarkedStringView::PlainString(_) => (),
        MarkedStringView::LanguageBlock { language, value } => {
            let t = language_block_fields(language, value);
            assert(distinct_keys(t)) by {
                reveal_strlit("language");
                reveal_strlit("value");
                assert forall|i: int, j: int| 0 <= i < j < t.len() implies t[i].0 != t[j].0 by {
                    assert(t[0].0 == "language"@);
                    assert(t[1].0 == "value"@);
                }
            }
            lemma_emit_fields_get(t, 0);
            lemma_emit_fields_get(t, 1);
        },
    }
}

/// What encoding a list of these entities produces, element for element.
pub open spec fn marked_string_list_to_wire(s: Seq<MarkedStringView>) -> Seq<WireValueView>
    decreases s.len(),
{
    if s.len() == 0 {
        Seq::empty()
    } else {
        seq![marked_string_to_wire(s[0])] + marked_string_list_to_wire(s.drop_first())
    }
}

/// What decoding a list of these entities yields: the first ill-shaped
/// element fails the whole list.
pub open spec fn marked_string_list_of_wire(elems: Seq<WireValueView>) -> Result<
    Seq<MarkedStringView>,
    DecodeErrorView,
>
    decreases elems.len(),
{
    if elems.len() == 0 {
        Ok(Seq::empty())
    } else {
        match marked_string_of_wire(elems[0]) {
            Ok(x) => match marked_string_list_of_wire(elems.drop_first()) {
                Ok(rest) => Ok(seq![x] + rest),
                Err(e) => Err(e),
            },
            Err(e) => Err(e),
        }
    }
}

/// The elements of an encoded list, pointwise.
pub proof fn lemma_marked_string_list_pointwise(s: Seq<MarkedStringView>)
    ensures
        marked_string_list_to_wire(s).len() == s.len(),
        forall|i: int|
            0 <= i < s.len() ==> #[trigger] marked_string_list_to_wire(s)[i] == marked_string_to_wire(s[i]),
    decreases s.len(),
{
    if s.len() > 0 {
        lemma_marked_string_list_pointwise(s.drop_first());
    }
}

/// Decoding an encoded list gives the list back.
pub proof fn lemma_marked_string_list_round_trip(s: Seq<MarkedStringView>)
    ensures
        marked_string_list_of_wire(marked_string_list_to_wire(s)) == Ok::<Seq<MarkedStringView>, DecodeErrorView>(s),
    decreases s.len(),
{
    if s.len() == 0 {
        assert(s =~= Seq::<MarkedStringView>::empty());
    } else {
        lemma_marked_string_round_trip(s[0]);
        lemma_marked_string_list_round_trip(s.drop_first());
        let m = marked_string_list_to_wire(s);
        assert(m[0] == marked_string_to_wire(s[0]));
        assert(m.drop_first() =~= marked_string_list_to_wire(s.drop_first()));
        assert(seq![s[0]] + s.drop_first() =~= s);
    }
}

/// Encodes a list of these entities, element for element.
pub fn marked_string_list_encode(xs: &Vec<MarkedString>) -> (r: Vec<WireValue>)
    ensures
        wire_arr_view(r@) == marked_string_list_to_wire(xs.deep_view()),
        r@.len() == xs@.len(),
{
    let n: usize = xs.len();
    let mut out: Vec<WireValue> = Vec::new();
    let mut i: usize = 0;
    while i < n
        invariant
            n == xs@.len(),
            0 <= i <= n,
            out@.len() == i,
            forall|j: int| 0 <= j < i ==> wire_view(#[trigger] out@[j]) == marked_string_to_wire(
                xs@[j]@,
            ),
        decreases n - i,
    {
        out.push(xs[i].encode());
        i = i + 1;
    }
    proof {
        lemma_wire_arr_view(out@);
        lemma_marked_string_list_pointwise(xs.deep_view());
        assert(wire_arr_view(out@) =~= marked_string_list_to_wire(xs.deep_view()));
    }
    out
}

/// Decodes a list of these entities, element for element.
pub fn marked_string_list_decode(items: &Vec<WireValue>) -> (r: Result<Vec<MarkedString>, DecodeError>)
    ensures
        match r {
            Ok(v) => marked_string_list_of_wire(wire_arr_view(items@)) == Ok::<
                Seq<MarkedStringView>,
                DecodeErrorView,
            >(v.deep_view()),
            Err(e) => marked_string_list_of_wire(wire_arr_view(items@)) == Err::<
                Seq<MarkedStringView>,
                DecodeErrorView,
            >(e@),
        },
{
    let ghost ev = wire_arr_view(items@);
    proof {
        lemma_wire_arr_view(items@);
        assert(ev.skip(0) =~= ev);
    }
    let n: usize = items.len();
    let mut out: Vec<MarkedString> = Vec::new();
    let mut i: usize = 0;
    while i < n
        invariant
            n == items@.len(),
            ev == wire_arr_view(items@),
            ev.len() == n,
            forall|j: int| 0 <= j < n ==> #[trigger] ev[j] == wire_view(items@[j]),
            0 <= i <= n,
            out.deep_view().len() == i,
            marked_string_list_of_wire(ev) == (match marked_string_list_of_wire(ev.skip(i as int)) {
                Ok(rest) => Ok::<Seq<MarkedStringView>, DecodeErrorView>(out.deep_view() + rest),
                Err(e) => Err::<Seq<MarkedStringView>, DecodeErrorView>(e),
            }),
        decreases n - i,
    {
        proof {
            assert(ev.skip(i as int)[0] == ev[i as int]);
            assert(ev.skip(i as int).drop_first() =~= ev.skip(i + 1));
        }
        let ghost prev = out.deep_view();
        match MarkedString::decode(&items[i]) {
            Ok(x) => {
                out.push(x);
                proof {
                    assert(out.deep_view() =~= prev.push(x@));
                    assert(forall|rest: Seq<MarkedStringView>|
                        prev + (#[trigger] (seq![x@] + rest)) =~= out.deep_view() + rest);
                }
            },
            Err(e) => {
                return Err(e);
            },
        }
        i = i + 1;
    }
    proof {
        assert(ev.skip(n as int) =~= Seq::<WireValueView>::empty());
        assert(out.deep_view() + Seq::<MarkedStringView>::empty() =~= out.deep_view());
    }
    Ok(out)
}

/// A required field holding a list of these entities.
pub open spec fn req_marked_string_list(fs: Seq<(Seq<char>, WireValueView)>, key: Seq<char>) -> Result<
    Seq<MarkedStringView>,
    DecodeErrorView,
> {
    match obj_get(fs, key) {
        Some(WireValueView::Arr(elems)) => marked_string_list_of_wire(elems),
        _ => Err(missing(key)),
    }
}

/// An omit-when-empty field holding a list of these entities.
pub open spec fn emp_marked_string_list(fs: Seq<(Seq<char>, WireValueView)>, key: Seq<char>) -> Result<
    Seq<MarkedStringView>,
    DecodeErrorView,
> {
    match opt_field(fs, key) {
        Some(WireValueView::Arr(elems)) => marked_string_list_of_wire(elems),
        Some(_) => Err(missing(key)),
        None => Ok(Seq::empty()),
    }
}

/// One parameter of a callable signature.
#[derive(Debug)]
pub struct ParameterInformation {
    pub label: String,
    pub documentation: String,
}

/// The mathematical model of this entity.
#[verifier::ext_equal]
pub struct ParameterInformationView {
    pub label: Seq<char>,
    pub documentation: Seq<char>,
}

impl View for ParameterInformation {
    type V = ParameterInformationView;

    open spec fn view(&self) -> ParameterInformationView {
        ParameterInformationView {
            label: self.label@,
            documentation: self.documentation@,
        }
    }
}

impl DeepView for ParameterInformation {
    type V = ParameterInformationView;

    open spec fn deep_view(&self) -> ParameterInformationView {
        self.view()
    }
}

/// The field table: each wire key with its value, or `None` where the
/// field's omission policy drops it.
pub open spec fn parameter_information_fields(v: ParameterInformationView) -> FieldTable {
    seq![
        ("label"@, Some(WireValueView::Str(v.label))),
        ("documentation"@, if v.documentation.len() == 0 {
                None
            } else {
                Some(WireValueView::Str(v.documentation))
            }),
    ]
}

/// What encoding this entity produces.
pub open spec fn parameter_information_to_wire(v: ParameterInformationView) -> WireValueView {
    WireValueView::Obj(emit_fields(parameter_information_fields(v)))
}

/// What decoding a wire value as this entity yields. Unknown extra
/// fields are ignored; a missing or ill-shaped field fails.
pub open spec fn parameter_information_of_wire(w: WireValueView) -> Result<ParameterInformationView, DecodeErrorView> {
    match w {
        WireValueView::Obj(fs) => match req_str(fs, "label"@) {
                Ok(label) => match emp_str(fs, "documentation"@) {
                    Ok(documentation) => Ok(ParameterInformationView { label, documentation }),
                    Err(e) => Err(e),
                },
                Err(e) => Err(e),
            },
        _ => Err(missing("label"@)),
    }
}

impl ParameterInformation {
    pub fn encode(&self) -> (r: WireValue)
        ensures
            r@ == parameter_information_to_wire(self@),
    {
        let mut table: Vec<(String, Option<WireValue>)> = Vec::new();
        table.push((key_string("label"), Some(WireValue::Str(self.label.clone()))));
        table.push((key_string("documentation"), if self.documentation.as_str().unicode_len() == 0 {
            None
        } else {
            Some(WireValue::Str(self.documentation.clone()))
        }));
        proof {
            assert(table_view(table@) =~= parameter_information_fields(self@));
        }
        finish_obj(table)
    }

    pub fn decode(w: &WireValue) -> (r: Result<ParameterInformation, DecodeError>)
        ensures
            match r {
                Ok(x) => parameter_information_of_wire(w@) == Ok::<ParameterInformationView, DecodeErrorView>(x@),
                Err(e) => parameter_information_of_wire(w@) == Err::<ParameterInformationView, DecodeErrorView>(e@),
            },
    {
        let fields = match w {
            WireValue::Obj(fields) => fields,
            _ => {
                return Err(DecodeError::MissingOrInvalidField(key_string("label")));
            },
        };
        let label: String = match wire_obj_get(fields, &key_string("label")) {
            Some(WireValue::Str(s)) => s.clone(),
            _ => {
                return Err(DecodeError::MissingOrInvalidField(key_string("label")));
            },
        };
        let documentation: String = match wire_obj_get_opt(fields, &key_string("documentation")) {
            Some(WireValue::Str(s)) => s.clone(),
            Some(_) => {
                return Err(DecodeError::MissingOrInvalidField(key_string("documentation")));
            },
            None => String::new(),
        };
        Ok(ParameterInformation { label, documentation })
    }
}

/// Decoding an encoded value of this entity gives the value back.
pub proof fn lemma_parameter_information_round_trip(v: ParameterInformationView)
    ensures
        parameter_information_of_wire(parameter_information_to_wire(v)) == Ok::<ParameterInformationView, DecodeErrorView>(v),
{
    let t = parameter_information_fields(v);
    assert(distinct_keys(t)) by {
        reveal_strlit("label");
        reveal_strlit("documentation");
        assert forall|i: int, j: int| 0 <= i < j < t.len() implies t[i].0 != t[j].0 by {
            assert(t[0].0 == "label"@);
            assert(t[1].0 == "documentation"@);
        }
    }
    lemma_emit_fields_get(t, 0);
    lemma_emit_fields_get(t, 1);
    if v.documentation.len() == 0 {
        assert(v.documentation =~= Seq::<char>::empty());
    }
}

/// What encoding a list of these entities produces, element for element.
pub open spec fn parameter_information_list_to_wire(s: Seq<ParameterInformationView>) -> Seq<WireValueView>
    decreases s.len(),
{
    if s.len() == 0 {
        Seq::empty()
    } else {
        seq![parameter_information_to_wire(s[0])] + parameter_information_list_to_wire(s.drop_first())
    }
}

/// What decoding a list of these entities yields: the first ill-shaped
/// element fails the whole list.
pub open spec fn parameter_information_list_of_wire(elems: Seq<WireValueView>) -> Result<
    Seq<ParameterInformationView>,
    DecodeErrorView,
>
    decreases elems.len(),
{
    if elems.len() == 0 {
        Ok(Seq::empty())
    } else {
        match parameter_information_of_wire(elems[0]) {
            Ok(x) => match parameter_information_list_of_wire(elems.drop_first()) {
                Ok(rest) => Ok(seq![x] + rest),
                Err(e) => Err(e),
            },
            Err(e) => Err(e),
        }
    }
}

/// The elements of an encoded list, pointwise.
pub proof fn lemma_parameter_information_list_pointwise(s: Seq<ParameterInformationView>)
    ensures
        parameter_information_list_to_wire(s).len() == s.len(),
        forall|i: int|
            0 <= i < s.len() ==> #[trigger] parameter_information_list_to_wire(s)[i] == parameter_information_to_wire(s[i]),
    decreases s.len(),
{
    if s.len() > 0 {
        lemma_parameter_information_list_pointwise(s.drop_first());
    }
}

/// Decoding an encoded list gives the list back.
pub proof fn lemma_parameter_information_list_round_trip(s: Seq<ParameterInformationView>)
    ensures
        parameter_information_list_of_wire(parameter_information_list_to_wire(s)) == Ok::<Seq<ParameterInformationView>, DecodeErrorView>(s),
    decreases s.len(),
{
    if s.len() == 0 {
        assert(s =~= Seq::<ParameterInformationView>::empty());
    } else {
        lemma_parameter_information_round_trip(s[0]);
        lemma_parameter_information_list_round_trip(s.drop_first());
        let m = parameter_information_list_to_wire(s);
        assert(m[0] == parameter_information_to_wire(s[0]));
        assert(m.drop_first() =~= parameter_information_list_to_wire(s.drop_first()));
        assert(seq![s[0]] + s.drop_first() =~= s);
    }
}

/// Encodes a list of these entities, element for element.
pub fn parameter_information_list_encode(xs: &Vec<ParameterInformation>) -> (r: Vec<WireValue>)
    ensures
        wire_arr_view(r@) == parameter_information_list_to_wire(xs.deep_view()),
        r@.len() == xs@.len(),
{
    let n: usize = xs.len();
    let mut out: Vec<WireValue> = Vec::new();
    let mut i: usize = 0;
    while i < n
        invariant
            n == xs@.len(),
            0 <= i <= n,
            out@.len() == i,
            forall|j: int| 0 <= j < i ==> wire_view(#[trigger] out@[j]) == parameter_information_to_wire(
                xs@[j]@,
            ),
        decreases n - i,
    {
        out.push(xs[i].encode());
        i = i + 1;
    }
    proof {
        lemma_wire_arr_view(out@);
        lemma_parameter_information_list_pointwise(xs.deep_view());
        assert(wire_arr_view(out@) =~= parameter_information_list_to_wire(xs.deep_view()));
    }
    out
}

/// Decodes a list of these entities, element for element.
pub fn parameter_information_list_decode(items: &Vec<WireValue>) -> (r: Result<Vec<ParameterInformation>, DecodeError>)
    ensures
        match r {
            Ok(v) => parameter_information_list_of_wire(wire_arr_view(items@)) == Ok::<
                Seq<ParameterInformationView>,
                DecodeErrorView,
            >(v.deep_view()),
            Err(e) => parameter_information_list_of_wire(wire_arr_view(items@)) == Err::<
                Seq<ParameterInformationView>,
                DecodeErrorView,
            >(e@),
        },
{
    let ghost ev = wire_arr_view(items@);
    proof {
        lemma_wire_arr_view(items@);
        assert(ev.skip(0) =~= ev);
    }
    let n: usize = items.len();
    let mut out: Vec<ParameterInformation> = Vec::new();
    let mut i: usize = 0;
    while i < n
        invariant
            n == items@.len(),
            ev == wire_arr_view(items@),
            ev.len() == n,
            forall|j: int| 0 <= j < n ==> #[trigger] ev[j] == wire_view(items@[j]),
            0 <= i <= n,
            out.deep_view().len() == i,
            parameter_information_list_of_wire(ev) == (match parameter_information_list_of_wire(ev.skip(i as int)) {
                Ok(rest) => Ok::<Seq<ParameterInformationView>, DecodeErrorView>(out.deep_view() + rest),
                Err(e) => Err::<Seq<ParameterInformationView>, DecodeErrorView>(e),
            }),
        decreases n - i,
    {
        proof {
            assert(ev.skip(i as int)[0] == ev[i as int]);
            assert(ev.skip(i as int).drop_first() =~= ev.skip(i + 1));
        }
        let ghost prev = out.deep_view();
        match ParameterInformation::decode(&items[i]) {
            Ok(x) => {
                out.push(x);
                proof {
                    assert(out.deep_view() =~= prev.push(x@));
                    assert(forall|rest: Seq<ParameterInformationView>|
                        prev + (#[trigger] (seq![x@] + rest)) =~= out.deep_view() + rest);
                }
            },
            Err(e) => {
                return Err(e);
            },
        }
        i = i + 1;
    }
    proof {
        assert(ev.skip(n as int) =~= Seq::<WireValueView>::empty());
        assert(out.deep_view() + Seq::<ParameterInformationView>::empty() =~= out.deep_view());
    }
    Ok(out)
}

/// A required field holding a list of these entities.
pub open spec fn req_parameter_information_list(fs: Seq<(Seq<char>, WireValueView)>, key: Seq<char>) -> Result<
    Seq<ParameterInformationView>,
    DecodeErrorView,
> {
    match obj_get(fs, key) {
        Some(WireValueView::Arr(elems)) => parameter_information_list_of_wire(elems),
        _ => Err(missing(key)),
    }
}

/// An omit-when-empty field holding a list of these entities.
pub open spec fn emp_parameter_information_list(fs: Seq<(Seq<char>, WireValueView)>, key: Seq<char>) -> Result<
    Seq<ParameterInformationView>,
    DecodeErrorView,
> {
    match opt_field(fs, key) {
        Some(WireValueView::Arr(elems)) => parameter_information_list_of_wire(elems),
        Some(_) => Err(missing(key)),
        None => Ok(Seq::empty()),
    }
}

/// One callable signature: label, doc comment and parameters.
#[derive(Debug)]
pub struct SignatureInformation {
    pub label: String,
    pub documentation: String,
    pub parameters: Vec<ParameterInformation>,
}

/// The mathematical model of this entity.
#[verifier::ext_equal]
pub struct SignatureInformationView {
    pub label: Seq<char>,
    pub documentation: Seq<char>,
    pub parameters: Seq<ParameterInformationView>,
}

impl View for SignatureInformation {
    type V = SignatureInformationView;

    open spec fn view(&self) -> SignatureInformationView {
        SignatureInformationView {
            label: self.label@,
            documentation: self.documentation@,
            parameters: self.parameters.deep_view(),
        }
    }
}

impl DeepView for SignatureInformation {
    type V = SignatureInformationView;

    open spec fn deep_view(&self) -> SignatureInformationView {
        self.view()
    }
}

/// The field table: each wire key with its value, or `None` where the
/// field's omission policy drops it.
pub open spec fn signature_information_fields(v: SignatureInformationView) -> FieldTable {
    seq![
        ("label"@, Some(WireValueView::Str(v.label))),
        ("documentation"@, Some(WireValueView::Str(v.documentation))),
        ("parameters"@, if v.parameters.len() == 0 {
                None
            } else {
                Some(WireValueView::Arr(parameter_information_list_to_wire(v.parameters)))
            }),
    ]
}

/// What encoding this entity produces.
pub open spec fn signature_information_to_wire(v: SignatureInformationView) -> WireValueView {
    WireValueView::Obj(emit_fields(signature_information_fields(v)))
}

/// What decoding a wire value as this entity yields. Unknown extra
/// fields are ignored; a missing or ill-shaped field fails.
pub open spec fn signature_information_of_wire(w: WireValueView) -> Result<SignatureInformationView, DecodeErrorView> {
    match w {
        WireValueView::Obj(fs) => match req_str(fs, "label"@) {
                Ok(label) => match req_str(fs, "documentation"@) {
                    Ok(documentation) => match emp_parameter_information_list(fs, "parameters"@) {
                        Ok(parameters) => Ok(SignatureInformationView { label, documentation, parameters }),
                        Err(e) => Err(e),
                    },
                    Err(e) => Err(e),
                },
                Err(e) => Err(e),
            },
        _ => Err(missing("label"@)),
    }
}

impl SignatureInformation {
    pub fn encode(&self) -> (r: WireValue)
        ensures
            r@ == signature_information_to_wire(self@),
    {
        let mut table: Vec<(String, Option<WireValue>)> = Vec::new();
        table.push((key_string("label"), Some(WireValue::Str(self.label.clone()))));
        table.push((key_string("documentation"), Some(WireValue::Str(self.documentation.clone()))));
        table.push((key_string("parameters"), if self.parameters.len() == 0 {
            None
        } else {
            Some(WireValue::Arr(parameter_information_list_encode(&self.parameters)))
        }));
        proof {
            assert(table_view(table@) =~= signature_information_fields(self@));
        }
        finish_obj(table)
    }

    pub fn decode(w: &WireValue) -> (r: Result<SignatureInformation, DecodeError>)
        ensures
            match r {
                Ok(x) => signature_information_of_wire(w@) == Ok::<SignatureInformationView, DecodeErrorView>(x@),
                Err(e) => signature_information_of_wire(w@) == Err::<SignatureInformationView, DecodeErrorView>(e@),
            },
    {
        let fields = match w {
            WireValue::Obj(fields) => fields,
            _ => {
                return Err(DecodeError::MissingOrInvalidField(key_string("label")));
            },
        };
        let label: String = match wire_obj_get(fields, &key_string("label")) {
            Some(WireValue::Str(s)) => s.clone(),
            _ => {
                return Err(DecodeError::MissingOrInvalidField(key_string("label")));
            },
        };
        let documentation: String = match wire_obj_get(fields, &key_string("documentation")) {
            Some(WireValue::Str(s)) => s.clone(),
            _ => {
                return Err(DecodeError::MissingOrInvalidField(key_string("documentation")));
            },
        };
        let parameters: Vec<ParameterInformation> = match wire_obj_get_opt(fields, &key_string("parameters")) {
            Some(WireValue::Arr(items)) => match parameter_information_list_decode(items) {
                Ok(v) => v,
                Err(e) => {
                    return Err(e);
                },
            },
            Some(_) => {
                return Err(DecodeError::MissingOrInvalidField(key_string("parameters")));
            },
            None => {
                let fresh: Vec<ParameterInformation> = Vec::new();
                proof {
                    assert(fresh.deep_view() =~= Seq::<ParameterInformationView>::empty());
                }
                fresh
            },
        };
        Ok(SignatureInformation { label, documentation, parameters })
    }
}

/// Decoding an encoded value of this entity gives the value back.
pub proof fn lemma_signature_information_round_trip(v: SignatureInformationView)
    ensures
        signature_information_of_wire(signature_information_to_wire(v)) == Ok::<SignatureInformationView, DecodeErrorView>(v),
{
    let t = signature_information_fields(v);
    assert(distinct_keys(t)) by {
        reveal_strlit("label");
        reveal_strlit("documentation");
        reveal_strlit("parameters");
        assert forall|i: int, j: int| 0 <= i < j < t.len() implies t[i].0 != t[j].0 by {
            assert(t[0].0 == "label"@);
            assert(t[1].0 == "documentation"@);
            assert(t[2].0 == "parameters"@);
        }
    }
    lemma_emit_fields_get(t, 0);
    lemma_emit_fields_get(t, 1);
    lemma_emit_fields_get(t, 2);
    lemma_parameter_information_list_round_trip(v.parameters);
    if v.parameters.len() == 0 {
        assert(v.parameters =~= Seq::<ParameterInformationView>::empty());
    }
}

/// What encoding a list of these entities produces, element for element.
pub open spec fn signature_information_list_to_wire(s: Seq<SignatureInformationView>) -> Seq<WireValueView>
    decreases s.len(),
{
    if s.len() == 0 {
        Seq::empty()
    } else {
        seq![signature_information_to_wire(s[0])] + signature_information_list_to_wire(s.drop_first())
    }
}

/// What decoding a list of these entities yields: the first ill-shaped
/// element fails the whole list.
pub open spec fn signature_information_list_of_wire(elems: Seq<WireValueView>) -> Result<
    Seq<SignatureInformationView>,
    DecodeErrorView,
>
    decreases elems.len(),
{
    if elems.len() == 0 {
        Ok(Seq::empty())
    } else {
        match signature_information_of_wire(elems[0]) {
            Ok(x) => match signature_information_list_of_wire(elems.drop_first()) {
                Ok(rest) => Ok(seq![x] + rest),
                Err(e) => Err(e),
            },
            Err(e) => Err(e),
        }
    }
}

/// The elements of an encoded list, pointwise.
pub proof fn lemma_signature_information_list_pointwise(s: Seq<SignatureInformationView>)
    ensures
        signature_information_list_to_wire(s).len() == s.len(),
        forall|i: int|
            0 <= i < s.len() ==> #[trigger] signature_information_list_to_wire(s)[i] == signature_information_to_wire(s[i]),
    decreases s.len(),
{
    if s.len() > 0 {
        lemma_signature_information_list_pointwise(s.drop_first());
    }
}

/// Decoding an encoded list gives the list back.
pub proof fn lemma_signature_information_list_round_trip(s: Seq<SignatureInformationView>)
    ensures
        signature_information_list_of_wire(signature_information_list_to_wire(s)) == Ok::<Seq<SignatureInformationView>, DecodeErrorView>(s),
    decreases s.len(),
{
    if s.len() == 0 {
        assert(s =~= Seq::<SignatureInformationView>::empty());
    } else {
        lemma_signature_information_round_trip(s[0]);
        lemma_signature_information_list_round_trip(s.drop_first());
        let m = signature_information_list_to_wire(s);
        assert(m[0] == signature_information_to_wire(s[0]));
        assert(m.drop_first() =~= signature_information_list_to_wire(s.drop_first()));
        assert(seq![s[0]] + s.drop_first() =~= s);
    }
}

/// Encodes a list of these entities, element for element.
pub fn signature_information_list_encode(xs: &Vec<SignatureInformation>) -> (r: Vec<WireValue>)
    ensures
        wire_arr_view(r@) == signature_information_list_to_wire(xs.deep_view()),
        r@.len() == xs@.len(),
{
    let n: usize = xs.len();
    let mut out: Vec<WireValue> = Vec::new();
    let mut i: usize = 0;
    while i < n
        invariant
            n == xs@.len(),
            0 <= i <= n,
            out@.len() == i,
            forall|j: int| 0 <= j < i ==> wire_view(#[trigger] out@[j]) == signature_information_to_wire(
                xs@[j]@,
            ),
        decreases n - i,
    {
        out.push(xs[i].encode());
        i = i + 1;
    }
    proof {
        lemma_wire_arr_view(out@);
        lemma_signature_information_list_pointwise(xs.deep_view());
        assert(wire_arr_view(out@) =~= signature_information_list_to_wire(xs.deep_view()));
    }
    out
}

/// Decodes a list of these entities, element for element.
pub fn signature_information_list_decode(items: &Vec<WireValue>) -> (r: Result<Vec<SignatureInformation>, DecodeError>)
    ensures
        match r {
            Ok(v) => signature_information_list_of_wire(wire_arr_view(items@)) == Ok::<
                Seq<SignatureInformationView>,
                DecodeErrorView,
            >(v.deep_view()),
            Err(e) => signature_information_list_of_wire(wire_arr_view(items@)) == Err::<
                Seq<SignatureInformationView>,
                DecodeErrorView,
            >(e@),
        },
{
    let ghost ev = wire_arr_view(items@);
    proof {
        lemma_wire_arr_view(items@);
        assert(ev.skip(0) =~= ev);
    }
    let n: usize = items.len();
    let mut out: Vec<SignatureInformation> = Vec::new();
    let mut i: usize = 0;
    while i < n
        invariant
            n == items@.len(),
            ev == wire_arr_view(items@),
            ev.len() == n,
            forall|j: int| 0 <= j < n ==> #[trigger] ev[j] == wire_view(items@[j]),
            0 <= i <= n,
            out.deep_view().len() == i,
            signature_information_list_of_wire(ev) == (match signature_information_list_of_wire(ev.skip(i as int)) {
                Ok(rest) => Ok::<Seq<SignatureInformationView>, DecodeErrorView>(out.deep_view() + rest),
                Err(e) => Err::<Seq<SignatureInformationView>, DecodeErrorView>(e),
            }),
        decreases n - i,
    {
        proof {
            assert(ev.skip(i as int)[0] == ev[i as int]);
            assert(ev.skip(i as int).drop_first() =~= ev.skip(i + 1));
        }
        let ghost prev = out.deep_view();
        match SignatureInformation::decode(&items[i]) {
            Ok(x) => {
                out.push(x);
                proof {
                    assert(out.deep_view() =~= prev.push(x@));
                    assert(forall|rest: Seq<SignatureInformationView>|
                        prev + (#[trigger] (seq![x@] + rest)) =~= out.deep_view() + rest);
                }
            },
            Err(e) => {
                return Err(e);
            },
        }
        i = i + 1;
    }
    proof {
        assert(ev.skip(n as int) =~= Seq::<WireValueView>::empty());
        assert(out.deep_view() + Seq::<SignatureInformationView>::empty() =~= out.deep_view());
    }
    Ok(out)
}

/// A required field holding a list of these entities.
pub open spec fn req_signature_information_list(fs: Seq<(Seq<char>, WireValueView)>, key: Seq<char>) -> Result<
    Seq<SignatureInformationView>,
    DecodeErrorView,
> {
    match obj_get(fs, key) {
        Some(WireValueView::Arr(elems)) => signature_information_list_of_wire(elems),
        _ => Err(missing(key)),
    }
}

/// An omit-when-empty field holding a list of these entities.
pub open spec fn emp_signature_information_list(fs: Seq<(Seq<char>, WireValueView)>, key: Seq<char>) -> Result<
    Seq<SignatureInformationView>,
    DecodeErrorView,
> {
    match opt_field(fs, key) {
        Some(WireValueView::Arr(elems)) => signature_information_list_of_wire(elems),
        Some(_) => Err(missing(key)),
        None => Ok(Seq::empty()),
    }
}

/// The signatures of something callable, with the active one marked.
#[derive(Debug)]
pub struct SignatureHelp {
    pub signatures: Vec<SignatureInformation>,
    pub active_signature: Option<u64>,
    pub active_parameter: Option<u64>,
}

/// The mathematical model of this entity.
#[verifier::ext_equal]
pub struct SignatureHelpView {
    pub signatures: Seq<SignatureInformationView>,
    pub active_signature: Option<u64>,
    pub active_parameter: Option<u64>,
}

impl View for SignatureHelp {
    type V = SignatureHelpView;

    open spec fn view(&self) -> SignatureHelpView {
        SignatureHelpView {
            signatures: self.signatures.deep_view(),
            active_signature: self.active_signature,
            active_parameter: self.active_parameter,
        }
    }
}

impl DeepView for SignatureHelp {
    type V = SignatureHelpView;

    open spec fn deep_view(&self) -> SignatureHelpView {
        self.view()
    }
}

/// The field table: each wire key with its value, or `None` where the
/// field's omission policy drops it.
pub open spec fn signature_help_fields(v: SignatureHelpView) -> FieldTable {
    seq![
        ("signatures"@, Some(WireValueView::Arr(signature_information_list_to_wire(v.signatures)))),
        ("activeSignature"@, match v.active_signature {
                Some(n) => Some(WireValueView::Num(n)),
                None => None,
            }),
        ("activeParameter"@, match v.active_parameter {
                Some(n) => Some(WireValueView::Num(n)),
                None => None,
            }),
    ]
}

/// What encoding this entity produces.
pub open spec fn signature_help_to_wire(v: SignatureHelpView) -> WireValueView {
    WireValueView::Obj(emit_fields(signature_help_fields(v)))
}

/// What decoding a wire value as this entity yields. Unknown extra
/// fields are ignored; a missing or ill-shaped field fails.
pub open spec fn signature_help_of_wire(w: WireValueView) -> Result<SignatureHelpView, DecodeErrorView> {
    match w {
        WireValueView::Obj(fs) => match req_signature_information_list(fs, "signatures"@) {
                Ok(signatures) => match opt_num(fs, "activeSignature"@) {
                    Ok(active_signature) => match opt_num(fs, "activeParameter"@) {
                        Ok(active_parameter) => Ok(SignatureHelpView { signatures, active_signature, active_parameter }),
                        Err(e) => Err(e),
                    },
                    Err(e) => Err(e),
                },
                Err(e) => Err(e),
            },
        _ => Err(missing("signatures"@)),
    }
}

impl SignatureHelp {
    pub fn encode(&self) -> (r: WireValue)
        ensures
            r@ == signature_help_to_wire(self@),
    {
        let mut table: Vec<(String, Option<WireValue>)> = Vec::new();
        table.push((key_string("signatures"), Some(WireValue::Arr(signature_information_list_encode(&self.signatures)))));
        table.push((key_string("activeSignature"), match self.active_signature {
            Some(n) => Some(WireValue::Num(n)),
            None => None,
        }));
        table.push((key_string("activeParameter"), match self.active_parameter {
            Some(n) => Some(WireValue::Num(n)),
            None => None,
        }));
        proof {
            assert(table_view(table@) =~= signature_help_fields(self@));
        }
        finish_obj(table)
    }

    pub fn decode(w: &WireValue) -> (r: Result<SignatureHelp, DecodeError>)
        ensures
            match r {
                Ok(x) => signature_help_of_wire(w@) == Ok::<SignatureHelpView, DecodeErrorView>(x@),
                Err(e) => signature_help_of_wire(w@) == Err::<SignatureHelpView, DecodeErrorView>(e@),
            },
    {
        let fields = match w {
            WireValue::Obj(fields) => fields,
            _ => {
                return Err(DecodeError::MissingOrInvalidField(key_string("signatures")));
            },
        };
        let signatures: Vec<SignatureInformation> = match wire_obj_get(fields, &key_string("signatures")) {
            Some(WireValue::Arr(items)) => match signature_information_list_decode(items) {
                Ok(v) => v,
                Err(e) => {
                    return Err(e);
                },
            },
            _ => {
                return Err(DecodeError::MissingOrInvalidField(key_string("signatures")));
            },
        };
        let active_signature: Option<u64> = match wire_obj_get_opt(fields, &key_string("activeSignature")) {
            Some(WireValue::Num(n)) => Some(*n),
            Some(_) => {
                return Err(DecodeError::MissingOrInvalidField(key_string("activeSignature")));
            },
            None => None,
        };
        let active_parameter: Option<u64> = match wire_obj_get_opt(fields, &key_string("activeParameter")) {
            Some(WireValue::Num(n)) => Some(*n),
            Some(_) => {
                return Err(DecodeError::MissingOrInvalidField(key_string("activeParameter")));
            },
            None => None,
        };
        Ok(SignatureHelp { signatures, active_signature, active_parameter })
    }
}

/// Decoding an encoded value of this entity gives the value back.
pub proof fn lemma_signature_help_round_trip(v: SignatureHelpView)
    ensures
        signature_help_of_wire(signature_help_to_wire(v)) == Ok::<SignatureHelpView, DecodeErrorView>(v),
{
    let t = signature_help_fields(v);
    assert(distinct_keys(t)) by {
        reveal_strlit("signatures");
        reveal_strlit("activeSignature");
        reveal_strlit("activeParameter");
        assert forall|i: int, j: int| 0 <= i < j < t.len() implies t[i].0 != t[j].0 by {
            assert(t[0].0 == "signatures"@);
            assert(t[1].0 == "activeSignature"@);
            assert(t[2].0 == "activeParameter"@);
            assert("activeSignature"@[6] != "activeParameter"@[6]);
        }
    }
    lemma_emit_fields_get(t, 0);
    lemma_emit_fields_get(t, 1);
    lemma_emit_fields_get(t, 2);
    lemma_signature_information_list_round_trip(v.signatures);
}

/// What to show when hovering: marked strings and an optional range.
#[derive(Debug)]
pub struct Hover {
    pub contents: Vec<MarkedString>,
    pub range: Option<Range>,
}

/// The mathematical model of this entity.
#[verifier::ext_equal]
pub struct HoverView {
    pub contents: Seq<MarkedStringView>,
    pub range: Option<Range>,
}

impl View for Hover {
    type V = HoverView;

    open spec fn view(&self) -> HoverView {
        HoverView {
            contents: self.contents.deep_view(),
            range: match self.range {
                Some(x) => Some(x@),
                None => None,
            },
        }
    }
}

impl DeepView for Hover {
    type V = HoverView;

    open spec fn deep_view(&self) -> HoverView {
        self.view()
    }
}

/// The field table: each wire key with its value, or `None` where the
/// field's omission policy drops it.
pub open spec fn hover_fields(v: HoverView) -> FieldTable {
    seq![
        ("contents"@, Some(WireValueView::Arr(marked_string_list_to_wire(v.contents)))),
        ("range"@, match v.range {
                Some(x) => Some(range_to_wire(x)),
                None => None,
            }),
    ]
}

/// What encoding this entity produces.
pub open spec fn hover_to_wire(v: HoverView) -> WireValueView {
    WireValueView::Obj(emit_fields(hover_fields(v)))
}

/// What decoding a wire value as this entity yields. Unknown extra
/// fields are ignored; a missing or ill-shaped field fails.
pub open spec fn hover_of_wire(w: WireValueView) -> Result<HoverView, DecodeErrorView> {
    match w {
        WireValueView::Obj(fs) => match req_marked_string_list(fs, "contents"@) {
                Ok(contents) => match opt_range(fs, "range"@) {
                    Ok(range) => Ok(HoverView { contents, range }),
                    Err(e) => Err(e),
                },
                Err(e) => Err(e),
            },
        _ => Err(missing("contents"@)),
    }
}

impl Hover {
    pub fn encode(&self) -> (r: WireValue)
        ensures
            r@ == hover_to_wire(self@),
    {
        let mut table: Vec<(String, Option<WireValue>)> = Vec::new();
        table.push((key_string("contents"), Some(WireValue::Arr(marked_string_list_encode(&self.contents)))));
        table.push((key_string("range"), match &self.range {
            Some(x) => Some(x.encode()),
            None => None,
        }));
        proof {
            assert(table_view(table@) =~= hover_fields(self@));
        }
        finish_obj(table)
    }

    pub fn decode(w: &WireValue) -> (r: Result<Hover, DecodeError>)
        ensures
            match r {
                Ok(x) => hover_of_wire(w@) == Ok::<HoverView, DecodeErrorView>(x@),
                Err(e) => hover_of_wire(w@) == Err::<HoverView, DecodeErrorView>(e@),
            },
    {
        let fields = match w {
            WireValue::Obj(fields) => fields,
            _ => {
                return Err(DecodeError::MissingOrInvalidField(key_string("contents")));
            },
        };
        let contents: Vec<MarkedString> = match wire_obj_get(fields, &key_string("contents")) {
            Some(WireValue::Arr(items)) => match marked_string_list_decode(items) {
                Ok(v) => v,
                Err(e) => {
                    return Err(e);
                },
            },
            _ => {
                return Err(DecodeError::MissingOrInvalidField(key_string("contents")));
            },
        };
        let range: Option<Range> = match wire_obj_get_opt(fields, &key_string("range")) {
            Some(v) => match Range::decode(v) {
                Ok(x) => Some(x),
                Err(e) => {
                    return Err(e);
                },
            },
            None => None,
        };
        Ok(Hover { contents, range })
    }
}

/// Decoding an encoded value of this entity gives the value back.
pub proof fn lemma_hover_round_trip(v: HoverView)
    ensures
        hover_of_wire(hover_to_wire(v)) == Ok::<HoverView, DecodeErrorView>(v),
{
    let t = hover_fields(v);
    assert(distinct_keys(t)) by {
        reveal_strlit("contents");
        reveal_strlit("range");
        assert forall|i: int, j: int| 0 <= i < j < t.len() implies t[i].0 != t[j].0 by {
            assert(t[0].0 == "contents"@);
            assert(t[1].0 == "range"@);
        }
    }
    lemma_emit_fields_get(t, 0);
    lemma_emit_fields_get(t, 1);
    lemma_marked_string_list_round_trip(v.contents);
    match v.range {
        Some(x) => lemma_range_round_trip(x),
        None => (),
    }
}

} // verus!
