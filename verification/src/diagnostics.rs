//! Diagnostics: reported problems and their publication per resource.

use vstd::prelude::*;
use vstd::string::StrSliceExecFns;
use crate::error::{missing, DecodeError, DecodeErrorView};
use crate::wire::{
    emit_fields, key_string, obj_get, opt_field, FieldTable, WireValue, WireValueView,
    finish_obj, table_view, wire_obj_get, wire_obj_get_opt, distinct_keys,
    lemma_emit_fields_get, wire_arr_view, wire_view, lemma_wire_arr_view,
    lemma_wire_obj_view, wire_obj_view, duplicate_wire_list, encode_str_list,
    decode_str_list, str_list_to_wire, lemma_str_list_round_trip, req_num, opt_num,
    req_bool, opt_bool, req_str, opt_str, emp_str, emp_str_list, req_raw, opt_raw,
    emp_arr,
};
use crate::enums::{opt_diagnostic_severity, DiagnosticSeverity};
use crate::primitives::{lemma_range_round_trip, range_of_wire, range_to_wire, req_range, Range};

verus! {

/// One reported problem: where it is, how severe, and what to say.
#[derive(Debug)]
pub struct Diagnostic {
    pub range: Range,
    pub severity: Option<DiagnosticSeverity>,
    pub code: String,
    pub source: Option<String>,
    pub message: String,
}

/// The mathematical model of this entity.
#[verifier::ext_equal]
pub struct DiagnosticView {
    pub range: Range,
    pub severity: Option<DiagnosticSeverity>,
    pub code: Seq<char>,
    pub source: Option<Seq<char>>,
    pub message: Seq<char>,
}

impl View for Diagnostic {
    type V = DiagnosticView;

    open spec fn view(&self) -> DiagnosticView {
        DiagnosticView {
            range: self.range@,
            severity: self.severity,
            code: self.code@,
            source: match self.source {
                Some(s) => Some(s@),
                None => None,
            },
            message: self.message@,
        }
    }
}

impl DeepView for Diagnostic {
    type V = DiagnosticView;

    open spec fn deep_view(&self) -> DiagnosticView {
        self.view()
    }
}

/// The field table: each wire key with its value, or `None` where the
/// field's omission policy drops it.
pub open spec fn diagnostic_fields(v: DiagnosticView) -> FieldTable {
    seq![
        ("range"@, Some(range_to_wire(v.range))),
        ("severity"@, match v.severity {
                Some(k) => Some(WireValueView::Num(k.code_spec())),
                None => None,
            }),
        ("code"@, Some(WireValueView::Str(v.code))),
        ("source"@, match v.source {
                Some(s) => Some(WireValueView::Str(s)),
                None => None,
            }),
        ("message"@, Some(WireValueView::Str(v.message))),
    ]
}

/// What encoding this entity produces.
pub open spec fn diagnostic_to_wire(v: DiagnosticView) -> WireValueView {
    WireValueView::Obj(emit_fields(diagnostic_fields(v)))
}

/// What decoding a wire value as this entity yields. Unknown extra
/// fields are ignored; a missing or ill-shaped field fails.
pub open spec fn diagnostic_of_wire(w: WireValueView) -> Result<DiagnosticView, DecodeErrorView> {
    match w {
        WireValueView::Obj(fs) => match req_range(fs, "range"@) {
                Ok(range) => match opt_diagnostic_severity(fs, "severity"@) {
                    Ok(severity) => match req_str(fs, "code"@) {
                        Ok(code) => match opt_str(fs, "source"@) {
                            Ok(source) => match req_str(fs, "message"@) {
                                Ok(message) => Ok(DiagnosticView { range, severity, code, source, message }),
                                Err(e) => Err(e),
                            },
                            Err(e) => Err(e),
                        },
                        Err(e) => Err(e),
                    },
                    Err(e) => Err(e),
                },
                Err(e) => Err(e),
            },
        _ => Err(missing("range"@)),
    }
}

impl Diagnostic {
    pub fn encode(&self) -> (r: WireValue)
        ensures
            r@ == diagnostic_to_wire(self@),
    {
        let mut table: Vec<(String, Option<WireValue>)> = Vec::new();
        table.push((key_string("range"), Some(self.range.encode())));
        table.push((key_string("severity"), match self.severity {
            Some(k) => Some(WireValue::Num(k.code())),
            None => None,
        }));
        table.push((key_string("code"), Some(WireValue::Str(self.code.clone()))));
        table.push((key_string("source"), match &self.source {
            Some(s) => Some(WireValue::Str(s.clone())),
            None => None,
        }));
        table.push((key_string("message"), Some(WireValue::Str(self.message.clone()))));
        proof {
            assert(table_view(table@) =~= diagnostic_fields(self@));
        }
        finish_obj(table)
    }

    pub fn decode(w: &WireValue) -> (r: Result<Diagnostic, DecodeError>)
        ensures
            match r {
                Ok(x) => diagnostic_of_wire(w@) == Ok::<DiagnosticView, DecodeErrorView>(x@),
                Err(e) => diagnostic_of_wire(w@) == Err::<DiagnosticView, DecodeErrorView>(e@),
            },
    {
        let fields = match w {
            WireValue::Obj(fields) => fields,
            _ => {
                return Err(DecodeError::MissingOrInvalidField(key_string("range")));
            },
        };
        let range: Range = match wire_obj_get(fields, &key_string("range")) {
            Some(v) => match Range::decode(v) {
                Ok(x) => x,
                Err(e) => {
                    return Err(e);
                },
            },
            None => {
                return Err(DecodeError::MissingOrInvalidField(key_string("range")));
            },
        };
        let severity: Option<DiagnosticSeverity> = match wire_obj_get_opt(fields, &key_string("severity")) {
            Some(WireValue::Num(n)) => match DiagnosticSeverity::from_code(*n) {
                Ok(k) => Some(k),
                Err(e) => {
                    return Err(e);
                },
            },
            Some(_) => {
                return Err(DecodeError::MissingOrInvalidField(key_string("severity")));
            },
            None => None,
        };
        let code: String = match wire_obj_get(fields, &key_string("code")) {
            Some(WireValue::Str(s)) => s.clone(),
            _ => {
                return Err(DecodeError::MissingOrInvalidField(key_string("code")));
            },
        };
        let source: Option<String> = match wire_obj_get_opt(fields, &key_string("source")) {
            Some(WireValue::Str(s)) => Some(s.clone()),
            Some(_) => {
                return Err(DecodeError::MissingOrInvalidField(key_string("source")));
            },
            None => None,
        };
        let message: String = match wire_obj_get(fields, &key_string("message")) {
            Some(WireValue::Str(s)) => s.clone(),
            _ => {
                return Err(DecodeError::MissingOrInvalidField(key_string("message")));
            },
        };
        Ok(Diagnostic { range, severity, code, source, message })
    }
}

/// Decoding an encoded value of this entity gives the value back.
pub proof fn lemma_diagnostic_round_trip(v: DiagnosticView)
    ensures
        diagnostic_of_wire(diagnostic_to_wire(v)) == Ok::<DiagnosticView, DecodeErrorView>(v),
{
    let t = diagnostic_fields(v);
    assert(distinct_keys(t)) by {
        reveal_strlit("range");
        reveal_strlit("severity");
        reveal_strlit("code");
        reveal_strlit("source");
        reveal_strlit("message");
        assert forall|i: int, j: int| 0 <= i < j < t.len() implies t[i].0 != t[j].0 by {
            assert(t[0].0 == "range"@);
            assert(t[1].0 == "severity"@);
            assert(t[2].0 == "code"@);
            assert(t[3].0 == "source"@);
            assert(t[4].0 == "message"@);
        }
    }
    lemma_emit_fields_get(t, 0);
    lemma_emit_fields_get(t, 1);
    lemma_emit_fields_get(t, 2);
    lemma_emit_fields_get(t, 3);
    lemma_emit_fields_get(t, 4);
    lemma_range_round_trip(v.range);
}

/// What encoding a list of these entities produces, element for element.
pub open spec fn diagnostic_list_to_wire(s: Seq<DiagnosticView>) -> Seq<WireValueView>
    decreases s.len(),
{
    if s.len() == 0 {
        Seq::empty()
    } else {
        seq![diagnostic_to_wire(s[0])] + diagnostic_list_to_wire(s.drop_first())
    }
}

/// What decoding a list of these entities yields: the first ill-shaped
/// element fails the whole list.
pub open spec fn diagnostic_list_of_wire(elems: Seq<WireValueView>) -> Result<
    Seq<DiagnosticView>,
    DecodeErrorView,
>
    decreases elems.len(),
{
    if elems.len() == 0 {
        Ok(Seq::empty())
    } else {
        match diagnostic_of_wire(elems[0]) {
            Ok(x) => match diagnostic_list_of_wire(elems.drop_first()) {
                Ok(rest) => Ok(seq![x] + rest),
                Err(e) => Err(e),
            },
            Err(e) => Err(e),
        }
    }
}

/// The elements of an encoded list, pointwise.
pub proof fn lemma_diagnostic_list_pointwise(s: Seq<DiagnosticView>)
    ensures
        diagnostic_list_to_wire(s).len() == s.len(),
        forall|i: int|
            0 <= i < s.len() ==> #[trigger] diagnostic_list_to_wire(s)[i] == diagnostic_to_wire(s[i]),
    decreases s.len(),
{
    if s.len() > 0 {
        lemma_diagnostic_list_pointwise(s.drop_first());
    }
}

/// Decoding an encoded list gives the list back.
pub proof fn lemma_diagnostic_list_round_trip(s: Seq<DiagnosticView>)
    ensures
        diagnostic_list_of_wire(diagnostic_list_to_wire(s)) == Ok::<Seq<DiagnosticView>, DecodeErrorView>(s),
    decreases s.len(),
{
    if s.len() == 0 {
        assert(s =~= Seq::<DiagnosticView>::empty());
    } else {
        lemma_diagnostic_round_trip(s[0]);
        lemma_diagnostic_list_round_trip(s.drop_first());
        let m = diagnostic_list_to_wire(s);
        assert(m[0] == diagnostic_to_wire(s[0]));
        assert(m.drop_first() =~= diagnostic_list_to_wire(s.drop_first()));
        assert(seq![s[0]] + s.drop_first() =~= s);
    }
}

/// Encodes a list of these entities, element for element.
pub fn diagnostic_list_encode(xs: &Vec<Diagnostic>) -> (r: Vec<WireValue>)
    ensures
        wire_arr_view(r@) == diagnostic_list_to_wire(xs.deep_view()),
        r@.len() == xs@.len(),
{
    let n: usize = xs.len();
    let mut out: Vec<WireValue> = Vec::new();
    let mut i: usize = 0;
    while i < n
        invariant
            n == xs@.len(),
            0 <= i <= n,
            out@.len() == i,
            forall|j: int| 0 <= j < i ==> wire_view(#[trigger] out@[j]) == diagnostic_to_wire(
                xs@[j]@,
            ),
        decreases n - i,
    {
        out.push(xs[i].encode());
        i = i + 1;
    }
    proof {
        lemma_wire_arr_view(out@);
        lemma_diagnostic_list_pointwise(xs.deep_view());
        assert(wire_arr_view(out@) =~= diagnostic_list_to_wire(xs.deep_view()));
    }
    out
}

/// Decodes a list of these entities, element for element.
pub fn diagnostic_list_decode(items: &Vec<WireValue>) -> (r: Result<Vec<Diagnostic>, DecodeError>)
    ensures
        match r {
            Ok(v) => diagnostic_list_of_wire(wire_arr_view(items@)) == Ok::<
                Seq<DiagnosticView>,
                DecodeErrorView,
            >(v.deep_view()),
            Err(e) => diagnostic_list_of_wire(wire_arr_view(items@)) == Err::<
                Seq<DiagnosticView>,
                DecodeErrorView,
            >(e@),
        },
{
    let ghost ev = wire_arr_view(items@);
    proof {
        lemma_wire_arr_view(items@);
        assert(ev.skip(0) =~= ev);
    }
    let n: usize = items.len();
    let mut out: Vec<Diagnostic> = Vec::new();
    let mut i: usize = 0;
    while i < n
        invariant
            n == items@.len(),
            ev == wire_arr_view(items@),
            ev.len() == n,
            forall|j: int| 0 <= j < n ==> #[trigger] ev[j] == wire_view(items@[j]),
            0 <= i <= n,
            out.deep_view().len() == i,
            diagnostic_list_of_wire(ev) == (match diagnostic_list_of_wire(ev.skip(i as int)) {
                Ok(rest) => Ok::<Seq<DiagnosticView>, DecodeErrorView>(out.deep_view() + rest),
                Err(e) => Err::<Seq<DiagnosticView>, DecodeErrorView>(e),
            }),
        decreases n - i,
    {
        proof {
            assert(ev.skip(i as int)[0] == ev[i as int]);
            assert(ev.skip(i as int).drop_first() =~= ev.skip(i + 1));
        }
        let ghost prev = out.deep_view();
        match Diagnostic::decode(&items[i]) {
            Ok(x) => {
                out.push(x);
                proof {
                    assert(out.deep_view() =~= prev.push(x@));
                    assert(forall|rest: Seq<DiagnosticView>|
                        prev + (#[trigger] (seq![x@] + rest)) =~= out.deep_view() + rest);
                }
            },
            Err(e) => {
                return Err(e);
            },
        }
        i = i + 1;
    }
    proof {
        assert(ev.skip(n as int) =~= Seq::<WireValueView>::empty());
        assert(out.deep_view() + Seq::<DiagnosticView>::empty() =~= out.deep_view());
    }
    Ok(out)
}

/// A required field holding a list of these entities.
pub open spec fn req_diagnostic_list(fs: Seq<(Seq<char>, WireValueView)>, key: Seq<char>) -> Result<
    Seq<DiagnosticView>,
    DecodeErrorView,
> {
    match obj_get(fs, key) {
        Some(WireValueView::Arr(elems)) => diagnostic_list_of_wire(elems),
        _ => Err(missing(key)),
    }
}

/// An omit-when-empty field holding a list of these entities.
pub open spec fn emp_diagnostic_list(fs: Seq<(Seq<char>, WireValueView)>, key: Seq<char>) -> Result<
    Seq<DiagnosticView>,
    DecodeErrorView,
> {
    match opt_field(fs, key) {
        Some(WireValueView::Arr(elems)) => diagnostic_list_of_wire(elems),
        Some(_) => Err(missing(key)),
        None => Ok(Seq::empty()),
    }
}

/// All diagnostics for one resource, in server-determined order.
#[derive(Debug)]
pub struct PublishDiagnosticsParams {
    pub uri: String,
    pub diagnostics: Vec<Diagnostic>,
}

/// The mathematical model of this entity.
#[verifier::ext_equal]
pub struct PublishDiagnosticsParamsView {
    pub uri: Seq<char>,
    pub diagnostics: Seq<DiagnosticView>,
}

impl View for PublishDiagnosticsParams {
    type V = PublishDiagnosticsParamsView;

    open spec fn view(&self) -> PublishDiagnosticsParamsView {
        PublishDiagnosticsParamsView {
            uri: self.uri@,
            diagnostics: self.diagnostics.deep_view(),
        }
    }
}

impl DeepView for PublishDiagnosticsParams {
    type V = PublishDiagnosticsParamsView;

    open spec fn deep_view(&self) -> PublishDiagnosticsParamsView {
        self.view()
    }
}

/// The field table: each wire key with its value, or `None` where the
/// field's omission policy drops it.
pub open spec fn publish_diagnostics_params_fields(v: PublishDiagnosticsParamsView) -> FieldTable {
    seq![
        ("uri"@, Some(WireValueView::Str(v.uri))),
        ("diagnostics"@, Some(WireValueView::Arr(diagnostic_list_to_wire(v.diagnostics)))),
    ]
}

/// What encoding this entity produces.
pub open spec fn publish_diagnostics_params_to_wire(v: PublishDiagnosticsParamsView) -> WireValueView {
    WireValueView::Obj(emit_fields(publish_diagnostics_params_fields(v)))
}

/// What decoding a wire value as this entity yields. Unknown extra
/// fields are ignored; a missing or ill-shaped field fails.
pub open spec fn publish_diagnostics_params_of_wire(w: WireValueView) -> Result<PublishDiagnosticsParamsView, DecodeErrorView> {
    match w {
        WireValueView::Obj(fs) => match req_str(fs, "uri"@) {
                Ok(uri) => match req_diagnostic_list(fs, "diagnostics"@) {
                    Ok(diagnostics) => Ok(PublishDiagnosticsParamsView { uri, diagnostics }),
                    Err(e) => Err(e),
                },
                Err(e) => Err(e),
            },
        _ => Err(missing("uri"@)),
    }
}

impl PublishDiagnosticsParams {
    pub fn encode(&self) -> (r: WireValue)
        ensures
            r@ == publish_diagnostics_params_to_wire(self@),
    {
        let mut table: Vec<(String, Option<WireValue>)> = Vec::new();
        table.push((key_string("uri"), Some(WireValue::Str(self.uri.clone()))));
        table.push((key_string("diagnostics"), Some(WireValue::Arr(diagnostic_list_encode(&self.diagnostics)))));
        proof {
            assert(table_view(table@) =~= publish_diagnostics_params_fields(self@));
        }
        finish_obj(table)
    }

    pub fn decode(w: &WireValue) -> (r: Result<PublishDiagnosticsParams, DecodeError>)
        ensures
            match r {
                Ok(x) => publish_diagnostics_params_of_wire(w@) == Ok::<PublishDiagnosticsParamsView, DecodeErrorView>(x@),
                Err(e) => publish_diagnostics_params_of_wire(w@) == Err::<PublishDiagnosticsParamsView, DecodeErrorView>(e@),
            },
    {
        let fields = match w {
            WireValue::Obj(fields) => fields,
            _ => {
                return Err(DecodeError::MissingOrInvalidField(key_string("uri")));
            },
        };
        let uri: String = match wire_obj_get(fields, &key_string("uri")) {
            Some(WireValue::Str(s)) => s.clone(),
            _ => {
                return Err(DecodeError::MissingOrInvalidField(key_string("uri")));
            },
        };
        let diagnostics: Vec<Diagnostic> = match wire_obj_get(fields, &key_string("diagnostics")) {
            Some(WireValue::Arr(items)) => match diagnostic_list_decode(items) {
                Ok(v) => v,
                Err(e) => {
                    return Err(e);
                },
            },
            _ => {
                return Err(DecodeError::MissingOrInvalidField(key_string("diagnostics")));
            },
        };
        Ok(PublishDiagnosticsParams { uri, diagnostics })
    }
}

/// Decoding an encoded value of this entity gives the value back.
pub proof fn lemma_publish_diagnostics_params_round_trip(v: PublishDiagnosticsParamsView)
    ensures
        publish_diagnostics_params_of_wire(publish_diagnostics_params_to_wire(v)) == Ok::<PublishDiagnosticsParamsView, DecodeErrorView>(v),
{
    let t = publish_diagnostics_params_fields(v);
    assert(distinct_keys(t)) by {
        reveal_strlit("uri");
        reveal_strlit("diagnostics");
        assert forall|i: int, j: int| 0 <= i < j < t.len() implies t[i].0 != t[j].0 by {
            assert(t[0].0 == "uri"@);
            assert(t[1].0 == "diagnostics"@);
        }
    }
    lemma_emit_fields_get(t, 0);
    lemma_emit_fields_get(t, 1);
    lemma_diagnostic_list_round_trip(v.diagnostics);
}

} // verus!
