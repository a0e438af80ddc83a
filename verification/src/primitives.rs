//! Addressing entities: positions, ranges, locations and single edits.

use vstd::prelude::*;
use crate::error::{missing, DecodeError, DecodeErrorView};
use crate::wire::{
    emit_fields, key_string, obj_get, opt_field, FieldTable, WireValue, WireValueView,
    finish_obj, table_view, wire_obj_get, distinct_keys, lemma_emit_fields_get,
    lemma_obj_get_other_key, wire_arr_view, wire_view, lemma_wire_arr_view,
};

verus! {

/// A position in a text document: zero-based line and character offset.
#[derive(Clone, Copy, PartialEq, Eq, Structural, Debug)]
pub struct Position {
    /// Line position in a document (zero-based).
    pub line: u64,
    /// Character offset on a line in a document (zero-based).
    pub character: u64,
}

impl View for Position {
    type V = Position;

    open spec fn view(&self) -> Position {
        *self
    }
}

/// The field table of a position: both fields always present.
pub open spec fn position_fields(p: Position) -> FieldTable {
    seq![
        ("line"@, Some(WireValueView::Num(p.line))),
        ("character"@, Some(WireValueView::Num(p.character))),
    ]
}

/// What encoding a position produces.
pub open spec fn position_to_wire(p: Position) -> WireValueView {
    WireValueView::Obj(emit_fields(position_fields(p)))
}

/// What decoding a wire value as a position yields. Unknown extra fields are
/// ignored; a missing or ill-shaped field fails.
pub open spec fn position_of_wire(w: WireValueView) -> Result<Position, DecodeErrorView> {
    match w {
        WireValueView::Obj(fs) => match obj_get(fs, "line"@) {
            Some(WireValueView::Num(line)) => match obj_get(fs, "character"@) {
                Some(WireValueView::Num(character)) => Ok(Position { line, character }),
                _ => Err(missing("character"@)),
            },
            _ => Err(missing("line"@)),
        },
        _ => Err(missing("line"@)),
    }
}

impl Position {
    pub fn encode(&self) -> (r: WireValue)
        ensures
            r@ == position_to_wire(*self),
    {
        let mut table: Vec<(String, Option<WireValue>)> = Vec::new();
        table.push((key_string("line"), Some(WireValue::Num(self.line))));
        table.push((key_string("character"), Some(WireValue::Num(self.character))));
        proof {
            assert(table_view(table@) =~= position_fields(*self));
        }
        finish_obj(table)
    }

    pub fn decode(w: &WireValue) -> (r: Result<Position, DecodeError>)
        ensures
            match r {
                Ok(p) => position_of_wire(w@) == Ok::<Position, DecodeErrorView>(p),
                Err(e) => position_of_wire(w@) == Err::<Position, DecodeErrorView>(e@),
            },
    {
        let fields = match w {
            WireValue::Obj(fields) => fields,
            _ => {
                return Err(DecodeError::MissingOrInvalidField(key_string("line")));
            },
        };
        let line: u64 = match wire_obj_get(fields, &key_string("line")) {
            Some(WireValue::Num(n)) => *n,
            _ => {
                return Err(DecodeError::MissingOrInvalidField(key_string("line")));
            },
        };
        let character: u64 = match wire_obj_get(fields, &key_string("character")) {
            Some(WireValue::Num(n)) => *n,
            _ => {
                return Err(DecodeError::MissingOrInvalidField(key_string("character")));
            },
        };
        Ok(Position { line, character })
    }
}

/// Decoding an encoded position gives the position back.
pub proof fn lemma_position_round_trip(p: Position)
    ensures
        position_of_wire(position_to_wire(p)) == Ok::<Position, DecodeErrorView>(p),
{
    let t = position_fields(p);
    assert(distinct_keys(t)) by {
        reveal_strlit("line");
        reveal_strlit("character");
        assert forall|i: int, j: int| 0 <= i < j < t.len() implies t[i].0 != t[j].0 by {
            assert(t[0].0 == "line"@);
            assert(t[1].0 == "character"@);
        }
    }
    lemma_emit_fields_get(t, 0);
    lemma_emit_fields_get(t, 1);
}

/// A range in a text document: start and end position.
#[derive(Clone, Copy, PartialEq, Eq, Structural, Debug)]
pub struct Range {
    /// The range's start position.
    pub start: Position,
    /// The range's end position.
    pub end: Position,
}

impl View for Range {
    type V = Range;

    open spec fn view(&self) -> Range {
        *self
    }
}

/// The field table of a range: both fields always present. Whether `start`
/// precedes `end` is the consumer's concern; any pair round-trips.
pub open spec fn range_fields(r: Range) -> FieldTable {
    seq![
        ("start"@, Some(position_to_wire(r.start))),
        ("end"@, Some(position_to_wire(r.end))),
    ]
}

/// What encoding a range produces.
pub open spec fn range_to_wire(r: Range) -> WireValueView {
    WireValueView::Obj(emit_fields(range_fields(r)))
}

/// What decoding a wire value as a range yields.
pub open spec fn range_of_wire(w: WireValueView) -> Result<Range, DecodeErrorView> {
    match w {
        WireValueView::Obj(fs) => match obj_get(fs, "start"@) {
            Some(sv) => match position_of_wire(sv) {
                Ok(start) => match obj_get(fs, "end"@) {
                    Some(ev) => match position_of_wire(ev) {
                        Ok(end) => Ok(Range { start, end }),
                        Err(e) => Err(e),
                    },
                    None => Err(missing("end"@)),
                },
                Err(e) => Err(e),
            },
            None => Err(missing("start"@)),
        },
        _ => Err(missing("start"@)),
    }
}

impl Range {
    pub fn encode(&self) -> (r: WireValue)
        ensures
            r@ == range_to_wire(*self),
    {
        let mut table: Vec<(String, Option<WireValue>)> = Vec::new();
        table.push((key_string("start"), Some(self.start.encode())));
        table.push((key_string("end"), Some(self.end.encode())));
        proof {
            assert(table_view(table@) =~= range_fields(*self));
        }
        finish_obj(table)
    }

    pub fn decode(w: &WireValue) -> (r: Result<Range, DecodeError>)
        ensures
            match r {
                Ok(rg) => range_of_wire(w@) == Ok::<Range, DecodeErrorView>(rg),
                Err(e) => range_of_wire(w@) == Err::<Range, DecodeErrorView>(e@),
            },
    {
        let fields = match w {
            WireValue::Obj(fields) => fields,
            _ => {
                return Err(DecodeError::MissingOrInvalidField(key_string("start")));
            },
        };
        let sv = match wire_obj_get(fields, &key_string("start")) {
            Some(v) => v,
            None => {
                return Err(DecodeError::MissingOrInvalidField(key_string("start")));
            },
        };
        let start = match Position::decode(sv) {
            Ok(p) => p,
            Err(e) => {
                return Err(e);
            },
        };
        let ev = match wire_obj_get(fields, &key_string("end")) {
            Some(v) => v,
            None => {
                return Err(DecodeError::MissingOrInvalidField(key_string("end")));
            },
        };
        let end = match Position::decode(ev) {
            Ok(p) => p,
            Err(e) => {
                return Err(e);
            },
        };
        Ok(Range { start, end })
    }
}

/// Decoding an encoded range gives the range back.
pub proof fn lemma_range_round_trip(r: Range)
    ensures
        range_of_wire(range_to_wire(r)) == Ok::<Range, DecodeErrorView>(r),
{
    let t = range_fields(r);
    assert(distinct_keys(t)) by {
        reveal_strlit("start");
        reveal_strlit("end");
        assert forall|i: int, j: int| 0 <= i < j < t.len() implies t[i].0 != t[j].0 by {
            assert(t[0].0 == "start"@);
            assert(t[1].0 == "end"@);
        }
    }
    lemma_emit_fields_get(t, 0);
    lemma_emit_fields_get(t, 1);
    lemma_position_round_trip(r.start);
    lemma_position_round_trip(r.end);
}

/// A location inside a resource, such as a line inside a text file. The URI
/// is opaque to the codec: no parsing, no validation.
#[derive(Debug)]
pub struct Location {
    pub uri: String,
    pub range: Range,
}

/// The mathematical model of a location.
#[verifier::ext_equal]
pub struct LocationView {
    pub uri: Seq<char>,
    pub range: Range,
}

impl View for Location {
    type V = LocationView;

    open spec fn view(&self) -> LocationView {
        LocationView { uri: self.uri@, range: self.range }
    }
}

impl DeepView for Location {
    type V = LocationView;

    open spec fn deep_view(&self) -> LocationView {
        self.view()
    }
}

/// The field table of a location: both fields always present.
pub open spec fn location_fields(l: LocationView) -> FieldTable {
    seq![
        ("uri"@, Some(WireValueView::Str(l.uri))),
        ("range"@, Some(range_to_wire(l.range))),
    ]
}

/// What encoding a location produces.
pub open spec fn location_to_wire(l: LocationView) -> WireValueView {
    WireValueView::Obj(emit_fields(location_fields(l)))
}

/// What decoding a wire value as a location yields.
pub open spec fn location_of_wire(w: WireValueView) -> Result<LocationView, DecodeErrorView> {
    match w {
        WireValueView::Obj(fs) => match obj_get(fs, "uri"@) {
            Some(WireValueView::Str(uri)) => match obj_get(fs, "range"@) {
                Some(rv) => match range_of_wire(rv) {
                    Ok(range) => Ok(LocationView { uri, range }),
                    Err(e) => Err(e),
                },
                None => Err(missing("range"@)),
            },
            _ => Err(missing("uri"@)),
        },
        _ => Err(missing("uri"@)),
    }
}

impl Location {
    pub fn encode(&self) -> (r: WireValue)
        ensures
            r@ == location_to_wire(self@),
    {
        let mut table: Vec<(String, Option<WireValue>)> = Vec::new();
        table.push((key_string("uri"), Some(WireValue::Str(self.uri.clone()))));
        table.push((key_string("range"), Some(self.range.encode())));
        proof {
            assert(table_view(table@) =~= location_fields(self@));
        }
        finish_obj(table)
    }

    pub fn decode(w: &WireValue) -> (r: Result<Location, DecodeError>)
        ensures
            match r {
                Ok(l) => location_of_wire(w@) == Ok::<LocationView, DecodeErrorView>(l@),
                Err(e) => location_of_wire(w@) == Err::<LocationView, DecodeErrorView>(e@),
            },
    {
        let fields = match w {
            WireValue::Obj(fields) => fields,
            _ => {
                return Err(DecodeError::MissingOrInvalidField(key_string("uri")));
            },
        };
        let uri: String = match wire_obj_get(fields, &key_string("uri")) {
            Some(WireValue::Str(s)) => s.clone(),
            _ => {
                return Err(DecodeError::MissingOrInvalidField(key_string("uri")));
            },
        };
        let rv = match wire_obj_get(fields, &key_string("range")) {
            Some(v) => v,
            None => {
                return Err(DecodeError::MissingOrInvalidField(key_string("range")));
            },
        };
        let range = match Range::decode(rv) {
            Ok(rg) => rg,
            Err(e) => {
                return Err(e);
            },
        };
        Ok(Location { uri, range })
    }
}

/// Decoding an encoded location gives the location back.
pub proof fn lemma_location_round_trip(l: LocationView)
    ensures
        location_of_wire(location_to_wire(l)) == Ok::<LocationView, DecodeErrorView>(l),
{
    let t = location_fields(l);
    assert(distinct_keys(t)) by {
        reveal_strlit("uri");
        reveal_strlit("range");
        assert forall|i: int, j: int| 0 <= i < j < t.len() implies t[i].0 != t[j].0 by {
            assert(t[0].0 == "uri"@);
            assert(t[1].0 == "range"@);
        }
    }
    lemma_emit_fields_get(t, 0);
    lemma_emit_fields_get(t, 1);
    lemma_range_round_trip(l.range);
}

/// A textual edit applicable to a text document: inserting is a range whose
/// start equals its end, deleting is an empty new text.
#[derive(Debug)]
pub struct TextEdit {
    /// The range of the text document to be manipulated.
    pub range: Range,
    /// The string to be inserted; empty for deletions.
    pub new_text: String,
}

/// The mathematical model of a textual edit.
#[verifier::ext_equal]
pub struct TextEditView {
    pub range: Range,
    pub new_text: Seq<char>,
}

impl View for TextEdit {
    type V = TextEditView;

    open spec fn view(&self) -> TextEditView {
        TextEditView { range: self.range, new_text: self.new_text@ }
    }
}

impl DeepView for TextEdit {
    type V = TextEditView;

    open spec fn deep_view(&self) -> TextEditView {
        self.view()
    }
}

/// The field table of a textual edit: both fields always present.
pub open spec fn text_edit_fields(e: TextEditView) -> FieldTable {
    seq![
        ("range"@, Some(range_to_wire(e.range))),
        ("newText"@, Some(WireValueView::Str(e.new_text))),
    ]
}

/// What encoding a textual edit produces.
pub open spec fn text_edit_to_wire(e: TextEditView) -> WireValueView {
    WireValueView::Obj(emit_fields(text_edit_fields(e)))
}

/// What decoding a wire value as a textual edit yields.
pub open spec fn text_edit_of_wire(w: WireValueView) -> Result<TextEditView, DecodeErrorView> {
    match w {
        WireValueView::Obj(fs) => match obj_get(fs, "range"@) {
            Some(rv) => match range_of_wire(rv) {
                Ok(range) => match obj_get(fs, "newText"@) {
                    Some(WireValueView::Str(new_text)) => Ok(TextEditView { range, new_text }),
                    _ => Err(missing("newText"@)),
                },
                Err(e) => Err(e),
            },
            None => Err(missing("range"@)),
        },
        _ => Err(missing("range"@)),
    }
}

impl TextEdit {
    pub fn encode(&self) -> (r: WireValue)
        ensures
            r@ == text_edit_to_wire(self@),
    {
        let mut table: Vec<(String, Option<WireValue>)> = Vec::new();
        table.push((key_string("range"), Some(self.range.encode())));
        table.push((key_string("newText"), Some(WireValue::Str(self.new_text.clone()))));
        proof {
            assert(table_view(table@) =~= text_edit_fields(self@));
        }
        finish_obj(table)
    }

    pub fn decode(w: &WireValue) -> (r: Result<TextEdit, DecodeError>)
        ensures
            match r {
                Ok(e) => text_edit_of_wire(w@) == Ok::<TextEditView, DecodeErrorView>(e@),
                Err(e) => text_edit_of_wire(w@) == Err::<TextEditView, DecodeErrorView>(e@),
            },
    {
        let fields = match w {
            WireValue::Obj(fields) => fields,
            _ => {
                return Err(DecodeError::MissingOrInvalidField(key_string("range")));
            },
        };
        let rv = match wire_obj_get(fields, &key_string("range")) {
            Some(v) => v,
            None => {
                return Err(DecodeError::MissingOrInvalidField(key_string("range")));
            },
        };
        let range = match Range::decode(rv) {
            Ok(rg) => rg,
            Err(e) => {
                return Err(e);
            },
        };
        let new_text: String = match wire_obj_get(fields, &key_string("newText")) {
            Some(WireValue::Str(s)) => s.clone(),
            _ => {
                return Err(DecodeError::MissingOrInvalidField(key_string("newText")));
            },
        };
        Ok(TextEdit { range, new_text })
    }
}

/// Decoding an encoded textual edit gives the edit back.
pub proof fn lemma_text_edit_round_trip(e: TextEditView)
    ensures
        text_edit_of_wire(text_edit_to_wire(e)) == Ok::<TextEditView, DecodeErrorView>(e),
{
    let t = text_edit_fields(e);
    assert(distinct_keys(t)) by {
        reveal_strlit("range");
        reveal_strlit("newText");
        assert forall|i: int, j: int| 0 <= i < j < t.len() implies t[i].0 != t[j].0 by {
            assert(t[0].0 == "range"@);
            assert(t[1].0 == "newText"@);
        }
    }
    lemma_emit_fields_get(t, 0);
    lemma_emit_fields_get(t, 1);
    lemma_range_round_trip(e.range);
}


/// A required field holding this entity.
pub open spec fn req_position(fs: Seq<(Seq<char>, WireValueView)>, key: Seq<char>) -> Result<
    Position,
    DecodeErrorView,
> {
    match obj_get(fs, key) {
        Some(wv) => position_of_wire(wv),
        None => Err(missing(key)),
    }
}

/// A required field holding this entity.
pub open spec fn req_range(fs: Seq<(Seq<char>, WireValueView)>, key: Seq<char>) -> Result<
    Range,
    DecodeErrorView,
> {
    match obj_get(fs, key) {
        Some(wv) => range_of_wire(wv),
        None => Err(missing(key)),
    }
}

/// An optional field holding this entity; absent and null are `None`.
pub open spec fn opt_range(fs: Seq<(Seq<char>, WireValueView)>, key: Seq<char>) -> Result<
    Option<Range>,
    DecodeErrorView,
> {
    match opt_field(fs, key) {
        Some(wv) => match range_of_wire(wv) {
            Ok(x) => Ok(Some(x)),
            Err(e) => Err(e),
        },
        None => Ok(None),
    }
}

/// A required field holding this entity.
pub open spec fn req_location(fs: Seq<(Seq<char>, WireValueView)>, key: Seq<char>) -> Result<
    LocationView,
    DecodeErrorView,
> {
    match obj_get(fs, key) {
        Some(wv) => location_of_wire(wv),
        None => Err(missing(key)),
    }
}

/// An optional field holding this entity; absent and null are `None`.
pub open spec fn opt_text_edit(fs: Seq<(Seq<char>, WireValueView)>, key: Seq<char>) -> Result<
    Option<TextEditView>,
    DecodeErrorView,
> {
    match opt_field(fs, key) {
        Some(wv) => match text_edit_of_wire(wv) {
            Ok(x) => Ok(Some(x)),
            Err(e) => Err(e),
        },
        None => Ok(None),
    }
}

/// What encoding a list of these entities produces, element for element.
pub open spec fn text_edit_list_to_wire(s: Seq<TextEditView>) -> Seq<WireValueView>
    decreases s.len(),
{
    if s.len() == 0 {
        Seq::empty()
    } else {
        seq![text_edit_to_wire(s[0])] + text_edit_list_to_wire(s.drop_first())
    }
}

/// What decoding a list of these entities yields: the first ill-shaped
/// element fails the whole list.
pub open spec fn text_edit_list_of_wire(elems: Seq<WireValueView>) -> Result<
    Seq<TextEditView>,
    DecodeErrorView,
>
    decreases elems.len(),
{
    if elems.len() == 0 {
        Ok(Seq::empty())
    } else {
        match text_edit_of_wire(elems[0]) {
            Ok(x) => match text_edit_list_of_wire(elems.drop_first()) {
                Ok(rest) => Ok(seq![x] + rest),
                Err(e) => Err(e),
            },
            Err(e) => Err(e),
        }
    }
}

/// The elements of an encoded list, pointwise.
pub proof fn lemma_text_edit_list_pointwise(s: Seq<TextEditView>)
    ensures
        text_edit_list_to_wire(s).len() == s.len(),
        forall|i: int|
            0 <= i < s.len() ==> #[trigger] text_edit_list_to_wire(s)[i] == text_edit_to_wire(s[i]),
    decreases s.len(),
{
    if s.len() > 0 {
        lemma_text_edit_list_pointwise(s.drop_first());
    }
}

/// Decoding an encoded list gives the list back.
pub proof fn lemma_text_edit_list_round_trip(s: Seq<TextEditView>)
    ensures
        text_edit_list_of_wire(text_edit_list_to_wire(s)) == Ok::<Seq<TextEditView>, DecodeErrorView>(s),
    decreases s.len(),
{
    if s.len() == 0 {
        assert(s =~= Seq::<TextEditView>::empty());
    } else {
        lemma_text_edit_round_trip(s[0]);
        lemma_text_edit_list_round_trip(s.drop_first());
        let m = text_edit_list_to_wire(s);
        assert(m[0] == text_edit_to_wire(s[0]));
        assert(m.drop_first() =~= text_edit_list_to_wire(s.drop_first()));
        assert(seq![s[0]] + s.drop_first() =~= s);
    }
}

/// Encodes a list of these entities, element for element.
pub fn text_edit_list_encode(xs: &Vec<TextEdit>) -> (r: Vec<WireValue>)
    ensures
        wire_arr_view(r@) == text_edit_list_to_wire(xs.deep_view()),
        r@.len() == xs@.len(),
{
    let n: usize = xs.len();
    let mut out: Vec<WireValue> = Vec::new();
    let mut i: usize = 0;
    while i < n
        invariant
            n == xs@.len(),
            0 <= i <= n,
            out@.len() == i,
            forall|j: int| 0 <= j < i ==> wire_view(#[trigger] out@[j]) == text_edit_to_wire(
                xs@[j]@,
            ),
        decreases n - i,
    {
        out.push(xs[i].encode());
        i = i + 1;
    }
    proof {
        lemma_wire_arr_view(out@);
        lemma_text_edit_list_pointwise(xs.deep_view());
        assert(wire_arr_view(out@) =~= text_edit_list_to_wire(xs.deep_view()));
    }
    out
}

/// Decodes a list of these entities, element for element.
pub fn text_edit_list_decode(items: &Vec<WireValue>) -> (r: Result<Vec<TextEdit>, DecodeError>)
    ensures
        match r {
            Ok(v) => text_edit_list_of_wire(wire_arr_view(items@)) == Ok::<
                Seq<TextEditView>,
                DecodeErrorView,
            >(v.deep_view()),
            Err(e) => text_edit_list_of_wire(wire_arr_view(items@)) == Err::<
                Seq<TextEditView>,
                DecodeErrorView,
            >(e@),
        },
{
    let ghost ev = wire_arr_view(items@);
    proof {
        lemma_wire_arr_view(items@);
        assert(ev.skip(0) =~= ev);
    }
    let n: usize = items.len();
    let mut out: Vec<TextEdit> = Vec::new();
    let mut i: usize = 0;
    while i < n
        invariant
            n == items@.len(),
            ev == wire_arr_view(items@),
            ev.len() == n,
            forall|j: int| 0 <= j < n ==> #[trigger] ev[j] == wire_view(items@[j]),
            0 <= i <= n,
            out.deep_view().len() == i,
            text_edit_list_of_wire(ev) == (match text_edit_list_of_wire(ev.skip(i as int)) {
                Ok(rest) => Ok::<Seq<TextEditView>, DecodeErrorView>(out.deep_view() + rest),
                Err(e) => Err::<Seq<TextEditView>, DecodeErrorView>(e),
            }),
        decreases n - i,
    {
        proof {
            assert(ev.skip(i as int)[0] == ev[i as int]);
            assert(ev.skip(i as int).drop_first() =~= ev.skip(i + 1));
        }
        let ghost prev = out.deep_view();
        match TextEdit::decode(&items[i]) {
            Ok(x) => {
                out.push(x);
                proof {
                    assert(out.deep_view() =~= prev.push(x@));
                    assert(forall|rest: Seq<TextEditView>|
                        prev + (#[trigger] (seq![x@] + rest)) =~= out.deep_view() + rest);
                }
            },
            Err(e) => {
                return Err(e);
            },
        }
        i = i + 1;
    }
    proof {
        assert(ev.skip(n as int) =~= Seq::<WireValueView>::empty());
        assert(out.deep_view() + Seq::<TextEditView>::empty() =~= out.deep_view());
    }
    Ok(out)
}

/// A required field holding a list of these entities.
pub open spec fn req_text_edit_list(fs: Seq<(Seq<char>, WireValueView)>, key: Seq<char>) -> Result<
    Seq<TextEditView>,
    DecodeErrorView,
> {
    match obj_get(fs, key) {
        Some(WireValueView::Arr(elems)) => text_edit_list_of_wire(elems),
        _ => Err(missing(key)),
    }
}

/// An omit-when-empty field holding a list of these entities.
pub open spec fn emp_text_edit_list(fs: Seq<(Seq<char>, WireValueView)>, key: Seq<char>) -> Result<
    Seq<TextEditView>,
    DecodeErrorView,
> {
    match opt_field(fs, key) {
        Some(WireValueView::Arr(elems)) => text_edit_list_of_wire(elems),
        Some(_) => Err(missing(key)),
        None => Ok(Seq::empty()),
    }
}


/// Unknown-field tolerance: an extra field under a key the position does not
/// know changes nothing about decoding it — in particular, it never fails it.
pub proof fn lemma_position_unknown_field(
    fs: Seq<(Seq<char>, WireValueView)>,
    extra: (Seq<char>, WireValueView),
)
    requires
        extra.0 != "line"@,
        extra.0 != "character"@,
    ensures
        position_of_wire(WireValueView::Obj(fs.push(extra))) == position_of_wire(
            WireValueView::Obj(fs),
        ),
{
    lemma_obj_get_other_key(fs, extra, "line"@);
    lemma_obj_get_other_key(fs, extra, "character"@);
}

} // verus!
