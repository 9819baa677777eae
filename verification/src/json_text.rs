//! JSON text, as `serde_json` reads and writes it.

use crate::json::add_element;
use crate::json::arr_view;
use crate::json::Json;
use crate::json::JsonView;
use crate::json::obj_view;
use crate::json::put;
use crate::json::view_field;
use crate::json::view_of;
use crate::number::int_within;
use crate::number::parse_i64;
use crate::text::text_before;
use vstd::prelude::*;

verus! {

/// A JSON value of `serde_json`.
#[verifier::external_type_specification]
#[verifier::external_body]
pub struct ExValue(serde_json::Value);

/// What a value of `serde_json` holds: the elements of an array in order, the members of an object
/// in the order in which the map hands them out.
pub uninterp spec fn value_held(v: serde_json::Value) -> JsonView;

/// The value that a text stands for, or what is wrong with the text.
pub uninterp spec fn json_told(text: Seq<char>) -> Result<JsonView, Seq<char>>;

/// The text of a value: on one line, without spaces.
pub uninterp spec fn json_written(v: JsonView) -> Seq<char>;

/// The text of a value over several lines, with two spaces for each level.
pub uninterp spec fn json_laid_out(v: JsonView) -> Seq<char>;

/// A number as it is written: an integer of 64 bits, or the text of any other.
pub open spec fn number_held(text: Seq<char>) -> JsonView {
    match int_within(text, i64::MIN as int, i64::MAX as int) {
        Some(n) => JsonView::Int(n as i64),
        None => JsonView::Number(text),
    }
}

/// The outermost part of a value.
enum Layer<'a> {
    Null,
    Bool(bool),
    Number(String),
    Str(&'a String),
    Arr(&'a Vec<serde_json::Value>),
    Obj(Vec<(&'a String, &'a serde_json::Value)>),
}

spec fn elements_held(v: Seq<serde_json::Value>) -> Seq<JsonView> {
    v.map_values(|x: serde_json::Value| value_held(x))
}

spec fn members_held(m: Seq<(&String, &serde_json::Value)>) -> Seq<(Seq<char>, JsonView)> {
    m.map_values(|e: (&String, &serde_json::Value)| (e.0@, value_held(*e.1)))
}

spec fn layer_held(l: Layer<'_>) -> JsonView {
    match l {
        Layer::Null => JsonView::Null,
        Layer::Bool(b) => JsonView::Bool(b),
        Layer::Number(t) => number_held(t@),
        Layer::Str(s) => JsonView::Str(s@),
        Layer::Arr(v) => JsonView::Arr(elements_held(v@)),
        Layer::Obj(m) => JsonView::Obj(members_held(m@)),
    }
}

/// `serde_json::from_str`, into a value. What comes out, and what is said of a text that is no
/// JSON, depends on the text alone.
#[verifier::external_body]
fn parse_value(text: &str) -> (r: Result<serde_json::Value, String>)
    ensures
        match r {
            Ok(v) => json_told(text@) == Ok::<JsonView, Seq<char>>(value_held(v)),
            Err(e) => json_told(text@) == Err::<JsonView, Seq<char>>(e@),
        },
{
    serde_json::from_str::<serde_json::Value>(text).map_err(|e| e.to_string())
}

/// The variants of `serde_json::Value`. A number is written by its `to_string`: an integer of 64
/// bits in decimal, any other with a point, an exponent, or more digits.
#[verifier::external_body]
fn outermost(v: &serde_json::Value) -> (r: Layer<'_>)
    ensures
        value_held(*v) == layer_held(r),
{
    match v {
        serde_json::Value::Null => Layer::Null,
        serde_json::Value::Bool(b) => Layer::Bool(*b),
        serde_json::Value::Number(n) => Layer::Number(n.to_string()),
        serde_json::Value::String(s) => Layer::Str(s),
        serde_json::Value::Array(a) => Layer::Arr(a),
        serde_json::Value::Object(m) => Layer::Obj(m.iter().collect()),
    }
}

/// A value of `serde_json` as a value.
fn plain(v: &serde_json::Value) -> (r: Json)
    ensures
        view_of(r) == value_held(*v),
    decreases value_held(*v),
{
    match outermost(v) {
        Layer::Null => Json::Null,
        Layer::Bool(b) => Json::Bool(b),
        Layer::Number(t) => match parse_i64(t.as_str()) {
            Some(n) => Json::Int(n),
            None => Json::Number(t),
        },
        Layer::Str(s) => Json::Str(s.clone()),
        Layer::Arr(a) => {
            let mut out: Vec<Json> = Vec::new();
            let ghost held = elements_held(a@);
            let mut i: usize = 0;
            while i < a.len()
                invariant
                    i <= a@.len(),
                    held == elements_held(a@),
                    value_held(*v) == JsonView::Arr(held),
                    arr_view(out@) == held.take(i as int),
                decreases a@.len() - i,
            {
                assert(decreases_to!(value_held(*v) => value_held(*v)->Arr_0));
                assert(decreases_to!(held => held[i as int]));
                let x = plain(&a[i]);
                add_element(&mut out, x);
                assert(held.take(i + 1) =~= held.take(i as int).push(held[i as int]));
                i += 1;
            }
            assert(held.take(i as int) =~= held);
            Json::Arr(out)
        },
        Layer::Obj(m) => {
            let mut out: Vec<(String, Json)> = Vec::new();
            let ghost held = members_held(m@);
            let mut i: usize = 0;
            while i < m.len()
                invariant
                    i <= m@.len(),
                    held == members_held(m@),
                    value_held(*v) == JsonView::Obj(held),
                    obj_view(out@) == held.take(i as int),
                decreases m@.len() - i,
            {
                assert(decreases_to!(value_held(*v) => value_held(*v)->Obj_0));
                assert(decreases_to!(held => held[i as int]));
                assert(decreases_to!(held[i as int] => held[i as int].1));
                let x = plain(m[i].1);
                put(&mut out, m[i].0.as_str(), x);
                assert(held.take(i + 1) =~= held.take(i as int).push(held[i as int]));
                i += 1;
            }
            assert(held.take(i as int) =~= held);
            Json::Obj(out)
        },
    }
}

/// The value of the member of that name, where a text stands for an object that has one.
pub open spec fn told_field(text: Seq<char>, key: Seq<char>) -> Option<JsonView> {
    match json_told(text) {
        Ok(v) => view_field(v, key),
        Err(_) => None,
    }
}

/// Whether that is what a text reads as.
pub open spec fn reads(r: Result<Json, String>, text: Seq<char>) -> bool {
    match r {
        Ok(j) => json_told(text) == Ok::<JsonView, Seq<char>>(view_of(j)),
        Err(e) => json_told(text) == Err::<JsonView, Seq<char>>(e@),
    }
}

/// The value that a text stands for, or what is wrong with the text.
pub fn read(text: &str) -> (r: Result<Json, String>)
    ensures
        reads(r, text@),
{
    match parse_value(text) {
        Ok(v) => Ok(plain(&v)),
        Err(e) => Err(e),
    }
}

/// A member in its place among others that stand in the order of their names; in place of one of
/// the same name.
pub open spec fn inserted(
    m: Seq<(Seq<char>, JsonView)>,
    key: Seq<char>,
    value: JsonView,
) -> Seq<(Seq<char>, JsonView)>
    decreases m.len(),
{
    if m.len() == 0 {
        seq![(key, value)]
    } else if m[0].0 == key {
        seq![(key, value)] + m.drop_first()
    } else if text_before(m[0].0, key) {
        seq![m[0]] + inserted(m.drop_first(), key, value)
    } else {
        seq![(key, value)] + m
    }
}

/// Members in the order of their names, the last one of each name.
pub open spec fn by_name(m: Seq<(Seq<char>, JsonView)>) -> Seq<(Seq<char>, JsonView)>
    decreases m.len(),
{
    if m.len() == 0 {
        Seq::empty()
    } else {
        inserted(by_name(m.drop_last()), m.last().0, m.last().1)
    }
}

/// What a value is when it is written: the members of objects stand in the order of their names,
/// and a number that cannot be read is null.
pub open spec fn tidied(v: JsonView) -> JsonView
    decreases v,
{
    match v {
        JsonView::Number(t) => match json_told(t) {
            Ok(JsonView::Int(n)) => JsonView::Int(n),
            Ok(JsonView::Number(n)) => JsonView::Number(n),
            _ => JsonView::Null,
        },
        JsonView::Arr(s) => JsonView::Arr(tidied_elements(s)),
        JsonView::Obj(m) => JsonView::Obj(by_name(tidied_members(m))),
        other => other,
    }
}

/// What the elements of an array are when they are written.
pub open spec fn tidied_elements(s: Seq<JsonView>) -> Seq<JsonView>
    decreases s,
{
    if s.len() == 0 {
        Seq::empty()
    } else {
        tidied_elements(s.drop_last()).push(tidied(s.last()))
    }
}

/// What the members of an object are when they are written, before they are put in order.
pub open spec fn tidied_members(m: Seq<(Seq<char>, JsonView)>) -> Seq<(Seq<char>, JsonView)>
    decreases m,
{
    if m.len() == 0 {
        Seq::empty()
    } else {
        tidied_members(m.drop_last()).push((m.last().0, tidied(m.last().1)))
    }
}

/// Whether a name is an ordinary one: `serde_json` keeps some that begin with `$` to itself.
pub open spec fn ordinary_name(name: Seq<char>) -> bool {
    name.len() == 0 || name[0] != '$'
}

/// Whether a value holds integers, texts and the like only, has no members but with ordinary names,
/// and is nested no deeper than that.
pub open spec fn simple(v: JsonView, depth: nat) -> bool
    decreases depth,
{
    match v {
        JsonView::Number(_) => false,
        JsonView::Arr(s) => depth > 0 && forall|i: int|
            0 <= i < s.len() ==> simple(#[trigger] s[i], (depth - 1) as nat),
        JsonView::Obj(m) => depth > 0 && forall|i: int|
            0 <= i < m.len() ==> ordinary_name((#[trigger] m[i]).0) && simple(
                m[i].1,
                (depth - 1) as nat,
            ),
        _ => true,
    }
}

/// Whether a text stands for a value.
pub open spec fn stands_for(text: Seq<char>, v: JsonView) -> bool {
    json_told(text) == Ok::<JsonView, Seq<char>>(v)
}

/// How deep a value can be nested and be read.
pub const DEPTH_LIMIT: u64 = 100;

/// What a value is made of.
enum Part {
    Null,
    Bool(bool),
    Int(i64),
    Str(String),
    Arr(Vec<serde_json::Value>),
    Obj(Vec<(String, serde_json::Value)>),
}

spec fn members_given(m: Seq<(String, serde_json::Value)>) -> Seq<(Seq<char>, JsonView)> {
    m.map_values(|e: (String, serde_json::Value)| (e.0@, value_held(e.1)))
}

spec fn part_held(p: Part) -> JsonView {
    match p {
        Part::Null => JsonView::Null,
        Part::Bool(b) => JsonView::Bool(b),
        Part::Int(n) => JsonView::Int(n),
        Part::Str(s) => JsonView::Str(s@),
        Part::Arr(v) => JsonView::Arr(elements_held(v@)),
        Part::Obj(m) => JsonView::Obj(by_name(members_given(m@))),
    }
}

/// The variants of `serde_json::Value`. The map of an object keeps its members in the order of
/// their names, and of two with one name the last.
#[verifier::external_body]
fn value_of(p: Part) -> (r: serde_json::Value)
    ensures
        value_held(r) == part_held(p),
{
    match p {
        Part::Null => serde_json::Value::Null,
        Part::Bool(b) => serde_json::Value::Bool(b),
        Part::Int(n) => serde_json::Value::from(n),
        Part::Str(s) => serde_json::Value::String(s),
        Part::Arr(v) => serde_json::Value::Array(v),
        Part::Obj(m) => serde_json::Value::Object(m.into_iter().collect()),
    }
}

/// `serde_json::Value::to_string`. Where a value holds no numbers but integers, has ordinary names
/// only and is not nested too deep, its text reads back as the value.
#[verifier::external_body]
fn value_text(v: &serde_json::Value) -> (r: String)
    ensures
        r@ == json_written(value_held(*v)),
        simple(value_held(*v), DEPTH_LIMIT as nat) ==> stands_for(r@, value_held(*v)),
{
    v.to_string()
}

/// The form `{:#}` of `serde_json::Value`.
#[verifier::external_body]
fn value_lines(v: &serde_json::Value) -> (r: String)
    ensures
        r@ == json_laid_out(value_held(*v)),
{
    format!("{:#}", v)
}

/// A value as a value of `serde_json`.
fn outside(j: &Json) -> (r: serde_json::Value)
    ensures
        value_held(r) == tidied(view_of(*j)),
    decreases *j,
{
    match j {
        Json::Null => value_of(Part::Null),
        Json::Bool(b) => value_of(Part::Bool(*b)),
        Json::Int(n) => value_of(Part::Int(*n)),
        Json::Number(t) => match parse_value(t.as_str()) {
            Ok(v) => {
                let number = match outermost(&v) {
                    Layer::Number(_) => true,
                    _ => false,
                };
                if number {
                    v
                } else {
                    value_of(Part::Null)
                }
            },
            Err(_) => value_of(Part::Null),
        },
        Json::Str(s) => value_of(Part::Str(s.clone())),
        Json::Arr(v) => {
            let mut out: Vec<serde_json::Value> = Vec::new();
            let mut i: usize = 0;
            assert(elements_held(out@) =~= tidied_elements(arr_view(v@.take(0))));
            while i < v.len()
                invariant
                    *j == Json::Arr(*v),
                    i <= v@.len(),
                    elements_held(out@) == tidied_elements(arr_view(v@.take(i as int))),
                decreases v@.len() - i,
            {
                assert(v@.take(i + 1).drop_last() == v@.take(i as int));
                assert(decreases_to!(*j => j->Arr_0));
                assert(decreases_to!(*v => v@));
                assert(decreases_to!(v@ => v@[i as int]));
                let x = outside(&v[i]);
                proof {
                    let before = arr_view(v@.take(i as int));
                    let after = arr_view(v@.take(i + 1));
                    assert(after == before.push(view_of(v@[i as int])));
                    assert(after.drop_last() =~= before);
                    assert(elements_held(out@.push(x)) =~= elements_held(out@).push(value_held(x)));
                }
                out.push(x);
                i += 1;
            }
            assert(v@.take(i as int) == v@);
            value_of(Part::Arr(out))
        },
        Json::Obj(m) => {
            let mut out: Vec<(String, serde_json::Value)> = Vec::new();
            let mut i: usize = 0;
            assert(members_given(out@) =~= tidied_members(obj_view(m@.take(0))));
            while i < m.len()
                invariant
                    *j == Json::Obj(*m),
                    i <= m@.len(),
                    members_given(out@) == tidied_members(obj_view(m@.take(i as int))),
                decreases m@.len() - i,
            {
                assert(m@.take(i + 1).drop_last() == m@.take(i as int));
                assert(decreases_to!(*j => j->Obj_0));
                assert(decreases_to!(*m => m@));
                assert(decreases_to!(m@ => m@[i as int]));
                assert(decreases_to!(m@[i as int] => m@[i as int].1));
                let x = outside(&m[i].1);
                let e = (m[i].0.clone(), x);
                proof {
                    let before = obj_view(m@.take(i as int));
                    let after = obj_view(m@.take(i + 1));
                    assert(after == before.push((m@[i as int].0@, view_of(m@[i as int].1))));
                    assert(after.drop_last() =~= before);
                    assert(members_given(out@.push(e)) =~= members_given(out@).push(
                        (e.0@, value_held(e.1)),
                    ));
                }
                out.push(e);
                i += 1;
            }
            assert(m@.take(i as int) == m@);
            value_of(Part::Obj(out))
        },
    }
}

/// The text of a value. It reads back as what was written, as long as no number but integers and no
/// name that is not ordinary is in it, and it is not nested too deep.
pub fn write_json(j: &Json) -> (r: String)
    ensures
        r@ == json_written(tidied(view_of(*j))),
        simple(tidied(view_of(*j)), DEPTH_LIMIT as nat) ==> stands_for(r@, tidied(view_of(*j))),
{
    let v = outside(j);
    value_text(&v)
}

/// The text of a value over several lines.
pub fn write_json_lines(j: &Json) -> (r: String)
    ensures
        r@ == json_laid_out(tidied(view_of(*j))),
{
    let v = outside(j);
    value_lines(&v)
}

/// The value of the last member of that name.
pub open spec fn last_member(m: Seq<(Seq<char>, JsonView)>, key: Seq<char>) -> Option<JsonView>
    decreases m.len(),
{
    if m.len() == 0 {
        None
    } else if m.last().0 == key {
        Some(m.last().1)
    } else {
        last_member(m.drop_last(), key)
    }
}

proof fn inserted_is_there(
    m: Seq<(Seq<char>, JsonView)>,
    key: Seq<char>,
    value: JsonView,
    name: Seq<char>,
)
    ensures
        view_field(JsonView::Obj(inserted(m, key, value)), name) == if name == key {
            Some(value)
        } else {
            view_field(JsonView::Obj(m), name)
        },
    decreases m.len(),
{
    let r = inserted(m, key, value);
    if m.len() == 0 {
        assert(r.drop_first() =~= m);
        reveal_with_fuel(crate::json::view_member, 2);
    } else if m[0].0 == key {
        assert(r.drop_first() =~= m.drop_first());
        view_member_bound(m.drop_first(), name);
    } else if text_before(m[0].0, key) {
        let rest = inserted(m.drop_first(), key, value);
        assert(r.drop_first() =~= rest);
        inserted_is_there(m.drop_first(), key, value, name);
        view_member_bound(m.drop_first(), name);
        view_member_bound(rest, name);
    } else {
        assert(r.drop_first() =~= m);
        view_member_bound(m, name);
    }
}

/// Where a member is found, there is one.
pub proof fn view_member_bound(m: Seq<(Seq<char>, JsonView)>, key: Seq<char>)
    ensures
        crate::json::view_member(m, key) matches Some(i) ==> 0 <= i < m.len(),
    decreases m.len(),
{
    if m.len() > 0 {
        view_member_bound(m.drop_first(), key);
    }
}

proof fn by_name_keeps(m: Seq<(Seq<char>, JsonView)>, key: Seq<char>)
    ensures
        view_field(JsonView::Obj(by_name(m)), key) == last_member(m, key),
    decreases m.len(),
{
    if m.len() > 0 {
        by_name_keeps(m.drop_last(), key);
        inserted_is_there(by_name(m.drop_last()), m.last().0, m.last().1, key);
    }
}

proof fn tidied_members_keep(m: Seq<(Seq<char>, JsonView)>, key: Seq<char>)
    ensures
        last_member(tidied_members(m), key) == match last_member(m, key) {
            Some(v) => Some(tidied(v)),
            None => None,
        },
    decreases m.len(),
{
    if m.len() > 0 {
        let t = tidied_members(m);
        assert(t.drop_last() =~= tidied_members(m.drop_last()));
        tidied_members_keep(m.drop_last(), key);
    }
}

/// What is written of an object has the members of the object, and no others: of each name the
/// last.
pub proof fn members_are_written(m: Seq<(Seq<char>, JsonView)>, key: Seq<char>)
    ensures
        view_field(tidied(JsonView::Obj(m)), key) == match last_member(m, key) {
            Some(v) => Some(tidied(v)),
            None => None,
        },
{
    by_name_keeps(tidied_members(m), key);
    tidied_members_keep(m, key);
}

/// Whether no two members share a name.
pub open spec fn unrepeated(m: Seq<(Seq<char>, JsonView)>) -> bool {
    forall|i: int, j: int| 0 <= i < j < m.len() ==> (#[trigger] m[i]).0 != (#[trigger] m[j]).0
}

proof fn last_is_some_member(m: Seq<(Seq<char>, JsonView)>, key: Seq<char>)
    ensures
        match last_member(m, key) {
            Some(v) => exists|i: int| 0 <= i < m.len() && #[trigger] m[i] == (key, v),
            None => forall|i: int| 0 <= i < m.len() ==> (#[trigger] m[i]).0 != key,
        },
    decreases m.len(),
{
    if m.len() > 0 {
        let n = m.len() - 1;
        if m.last().0 == key {
            assert(m[n] == (key, m.last().1));
        } else {
            last_is_some_member(m.drop_last(), key);
            match last_member(m.drop_last(), key) {
                Some(v) => {
                    let i = choose|i: int|
                        0 <= i < n && #[trigger] m.drop_last()[i] == (key, v);
                    assert(m[i] == (key, v));
                },
                None => {
                    assert forall|i: int| 0 <= i < m.len() implies (#[trigger] m[i]).0 != key by {
                        if i < n {
                            assert(m.drop_last()[i] == m[i]);
                        }
                    }
                },
            }
        }
    }
}

proof fn first_is_some_member(m: Seq<(Seq<char>, JsonView)>, key: Seq<char>)
    ensures
        match view_field(JsonView::Obj(m), key) {
            Some(v) => exists|i: int| 0 <= i < m.len() && #[trigger] m[i] == (key, v),
            None => forall|i: int| 0 <= i < m.len() ==> (#[trigger] m[i]).0 != key,
        },
    decreases m.len(),
{
    if m.len() > 0 {
        let rest = m.drop_first();
        if m[0].0 == key {
            assert(m[0] == (key, m[0].1));
        } else {
            first_is_some_member(rest, key);
            view_member_bound(rest, key);
            match view_field(JsonView::Obj(rest), key) {
                Some(v) => {
                    let i = choose|i: int| 0 <= i < rest.len() && #[trigger] rest[i] == (key, v);
                    assert(m[i + 1] == (key, v));
                },
                None => {
                    assert forall|i: int| 0 <= i < m.len() implies (#[trigger] m[i]).0 != key by {
                        if i > 0 {
                            assert(rest[i - 1] == m[i]);
                        }
                    }
                },
            }
        }
    }
}

/// Where no two members share a name, what is written of an object has each member as it was.
pub proof fn written_members_stay(m: Seq<(Seq<char>, JsonView)>, key: Seq<char>)
    requires
        unrepeated(m),
    ensures
        view_field(tidied(JsonView::Obj(m)), key) == match view_field(JsonView::Obj(m), key) {
            Some(v) => Some(tidied(v)),
            None => None,
        },
{
    members_are_written(m, key);
    last_is_some_member(m, key);
    first_is_some_member(m, key);
}

proof fn inserted_members(m: Seq<(Seq<char>, JsonView)>, key: Seq<char>, value: JsonView, i: int)
    requires
        0 <= i < inserted(m, key, value).len(),
    ensures
        inserted(m, key, value)[i] == (key, value) || exists|j: int|
            0 <= j < m.len() && #[trigger] m[j] == inserted(m, key, value)[i],
    decreases m.len(),
{
    let r = inserted(m, key, value);
    if m.len() > 0 {
        if m[0].0 == key {
            if i > 0 {
                assert(r[i] == m.drop_first()[i - 1]);
                assert(r[i] == m[i]);
            }
        } else if text_before(m[0].0, key) {
            if i > 0 {
                let rest = m.drop_first();
                assert(r[i] == inserted(rest, key, value)[i - 1]);
                inserted_members(rest, key, value, i - 1);
                if r[i] != (key, value) {
                    let j = choose|j: int| 0 <= j < rest.len() && #[trigger] rest[j] == r[i];
                    assert(m[j + 1] == r[i]);
                }
            } else {
                assert(m[0] == r[0]);
            }
        } else if i > 0 {
            assert(r[i] == m[i - 1]);
        }
    }
}

proof fn by_name_members(m: Seq<(Seq<char>, JsonView)>, i: int)
    requires
        0 <= i < by_name(m).len(),
    ensures
        exists|j: int| 0 <= j < m.len() && #[trigger] m[j] == by_name(m)[i],
    decreases m.len(),
{
    if m.len() > 0 {
        let before = by_name(m.drop_last());
        let n = m.len() - 1;
        inserted_members(before, m.last().0, m.last().1, i);
        if by_name(m)[i] == (m.last().0, m.last().1) {
            assert(m[n] == by_name(m)[i]);
        } else {
            let k = choose|k: int| 0 <= k < before.len() && #[trigger] before[k] == by_name(m)[i];
            by_name_members(m.drop_last(), k);
            let j = choose|j: int|
                0 <= j < m.drop_last().len() && #[trigger] m.drop_last()[j] == before[k];
            assert(m[j] == by_name(m)[i]);
        }
    }
}

proof fn tidied_members_at(m: Seq<(Seq<char>, JsonView)>)
    ensures
        tidied_members(m).len() == m.len(),
        forall|i: int|
            0 <= i < m.len() ==> #[trigger] tidied_members(m)[i] == (m[i].0, tidied(m[i].1)),
    decreases m.len(),
{
    if m.len() > 0 {
        tidied_members_at(m.drop_last());
        assert forall|i: int| 0 <= i < m.len() implies #[trigger] tidied_members(m)[i] == (
            m[i].0,
            tidied(m[i].1),
        ) by {
            if i < m.len() - 1 {
                assert(tidied_members(m.drop_last())[i] == tidied_members(m)[i]);
                assert(m.drop_last()[i] == m[i]);
            }
        }
    }
}

proof fn tidied_elements_at(s: Seq<JsonView>)
    ensures
        tidied_elements(s).len() == s.len(),
        forall|i: int| 0 <= i < s.len() ==> #[trigger] tidied_elements(s)[i] == tidied(s[i]),
    decreases s.len(),
{
    if s.len() > 0 {
        tidied_elements_at(s.drop_last());
        assert forall|i: int| 0 <= i < s.len() implies #[trigger] tidied_elements(s)[i] == tidied(
            s[i],
        ) by {
            if i < s.len() - 1 {
                assert(tidied_elements(s.drop_last())[i] == tidied_elements(s)[i]);
                assert(s.drop_last()[i] == s[i]);
            }
        }
    }
}

/// What is simple stays so when it is written.
pub proof fn simple_when_written(v: JsonView, depth: nat)
    requires
        simple(v, depth),
    ensures
        simple(tidied(v), depth),
    decreases depth,
{
    match v {
        JsonView::Arr(s) => {
            let t = tidied_elements(s);
            tidied_elements_at(s);
            assert forall|i: int| 0 <= i < t.len() implies simple(
                #[trigger] t[i],
                (depth - 1) as nat,
            ) by {
                assert(t[i] == tidied(s[i]));
                simple_when_written(s[i], (depth - 1) as nat);
            }
        },
        JsonView::Obj(m) => {
            let all = tidied_members(m);
            let t = by_name(all);
            tidied_members_at(m);
            assert forall|i: int| 0 <= i < t.len() implies ordinary_name((#[trigger] t[i]).0)
                && simple(t[i].1, (depth - 1) as nat) by {
                by_name_members(all, i);
                let j = choose|j: int| 0 <= j < all.len() && #[trigger] all[j] == t[i];
                assert(all[j] == (m[j].0, tidied(m[j].1)));
                simple_when_written(m[j].1, (depth - 1) as nat);
            }
        },
        _ => {},
    }
}

} // verus!
