//! JSON values.

use crate::text::same;
use crate::text::text_of;
use vstd::prelude::*;

verus! {

/// A JSON value. The members of an object stand in order; `Number` keeps a number that is no
/// 64-bit integer as it is written.
#[derive(Debug)]
pub enum Json {
    Null,
    Bool(bool),
    Int(i64),
    Number(String),
    Str(String),
    Arr(Vec<Json>),
    Obj(Vec<(String, Json)>),
}

/// The position of the first member of that name.
pub open spec fn member(m: Seq<(String, Json)>, key: Seq<char>) -> Option<int>
    decreases m.len(),
{
    if m.len() == 0 {
        None
    } else if m[0].0@ == key {
        Some(0)
    } else {
        match member(m.drop_first(), key) {
            Some(i) => Some(i + 1),
            None => None,
        }
    }
}

/// The value of the member of that name.
pub open spec fn field(j: Json, key: Seq<char>) -> Option<Json> {
    match j {
        Json::Obj(m) => match member(m@, key) {
            Some(i) => Some(m@[i].1),
            None => None,
        },
        _ => None,
    }
}

/// The text of a JSON string.
pub open spec fn text_value(j: Json) -> Option<Seq<char>> {
    match j {
        Json::Str(s) => Some(s@),
        _ => None,
    }
}

/// The text of the member of that name, where it is a string.
pub open spec fn text_field(j: Json, key: Seq<char>) -> Option<Seq<char>> {
    match field(j, key) {
        Some(v) => text_value(v),
        None => None,
    }
}

/// The integer of the member of that name, where it is one.
pub open spec fn int_field(j: Json, key: Seq<char>) -> Option<i64> {
    match field(j, key) {
        Some(Json::Int(n)) => Some(n),
        _ => None,
    }
}

/// The truth value of the member of that name, where it is one.
pub open spec fn bool_field(j: Json, key: Seq<char>) -> Option<bool> {
    match field(j, key) {
        Some(Json::Bool(b)) => Some(b),
        _ => None,
    }
}

/// Finding a member after skipping some that are not it.
pub proof fn member_bound(m: Seq<(String, Json)>, key: Seq<char>)
    ensures
        member(m, key) matches Some(i) ==> 0 <= i < m.len() && m[i].0@ == key && forall|k: int|
            0 <= k < i ==> (#[trigger] m[k]).0@ != key,
        member(m, key) is None ==> forall|k: int| 0 <= k < m.len() ==> (#[trigger] m[k]).0@ != key,
    decreases m.len(),
{
    if m.len() > 0 && m[0].0@ != key {
        member_bound(m.drop_first(), key);
        assert forall|k: int| 0 < k < m.len() implies m[k] == m.drop_first()[k - 1] by {}
        match member(m.drop_first(), key) {
            Some(i) => {
                assert forall|k: int| 0 <= k < i + 1 implies (#[trigger] m[k]).0@ != key by {
                    if k > 0 {
                        assert(m[k] == m.drop_first()[k - 1]);
                    }
                }
            },
            None => {
                assert forall|k: int| 0 <= k < m.len() implies (#[trigger] m[k]).0@ != key by {
                    if k > 0 {
                        assert(m[k] == m.drop_first()[k - 1]);
                    }
                }
            },
        }
    }
}

impl Json {
    /// The value of the member of that name.
    pub fn get(&self, key: &str) -> (r: Option<&Json>)
        ensures
            match r {
                Some(v) => field(*self, key@) == Some(*v),
                None => field(*self, key@) is None,
            },
    {
        match self {
            Json::Obj(m) => {
                let mut i: usize = 0;
                proof {
                    member_bound(m@, key@);
                }
                while i < m.len()
                    invariant
                        i <= m@.len(),
                        *self == Json::Obj(*m),
                        forall|k: int| 0 <= k < i ==> (#[trigger] m@[k]).0@ != key@,
                    decreases m@.len() - i,
                {
                    if same(m[i].0.as_str(), key) {
                        proof {
                            member_bound(m@, key@);
                        }
                        return Some(&m[i].1);
                    }
                    i += 1;
                }
                None
            },
            _ => None,
        }
    }

    /// The text, where the value is a string.
    pub fn as_text(&self) -> (r: Option<String>)
        ensures
            text_of(r) == text_value(*self),
    {
        match self {
            Json::Str(s) => Some(s.clone()),
            _ => None,
        }
    }

    /// Whether the value is an object.
    pub fn is_object(&self) -> (r: bool)
        ensures
            r == (*self is Obj),
    {
        match self {
            Json::Obj(_) => true,
            _ => false,
        }
    }

    /// Whether the value is null.
    pub fn is_null(&self) -> (r: bool)
        ensures
            r == (*self is Null),
    {
        match self {
            Json::Null => true,
            _ => false,
        }
    }

    /// The text of the member of that name, where it is a string.
    pub fn text_at(&self, key: &str) -> (r: Option<String>)
        ensures
            text_of(r) == text_field(*self, key@),
    {
        match self.get(key) {
            Some(v) => v.as_text(),
            None => None,
        }
    }

    /// The integer of the member of that name, where it is one.
    pub fn int_at(&self, key: &str) -> (r: Option<i64>)
        ensures
            r == int_field(*self, key@),
    {
        match self.get(key) {
            Some(v) => match v {
                Json::Int(n) => Some(*n),
                _ => None,
            },
            None => None,
        }
    }

    /// The truth value of the member of that name, or the default where it is none.
    pub fn bool_at(&self, key: &str, default: bool) -> (r: bool)
        ensures
            r == match bool_field(*self, key@) {
                Some(b) => b,
                None => default,
            },
    {
        match self.get(key) {
            Some(v) => match v {
                Json::Bool(b) => *b,
                _ => default,
            },
            None => default,
        }
    }
}

/// A JSON value over plain text.
pub enum JsonView {
    Null,
    Bool(bool),
    Int(i64),
    Number(Seq<char>),
    Str(Seq<char>),
    Arr(Seq<JsonView>),
    Obj(Seq<(Seq<char>, JsonView)>),
}

/// A value over plain text.
pub open spec fn view_of(j: Json) -> JsonView
    decreases j,
{
    match j {
        Json::Null => JsonView::Null,
        Json::Bool(b) => JsonView::Bool(b),
        Json::Int(n) => JsonView::Int(n),
        Json::Number(s) => JsonView::Number(s@),
        Json::Str(s) => JsonView::Str(s@),
        Json::Arr(v) => JsonView::Arr(arr_view(v@)),
        Json::Obj(m) => JsonView::Obj(obj_view(m@)),
    }
}

/// The elements of an array over plain text.
pub open spec fn arr_view(v: Seq<Json>) -> Seq<JsonView>
    decreases v,
{
    if v.len() == 0 {
        Seq::empty()
    } else {
        arr_view(v.drop_last()).push(view_of(v.last()))
    }
}

/// The members of an object over plain text.
pub open spec fn obj_view(m: Seq<(String, Json)>) -> Seq<(Seq<char>, JsonView)>
    decreases m,
{
    if m.len() == 0 {
        Seq::empty()
    } else {
        obj_view(m.drop_last()).push((m.last().0@, view_of(m.last().1)))
    }
}

/// No members yet.
pub open spec fn members() -> Seq<(Seq<char>, JsonView)> {
    Seq::empty()
}

/// No elements yet.
pub open spec fn elements() -> Seq<JsonView> {
    Seq::empty()
}

impl View for Json {
    type V = JsonView;

    open spec fn view(&self) -> JsonView {
        view_of(*self)
    }
}

/// Adds a member to an object.
pub fn put(m: &mut Vec<(String, Json)>, key: &str, value: Json)
    ensures
        obj_view(final(m)@) == obj_view(old(m)@).push((key@, view_of(value))),
{
    m.push((key.to_owned(), value));
    assert(m@.drop_last() == old(m)@);
}

/// Adds a text to an object.
pub fn put_text(m: &mut Vec<(String, Json)>, key: &str, value: &str)
    ensures
        obj_view(final(m)@) == obj_view(old(m)@).push((key@, JsonView::Str(value@))),
{
    put(m, key, Json::Str(value.to_owned()));
}

/// A text or null.
pub open spec fn opt_text(o: Option<Seq<char>>) -> JsonView {
    match o {
        Some(t) => JsonView::Str(t),
        None => JsonView::Null,
    }
}

/// A number or null.
pub open spec fn opt_int(o: Option<i64>) -> JsonView {
    match o {
        Some(n) => JsonView::Int(n),
        None => JsonView::Null,
    }
}

/// Adds a text, or null for none, to an object.
pub fn put_opt_text(m: &mut Vec<(String, Json)>, key: &str, value: &Option<String>)
    ensures
        obj_view(final(m)@) == obj_view(old(m)@).push((key@, opt_text(text_of(*value)))),
{
    match value {
        Some(t) => put(m, key, Json::Str(t.clone())),
        None => put(m, key, Json::Null),
    }
}

/// Adds a number, or null for none, to an object.
pub fn put_opt_int(m: &mut Vec<(String, Json)>, key: &str, value: &Option<i64>)
    ensures
        obj_view(final(m)@) == obj_view(old(m)@).push((key@, opt_int(*value))),
{
    match value {
        Some(n) => put(m, key, Json::Int(*n)),
        None => put(m, key, Json::Null),
    }
}

/// Adds an element to an array.
pub fn add_element(v: &mut Vec<Json>, value: Json)
    ensures
        arr_view(final(v)@) == arr_view(old(v)@).push(view_of(value)),
{
    v.push(value);
    assert(v@.drop_last() == old(v)@);
}

/// A copy of a value.
pub fn copy(j: &Json) -> (r: Json)
    ensures
        view_of(r) == view_of(*j),
    decreases *j,
{
    match j {
        Json::Null => Json::Null,
        Json::Bool(b) => Json::Bool(*b),
        Json::Int(n) => Json::Int(*n),
        Json::Number(s) => Json::Number(s.clone()),
        Json::Str(s) => Json::Str(s.clone()),
        Json::Arr(v) => {
            let mut out: Vec<Json> = Vec::new();
            let mut i: usize = 0;
            while i < v.len()
                invariant
                    *j == Json::Arr(*v),
                    i <= v@.len(),
                    arr_view(out@) == arr_view(v@.take(i as int)),
                decreases v@.len() - i,
            {
                assert(v@.take(i + 1).drop_last() == v@.take(i as int));
                assert(decreases_to!(*j => j->Arr_0));
                assert(decreases_to!(*v => v@));
                assert(decreases_to!(v@ => v@[i as int]));
                let c = copy(&v[i]);
                add_element(&mut out, c);
                i += 1;
            }
            assert(v@.take(i as int) == v@);
            Json::Arr(out)
        },
        Json::Obj(m) => {
            let mut out: Vec<(String, Json)> = Vec::new();
            let mut i: usize = 0;
            while i < m.len()
                invariant
                    *j == Json::Obj(*m),
                    i <= m@.len(),
                    obj_view(out@) == obj_view(m@.take(i as int)),
                decreases m@.len() - i,
            {
                assert(m@.take(i + 1).drop_last() == m@.take(i as int));
                assert(decreases_to!(*j => j->Obj_0));
                assert(decreases_to!(*m => m@));
                assert(decreases_to!(m@ => m@[i as int]));
                assert(decreases_to!(m@[i as int] => m@[i as int].1));
                let c = copy(&m[i].1);
                put(&mut out, m[i].0.as_str(), c);
                i += 1;
            }
            assert(m@.take(i as int) == m@);
            Json::Obj(out)
        },
    }
}

/// The position of the first member of that name.
pub open spec fn view_member(m: Seq<(Seq<char>, JsonView)>, key: Seq<char>) -> Option<int>
    decreases m.len(),
{
    if m.len() == 0 {
        None
    } else if m[0].0 == key {
        Some(0)
    } else {
        match view_member(m.drop_first(), key) {
            Some(i) => Some(i + 1),
            None => None,
        }
    }
}

/// The value of the member of that name.
pub open spec fn view_field(v: JsonView, key: Seq<char>) -> Option<JsonView> {
    match v {
        JsonView::Obj(m) => match view_member(m, key) {
            Some(i) => Some(m[i].1),
            None => None,
        },
        _ => None,
    }
}

proof fn obj_view_at(m: Seq<(String, Json)>)
    ensures
        obj_view(m).len() == m.len(),
        forall|i: int|
            0 <= i < m.len() ==> #[trigger] obj_view(m)[i] == (m[i].0@, view_of(m[i].1)),
    decreases m.len(),
{
    if m.len() > 0 {
        obj_view_at(m.drop_last());
        assert forall|i: int| 0 <= i < m.len() implies #[trigger] obj_view(m)[i] == (
            m[i].0@,
            view_of(m[i].1),
        ) by {
            if i < m.len() - 1 {
                assert(obj_view(m.drop_last())[i] == obj_view(m)[i]);
                assert(m.drop_last()[i] == m[i]);
            }
        }
    }
}

proof fn member_of_view(m: Seq<(String, Json)>, key: Seq<char>)
    ensures
        view_member(obj_view(m), key) == member(m, key),
    decreases m.len(),
{
    obj_view_at(m);
    if m.len() > 0 {
        assert(obj_view(m)[0] == (m[0].0@, view_of(m[0].1)));
        obj_view_at(m.drop_first());
        assert(obj_view(m).drop_first() =~= obj_view(m.drop_first())) by {
            assert forall|i: int| 0 <= i < m.len() - 1 implies obj_view(m).drop_first()[i]
                == obj_view(m.drop_first())[i] by {
                assert(obj_view(m)[i + 1] == (m[i + 1].0@, view_of(m[i + 1].1)));
                assert(m.drop_first()[i] == m[i + 1]);
            }
        }
        member_of_view(m.drop_first(), key);
    }
}

/// The members of a value are those of what it is over plain text.
pub proof fn field_of_view(j: Json, key: Seq<char>)
    ensures
        view_field(view_of(j), key) == match field(j, key) {
            Some(v) => Some(view_of(v)),
            None => None,
        },
{
    if let Json::Obj(m) = j {
        member_of_view(m@, key);
        obj_view_at(m@);
        member_bound(m@, key);
        if let Some(i) = member(m@, key) {
            assert(obj_view(m@)[i] == (m@[i].0@, view_of(m@[i].1)));
        }
    }
}

/// The members of an object of two.
pub proof fn two_members(a: Seq<char>, x: JsonView, b: Seq<char>, y: JsonView)
    requires
        a != b,
    ensures
        view_field(JsonView::Obj(members().push((a, x)).push((b, y))), a) == Some(x),
        view_field(JsonView::Obj(members().push((a, x)).push((b, y))), b) == Some(y),
{
    let m = members().push((a, x)).push((b, y));
    assert(m[0] == (a, x));
    assert(m.drop_first() =~= members().push((b, y)));
    assert(m.drop_first()[0] == (b, y));
    reveal_with_fuel(view_member, 2);
}

/// A field of a record: the member of that name or, where the record is written as an array, the
/// element at that place.
pub open spec fn slot(j: Json, key: Seq<char>, place: int) -> Option<Json> {
    match j {
        Json::Arr(v) => if 0 <= place < v@.len() {
            Some(v@[place])
        } else {
            None
        },
        _ => field(j, key),
    }
}

/// The text of a field of a record, where it is a string.
pub open spec fn text_slot(j: Json, key: Seq<char>, place: int) -> Option<Seq<char>> {
    match slot(j, key, place) {
        Some(v) => text_value(v),
        None => None,
    }
}

/// Whether a value can be a record of so many fields: an array has as many elements, or lacks
/// those at the end that need not be there.
pub open spec fn is_record(j: Json, least: int, most: int) -> bool {
    match j {
        Json::Arr(v) => least <= v@.len() <= most,
        Json::Obj(_) => true,
        _ => false,
    }
}

/// A field of a record over plain text.
pub open spec fn view_slot(v: JsonView, key: Seq<char>, place: int) -> Option<JsonView> {
    match v {
        JsonView::Arr(s) => if 0 <= place < s.len() {
            Some(s[place])
        } else {
            None
        },
        _ => view_field(v, key),
    }
}

proof fn arr_view_at(v: Seq<Json>)
    ensures
        arr_view(v).len() == v.len(),
        forall|i: int| 0 <= i < v.len() ==> #[trigger] arr_view(v)[i] == view_of(v[i]),
    decreases v.len(),
{
    if v.len() > 0 {
        arr_view_at(v.drop_last());
        assert forall|i: int| 0 <= i < v.len() implies #[trigger] arr_view(v)[i] == view_of(
            v[i],
        ) by {
            if i < v.len() - 1 {
                assert(arr_view(v.drop_last())[i] == arr_view(v)[i]);
                assert(v.drop_last()[i] == v[i]);
            }
        }
    }
}

/// The fields of a record are those of what it is over plain text.
pub proof fn slot_of_view(j: Json, key: Seq<char>, place: int)
    ensures
        view_slot(view_of(j), key, place) == match slot(j, key, place) {
            Some(v) => Some(view_of(v)),
            None => None,
        },
        view_of(j) matches JsonView::Arr(s) ==> j matches Json::Arr(v) && s.len() == v@.len(),
{
    field_of_view(j, key);
    if let Json::Arr(v) = j {
        arr_view_at(v@);
        if 0 <= place < v@.len() {
            assert(arr_view(v@)[place] == view_of(v@[place]));
        }
    }
}

impl Json {
    /// A field of a record.
    pub fn slot_at(&self, key: &str, place: usize) -> (r: Option<&Json>)
        ensures
            match r {
                Some(v) => slot(*self, key@, place as int) == Some(*v),
                None => slot(*self, key@, place as int) is None,
            },
    {
        match self {
            Json::Arr(v) => if place < v.len() {
                Some(&v[place])
            } else {
                None
            },
            _ => self.get(key),
        }
    }

    /// The text of a field of a record, where it is a string.
    pub fn text_slot_at(&self, key: &str, place: usize) -> (r: Option<String>)
        ensures
            text_of(r) == text_slot(*self, key@, place as int),
    {
        match self.slot_at(key, place) {
            Some(v) => v.as_text(),
            None => None,
        }
    }

    /// Whether a value can be a record of so many fields.
    pub fn can_be_record(&self, least: usize, most: usize) -> (r: bool)
        ensures
            r == is_record(*self, least as int, most as int),
    {
        match self {
            Json::Arr(v) => least <= v.len() && v.len() <= most,
            Json::Obj(_) => true,
            _ => false,
        }
    }
}

} // verus!
