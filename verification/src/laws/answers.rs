//! The model: what it is asked, and what is taken from its answers.

use crate::config::CategoryDef;
use crate::json::arr_view;
use crate::json::field;
use crate::json::Json;
use crate::json::JsonView;
use crate::json::view_field;
use crate::json_text::json_told;
use crate::laws::only_space;
use crate::laws::trimming_takes_the_white_space;
use crate::laws::what_is_blank;
use crate::llm::answered_category;
use crate::llm::answered_intent;
use crate::llm::answered_todo;
use crate::llm::Asked;
use crate::llm::call_json_view;
use crate::llm::call_read;
use crate::llm::CallView;
use crate::llm::calls_read;
use crate::llm::chat_url;
use crate::llm::ChatMessage;
use crate::llm::choice_read;
use crate::llm::choices_read;
use crate::llm::classified;
use crate::llm::CUT_MARK;
use crate::llm::json_object;
use crate::llm::message_view;
use crate::llm::object_end;
use crate::llm::request_view;
use crate::llm::response_read;
use crate::llm::tidied;
use crate::llm::told_category;
use crate::llm::truncated;
use crate::model::ReplyIntent;
use crate::model::TodoView;
use crate::text::lower_text;
use crate::text::space;
use crate::text::strip_back;
use crate::text::trimmed;
use crate::time::rfc3339_moment;
use vstd::prelude::*;

verus! {

/// A text that is too long keeps as many characters as there may be and ends with the mark; a
/// shorter one stays.
pub proof fn long_texts_are_cut(s: Seq<char>, n: int, mark: Seq<char>)
    requires
        0 <= n,
    ensures
        s.len() <= n ==> truncated(s, n, mark) == s,
        s.len() > n ==> truncated(s, n, mark).len() == n + mark.len(),
        s.len() > n ==> forall|i: int|
            0 <= i < n ==> #[trigger] truncated(s, n, mark)[i] == s[i],
        s.len() > n ==> forall|i: int|
            0 <= i < mark.len() ==> truncated(s, n, mark)[n + i] == #[trigger] mark[i],
        CUT_MARK@ == "\n…[截断]"@,
{
}

/// Whether there is nothing between two places that opens or closes something.
pub open spec fn calm(s: Seq<char>, from: int, to: int) -> bool {
    forall|i: int|
        from < i < to ==> #[trigger] s[i] != '{' && s[i] != '}' && s[i] != '"'
}

/// Whether there is nothing between two places that ends a string.
pub open spec fn silent(s: Seq<char>, from: int, to: int) -> bool {
    forall|i: int| from < i < to ==> #[trigger] s[i] != '"' && s[i] != '\\'
}

proof fn calm_is_passed(s: Seq<char>, from: int, to: int, depth: nat)
    requires
        0 <= from <= to <= s.len(),
        calm(s, from - 1, to),
    ensures
        object_end(s, from, depth, false, false) == object_end(s, to, depth, false, false),
    decreases to - from,
{
    if from < to {
        assert(s[from] != '{' && s[from] != '}' && s[from] != '"');
        calm_is_passed(s, from + 1, to, depth);
    }
}

proof fn silence_is_passed(s: Seq<char>, from: int, to: int, depth: nat)
    requires
        0 <= from <= to <= s.len(),
        silent(s, from - 1, to),
    ensures
        object_end(s, from, depth, true, false) == object_end(s, to, depth, true, false),
    decreases to - from,
{
    if from < to {
        assert(s[from] != '"' && s[from] != '\\');
        silence_is_passed(s, from + 1, to, depth);
    }
}

/// An object ends where its own brace closes.
pub proof fn simple_objects_are_found(x: Seq<char>, t: Seq<char>, y: Seq<char>, a: int, z: int)
    requires
        only_space(x) && only_space(y),
        0 <= a < z < t.len(),
        !space(t[0]) && !space(t.last()),
        forall|i: int| 0 <= i < a ==> #[trigger] t[i] != '{',
        t[a] == '{',
        calm(t, a, z),
        t[z] == '}',
    ensures
        json_object(x + t + y) == t.subrange(a, z + 1),
{
    trimming_takes_the_white_space(x, t, y);
    first_is_found(t, a);
    calm_is_passed(t, a + 1, z, 1);
    assert(object_end(t, a, 0, false, false) == object_end(t, a + 1, 1, false, false));
    assert(object_end(t, z, 1, false, false) == Some(z));
}

/// An object ends where its own brace closes: not at that of an object in it, nor at a brace in a
/// string, which does not end at a quotation mark after a backslash.
pub proof fn nested_objects_are_found(
    t: Seq<char>,
    a: int,
    b: int,
    c: int,
    q: int,
    e: int,
    r: int,
    z: int,
)
    requires
        0 <= a < b < c < q < e < e + 1 < r < z < t.len(),
        !space(t[0]) && !space(t.last()),
        forall|i: int| 0 <= i < a ==> #[trigger] t[i] != '{',
        t[a] == '{' && calm(t, a, b),
        t[b] == '{' && calm(t, b, c),
        t[c] == '}' && calm(t, c, q),
        t[q] == '"' && silent(t, q, e),
        t[e] == '\\' && silent(t, e + 1, r),
        t[r] == '"' && calm(t, r, z),
        t[z] == '}',
    ensures
        json_object(t) == t.subrange(a, z + 1),
{
    let nothing = Seq::<char>::empty();
    trimming_takes_the_white_space(nothing, t, nothing);
    assert(nothing + t + nothing =~= t);
    first_is_found(t, a);
    assert(object_end(t, a, 0, false, false) == object_end(t, a + 1, 1, false, false));
    calm_is_passed(t, a + 1, b, 1);
    assert(object_end(t, b, 1, false, false) == object_end(t, b + 1, 2, false, false));
    calm_is_passed(t, b + 1, c, 2);
    assert(object_end(t, c, 2, false, false) == object_end(t, c + 1, 1, false, false));
    calm_is_passed(t, c + 1, q, 1);
    assert(object_end(t, q, 1, false, false) == object_end(t, q + 1, 1, true, false));
    silence_is_passed(t, q + 1, e, 1);
    assert(object_end(t, e, 1, true, false) == object_end(t, e + 1, 1, true, true));
    assert(object_end(t, e + 1, 1, true, true) == object_end(t, e + 2, 1, true, false));
    silence_is_passed(t, e + 2, r, 1);
    assert(object_end(t, r, 1, true, false) == object_end(t, r + 1, 1, false, false));
    calm_is_passed(t, r + 1, z, 1);
    assert(object_end(t, z, 1, false, false) == Some(z));
}

/// A text without an object is taken as it is, without the white space around it; so is one whose
/// object is not closed.
pub proof fn texts_without_objects(x: Seq<char>, t: Seq<char>, y: Seq<char>, a: int)
    requires
        only_space(x) && only_space(y),
        t.len() > 0,
        !space(t[0]) && !space(t.last()),
        0 <= a <= t.len(),
        forall|i: int| 0 <= i < a ==> #[trigger] t[i] != '{',
        a < t.len() ==> t[a] == '{' && calm(t, a, t.len() as int),
    ensures
        json_object(x + t + y) == t,
{
    trimming_takes_the_white_space(x, t, y);
    t.index_of_first_ensures('{');
    t.index_of_last_ensures('}');
    if a < t.len() {
        first_is_found(t, a);
        calm_is_passed(t, a + 1, t.len() as int, 1);
        assert(object_end(t, a, 0, false, false) == object_end(t, a + 1, 1, false, false));
        assert(object_end(t, a, 0, false, false) is None);
        match t.index_of_last('}') {
            Some(b) => {
                assert(t[b] == '}');
                assert(b < a);
            },
            None => {},
        }
    } else {
        match t.index_of_first('{') {
            Some(i) => {
                assert(t[i] == '{');
            },
            None => {},
        }
    }
}

proof fn first_is_found(t: Seq<char>, a: int)
    requires
        0 <= a < t.len(),
        t[a] == '{',
        forall|i: int| 0 <= i < a ==> #[trigger] t[i] != '{',
    ensures
        t.index_of_first('{') == Some(a),
{
    t.index_of_first_ensures('{');
    assert(t.contains(t[a]));
    let i = t.index_of_first('{')->0;
    assert(t[i] == '{');
}

/// The model is asked at one place under its address, whether slashes end that or not.
pub proof fn where_the_model_is(base: Seq<char>, slashes: Seq<char>)
    requires
        base.len() > 0 ==> base.last() != '/',
        forall|i: int| 0 <= i < slashes.len() ==> #[trigger] slashes[i] == '/',
    ensures
        chat_url(base + slashes) == base + "/chat/completions"@,
{
    slashes_go(base, slashes);
}

proof fn slashes_go(base: Seq<char>, slashes: Seq<char>)
    requires
        base.len() > 0 ==> base.last() != '/',
        forall|i: int| 0 <= i < slashes.len() ==> #[trigger] slashes[i] == '/',
    ensures
        strip_back(base + slashes, '/') == base,
    decreases slashes.len(),
{
    if slashes.len() > 0 {
        assert((base + slashes).last() == slashes[slashes.len() - 1]);
        assert((base + slashes).drop_last() =~= base + slashes.drop_last());
        slashes_go(base, slashes.drop_last());
    } else {
        assert(base + slashes =~= base);
    }
}

/// What is asked names the model and hands over the messages in order; with tools, it hands them
/// over, and without them it asks for an answer in JSON.
pub proof fn what_the_model_is_asked(
    model: Seq<char>,
    messages: Seq<ChatMessage>,
    tools: Option<Vec<Json>>,
)
    ensures
        request_view(model, messages, tools) matches JsonView::Obj(m) && m.len() == 4 && m[0] == (
            "model"@,
            JsonView::Str(model),
        ) && m[1].0 == "messages"@ && (m[1].1 matches JsonView::Arr(list) && list.len()
            == messages.len() && forall|i: int|
            0 <= i < list.len() ==> #[trigger] list[i] == message_view(messages[i])) && m[2] == (
            "temperature"@,
            JsonView::Number("0.1"@),
        ) && (match tools {
            Some(t) => m[3] == ("tools"@, JsonView::Arr(arr_view(t@))),
            None => m[3].0 == "response_format"@ && (m[3].1 matches JsonView::Obj(f) && f.len() == 1
                && f[0] == ("type"@, JsonView::Str("json_object"@))),
        }),
{
}

/// A message tells who speaks, then what, the calls and the call that is answered, each where it is
/// there.
pub proof fn what_messages_tell(m: ChatMessage)
    ensures
        message_view(m) matches JsonView::Obj(v) && v.len() == 1 + (if m.content is Some {
            1int
        } else {
            0
        }) + (if m.tool_calls is Some {
            1int
        } else {
            0
        }) + (if m.tool_call_id is Some {
            1int
        } else {
            0
        }) && v[0] == ("role"@, JsonView::Str(m.role@)) && (m.content is Some ==> v[1] == (
            "content"@,
            JsonView::Str(m.content->0@),
        )) && (m.tool_call_id is Some ==> v.last() == (
            "tool_call_id"@,
            JsonView::Str(m.tool_call_id->0@),
        )) && (m.tool_calls is Some ==> exists|k: int|
            1 <= k < v.len() && (#[trigger] v[k]).0 == "tool_calls"@ && (v[k].1 matches JsonView::Arr(
                list,
            ) && list.len() == m.tool_calls->0@.len() && forall|i: int|
                0 <= i < list.len() ==> #[trigger] list[i] == call_json_view(
                    m.tool_calls->0@[i],
                ))),
{
    let v = message_view(m)->Obj_0;
    if m.tool_calls is Some {
        let k: int = if m.content is Some {
            2
        } else {
            1
        };
        assert(v[k].0 == "tool_calls"@);
    }
}

/// Whether a value is the text.
pub open spec fn is_text(j: Option<Json>, t: Seq<char>) -> bool {
    j matches Some(Json::Str(s)) && s@ == t
}

/// A call in an answer is read as the tool and the arguments that it names.
pub proof fn calls_are_read(
    m: Vec<(String, Json)>,
    f: Vec<(String, Json)>,
    id: Seq<char>,
    typ: Seq<char>,
    name: Seq<char>,
    arguments: Seq<char>,
)
    requires
        field(Json::Obj(m), "function"@) == Some(Json::Obj(f)),
    ensures
        call_read(Json::Obj(m)) == Some((id, typ, name, arguments)) <==> is_text(
            field(Json::Obj(m), "id"@),
            id,
        ) && is_text(field(Json::Obj(m), "type"@), typ) && is_text(
            field(Json::Obj(f), "name"@),
            name,
        ) && is_text(field(Json::Obj(f), "arguments"@), arguments),
{
}

/// All calls are read, in order, or none.
pub proof fn all_calls_are_read(v: Seq<Json>)
    ensures
        calls_read(v) is Some <==> forall|i: int|
            0 <= i < v.len() ==> call_read(#[trigger] v[i]) is Some,
        calls_read(v) matches Some(s) ==> s.len() == v.len() && forall|i: int|
            0 <= i < v.len() ==> call_read(#[trigger] v[i]) == Some(s[i]),
    decreases v.len(),
{
    if v.len() > 0 {
        let front = v.drop_last();
        let last = v.len() - 1;
        all_calls_are_read(front);
        assert(v.last() == v[last]);
        if calls_read(v) is Some {
            let s = calls_read(v)->0;
            let t = calls_read(front)->0;
            assert forall|i: int| 0 <= i < v.len() implies call_read(#[trigger] v[i]) == Some(s[i]) by {
                if i < last {
                    assert(call_read(front[i]) == Some(t[i]));
                }
            }
        } else if calls_read(front) is None {
            let i = choose|i: int| 0 <= i < front.len() && call_read(#[trigger] front[i]) is None;
            assert(call_read(v[i]) is None);
        } else {
            assert(call_read(v[last]) is None);
        }
    }
}

/// All answers are read, in order, or none.
pub proof fn all_answers_are_read(v: Seq<Json>)
    ensures
        choices_read(v) is Some <==> forall|i: int|
            0 <= i < v.len() ==> choice_read(#[trigger] v[i]) is Some,
        choices_read(v) matches Some(s) ==> s.len() == v.len() && forall|i: int|
            0 <= i < v.len() ==> choice_read(#[trigger] v[i]) == Some(s[i]),
    decreases v.len(),
{
    if v.len() > 0 {
        let front = v.drop_last();
        let last = v.len() - 1;
        all_answers_are_read(front);
        assert(v.last() == v[last]);
        if choices_read(v) is Some {
            let s = choices_read(v)->0;
            let t = choices_read(front)->0;
            assert forall|i: int| 0 <= i < v.len() implies choice_read(#[trigger] v[i]) == Some(s[i]) by {
                if i < last {
                    assert(choice_read(front[i]) == Some(t[i]));
                }
            }
        } else if choices_read(front) is None {
            let i = choose|i: int| 0 <= i < front.len() && choice_read(#[trigger] front[i]) is None;
            assert(choice_read(v[i]) is None);
        } else {
            assert(choice_read(v[last]) is None);
        }
    }
}

/// An answer is read with its text and the calls in it, each of which may be missing; what stands
/// in their place must be a text and calls.
pub proof fn answers_are_read(m: Vec<(String, Json)>, msg: Vec<(String, Json)>, top: Vec<(String, Json)>)
    requires
        field(Json::Obj(m), "message"@) == Some(Json::Obj(msg)),
        field(Json::Obj(m), "finish_reason"@) is None,
    ensures
        field(Json::Obj(msg), "content"@) matches Some(Json::Str(t)) ==> field(
            Json::Obj(msg),
            "tool_calls"@,
        ) is None ==> choice_read(Json::Obj(m)) == Some(
            (Some(t@), None::<Seq<CallView>>, None::<Seq<char>>),
        ),
        field(Json::Obj(msg), "content"@) is None ==> (field(Json::Obj(msg), "tool_calls"@) matches Some(
            Json::Arr(v),
        ) ==> (choice_read(Json::Obj(m)) is Some <==> calls_read(v@) is Some) && (calls_read(
            v@,
        ) is Some ==> choice_read(Json::Obj(m)) == Some(
            (None::<Seq<char>>, Some(calls_read(v@)->0), None::<Seq<char>>),
        ))),
        field(Json::Obj(msg), "content"@) matches Some(x) ==> !(x is Str) && !(x is Null)
            ==> choice_read(Json::Obj(m)) is None,
        field(Json::Obj(top), "choices"@) matches Some(Json::Arr(v)) ==> response_read(
            Json::Obj(top),
        ) == choices_read(v@),
        field(Json::Obj(top), "choices"@) is None ==> response_read(Json::Obj(top)) is None,
{
}

/// The category that is named is that in the answer as a whole, or else that in the object in it.
pub proof fn where_a_category_is_named(content: Seq<char>, m: Seq<(Seq<char>, JsonView)>, t: Seq<char>)
    ensures
        json_told(content) == Ok::<JsonView, Seq<char>>(JsonView::Obj(m)) && view_field(
            JsonView::Obj(m),
            "category"@,
        ) == Some(JsonView::Str(t)) ==> told_category(content) == Some(t),
        json_told(content) is Err && json_told(json_object(content)) == Ok::<
            JsonView,
            Seq<char>,
        >(JsonView::Obj(m)) && view_field(JsonView::Obj(m), "category"@) == Some(
            JsonView::Str(t),
        ) ==> told_category(content) == Some(t),
        json_told(content) is Err && json_told(json_object(content)) is Err ==> told_category(
            content,
        ) is None,
{
}

/// A category that is named is taken where it is configured, without the white space around it.
/// Otherwise the model is asked once more; then it is the one for the rest, and nothing where the
/// answer cannot be read.
pub proof fn which_category_is_taken(
    r: Asked<String>,
    second: bool,
    x: Seq<char>,
    t: Seq<char>,
    y: Seq<char>,
    categories: Seq<CategoryDef>,
)
    requires
        only_space(x) && only_space(y),
        t.len() > 0 ==> !space(t[0]) && !space(t.last()),
    ensures
        (exists|i: int| 0 <= i < categories.len() && (#[trigger] categories[i]).id@ == t)
            ==> classified(r, second, Some(x + t + y), categories) == (r is Take && r->Take_0@ == t),
        !(exists|i: int| 0 <= i < categories.len() && (#[trigger] categories[i]).id@ == t)
            ==> classified(r, true, Some(x + t + y), categories) == (r is Take && r->Take_0@
            == "misc"@),
        !(exists|i: int| 0 <= i < categories.len() && (#[trigger] categories[i]).id@ == t)
            ==> classified(r, false, Some(x + t + y), categories) == (r is Again),
        classified(r, false, None, categories) == (r is Again),
        classified(r, true, None, categories) == (r is Fail),
{
    trimming_takes_the_white_space(x, t, y);
}

/// A reply is taken to say that all is done or that there is to be silence exactly where the model
/// says so, in letters of either case; anything else is unclear.
pub proof fn what_a_reply_is_taken_for(m: Vec<(String, Json)>, s: String)
    requires
        field(Json::Obj(m), "intent"@) == Some(Json::Str(s)),
    ensures
        answered_intent(Some(Json::Obj(m))) == ReplyIntent::Done <==> lower_text(trimmed(s@))
            == "done"@,
        answered_intent(Some(Json::Obj(m))) == ReplyIntent::Silent <==> lower_text(trimmed(s@))
            == "silent"@,
        answered_intent(None) == ReplyIntent::Unclear,
{
    reveal_strlit("done");
    reveal_strlit("silent");
    assert("done"@.len() != "silent"@.len());
}

/// What the model says of something to do is taken from the fields of these names; those that have
/// to be there must be texts.
pub proof fn what_is_to_be_done(m: Vec<(String, Json)>, party: String, event: String, title: String)
    requires
        field(Json::Obj(m), "party"@) == Some(Json::Str(party)),
        field(Json::Obj(m), "event"@) == Some(Json::Str(event)),
        field(Json::Obj(m), "title"@) == Some(Json::Str(title)),
    ensures
        answered_todo(Json::Obj(m)) matches Some(t) ==> {
            &&& t.0 == party@
            &&& t.1 == event@
            &&& t.2 == title@
            &&& field(Json::Obj(m), "deadline"@) matches Some(Json::Str(d)) ==> t.3 == Some(d@)
            &&& field(Json::Obj(m), "deadline"@) is None ==> t.3 is None
            &&& field(Json::Obj(m), "deadline"@) == Some(Json::Null) ==> t.3 is None
            &&& field(Json::Obj(m), "category"@) matches Some(Json::Str(c)) ==> t.4 == Some(c@)
            &&& field(Json::Obj(m), "category"@) is None ==> t.4 is None
            &&& field(Json::Obj(m), "notes"@) matches Some(Json::Str(n)) ==> t.5 == n@
            &&& field(Json::Obj(m), "notes"@) is None ==> t.5.len() == 0
        },
        field(Json::Obj(m), "deadline"@) is None && field(Json::Obj(m), "category"@) is None
            && field(Json::Obj(m), "notes"@) is None ==> answered_todo(Json::Obj(m)) is Some,
{
}

/// What is taken of it is put in order: the subject of the mail is the title where that is blank,
/// and a deadline that is no time is none.
pub proof fn what_is_said_is_put_in_order(t: TodoView, subject: Seq<char>)
    ensures
        tidied(t, subject).0 == trimmed(t.0),
        tidied(t, subject).1 == trimmed(t.1),
        only_space(t.2) ==> tidied(t, subject).2 == subject,
        !only_space(t.2) ==> tidied(t, subject).2 == t.2,
        t.3 is Some && rfc3339_moment(t.3->0) is Some ==> tidied(t, subject).3 == t.3,
        t.3 is None || rfc3339_moment(t.3->0) is None ==> tidied(t, subject).3 is None,
        tidied(t, subject).4 == t.4,
        tidied(t, subject).5 == t.5,
{
    what_is_blank(t.2);
}

/// A category that answers name is that of the whole one, or else that of the object in it.
pub proof fn which_answer_names_the_category(a: Vec<(String, Json)>, b: Vec<(String, Json)>, s: String)
    ensures
        field(Json::Obj(a), "category"@) == Some(Json::Str(s)) ==> answered_category(
            Some(Json::Obj(a)),
            Some(Json::Obj(b)),
        ) == Some(s@),
        field(Json::Obj(a), "category"@) is None && field(Json::Obj(b), "category"@) == Some(
            Json::Str(s),
        ) ==> answered_category(Some(Json::Obj(a)), Some(Json::Obj(b))) == Some(s@),
        answered_category(None, None) is None,
        field(Json::Obj(b), "category"@) == Some(Json::Str(s)) ==> answered_category(
            None,
            Some(Json::Obj(b)),
        ) == Some(s@),
{
}

} // verus!
