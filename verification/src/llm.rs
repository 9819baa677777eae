//! The language model: what it is asked, and what is made of its answers.

use crate::config::CategoryDef;
use crate::config::LlmConfig;
use crate::json::add_element;
use crate::json::arr_view;
use crate::json::elements;
use crate::json::field;
use crate::json::is_record;
use crate::json::Json;
use crate::json::JsonView;
use crate::json::members;
use crate::json::put;
use crate::json::put_text;
use crate::json::slot;
use crate::json::slot_of_view;
use crate::json::text_slot;
use crate::json::view_field;
use crate::json::view_of;
use crate::json_text::json_told;
use crate::json_text::read;
use crate::json_text::reads;
use crate::model::CATEGORY_MISC;
use crate::model::ReplyIntent;
use crate::model::todo_view;
use crate::model::TodoExtract;
use crate::model::TodoView;
use crate::text::blank;
use crate::text::chars_of;
use crate::text::is_blank;
use crate::text::join;
use crate::text::joined;
use crate::text::lower_text;
use crate::text::prefix;
use crate::text::same;
use crate::text::strip_back;
use crate::text::substring;
use crate::text::take_chars;
use crate::text::text_of;
use crate::text::texts;
use crate::text::to_lower;
use crate::text::trim;
use crate::text::trim_end_char;
use crate::text::trim_idempotent;
use crate::text::trimmed;
use crate::time::Stamp;
use crate::time::stamp_of;
use vstd::prelude::*;

verus! {

/// A call of a tool that the model asks for.
#[derive(Debug)]
pub struct ToolCall {
    pub id: String,
    pub typ: String,
    pub function: FunctionCall,
}

/// The tool and its arguments, as JSON text.
#[derive(Debug)]
pub struct FunctionCall {
    pub name: String,
    pub arguments: String,
}

impl Clone for FunctionCall {
    fn clone(&self) -> (r: Self)
        ensures
            r == *self,
    {
        FunctionCall { name: self.name.clone(), arguments: self.arguments.clone() }
    }
}

impl Clone for ToolCall {
    fn clone(&self) -> (r: Self)
        ensures
            r == *self,
    {
        ToolCall {
            id: self.id.clone(),
            typ: self.typ.clone(),
            function: self.function.clone(),
        }
    }
}

/// A message of a conversation with the model.
#[derive(Debug)]
pub struct ChatMessage {
    pub role: String,
    pub content: Option<String>,
    pub tool_calls: Option<Vec<ToolCall>>,
    pub tool_call_id: Option<String>,
}

impl ChatMessage {
    /// A message of text alone.
    pub fn text(role: &str, content: String) -> (r: Self)
        ensures
            r.role@ == role@,
            r.content == Some(content),
            r.tool_calls is None,
            r.tool_call_id is None,
    {
        ChatMessage {
            role: role.to_owned(),
            content: Some(content),
            tool_calls: None,
            tool_call_id: None,
        }
    }
}

/// The answer of the model.
#[derive(Debug)]
pub struct ChatResponse {
    pub choices: Vec<Choice>,
}

/// One of the answers to choose from.
#[derive(Debug)]
pub struct Choice {
    pub message: ChoiceMessage,
    pub finish_reason: Option<String>,
}

/// The message of an answer.
#[derive(Debug)]
pub struct ChoiceMessage {
    pub content: Option<String>,
    pub tool_calls: Option<Vec<ToolCall>>,
}

/// A text of so many characters at most, with a mark where it was cut.
pub open spec fn truncated(s: Seq<char>, max_chars: int, mark: Seq<char>) -> Seq<char> {
    if s.len() <= max_chars {
        s
    } else {
        s.take(max_chars) + mark
    }
}

/// What marks a text that was cut for the model.
pub const CUT_MARK: &'static str = "\n…[截断]";

/// A text of so many characters at most, with the mark where it was cut.
pub fn truncate_with(s: &str, max_chars: usize, mark: &str) -> (r: String)
    ensures
        r@ == truncated(s@, max_chars as int, mark@),
{
    let v = chars_of(s);
    if v.len() <= max_chars {
        s.to_owned()
    } else {
        let mut out = take_chars(s, max_chars);
        out.append(mark);
        out
    }
}

/// A text of so many characters at most, with a mark where it was cut.
pub fn truncate(s: &str, max_chars: usize) -> (r: String)
    ensures
        r@ == truncated(s@, max_chars as int, CUT_MARK@),
{
    truncate_with(s, max_chars, CUT_MARK)
}

/// A text that is short enough is not cut; one that is cut keeps its start.
pub proof fn truncated_keeps_the_start(s: Seq<char>, max_chars: int, mark: Seq<char>)
    requires
        0 <= max_chars,
    ensures
        s.len() <= max_chars ==> truncated(s, max_chars, mark) == s,
        truncated(s, max_chars, mark).take(prefix(s, max_chars).len() as int) == prefix(
            s,
            max_chars,
        ),
        truncated(s, max_chars, mark).len() <= max_chars + mark.len(),
{
}

/// Where the object that is open at a place ends: at the `}` that closes it. Braces in strings do
/// not count, nor does a quotation mark after a backslash there.
pub open spec fn object_end(s: Seq<char>, from: int, depth: nat, quoted: bool, escaped: bool) -> Option<
    int,
>
    decreases s.len() - from,
{
    if from < 0 || from >= s.len() {
        None
    } else if quoted {
        if escaped {
            object_end(s, from + 1, depth, true, false)
        } else if s[from] == '\\' {
            object_end(s, from + 1, depth, true, true)
        } else {
            object_end(s, from + 1, depth, s[from] != '"', false)
        }
    } else if s[from] == '"' {
        object_end(s, from + 1, depth, true, false)
    } else if s[from] == '{' {
        object_end(s, from + 1, depth + 1, false, false)
    } else if s[from] == '}' {
        if depth <= 1 {
            Some(from)
        } else {
            object_end(s, from + 1, (depth - 1) as nat, false, false)
        }
    } else {
        object_end(s, from + 1, depth, false, false)
    }
}

/// The first JSON object in a text: from the first `{` to the `}` that closes it. Where none does,
/// to the last `}` after it; where there is none, all of the text without white space around it.
pub open spec fn json_object(s: Seq<char>) -> Seq<char> {
    let t = trimmed(s);
    match t.index_of_first('{') {
        Some(a) => match object_end(t, a, 0, false, false) {
            Some(e) => t.subrange(a, e + 1),
            None => match t.index_of_last('}') {
                Some(b) if b > a => t.subrange(a, b + 1),
                _ => t,
            },
        },
        None => t,
    }
}

fn find_object_end(v: &Vec<char>, a: usize) -> (r: Option<usize>)
    requires
        a < v@.len(),
        v@[a as int] == '{',
    ensures
        match r {
            Some(e) => object_end(v@, a as int, 0, false, false) == Some(e as int) && a < e
                < v@.len() && v@[e as int] == '}',
            None => object_end(v@, a as int, 0, false, false) is None,
        },
{
    let mut depth: usize = 0;
    let mut quoted: bool = false;
    let mut escaped: bool = false;
    let mut i: usize = a;
    while i < v.len()
        invariant
            a <= i <= v@.len(),
            a < v@.len(),
            v@[a as int] == '{',
            depth <= i - a,
            i > a ==> depth >= 1,
            object_end(v@, a as int, 0, false, false) == object_end(
                v@,
                i as int,
                depth as nat,
                quoted,
                escaped,
            ),
            i == a ==> !quoted,
        decreases v@.len() - i,
    {
        let c = v[i];
        if quoted {
            if escaped {
                escaped = false;
            } else if c == '\\' {
                escaped = true;
            } else {
                quoted = c != '"';
            }
        } else if c == '"' {
            quoted = true;
            escaped = false;
        } else if c == '{' {
            depth = depth + 1;
            escaped = false;
        } else if c == '}' {
            if depth <= 1 {
                return Some(i);
            }
            depth = depth - 1;
            escaped = false;
        } else {
            escaped = false;
        }
        i += 1;
    }
    None
}

/// The first JSON object in a text, with words before and after it dropped.
pub fn extract_json_object(s: &str) -> (r: String)
    ensures
        r@ == json_object(s@),
{
    let t = trim(s);
    let v = chars_of(t.as_str());
    proof {
        t@.index_of_first_ensures('{');
        t@.index_of_last_ensures('}');
    }
    let mut a: usize = 0;
    while a < v.len() && v[a] != '{'
        invariant
            v@ == t@,
            a <= v@.len(),
            forall|k: int| 0 <= k < a ==> v@[k] != '{',
        decreases v@.len() - a,
    {
        a += 1;
    }
    if a == v.len() {
        assert(!t@.contains('{'));
        return t;
    }
    assert(t@.contains(v@[a as int]));
    assert(t@.index_of_first('{') == Some(a as int));
    if let Some(e) = find_object_end(&v, a) {
        return substring(&v, a, e + 1);
    }
    let mut b: usize = v.len();
    while b > 0 && v[b - 1] != '}'
        invariant
            v@ == t@,
            b <= v@.len(),
            forall|k: int| b <= k < v@.len() ==> v@[k] != '}',
        decreases b,
    {
        b -= 1;
    }
    if b == 0 {
        assert(!t@.contains('}'));
        return t;
    }
    assert(t@.contains(v@[b - 1]));
    if b - 1 > a {
        substring(&v, a, b)
    } else {
        t
    }
}

proof fn object_end_bound(s: Seq<char>, from: int, depth: nat, quoted: bool, escaped: bool)
    ensures
        object_end(s, from, depth, quoted, escaped) matches Some(e) ==> from <= e < s.len() && s[e]
            == '}',
    decreases s.len() - from,
{
    if 0 <= from < s.len() {
        object_end_bound(s, from + 1, depth, true, false);
        object_end_bound(s, from + 1, depth, true, true);
        object_end_bound(s, from + 1, depth, false, false);
        object_end_bound(s, from + 1, depth + 1, false, false);
        if depth > 0 {
            object_end_bound(s, from + 1, (depth - 1) as nat, false, false);
        }
    }
}

/// An object ends where it ended in the text that it was cut out of; where it did not end there,
/// it does not end.
proof fn object_end_in_part(
    s: Seq<char>,
    a: int,
    b: int,
    from: int,
    depth: nat,
    quoted: bool,
    escaped: bool,
)
    requires
        0 <= a <= from <= b <= s.len(),
    ensures
        object_end(s.subrange(a, b), from - a, depth, quoted, escaped) == (match object_end(
            s,
            from,
            depth,
            quoted,
            escaped,
        ) {
            Some(e) if e < b => Some(e - a),
            _ => None,
        }),
    decreases b - from,
{
    let part = s.subrange(a, b);
    object_end_bound(s, from, depth, quoted, escaped);
    if from < b {
        assert(part[from - a] == s[from]);
        object_end_in_part(s, a, b, from + 1, depth, true, false);
        object_end_in_part(s, a, b, from + 1, depth, true, true);
        object_end_in_part(s, a, b, from + 1, depth, false, false);
        object_end_in_part(s, a, b, from + 1, depth + 1, false, false);
        if depth > 0 {
            object_end_in_part(s, a, b, from + 1, (depth - 1) as nat, false, false);
        }
    }
}

/// What was taken out as a JSON object is taken out of itself unchanged.
pub proof fn json_object_idempotent(s: Seq<char>)
    ensures
        json_object(json_object(s)) == json_object(s),
{
    let t = trimmed(s);
    let r = json_object(s);
    t.index_of_first_ensures('{');
    t.index_of_last_ensures('}');
    trim_idempotent(s);
    if let Some(a) = t.index_of_first('{') {
        object_end_bound(t, a, 0, false, false);
        let end = match object_end(t, a, 0, false, false) {
            Some(e) => Some(e),
            None => match t.index_of_last('}') {
                Some(b) if b > a => Some(b),
                _ => None,
            },
        };
        if let Some(e) = end {
            assert(t[a] == '{' && t[e] == '}');
            assert(a < e);
            assert(r == t.subrange(a, e + 1));
            assert(r[0] == '{' && r.last() == '}');
            assert(trimmed(r) == r);
            r.index_of_first_ensures('{');
            r.index_of_last_ensures('}');
            assert(r.contains(r[0]) && r.contains(r.last()));
            assert(r.index_of_first('{') == Some(0int));
            assert(r.index_of_last('}') == Some(r.len() - 1));
            object_end_in_part(t, a, e + 1, a, 0, false, false);
            assert(r.subrange(0, r.len() as int) == r);
        }
    }
}

/// Where the model is asked.
pub open spec fn chat_url(base_url: Seq<char>) -> Seq<char> {
    strip_back(base_url, '/') + "/chat/completions"@
}

/// Where the model is asked.
pub fn url_of(cfg: &LlmConfig) -> (r: String)
    ensures
        r@ == chat_url(cfg.base_url@),
{
    let mut out = trim_end_char(cfg.base_url.as_str(), '/');
    out.append("/chat/completions");
    out
}

/// How long an answer is waited for, in seconds.
pub fn timeout_of(cfg: &LlmConfig) -> (r: u64)
    ensures
        r == if cfg.timeout_secs < 5 {
            5
        } else {
            cfg.timeout_secs
        },
{
    if cfg.timeout_secs < 5 {
        5
    } else {
        cfg.timeout_secs
    }
}

/// A call of a tool, as JSON.
pub open spec fn call_json_view(c: ToolCall) -> JsonView {
    let function = members().push(("name"@, JsonView::Str(c.function.name@))).push(
        ("arguments"@, JsonView::Str(c.function.arguments@)),
    );
    JsonView::Obj(
        members().push(("id"@, JsonView::Str(c.id@))).push(("type"@, JsonView::Str(c.typ@))).push(
            ("function"@, JsonView::Obj(function)),
        ),
    )
}

/// Calls of tools, as JSON.
pub open spec fn calls_json_view(v: Seq<ToolCall>) -> Seq<JsonView> {
    v.map_values(|c: ToolCall| call_json_view(c))
}

/// A message, as JSON: what it does not have is left out.
pub open spec fn message_view(m: ChatMessage) -> JsonView {
    let role = members().push(("role"@, JsonView::Str(m.role@)));
    let content = match m.content {
        Some(t) => role.push(("content"@, JsonView::Str(t@))),
        None => role,
    };
    let calls = match m.tool_calls {
        Some(v) => content.push(("tool_calls"@, JsonView::Arr(calls_json_view(v@)))),
        None => content,
    };
    JsonView::Obj(
        match m.tool_call_id {
            Some(t) => calls.push(("tool_call_id"@, JsonView::Str(t@))),
            None => calls,
        },
    )
}

/// Messages, as JSON.
pub open spec fn messages_view(v: Seq<ChatMessage>) -> Seq<JsonView> {
    v.map_values(|m: ChatMessage| message_view(m))
}

/// How freely the model answers.
pub const TEMPERATURE: &'static str = "0.1";

/// What the model is asked: with tools that it may call, or else for an answer in JSON.
pub open spec fn request_view(
    model: Seq<char>,
    messages: Seq<ChatMessage>,
    tools: Option<Vec<Json>>,
) -> JsonView {
    let asked = members().push(("model"@, JsonView::Str(model))).push(
        ("messages"@, JsonView::Arr(messages_view(messages))),
    ).push(("temperature"@, JsonView::Number(TEMPERATURE@)));
    JsonView::Obj(
        match tools {
            Some(t) => asked.push(("tools"@, JsonView::Arr(arr_view(t@)))),
            None => asked.push(
                (
                    "response_format"@,
                    JsonView::Obj(members().push(("type"@, JsonView::Str("json_object"@)))),
                ),
            ),
        },
    )
}

fn call_json(c: &ToolCall) -> (r: Json)
    ensures
        view_of(r) == call_json_view(*c),
{
    let mut f: Vec<(String, Json)> = Vec::new();
    put_text(&mut f, "name", c.function.name.as_str());
    put_text(&mut f, "arguments", c.function.arguments.as_str());
    let mut m: Vec<(String, Json)> = Vec::new();
    put_text(&mut m, "id", c.id.as_str());
    put_text(&mut m, "type", c.typ.as_str());
    put(&mut m, "function", Json::Obj(f));
    Json::Obj(m)
}

fn message_json(msg: &ChatMessage) -> (r: Json)
    ensures
        view_of(r) == message_view(*msg),
{
    let mut m: Vec<(String, Json)> = Vec::new();
    put_text(&mut m, "role", msg.role.as_str());
    if let Some(t) = &msg.content {
        put_text(&mut m, "content", t.as_str());
    }
    if let Some(v) = &msg.tool_calls {
        let mut out: Vec<Json> = Vec::new();
        let mut i: usize = 0;
        let ghost all = calls_json_view(v@);
        assert(all.take(0) =~= elements());
        while i < v.len()
            invariant
                i <= v@.len(),
                all == calls_json_view(v@),
                arr_view(out@) == all.take(i as int),
            decreases v@.len() - i,
        {
            add_element(&mut out, call_json(&v[i]));
            assert(all.take(i + 1) =~= all.take(i as int).push(all[i as int]));
            i += 1;
        }
        assert(all.take(i as int) =~= all);
        put(&mut m, "tool_calls", Json::Arr(out));
    }
    if let Some(t) = &msg.tool_call_id {
        put_text(&mut m, "tool_call_id", t.as_str());
    }
    Json::Obj(m)
}

/// What the model is asked: with tools that it may call, or else for an answer in JSON.
pub fn chat_request(model: &str, messages: &Vec<ChatMessage>, tools: Option<Vec<Json>>) -> (r: Json)
    ensures
        view_of(r) == request_view(model@, messages@, tools),
{
    let mut out: Vec<Json> = Vec::new();
    let mut i: usize = 0;
    let ghost all = messages_view(messages@);
    assert(all.take(0) =~= elements());
    while i < messages.len()
        invariant
            i <= messages@.len(),
            all == messages_view(messages@),
            arr_view(out@) == all.take(i as int),
        decreases messages@.len() - i,
    {
        add_element(&mut out, message_json(&messages[i]));
        assert(all.take(i + 1) =~= all.take(i as int).push(all[i as int]));
        i += 1;
    }
    assert(all.take(i as int) =~= all);
    let mut m: Vec<(String, Json)> = Vec::new();
    put_text(&mut m, "model", model);
    put(&mut m, "messages", Json::Arr(out));
    put(&mut m, "temperature", Json::Number(TEMPERATURE.to_owned()));
    match tools {
        Some(t) => {
            put(&mut m, "tools", Json::Arr(t));
        },
        None => {
            let mut f: Vec<(String, Json)> = Vec::new();
            put_text(&mut f, "type", "json_object");
            put(&mut m, "response_format", Json::Obj(f));
        },
    }
    Json::Obj(m)
}

/// What is asked in one go: instructions and a text.
pub fn two_messages(system: String, user: String) -> (r: Vec<ChatMessage>)
    ensures
        r@.len() == 2,
        r@[0].role@ == "system"@ && r@[0].content == Some(system),
        r@[1].role@ == "user"@ && r@[1].content == Some(user),
        forall|i: int| 0 <= i < 2 ==> (#[trigger] r@[i]).tool_calls is None && r@[i].tool_call_id is None,
{
    let mut out: Vec<ChatMessage> = Vec::new();
    out.push(ChatMessage::text("system", system));
    out.push(ChatMessage::text("user", user));
    out
}

/// What is read of a call of a tool: its identifier, its type, the tool and the arguments.
pub type CallView = (Seq<char>, Seq<char>, Seq<char>, Seq<char>);

/// What is read of an answer: its text, the calls in it, and why it ended.
pub type ChoiceView = (Option<Seq<char>>, Option<Seq<CallView>>, Option<Seq<char>>);

/// A call of a tool over plain text.
pub open spec fn call_view(c: ToolCall) -> CallView {
    (c.id@, c.typ@, c.function.name@, c.function.arguments@)
}

/// Calls of tools over plain text.
pub open spec fn call_views(v: Seq<ToolCall>) -> Seq<CallView> {
    v.map_values(|c: ToolCall| call_view(c))
}

/// An answer over plain text.
pub open spec fn choice_view(c: Choice) -> ChoiceView {
    (
        text_of(c.message.content),
        match c.message.tool_calls {
            Some(v) => Some(call_views(v@)),
            None => None,
        },
        text_of(c.finish_reason),
    )
}

/// Answers over plain text.
pub open spec fn choice_views(v: Seq<Choice>) -> Seq<ChoiceView> {
    v.map_values(|c: Choice| choice_view(c))
}

/// What is read of a call of a tool; nothing where something is missing.
pub open spec fn call_read(j: Json) -> Option<CallView> {
    match (text_slot(j, "id"@, 0), text_slot(j, "type"@, 1), slot(j, "function"@, 2)) {
        (Some(id), Some(typ), Some(f)) => match (
            text_slot(f, "name"@, 0),
            text_slot(f, "arguments"@, 1),
        ) {
            (Some(name), Some(arguments)) => if is_record(j, 3, 3) && is_record(f, 2, 2) {
                Some((id, typ, name, arguments))
            } else {
                None
            },
            _ => None,
        },
        _ => None,
    }
}

/// What is read of calls of tools; nothing where one of them cannot be read.
pub open spec fn calls_read(v: Seq<Json>) -> Option<Seq<CallView>>
    decreases v.len(),
{
    if v.len() == 0 {
        Some(Seq::empty())
    } else {
        match (calls_read(v.drop_last()), call_read(v.last())) {
            (Some(s), Some(c)) => Some(s.push(c)),
            _ => None,
        }
    }
}

/// What is read of an answer; nothing where it holds something else than it should.
pub open spec fn choice_read(j: Json) -> Option<ChoiceView> {
    match slot(j, "message"@, 0) {
        Some(msg) => {
            let calls: Option<Option<Seq<CallView>>> = match slot(msg, "tool_calls"@, 1) {
                None | Some(Json::Null) => Some(None),
                Some(Json::Arr(v)) => match calls_read(v@) {
                    Some(s) => Some(Some(s)),
                    None => None,
                },
                Some(_) => None,
            };
            match (
                nullable_text(msg, "content"@, 0),
                calls,
                nullable_text(j, "finish_reason"@, 1),
            ) {
                (Some(content), Some(calls), Some(finish)) => if is_record(j, 1, 2) && is_record(
                    msg,
                    0,
                    2,
                ) {
                    Some((content, calls, finish))
                } else {
                    None
                },
                _ => None,
            }
        },
        _ => None,
    }
}

/// What is read of answers; nothing where one of them cannot be read.
pub open spec fn choices_read(v: Seq<Json>) -> Option<Seq<ChoiceView>>
    decreases v.len(),
{
    if v.len() == 0 {
        Some(Seq::empty())
    } else {
        match (choices_read(v.drop_last()), choice_read(v.last())) {
            (Some(s), Some(c)) => Some(s.push(c)),
            _ => None,
        }
    }
}

/// What is read of what the model sends back. Here as in all that is read of it, a record can be
/// written as an array of its fields; of two members with one name the last counts, as in every
/// `serde_json::Value`.
pub open spec fn response_read(j: Json) -> Option<Seq<ChoiceView>> {
    match slot(j, "choices"@, 0) {
        Some(Json::Arr(v)) => if is_record(j, 1, 1) {
            choices_read(v@)
        } else {
            None
        },
        _ => None,
    }
}

fn read_call(j: &Json) -> (r: Option<ToolCall>)
    ensures
        (match r {
            Some(c) => Some(call_view(c)),
            None => None,
        }) == call_read(*j),
{
    let id = match j.text_slot_at("id", 0) {
        Some(t) => t,
        None => return None,
    };
    let typ = match j.text_slot_at("type", 1) {
        Some(t) => t,
        None => return None,
    };
    let f = match j.slot_at("function", 2) {
        Some(f) => f,
        None => return None,
    };
    if !j.can_be_record(3, 3) || !f.can_be_record(2, 2) {
        return None;
    }
    match (f.text_slot_at("name", 0), f.text_slot_at("arguments", 1)) {
        (Some(name), Some(arguments)) => Some(
            ToolCall { id, typ, function: FunctionCall { name, arguments } },
        ),
        _ => None,
    }
}

proof fn calls_unread(v: Seq<Json>, i: int)
    requires
        0 <= i <= v.len(),
        calls_read(v.take(i)) is None,
    ensures
        calls_read(v) is None,
    decreases v.len() - i,
{
    if i < v.len() {
        assert(v.take(i + 1).drop_last() =~= v.take(i));
        calls_unread(v, i + 1);
    } else {
        assert(v.take(i) =~= v);
    }
}

proof fn choices_unread(v: Seq<Json>, i: int)
    requires
        0 <= i <= v.len(),
        choices_read(v.take(i)) is None,
    ensures
        choices_read(v) is None,
    decreases v.len() - i,
{
    if i < v.len() {
        assert(v.take(i + 1).drop_last() =~= v.take(i));
        choices_unread(v, i + 1);
    } else {
        assert(v.take(i) =~= v);
    }
}

fn read_calls(v: &Vec<Json>) -> (r: Option<Vec<ToolCall>>)
    ensures
        (match r {
            Some(c) => Some(call_views(c@)),
            None => None,
        }) == calls_read(v@),
{
    let mut out: Vec<ToolCall> = Vec::new();
    let mut i: usize = 0;
    assert(call_views(out@) =~= Seq::empty());
    while i < v.len()
        invariant
            i <= v@.len(),
            calls_read(v@.take(i as int)) == Some(call_views(out@)),
        decreases v@.len() - i,
    {
        proof {
            assert(v@.take(i + 1).drop_last() =~= v@.take(i as int));
        }
        match read_call(&v[i]) {
            Some(c) => {
                assert(call_views(out@.push(c)) =~= call_views(out@).push(call_view(c)));
                out.push(c);
            },
            None => {
                proof {
                    calls_unread(v@, i + 1);
                }
                return None;
            },
        }
        i += 1;
    }
    assert(v@.take(i as int) =~= v@);
    Some(out)
}

fn read_choice(j: &Json) -> (r: Option<Choice>)
    ensures
        (match r {
            Some(c) => Some(choice_view(c)),
            None => None,
        }) == choice_read(*j),
{
    let msg = match j.slot_at("message", 0) {
        Some(m) => m,
        None => return None,
    };
    if !j.can_be_record(1, 2) || !msg.can_be_record(0, 2) {
        return None;
    }
    let tool_calls = match msg.slot_at("tool_calls", 1) {
        None => None,
        Some(v) => match v {
            Json::Null => None,
            Json::Arr(list) => match read_calls(list) {
                Some(c) => Some(c),
                None => return None,
            },
            _ => return None,
        },
    };
    match (nullable_text_at(msg, "content", 0), nullable_text_at(j, "finish_reason", 1)) {
        (Some(content), Some(finish_reason)) => Some(
            Choice { message: ChoiceMessage { content, tool_calls }, finish_reason },
        ),
        _ => None,
    }
}

/// What the model sends back, as it is written; nothing where it is no JSON or holds something
/// else than it should. It is read through a `serde_json::Value`: of two members with one name the
/// last counts, and a number or a nesting that such a value cannot hold makes the whole unreadable,
/// also in a member that is not asked for.
pub fn parse_response(text: &str) -> (r: Option<ChatResponse>)
    ensures
        exists|told: Result<Json, String>| #[trigger]
            reads(told, text@) && (match r {
                Some(c) => Some(choice_views(c.choices@)),
                None => None,
            }) == match told {
                Ok(j) => response_read(j),
                Err(_) => None,
            },
{
    let told = read(text);
    match &told {
        Ok(j) => read_response(j),
        Err(_) => None,
    }
}

/// What the model sends back; nothing where it holds something else than it should.
pub fn read_response(j: &Json) -> (r: Option<ChatResponse>)
    ensures
        (match r {
            Some(c) => Some(choice_views(c.choices@)),
            None => None,
        }) == response_read(*j),
{
    if !j.can_be_record(1, 1) {
        return None;
    }
    let v = match j.slot_at("choices", 0) {
        Some(v) => match v {
            Json::Arr(list) => list,
            _ => return None,
        },
        None => return None,
    };
    let mut out: Vec<Choice> = Vec::new();
    let mut i: usize = 0;
    assert(choice_views(out@) =~= Seq::empty());
    while i < v.len()
        invariant
            i <= v@.len(),
            response_read(*j) == choices_read(v@),
            choices_read(v@.take(i as int)) == Some(choice_views(out@)),
        decreases v@.len() - i,
    {
        proof {
            assert(v@.take(i + 1).drop_last() =~= v@.take(i as int));
        }
        match read_choice(&v[i]) {
            Some(c) => {
                assert(choice_views(out@.push(c)) =~= choice_views(out@).push(choice_view(c)));
                out.push(c);
            },
            None => {
                proof {
                    choices_unread(v@, i + 1);
                }
                return None;
            },
        }
        i += 1;
    }
    assert(v@.take(i as int) =~= v@);
    Some(ChatResponse { choices: out })
}

/// The text of the first answer; nothing where there is none or it is blank.
pub fn first_content(resp: &ChatResponse) -> (r: Option<String>)
    ensures
        r == (if resp.choices@.len() == 0 {
            None
        } else {
            match resp.choices@[0].message.content {
                Some(c) if !blank(c@) => Some(c),
                _ => None,
            }
        }),
{
    if resp.choices.len() == 0 {
        return None;
    }
    match &resp.choices[0].message.content {
        Some(c) => {
            if is_blank(c.as_str()) {
                None
            } else {
                Some(c.clone())
            }
        },
        None => None,
    }
}

/// The ids with their labels.
pub open spec fn tagged(pairs: Seq<(Seq<char>, Seq<char>)>) -> Seq<Seq<char>> {
    pairs.map_values(|p: (Seq<char>, Seq<char>)| p.0 + ":"@ + p.1)
}

/// The configured categories as ids with labels.
pub open spec fn configured_pairs(c: Seq<CategoryDef>) -> Seq<(Seq<char>, Seq<char>)> {
    c.map_values(|d: CategoryDef| (d.id@, d.label@))
}

fn tag(id: &str, label: &str) -> (r: String)
    ensures
        r@ == id@ + ":"@ + label@,
{
    let mut out = id.to_owned();
    out.append(":");
    out.append(label);
    out
}

/// The pairs over plain text.
pub open spec fn pair_views(p: Seq<(String, String)>) -> Seq<(Seq<char>, Seq<char>)> {
    p.map_values(|x: (String, String)| (x.0@, x.1@))
}

/// The ids with their labels, one after the other.
pub fn tag_list(pairs: &Vec<(String, String)>, sep: &str) -> (r: String)
    ensures
        r@ == joined(tagged(pair_views(pairs@)), sep@),
{
    let mut parts: Vec<String> = Vec::new();
    let ghost all = tagged(pair_views(pairs@));
    let mut i: usize = 0;
    while i < pairs.len()
        invariant
            all == tagged(pair_views(pairs@)),
            i <= pairs@.len(),
            texts(parts@) == all.take(i as int),
        decreases pairs@.len() - i,
    {
        let t = tag(pairs[i].0.as_str(), pairs[i].1.as_str());
        proof {
            assert(all[i as int] == t@);
            assert(texts(parts@.push(t)) =~= texts(parts@).push(t@));
            assert(all.take(i + 1) =~= all.take(i as int).push(t@));
        }
        parts.push(t);
        i += 1;
    }
    assert(all.take(i as int) == all);
    join(&parts, sep)
}

/// The configured categories, for the model.
pub fn category_list(categories: &Vec<CategoryDef>) -> (r: String)
    ensures
        r@ == joined(tagged(configured_pairs(categories@)), ", "@),
{
    let mut pairs: Vec<(String, String)> = Vec::new();
    let ghost all = configured_pairs(categories@);
    let mut i: usize = 0;
    while i < categories.len()
        invariant
            all == configured_pairs(categories@),
            i <= categories@.len(),
            pair_views(pairs@) == all.take(i as int),
        decreases categories@.len() - i,
    {
        let p = (categories[i].id.clone(), categories[i].label.clone());
        proof {
            assert(pair_views(pairs@.push(p)) =~= pair_views(pairs@).push((p.0@, p.1@)));
            assert(all.take(i + 1) =~= all.take(i as int).push((p.0@, p.1@)));
        }
        pairs.push(p);
        i += 1;
    }
    assert(all.take(i as int) == all);
    tag_list(&pairs, ", ")
}

pub const CLASSIFY_HEAD: &'static str =
    "你是邮件分类器。请将邮件归入以下类型之一（只能输出 JSON，格式 {\"category\": \"类型id\"}）：";

pub const CLASSIFY_TAIL: &'static str =
    "。判断标准：事务预约/待办类 = 面试邀请、笔试安排、在线测评、会议预约、需要按时赴约或完成任务的事项（通常包含时间/链接/需要确认参加等预约动作）；通知类 = 投递成功/简历已收到、进度反馈、问卷调研、面试或笔试或测评结果通知、感谢信、录用通知、系统通知、公告、账单、验证码、订阅推送等；注意：反馈式邮件即使出现“面试”“笔试”“测评”字样（例如“面试体验问卷”“面试结果通知”“投递成功通知”），只要不是在预约/安排一次面试/笔试/测评，就归为通知类；对话交流型 = 人与人之间的对话、讨论、回复；其他 = 广告、垃圾或无法归类的内容。若邮件同时是事务又是对话，以事务为准。分类 id 必须严格来自列表。";

pub const EXTRACT_PROMPT: &'static str =
    "你是待办事项提取器。从邮件中提取结构化信息，只能输出 JSON：{\"party\": \"公司或联系人名称（简短，如 字节跳动 或 张三；无则空字符串）\",\"event\": \"事项名称（5-10个汉字以内，如 技术面试）\",\"title\": \"完整标题\",\"deadline\": \"截止/开始时间，RFC3339 格式（如 2027-09-10T14:00:00+08:00）；若邮件没有明确时间则为 null\",\"category\": \"可选二级类型，无则 null\"}\n规则：deadline 必须来自邮件原文的明确时间（面试时间、截止日期等），原文中的“2026-04-24 11:00(GMT+08:00)”“2026/4/24 14:00”“4月24日 下午2:00”等写法也要转换成 RFC3339 输出；没有明确时间就输出 null，绝不编造；party 取公司名或人名；event 提炼动作+对象。";

pub const INTENT_PROMPT: &'static str =
    "你是提醒邮件回复分析器。用户在回复我们发送的提醒邮件。只能输出 JSON：{\"intent\": \"done|silent|none\"}。done = 用户表示事项已完成（如：已完成、已参加、done）；silent = 用户表示不需要再提醒（如：不再提醒、取消提醒、别发了、stop）；none = 无法判断或与提醒无关。若同时表达已完成，优先 done。";

/// The instructions for classifying mail.
pub fn classify_prompt(categories: &Vec<CategoryDef>) -> (r: String)
    ensures
        r@ == CLASSIFY_HEAD@ + joined(tagged(configured_pairs(categories@)), ", "@)
            + CLASSIFY_TAIL@,
{
    let list = category_list(categories);
    let mut out = CLASSIFY_HEAD.to_owned();
    out.append(list.as_str());
    out.append(CLASSIFY_TAIL);
    out
}

/// A mail as the model is shown it.
pub fn mail_prompt(from: &str, subject: &str, body: &str) -> (r: String)
    ensures
        r@ == "发件人: "@ + from@ + "\n主题: "@ + subject@ + "\n正文:\n"@ + truncated(
            body@,
            4000,
            CUT_MARK@,
        ),
{
    let mut out = "发件人: ".to_owned();
    out.append(from);
    out.append("\n主题: ");
    out.append(subject);
    out.append("\n正文:\n");
    let cut = truncate(body, 4000);
    out.append(cut.as_str());
    out
}

/// A reply to a reminder as the model is shown it.
pub fn reply_prompt(subject: &str, body: &str) -> (r: String)
    ensures
        r@ == "主题: "@ + subject@ + "\n正文:\n"@ + truncated(body@, 2000, CUT_MARK@),
{
    let mut out = "主题: ".to_owned();
    out.append(subject);
    out.append("\n正文:\n");
    let cut = truncate(body, 2000);
    out.append(cut.as_str());
    out
}

/// The category in an answer, from the whole of it or else from the object in it; nothing where
/// neither holds one.
pub open spec fn answered_category(whole: Option<Json>, object: Option<Json>) -> Option<Seq<char>> {
    match only_text(whole, "category"@) {
        Some(t) => Some(t),
        None => only_text(object, "category"@),
    }
}

/// The category in an answer.
pub fn category_of(whole: &Option<Json>, object: &Option<Json>) -> (r: Option<String>)
    ensures
        text_of(r) == answered_category(*whole, *object),
{
    match only_text_at(whole, "category") {
        Some(t) => Some(t),
        None => only_text_at(object, "category"),
    }
}

/// The text that a record of one field holds.
pub open spec fn only_text(j: Option<Json>, key: Seq<char>) -> Option<Seq<char>> {
    match j {
        Some(j) => if is_record(j, 1, 1) {
            text_slot(j, key, 0)
        } else {
            None
        },
        None => None,
    }
}

fn only_text_at(j: &Option<Json>, key: &str) -> (r: Option<String>)
    ensures
        text_of(r) == only_text(*j, key@),
{
    match j {
        Some(j) => if j.can_be_record(1, 1) {
            j.text_slot_at(key, 0)
        } else {
            None
        },
        None => None,
    }
}

/// The text that a record of one field holds, as it is written. Of two members with one name the
/// last counts; where any member is more than `serde_json::Value` can hold there is none.
pub open spec fn only_text_told(text: Seq<char>, key: Seq<char>) -> Option<Seq<char>> {
    match json_told(text) {
        Ok(JsonView::Arr(s)) => match s[0] {
            JsonView::Str(t) if s.len() == 1 => Some(t),
            _ => None,
        },
        Ok(v) => match view_field(v, key) {
            Some(JsonView::Str(t)) => Some(t),
            _ => None,
        },
        Err(_) => None,
    }
}

/// The category that an answer of the model names: that of the whole answer, or else that of the
/// object in it; nothing where neither can be read.
pub open spec fn told_category(content: Seq<char>) -> Option<Seq<char>> {
    match only_text_told(content, "category"@) {
        Some(t) => Some(t),
        None => only_text_told(json_object(content), "category"@),
    }
}

/// The category that an answer of the model names; nothing where it cannot be read. As in
/// [`parse_response`], of two members with one name the last counts, and what
/// `serde_json::Value` cannot hold is not read, in whatever member it stands.
pub fn named_category(content: &str) -> (r: Option<String>)
    ensures
        text_of(r) == told_category(content@),
{
    let whole = read(content).ok();
    let object = object_in(content);
    proof {
        if whole is Some {
            slot_of_view(whole->0, "category"@, 0);
        }
        if object is Some {
            slot_of_view(object->0, "category"@, 0);
        }
    }
    category_of(&whole, &object)
}

/// Whether that is the object in an answer of the model; nothing where it is no JSON.
pub open spec fn object_read(r: Option<Json>, content: Seq<char>) -> bool {
    match json_told(json_object(content)) {
        Ok(v) => r matches Some(j) && view_of(j) == v,
        Err(_) => r is None,
    }
}

/// The object in an answer of the model.
pub fn object_in(content: &str) -> (r: Option<Json>)
    ensures
        object_read(r, content@),
{
    read(extract_json_object(content).as_str()).ok()
}

/// Whether a category of that id is configured.
pub open spec fn configured(categories: Seq<CategoryDef>, id: Seq<char>) -> bool {
    exists|i: int| 0 <= i < categories.len() && (#[trigger] categories[i]).id@ == id
}

fn is_configured(categories: &Vec<CategoryDef>, id: &str) -> (r: bool)
    ensures
        r == configured(categories@, id@),
{
    let mut i: usize = 0;
    while i < categories.len()
        invariant
            i <= categories@.len(),
            forall|k: int| 0 <= k < i ==> (#[trigger] categories@[k]).id@ != id@,
        decreases categories@.len() - i,
    {
        if same(categories[i].id.as_str(), id) {
            return true;
        }
        i += 1;
    }
    false
}

/// What follows an answer.
pub enum Asked<T> {
    Take(T),
    /// The model is asked once more.
    Again,
    Fail,
}

/// Whether that follows an answer to the question for a category (nothing for a call that failed
/// or an answer that cannot be read): a configured category is taken; after anything else the
/// model is asked once more. Any other category that it names then is taken for `misc`; where the
/// second call fails or its answer cannot be read, so does the question.
pub open spec fn classified(
    r: Asked<String>,
    second: bool,
    named: Option<Seq<char>>,
    categories: Seq<CategoryDef>,
) -> bool {
    match named {
        Some(a) if configured(categories, trimmed(a)) => r matches Asked::Take(id) && id@
            == trimmed(a),
        Some(_) if second => r matches Asked::Take(id) && id@ == CATEGORY_MISC@,
        None if second => r is Fail,
        _ => r is Again,
    }
}

/// What follows an answer to the question for a category (nothing for a call that failed or an
/// answer that cannot be read).
pub fn classify_step(second: bool, answer: &Option<String>, categories: &Vec<CategoryDef>) -> (r:
    Asked<String>)
    ensures
        classified(r, second, text_of(*answer), categories@),
{
    if let Some(a) = answer {
        let id = trim(a.as_str());
        if is_configured(categories, id.as_str()) {
            return Asked::Take(id);
        }
        if second {
            return Asked::Take(CATEGORY_MISC.to_owned());
        }
    }
    if second {
        Asked::Fail
    } else {
        Asked::Again
    }
}

/// What follows an answer to the question for a category, as the model wrote it (nothing for a
/// call that failed). Which answers can be read is told at [`named_category`].
pub fn classify_answer(second: bool, content: &Option<String>, categories: &Vec<CategoryDef>) -> (r:
    Asked<String>)
    ensures
        classified(
            r,
            second,
            match *content {
                Some(c) => told_category(c@),
                None => None,
            },
            categories@,
        ),
{
    let named = match content {
        Some(c) => named_category(c.as_str()),
        None => None,
    };
    classify_step(second, &named, categories)
}

/// A field that may be missing or null; nothing where it is something else than a text.
pub open spec fn nullable_text(j: Json, key: Seq<char>, place: int) -> Option<Option<Seq<char>>> {
    match slot(j, key, place) {
        None => Some(None),
        Some(Json::Null) => Some(None),
        Some(Json::Str(s)) => Some(Some(s@)),
        Some(_) => None,
    }
}

fn nullable_text_at(j: &Json, key: &str, place: usize) -> (r: Option<Option<String>>)
    ensures
        (match r {
            Some(o) => Some(text_of(o)),
            None => None,
        }) == nullable_text(*j, key@, place as int),
{
    match j.slot_at(key, place) {
        None => Some(None),
        Some(v) => match v {
            Json::Null => Some(None),
            Json::Str(s) => Some(Some(s.clone())),
            _ => None,
        },
    }
}

/// What an answer says of something to do; nothing where it lacks a party, an event or a title,
/// or holds something else than text where text belongs. Of two members with one name the last
/// counts.
pub open spec fn answered_todo(j: Json) -> Option<TodoView> {
    let notes = match slot(j, "notes"@, 5) {
        None => Some(Seq::<char>::empty()),
        Some(v) => crate::json::text_value(v),
    };
    match (
        text_slot(j, "party"@, 0),
        text_slot(j, "event"@, 1),
        text_slot(j, "title"@, 2),
        nullable_text(j, "deadline"@, 3),
        nullable_text(j, "category"@, 4),
        notes,
    ) {
        (Some(party), Some(event), Some(title), Some(deadline), Some(category), Some(notes)) => if is_record(
            j,
            5,
            6,
        ) {
            Some((party, event, title, deadline, category, notes))
        } else {
            None
        },
        _ => None,
    }
}

/// What an answer says of something to do.
pub fn todo_from_answer(j: &Json) -> (r: Option<TodoExtract>)
    ensures
        (match r {
            Some(ex) => Some(todo_view(ex)),
            None => None,
        }) == answered_todo(*j),
{
    if !j.can_be_record(5, 6) {
        return None;
    }
    let notes = match j.slot_at("notes", 5) {
        None => Some(String::new()),
        Some(v) => v.as_text(),
    };
    match (
        j.text_slot_at("party", 0),
        j.text_slot_at("event", 1),
        j.text_slot_at("title", 2),
        nullable_text_at(j, "deadline", 3),
        nullable_text_at(j, "category", 4),
        notes,
    ) {
        (Some(party), Some(event), Some(title), Some(deadline), Some(category), Some(notes)) => {
            let ex = TodoExtract { party, event, title, deadline, category, notes };
            assert(todo_view(ex).5 =~= notes@);
            Some(ex)
        },
        _ => None,
    }
}

/// A deadline where it is an RFC 3339 time.
pub open spec fn valid_time(d: Option<Seq<char>>) -> Option<Seq<char>> {
    match d {
        Some(t) if stamp_of(t) is Some => Some(t),
        _ => None,
    }
}

/// A deadline where it is an RFC 3339 time.
pub fn keep_valid_time(d: Option<String>) -> (r: Option<String>)
    ensures
        text_of(r) == valid_time(text_of(d)),
{
    match d {
        Some(t) => {
            if Stamp::parse(t.as_str()).is_some() {
                Some(t)
            } else {
                None
            }
        },
        None => None,
    }
}

/// What an answer says, put in order: the subject for a blank title, no deadline that is no RFC
/// 3339 time, no white space around party and event.
pub open spec fn tidied(t: TodoView, subject: Seq<char>) -> TodoView {
    (
        trimmed(t.0),
        trimmed(t.1),
        if blank(t.2) {
            subject
        } else {
            t.2
        },
        valid_time(t.3),
        t.4,
        t.5,
    )
}

/// What an answer says, put in order.
pub fn tidy_extract(ex: TodoExtract, subject: &str) -> (r: TodoExtract)
    ensures
        todo_view(r) == tidied(todo_view(ex), subject@),
{
    let title = if is_blank(ex.title.as_str()) {
        subject.to_owned()
    } else {
        ex.title
    };
    TodoExtract {
        party: trim(ex.party.as_str()),
        event: trim(ex.event.as_str()),
        title,
        deadline: keep_valid_time(ex.deadline),
        category: ex.category,
        notes: ex.notes,
    }
}

/// What an answer to the question for something to do comes to.
pub open spec fn told_todo(answer: Option<Json>, subject: Seq<char>) -> Option<TodoView> {
    match answer {
        Some(j) => match answered_todo(j) {
            Some(t) => Some(tidied(t, subject)),
            None => None,
        },
        None => None,
    }
}

/// What follows an answer to the question for something to do (nothing for a call that failed or
/// an answer that is no JSON): it is taken where it can be read, else the model is asked once more.
pub fn extract_step(second: bool, answer: &Option<Json>, subject: &str) -> (r: Asked<TodoExtract>)
    ensures
        match r {
            Asked::Take(ex) => told_todo(*answer, subject@) == Some(todo_view(ex)),
            Asked::Again => !second && told_todo(*answer, subject@) is None,
            Asked::Fail => second && told_todo(*answer, subject@) is None,
        },
{
    if let Some(j) = answer {
        if let Some(ex) = todo_from_answer(j) {
            return Asked::Take(tidy_extract(ex, subject));
        }
    }
    if second {
        Asked::Fail
    } else {
        Asked::Again
    }
}

/// What follows an answer to the question for something to do, as the model wrote it (nothing for
/// a call that failed). As in [`parse_response`], of two members with one name the last counts, and
/// what `serde_json::Value` cannot hold is not read, in whatever member it stands.
pub fn extract_answer(second: bool, content: &Option<String>, subject: &str) -> (r: Asked<
    TodoExtract,
>)
    ensures
        exists|answer: Option<Json>|
            (match *content {
                Some(c) => object_read(answer, c@),
                None => answer is None,
            }) && (match r {
                Asked::Take(ex) => #[trigger] told_todo(answer, subject@) == Some(todo_view(ex)),
                Asked::Again => !second && told_todo(answer, subject@) is None,
                Asked::Fail => second && told_todo(answer, subject@) is None,
            }),
{
    let answer = match content {
        Some(c) => object_in(c.as_str()),
        None => None,
    };
    let r = extract_step(second, &answer, subject);
    assert(match r {
        Asked::Take(ex) => told_todo(answer, subject@) == Some(todo_view(ex)),
        Asked::Again => !second && told_todo(answer, subject@) is None,
        Asked::Fail => second && told_todo(answer, subject@) is None,
    });
    r
}

/// What an answer says of a reply to a reminder. Of two members with one name the last counts.
pub open spec fn answered_intent(answer: Option<Json>) -> ReplyIntent {
    match only_text(answer, "intent"@) {
        Some(t) => if lower_text(trimmed(t)) == "done"@ {
            ReplyIntent::Done
        } else if lower_text(trimmed(t)) == "silent"@ {
            ReplyIntent::Silent
        } else {
            ReplyIntent::Unclear
        },
        None => ReplyIntent::Unclear,
    }
}

/// What an answer says of a reply to a reminder.
pub fn intent_of(answer: &Option<Json>) -> (r: ReplyIntent)
    ensures
        r == answered_intent(*answer),
{
    if let Some(t) = only_text_at(answer, "intent") {
        let word = trim(t.as_str());
        let low = to_lower(word.as_str());
        if same(low.as_str(), "done") {
            return ReplyIntent::Done;
        }
        if same(low.as_str(), "silent") {
            return ReplyIntent::Silent;
        }
    }
    ReplyIntent::Unclear
}

/// What an answer of the model, as it is written, says of a reply to a reminder. As in
/// [`parse_response`], of two members with one name the last counts, and what `serde_json::Value`
/// cannot hold is not read, in whatever member it stands.
pub fn intent_answer(content: &str) -> (r: ReplyIntent)
    ensures
        exists|answer: Option<Json>| #[trigger]
            object_read(answer, content@) && r == answered_intent(answer),
{
    let answer = object_in(content);
    intent_of(&answer)
}

} // verus!
