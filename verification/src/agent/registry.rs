//! The tools that the model can call.
//!
//! A tool that only reads, or only adds, runs when the model calls it. One that changes or deletes
//! something does not: its call becomes a request, which runs once a user has approved it.

use crate::json::members;
use crate::json::put;
use crate::json::put_text;
use crate::json::view_of;
use crate::json::Json;
use crate::json::JsonView;
use crate::text::same;
use crate::text::text_of;
use vstd::prelude::*;

verus! {

/// What a tool can do without asking a user.
#[derive(Clone, Copy, Debug, PartialEq, Eq, Structural)]
pub enum SafetyLevel {
    /// It only reads.
    ReadOnly,
    /// It only adds.
    Create,
    /// It changes or deletes, and has to be approved.
    Mutate,
}

/// What a call of a tool came to.
#[derive(Debug)]
pub struct ToolResult {
    pub ok: bool,
    /// What the model is told.
    pub content: Json,
    pub error_code: Option<String>,
    pub created_approval: bool,
}

/// What the model is told of a call that failed.
pub open spec fn error_json(code: Seq<char>, message: Seq<char>) -> JsonView {
    JsonView::Obj(
        members().push(("ok"@, JsonView::Bool(false))).push(
            ("error_code"@, JsonView::Str(code)),
        ).push(("message"@, JsonView::Str(message))),
    )
}

/// Whether a call failed in that way.
pub open spec fn failed(r: ToolResult, code: Seq<char>, message: Seq<char>) -> bool {
    &&& !r.ok
    &&& view_of(r.content) == error_json(code, message)
    &&& text_of(r.error_code) == Some(code)
    &&& !r.created_approval
}

/// Whether a call succeeded and tells that.
pub open spec fn succeeded(r: ToolResult, content: JsonView) -> bool {
    &&& r.ok
    &&& view_of(r.content) == content
    &&& r.error_code is None
    &&& !r.created_approval
}

impl ToolResult {
    /// The result of a call that succeeded.
    pub fn ok_content(content: Json) -> (r: Self)
        ensures
            succeeded(r, view_of(content)),
            r.content == content,
    {
        ToolResult { ok: true, content, error_code: None, created_approval: false }
    }

    /// The result of a call that failed.
    pub fn err(code: &str, message: &str) -> (r: Self)
        ensures
            failed(r, code@, message@),
    {
        let mut m: Vec<(String, Json)> = Vec::new();
        put(&mut m, "ok", Json::Bool(false));
        put_text(&mut m, "error_code", code);
        put_text(&mut m, "message", message);
        ToolResult {
            ok: false,
            content: Json::Obj(m),
            error_code: Some(code.to_owned()),
            created_approval: false,
        }
    }
}

/// What a tool does when it is called.
#[derive(Clone, Copy, Debug, PartialEq, Eq, Structural)]
pub enum Work {
    ReadEmail,
    SearchEmails,
    ListItems,
    ListCategories,
    AddCategory,
    MakeItem,
    ChangeItem,
    SetStatus,
    DeleteItem,
    Recategorize,
    DeleteEmail,
    /// Something of its own, which whoever registered the tool carries out.
    Own,
}

impl Work {
    /// Whether it changes or deletes something.
    pub open spec fn changes(self) -> bool {
        self == Work::ChangeItem || self == Work::SetStatus || self == Work::DeleteItem || self
            == Work::Recategorize || self == Work::DeleteEmail
    }
}

/// A tool: how the model is told of it, and what it does.
#[derive(Debug)]
pub struct ToolDef {
    /// The name that the model calls it by.
    pub name: String,
    /// What it does, and when to use it.
    pub description: String,
    /// The JSON schema of its arguments.
    pub parameters: Json,
    pub safety: SafetyLevel,
    pub work: Work,
}

/// The tools that there are.
#[derive(Debug)]
pub struct ToolRegistry {
    pub tools: Vec<ToolDef>,
}

/// The first tool of that name.
pub open spec fn tool_named(tools: Seq<ToolDef>, name: Seq<char>) -> Option<ToolDef>
    decreases tools.len(),
{
    if tools.len() == 0 {
        None
    } else if tools[0].name@ == name {
        Some(tools[0])
    } else {
        tool_named(tools.drop_first(), name)
    }
}

/// Whether a tool has another name.
pub open spec fn named_otherwise(name: Seq<char>) -> spec_fn(ToolDef) -> bool {
    |t: ToolDef| t.name@ != name
}

/// A tool in the form in which the model is told of it.
pub open spec fn function_json(t: ToolDef) -> JsonView {
    let function = members().push(("name"@, JsonView::Str(t.name@))).push(
        ("description"@, JsonView::Str(t.description@)),
    ).push(("parameters"@, view_of(t.parameters)));
    JsonView::Obj(
        members().push(("type"@, JsonView::Str("function"@))).push(
            ("function"@, JsonView::Obj(function)),
        ),
    )
}

impl ToolRegistry {
    /// Whether no two tools share a name.
    pub open spec fn distinct(self) -> bool {
        forall|i: int, j: int|
            0 <= i < j < self.tools@.len() ==> (#[trigger] self.tools@[i]).name@ != (
            #[trigger] self.tools@[j]).name@
    }

    /// No tools.
    pub fn new() -> (r: Self)
        ensures
            r.tools@.len() == 0,
            r.distinct(),
    {
        ToolRegistry { tools: Vec::new() }
    }

    /// Adds a tool, in place of one of the same name.
    pub fn register(&mut self, t: ToolDef)
        ensures
            final(self).tools@ == old(self).tools@.filter(named_otherwise(t.name@)).push(t),
            old(self).distinct() ==> final(self).distinct(),
    {
        let ghost before = self.tools@;
        let ghost p = named_otherwise(t.name@);
        let ghost mut seen: int = 0;
        let mut i: usize = 0;
        proof {
            reveal(Seq::filter);
            assert(before.take(0) == Seq::<ToolDef>::empty());
            assert(before.take(0).filter(p) == Seq::<ToolDef>::empty());
            assert(before == before.take(0).filter(p) + before.skip(0));
        }
        while i < self.tools.len()
            invariant
                p == named_otherwise(t.name@),
                0 <= seen <= before.len(),
                i == before.take(seen).filter(p).len(),
                self.tools@ == before.take(seen).filter(p) + before.skip(seen),
            decreases before.len() - seen,
        {
            proof {
                reveal(Seq::filter);
                assert(self.tools@[i as int] == before.skip(seen)[0]);
                assert(before.skip(seen)[0] == before[seen]);
                assert(before.take(seen + 1).drop_last() == before.take(seen));
                assert(before.take(seen + 1).last() == before[seen]);
            }
            if same(self.tools[i].name.as_str(), t.name.as_str()) {
                let ghost kept = before.take(seen).filter(p);
                self.tools.remove(i);
                proof {
                    assert(self.tools@ =~= kept + before.skip(seen + 1));
                }
            } else {
                proof {
                    let kept = before.take(seen).filter(p);
                    assert(kept + before.skip(seen) =~= kept.push(before[seen]) + before.skip(
                        seen + 1,
                    ));
                }
                i += 1;
            }
            proof {
                seen = seen + 1;
            }
        }
        proof {
            assert(before.take(seen) == before);
            assert(self.tools@ =~= before.filter(p));
            if old(self).distinct() {
                filtered_stay_distinct(before, p);
            }
        }
        let ghost kept = self.tools@;
        self.tools.push(t);
        proof {
            assert forall|i: int| 0 <= i < kept.len() implies (#[trigger] kept[i]).name@
                != t.name@ by {
                assert(p(kept[i]));
            }
        }
    }

    /// The tool of that name.
    pub fn get(&self, name: &str) -> (r: Option<&ToolDef>)
        ensures
            match r {
                Some(t) => tool_named(self.tools@, name@) == Some(*t),
                None => tool_named(self.tools@, name@) is None,
            },
    {
        let mut i: usize = 0;
        assert(self.tools@.skip(0) == self.tools@);
        while i < self.tools.len()
            invariant
                i <= self.tools@.len(),
                tool_named(self.tools@, name@) == tool_named(self.tools@.skip(i as int), name@),
            decreases self.tools@.len() - i,
        {
            assert(self.tools@.skip(i as int)[0] == self.tools@[i as int]);
            assert(self.tools@.skip(i as int).drop_first() == self.tools@.skip(i + 1));
            if same(self.tools[i].name.as_str(), name) {
                return Some(&self.tools[i]);
            }
            i += 1;
        }
        None
    }

    /// How many tools there are.
    pub fn len(&self) -> (r: usize)
        ensures
            r == self.tools@.len(),
    {
        self.tools.len()
    }

    /// Whether there are no tools.
    pub fn is_empty(&self) -> (r: bool)
        ensures
            r == (self.tools@.len() == 0),
    {
        self.tools.len() == 0
    }

    /// The tools in the form in which the model is told of them.
    pub fn to_openai(&self) -> (r: Vec<Json>)
        ensures
            r@.len() == self.tools@.len(),
            forall|i: int|
                0 <= i < r@.len() ==> view_of(#[trigger] r@[i]) == function_json(self.tools@[i]),
    {
        let mut out: Vec<Json> = Vec::new();
        let mut i: usize = 0;
        while i < self.tools.len()
            invariant
                i <= self.tools@.len(),
                out@.len() == i,
                forall|k: int|
                    0 <= k < i ==> view_of(#[trigger] out@[k]) == function_json(self.tools@[k]),
            decreases self.tools@.len() - i,
        {
            let t = &self.tools[i];
            let mut f: Vec<(String, Json)> = Vec::new();
            put_text(&mut f, "name", t.name.as_str());
            put_text(&mut f, "description", t.description.as_str());
            put(&mut f, "parameters", crate::json::copy(&t.parameters));
            let mut m: Vec<(String, Json)> = Vec::new();
            put_text(&mut m, "type", "function");
            put(&mut m, "function", Json::Obj(f));
            out.push(Json::Obj(m));
            i += 1;
        }
        out
    }
}

impl Default for ToolRegistry {
    fn default() -> (r: Self)
        ensures
            r.tools@.len() == 0,
    {
        ToolRegistry::new()
    }
}

/// Of tools with names of their own, those that are kept have names of their own.
proof fn filtered_stay_distinct(tools: Seq<ToolDef>, p: spec_fn(ToolDef) -> bool)
    requires
        forall|i: int, j: int|
            0 <= i < j < tools.len() ==> (#[trigger] tools[i]).name@ != (#[trigger] tools[j]).name@,
    ensures
        forall|i: int, j: int|
            0 <= i < j < tools.filter(p).len() ==> (#[trigger] tools.filter(p)[i]).name@ != (
            #[trigger] tools.filter(p)[j]).name@,
    decreases tools.len(),
{
    reveal(Seq::filter);
    if tools.len() > 0 {
        let rest = tools.drop_last();
        assert forall|i: int, j: int| 0 <= i < j < rest.len() implies (#[trigger] rest[i]).name@
            != (#[trigger] rest[j]).name@ by {
            assert(rest[i] == tools[i] && rest[j] == tools[j]);
        }
        filtered_stay_distinct(rest, p);
        assert forall|i: int| 0 <= i < rest.filter(p).len() implies (#[trigger] rest.filter(
            p,
        )[i]).name@ != tools.last().name@ by {
            let x = rest.filter(p)[i];
            rest.lemma_filter_contains_rev(p, x);
            let k = choose|k: int| 0 <= k < rest.len() && rest[k] == x;
            assert(tools[k] == x);
        }
    }
}

/// A tool that is in a list is found, as long as no two share a name.
pub proof fn tool_is_found(tools: Seq<ToolDef>, i: int)
    requires
        0 <= i < tools.len(),
        forall|j: int, k: int|
            0 <= j < k < tools.len() ==> (#[trigger] tools[j]).name@ != (#[trigger] tools[k]).name@,
    ensures
        tool_named(tools, tools[i].name@) == Some(tools[i]),
    decreases tools.len(),
{
    if i > 0 {
        assert(tools[0].name@ != tools[i].name@);
        let rest = tools.drop_first();
        assert(rest[i - 1] == tools[i]);
        assert forall|j: int, k: int| 0 <= j < k < rest.len() implies (#[trigger] rest[j]).name@
            != (#[trigger] rest[k]).name@ by {
            assert(rest[j] == tools[j + 1] && rest[k] == tools[k + 1]);
        }
        tool_is_found(rest, i - 1);
    }
}

proof fn last_is_found(tools: Seq<ToolDef>, t: ToolDef)
    requires
        forall|i: int| 0 <= i < tools.len() ==> (#[trigger] tools[i]).name@ != t.name@,
    ensures
        tool_named(tools.push(t), t.name@) == Some(t),
    decreases tools.len(),
{
    let all = tools.push(t);
    if tools.len() > 0 {
        assert(all[0] == tools[0]);
        assert(all.drop_first() =~= tools.drop_first().push(t));
        assert forall|i: int| 0 <= i < tools.drop_first().len() implies (
        #[trigger] tools.drop_first()[i]).name@ != t.name@ by {
            assert(tools.drop_first()[i] == tools[i + 1]);
        }
        last_is_found(tools.drop_first(), t);
    }
}

proof fn others_are_found(tools: Seq<ToolDef>, t: ToolDef, name: Seq<char>)
    requires
        name != t.name@,
    ensures
        tool_named(tools.filter(named_otherwise(t.name@)).push(t), name) == tool_named(tools, name),
    decreases tools.len(),
{
    let p = named_otherwise(t.name@);
    if tools.len() == 0 {
        reveal(Seq::filter);
        let all = tools.filter(p).push(t);
        assert(all[0] == t);
        assert(all.drop_first() =~= tools);
        reveal_with_fuel(tool_named, 2);
    } else {
        let rest = tools.drop_first();
        others_are_found(rest, t, name);
        let head = seq![tools[0]];
        assert(tools =~= head + rest);
        Seq::filter_distributes_over_add(head, rest, p);
        assert(head.filter(p) =~= if p(tools[0]) {
            head
        } else {
            Seq::<ToolDef>::empty()
        }) by {
            reveal(Seq::filter);
            assert(head.drop_last() =~= Seq::<ToolDef>::empty());
            assert(head.drop_last().filter(p) =~= Seq::<ToolDef>::empty());
        }
        if p(tools[0]) {
            let all = tools.filter(p).push(t);
            assert(all[0] == tools[0]);
            assert(all.drop_first() =~= rest.filter(p).push(t));
        } else {
            assert(tools.filter(p) =~= rest.filter(p));
        }
    }
}

/// A tool that is registered is found by its name; tools of other names are found as before.
pub proof fn registered_tools_are_found(tools: Seq<ToolDef>, t: ToolDef, name: Seq<char>)
    ensures
        tool_named(tools.filter(named_otherwise(t.name@)).push(t), name) == if name == t.name@ {
            Some(t)
        } else {
            tool_named(tools, name)
        },
{
    let p = named_otherwise(t.name@);
    if name == t.name@ {
        let kept = tools.filter(p);
        assert forall|i: int| 0 <= i < kept.len() implies (#[trigger] kept[i]).name@ != t.name@ by {
            tools.lemma_filter_pred(p, i);
        }
        last_is_found(kept, t);
    } else {
        others_are_found(tools, t, name);
    }
}

} // verus!
