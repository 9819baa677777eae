//! What is asked of the two databases, and what is made of their answers.

use crate::config::CategoryDef;
use crate::model::Approval;
use crate::model::CategoryInfo;
use crate::model::deobfuscated;
use crate::model::EmailRecord;
use crate::model::Item;
use crate::model::ItemKind;
use crate::model::ItemStatus;
use crate::model::MailAccount;
use crate::model::obfuscated;
use crate::model::SendLog;
use crate::model::SendStatus;
use crate::text::chars_of;
use crate::text::same;
use crate::text::text_before;
use crate::text::text_of;
use crate::text::trim;
use crate::text::trimmed;
use crate::time::Stamp;
use crate::time::stamp_of;
use crate::time::clock_text;
use vstd::prelude::*;

verus! {

/// Which mail is wanted.
#[derive(Debug)]
pub struct EmailFilter {
    pub category: Option<String>,
    pub q: Option<String>,
    /// Not before this time, in RFC 3339: of receipt, or of sending where that is not known.
    pub since: Option<String>,
    /// Not after this time, in RFC 3339, of receipt or else of sending.
    pub before: Option<String>,
    pub account_id: Option<i64>,
    /// The label that the user gave; `__none__`, or the empty text, for none.
    pub label: Option<String>,
    pub limit: usize,
}

/// Which items are wanted.
#[derive(Debug)]
pub struct ItemFilter {
    pub kind: Option<ItemKind>,
    pub status: Option<ItemStatus>,
    pub category: Option<String>,
    pub party: Option<String>,
    pub q: Option<String>,
    pub account_id: Option<i64>,
    pub created_after: Option<String>,
    pub created_before: Option<String>,
    pub deadline_after: Option<String>,
    pub deadline_before: Option<String>,
    pub limit: usize,
}

impl Default for EmailFilter {
    fn default() -> (r: Self)
        ensures
            r.category is None && r.q is None && r.since is None && r.before is None
                && r.account_id is None && r.label is None && r.limit == 0,
    {
        EmailFilter {
            category: None,
            q: None,
            since: None,
            before: None,
            account_id: None,
            label: None,
            limit: 0,
        }
    }
}

impl Default for ItemFilter {
    fn default() -> (r: Self)
        ensures
            r.kind is None && r.status is None && r.category is None && r.party is None
                && r.q is None && r.account_id is None && r.created_after is None
                && r.created_before is None && r.deadline_after is None
                && r.deadline_before is None && r.limit == 0,
    {
        ItemFilter {
            kind: None,
            status: None,
            category: None,
            party: None,
            q: None,
            account_id: None,
            created_after: None,
            created_before: None,
            deadline_after: None,
            deadline_before: None,
            limit: 0,
        }
    }
}

/// The time that the machine's clock shows, in RFC 3339. Which time that is depends on the
/// machine, and is not stated.
pub fn now_str() -> (r: String)
    ensures
        exists|now: Stamp| #[trigger] clock_text(r@, now),
        r@.len() > 0,
{
    crate::time::now_str()
}

/// The kind of the items that mail of a category makes.
pub open spec fn usual_kind(id: Seq<char>, create_item: bool) -> Seq<char> {
    if id == "notification"@ || !create_item {
        "notification"@
    } else {
        "todo"@
    }
}

/// The kind of the items that mail of a category makes.
pub fn default_kind(id: &str, create_item: bool) -> (r: &'static str)
    ensures
        r@ == usual_kind(id@, create_item),
{
    if same(id, "notification") {
        "notification"
    } else if create_item {
        "todo"
    } else {
        "notification"
    }
}

/// Whether a time comes before another: as moments where both can be read, else as texts.
pub open spec fn time_before(a: Seq<char>, b: Seq<char>) -> bool {
    match (stamp_of(a), stamp_of(b)) {
        (Some(x), Some(y)) => x.before(y),
        _ => text_before(a, b),
    }
}

fn is_text_before(a: &str, b: &str) -> (r: bool)
    ensures
        r == text_before(a@, b@),
{
    let v = chars_of(a);
    let w = chars_of(b);
    let mut i: usize = 0;
    assert(v@.skip(0) == v@ && w@.skip(0) == w@);
    while i < v.len() && i < w.len()
        invariant
            v@ == a@,
            w@ == b@,
            i <= v@.len(),
            i <= w@.len(),
            text_before(a@, b@) == text_before(v@.skip(i as int), w@.skip(i as int)),
        decreases v@.len() - i,
    {
        assert(v@.skip(i as int).drop_first() == v@.skip(i + 1));
        assert(w@.skip(i as int).drop_first() == w@.skip(i + 1));
        if v[i] != w[i] {
            return v[i] < w[i];
        }
        i += 1;
    }
    i < w.len()
}

/// Whether a time comes before another: as moments where both can be read, else as texts.
pub fn is_time_before(a: &str, b: &str) -> (r: bool)
    ensures
        r == time_before(a@, b@),
{
    match (Stamp::parse(a), Stamp::parse(b)) {
        (Some(x), Some(y)) => x.is_before(&y),
        _ => is_text_before(a, b),
    }
}

/// Whether a time lies between two bounds. With no bounds it does; a time that cannot be read
/// does not; a bound that cannot be read is none.
pub open spec fn in_range(v: Seq<char>, after: Option<Seq<char>>, before: Option<Seq<char>>) -> bool {
    if after is None && before is None {
        true
    } else {
        match stamp_of(v) {
            None => false,
            Some(t) => {
                &&& match after {
                    Some(a) => match stamp_of(a) {
                        Some(x) => !t.before(x),
                        None => true,
                    },
                    None => true,
                }
                &&& match before {
                    Some(b) => match stamp_of(b) {
                        Some(x) => !x.before(t),
                        None => true,
                    },
                    None => true,
                }
            },
        }
    }
}

/// Whether a time lies between two bounds.
pub fn range_ok(v: &str, after: &Option<String>, before: &Option<String>) -> (r: bool)
    ensures
        r == in_range(v@, text_of(*after), text_of(*before)),
{
    if after.is_none() && before.is_none() {
        return true;
    }
    let t = match Stamp::parse(v) {
        Some(t) => t,
        None => return false,
    };
    if let Some(a) = after {
        if let Some(x) = Stamp::parse(a.as_str()) {
            if t.is_before(&x) {
                return false;
            }
        }
    }
    if let Some(b) = before {
        if let Some(x) = Stamp::parse(b.as_str()) {
            if x.is_before(&t) {
                return false;
            }
        }
    }
    true
}

/// What rows are put in order by: a time and an id.
pub struct Key {
    pub time: String,
    pub id: i64,
}

impl View for Key {
    type V = (Seq<char>, i64);

    open spec fn view(&self) -> (Seq<char>, i64) {
        (self.time@, self.id)
    }
}

/// The keys over plain values.
pub open spec fn keys_of(k: Seq<Key>) -> Seq<(Seq<char>, i64)> {
    k.map_values(|x: Key| x@)
}

/// Whether a row comes before another, latest first: the later time, and of equal times the
/// greater id.
pub open spec fn precedes(a: (Seq<char>, i64), b: (Seq<char>, i64)) -> bool {
    time_before(b.0, a.0) || (!time_before(a.0, b.0) && a.1 > b.1)
}

/// Whether the times of all keys can be read.
pub open spec fn all_readable(k: Seq<(Seq<char>, i64)>) -> bool {
    forall|i: int| 0 <= i < k.len() ==> stamp_of((#[trigger] k[i]).0) is Some
}

/// Whether keys stand latest first: no key comes before the one in front of it; where all times
/// can be read, no key comes before any in front of it.
pub open spec fn latest_first(k: Seq<(Seq<char>, i64)>) -> bool {
    &&& forall|i: int| 0 < i < k.len() ==> !precedes(#[trigger] k[i], k[i - 1])
    &&& all_readable(k) ==> forall|i: int, j: int|
        0 <= i < j < k.len() ==> !precedes(#[trigger] k[j], #[trigger] k[i])
}

proof fn text_before_asymmetric(a: Seq<char>, b: Seq<char>)
    requires
        text_before(a, b),
    ensures
        !text_before(b, a),
    decreases a.len(),
{
    if a.len() > 0 && b.len() > 0 && a[0] == b[0] {
        text_before_asymmetric(a.drop_first(), b.drop_first());
    }
}

proof fn precedes_asymmetric(a: (Seq<char>, i64), b: (Seq<char>, i64))
    requires
        precedes(a, b),
    ensures
        !precedes(b, a),
{
    if time_before(b.0, a.0) && text_before(b.0, a.0) {
        text_before_asymmetric(b.0, a.0);
    }
    if time_before(a.0, b.0) && text_before(a.0, b.0) {
        text_before_asymmetric(a.0, b.0);
    }
}

proof fn adjacent_order_is_order(k: Seq<(Seq<char>, i64)>, i: int, j: int)
    requires
        all_readable(k),
        forall|m: int| 0 < m < k.len() ==> !precedes(#[trigger] k[m], k[m - 1]),
        0 <= i < j < k.len(),
    ensures
        !precedes(k[j], k[i]),
    decreases j - i,
{
    assert(!precedes(k[j], k[j - 1]));
    if i < j - 1 {
        adjacent_order_is_order(k, i, j - 1);
        assert(stamp_of(k[i].0) is Some && stamp_of(k[j].0) is Some && stamp_of(k[j - 1].0) is Some);
    }
}

/// Whether `o` lists each of the numbers below `n` once.
pub open spec fn is_order(o: Seq<int>, n: int) -> bool {
    &&& o.len() == n
    &&& forall|i: int| 0 <= i < n ==> 0 <= #[trigger] o[i] < n
    &&& forall|i: int, j: int| 0 <= i < j < n ==> #[trigger] o[i] != #[trigger] o[j]
}

/// The rows in an order.
pub open spec fn arranged<T>(rows: Seq<T>, o: Seq<int>) -> Seq<T> {
    Seq::new(o.len(), |i: int| rows[o[i]])
}

/// The numbers of an order.
pub open spec fn ints(o: Seq<usize>) -> Seq<int> {
    o.map_values(|x: usize| x as int)
}

fn is_earlier(a: &Key, at: &Option<Stamp>, b: &Key, bt: &Option<Stamp>) -> (r: bool)
    requires
        *at == stamp_of(a.time@),
        *bt == stamp_of(b.time@),
    ensures
        r == time_before(a.time@, b.time@),
{
    match (at, bt) {
        (Some(x), Some(y)) => x.is_before(y),
        _ => is_text_before(a.time.as_str(), b.time.as_str()),
    }
}

fn does_precede(a: &Key, at: &Option<Stamp>, b: &Key, bt: &Option<Stamp>) -> (r: bool)
    requires
        *at == stamp_of(a.time@),
        *bt == stamp_of(b.time@),
    ensures
        r == precedes(a@, b@),
{
    is_earlier(b, bt, a, at) || (!is_earlier(a, at, b, bt) && a.id > b.id)
}

fn moments_of(keys: &Vec<Key>) -> (r: Vec<Option<Stamp>>)
    ensures
        r@.len() == keys@.len(),
        forall|i: int| 0 <= i < r@.len() ==> #[trigger] r@[i] == stamp_of(keys@[i].time@),
{
    let mut out: Vec<Option<Stamp>> = Vec::new();
    let mut i: usize = 0;
    while i < keys.len()
        invariant
            i <= keys@.len(),
            out@.len() == i,
            forall|j: int| 0 <= j < i ==> #[trigger] out@[j] == stamp_of(keys@[j].time@),
        decreases keys@.len() - i,
    {
        out.push(Stamp::parse(keys[i].time.as_str()));
        i += 1;
    }
    out
}

/// The order that puts keys latest first.
pub fn order_of(keys: &Vec<Key>) -> (r: Vec<usize>)
    ensures
        is_order(ints(r@), keys@.len() as int),
        latest_first(arranged(keys_of(keys@), ints(r@))),
{
    let mut out: Vec<usize> = Vec::new();
    let at = moments_of(keys);
    let ghost k = keys_of(keys@);
    let mut n: usize = 0;
    while n < keys.len()
        invariant
            k == keys_of(keys@),
            at@.len() == keys@.len(),
            forall|i: int| 0 <= i < at@.len() ==> #[trigger] at@[i] == stamp_of(keys@[i].time@),
            n <= keys@.len(),
            is_order(ints(out@), n as int),
            out@.len() == n,
            forall|i: int| 0 <= i < n ==> (#[trigger] out@[i]) < n,
            forall|i: int, j: int| 0 <= i < j < n ==> #[trigger] out@[i] != #[trigger] out@[j],
            forall|i: int|
                0 < i < n ==> !precedes(k[#[trigger] out@[i] as int], k[out@[i - 1] as int]),
        decreases keys@.len() - n,
    {
        let mut p: usize = 0;
        while p < out.len() && !does_precede(&keys[n], &at[n], &keys[out[p]], &at[out[p]])
            invariant
                k == keys_of(keys@),
                at@.len() == keys@.len(),
                forall|i: int|
                    0 <= i < at@.len() ==> #[trigger] at@[i] == stamp_of(keys@[i].time@),
                n < keys@.len(),
                p <= out@.len(),
                out@.len() == n,
                forall|i: int| 0 <= i < n ==> (#[trigger] out@[i]) < n,
                forall|i: int| 0 <= i < p ==> !precedes(k[n as int], k[#[trigger] out@[i] as int]),
            decreases out@.len() - p,
        {
            p += 1;
        }
        let ghost before = out@;
        out.insert(p, n);
        proof {
            assert(out@ == before.insert(p as int, n));
            assert forall|i: int| 0 < i < n + 1 implies !precedes(
                k[#[trigger] out@[i] as int],
                k[out@[i - 1] as int],
            ) by {
                if i == p + 1 {
                    assert(out@[i] == before[p as int]);
                    precedes_asymmetric(k[n as int], k[before[p as int] as int]);
                } else if i == p {
                    assert(out@[i - 1] == before[p - 1]);
                } else if i < p {
                    assert(out@[i] == before[i] && out@[i - 1] == before[i - 1]);
                } else {
                    assert(out@[i] == before[i - 1] && out@[i - 1] == before[i - 2]);
                }
            }
            assert forall|i: int| 0 <= i < n + 1 implies (#[trigger] out@[i]) < n + 1 by {
                if i < p {
                    assert(out@[i] == before[i]);
                } else if i > p {
                    assert(out@[i] == before[i - 1]);
                }
            }
            assert forall|i: int, j: int| 0 <= i < j < n + 1 implies #[trigger] out@[i]
                != #[trigger] out@[j] by {
                let a = if i < p {
                    i
                } else {
                    i - 1
                };
                let b = if j < p {
                    j
                } else {
                    j - 1
                };
                if i != p {
                    assert(out@[i] == before[a]);
                }
                if j != p {
                    assert(out@[j] == before[b]);
                }
            }
            assert forall|i: int| 0 <= i < n + 1 implies 0 <= #[trigger] ints(out@)[i] < n + 1 by {
                assert(ints(out@)[i] == out@[i] as int);
            }
            assert forall|i: int, j: int| 0 <= i < j < n + 1 implies #[trigger] ints(out@)[i]
                != #[trigger] ints(out@)[j] by {
                assert(ints(out@)[i] == out@[i] as int && ints(out@)[j] == out@[j] as int);
            }
        }
        n += 1;
    }
    proof {
        let a = arranged(k, ints(out@));
        assert forall|i: int| 0 < i < a.len() implies !precedes(#[trigger] a[i], a[i - 1]) by {
            assert(a[i] == k[out@[i] as int] && a[i - 1] == k[out@[i - 1] as int]);
        }
        if all_readable(a) {
            assert forall|i: int, j: int| 0 <= i < j < a.len() implies !precedes(
                #[trigger] a[j],
                #[trigger] a[i],
            ) by {
                adjacent_order_is_order(a, i, j);
            }
        }
    }
    out
}

/// A value that a query is given.
#[derive(Debug)]
pub enum SqlValue {
    Text(String),
    Int(i64),
}

/// A value that a query is given, over plain text.
pub enum SqlView {
    Text(Seq<char>),
    Int(i64),
}

impl View for SqlValue {
    type V = SqlView;

    open spec fn view(&self) -> SqlView {
        match self {
            SqlValue::Text(s) => SqlView::Text(s@),
            SqlValue::Int(n) => SqlView::Int(*n),
        }
    }
}

/// A query and the values for its places.
pub struct Query {
    pub sql: String,
    pub values: Vec<SqlValue>,
}

/// A query over plain values.
pub type QueryView = (Seq<char>, Seq<SqlView>);

impl View for Query {
    type V = QueryView;

    open spec fn view(&self) -> QueryView {
        (self.sql@, self.values@.map_values(|v: SqlValue| v@))
    }
}

/// A query with a condition more.
pub open spec fn with(q: QueryView, condition: Seq<char>, values: Seq<SqlView>) -> QueryView {
    (q.0 + condition, q.1 + values)
}

/// A query with a condition more where a text is given that is not empty.
pub open spec fn with_text(q: QueryView, condition: Seq<char>, value: Option<Seq<char>>) -> QueryView {
    match value {
        Some(t) if t.len() > 0 => with(q, condition, seq![SqlView::Text(t)]),
        _ => q,
    }
}

/// A query with a condition more where a number is given.
pub open spec fn with_number(q: QueryView, condition: Seq<char>, value: Option<i64>) -> QueryView {
    match value {
        Some(n) => with(q, condition, seq![SqlView::Int(n)]),
        None => q,
    }
}

/// A query for rows in which one of four columns holds the words.
pub open spec fn with_words(q: QueryView, condition: Seq<char>, words: Option<Seq<char>>) -> QueryView {
    match words {
        Some(w) if trimmed(w).len() > 0 => {
            let like = SqlView::Text("%"@ + trimmed(w) + "%"@);
            with(q, condition, seq![like, like, like, like])
        },
        _ => q,
    }
}

impl Query {
    fn start(sql: &str) -> (r: Query)
        ensures
            r@ == (sql@, Seq::<SqlView>::empty()),
    {
        let r = Query { sql: sql.to_owned(), values: Vec::new() };
        assert(r@.1 =~= Seq::<SqlView>::empty());
        r
    }

    fn add_plain(&mut self, condition: &str)
        ensures
            final(self)@ == with(old(self)@, condition@, Seq::empty()),
    {
        self.sql.append(condition);
        assert(self@.1 =~= old(self)@.1 + Seq::<SqlView>::empty());
    }

    fn add_value(&mut self, condition: &str, value: SqlValue)
        ensures
            final(self)@ == with(old(self)@, condition@, seq![value@]),
    {
        self.sql.append(condition);
        self.values.push(value);
        assert(self@.1 =~= old(self)@.1 + seq![value@]);
    }

    fn add_text(&mut self, condition: &str, value: &Option<String>)
        ensures
            final(self)@ == with_text(old(self)@, condition@, text_of(*value)),
    {
        if let Some(t) = value {
            if !t.as_str().is_empty() {
                self.add_value(condition, SqlValue::Text(t.clone()));
            }
        }
    }

    fn add_number(&mut self, condition: &str, value: &Option<i64>)
        ensures
            final(self)@ == with_number(old(self)@, condition@, *value),
    {
        if let Some(n) = value {
            self.add_value(condition, SqlValue::Int(*n));
        }
    }

    fn add_words(&mut self, condition: &str, words: &Option<String>)
        ensures
            final(self)@ == with_words(old(self)@, condition@, text_of(*words)),
    {
        if let Some(w) = words {
            let t = trim(w.as_str());
            if !t.as_str().is_empty() {
                let mut like = "%".to_owned();
                like.append(t.as_str());
                like.append("%");
                self.sql.append(condition);
                let ghost before = self@.1;
                self.values.push(SqlValue::Text(like.clone()));
                self.values.push(SqlValue::Text(like.clone()));
                self.values.push(SqlValue::Text(like.clone()));
                self.values.push(SqlValue::Text(like));
                proof {
                    let v = SqlView::Text(like@);
                    assert(self@.1 =~= old(self)@.1 + seq![v, v, v, v]);
                }
            }
        }
    }
}

pub const SELECT_EMAILS: &'static str =
    "SELECT id, uid, message_id, subject, from_addr, from_name, body_text, category, sent_at, received_at, item_id, reply_to_item_id, account_id, handled, user_label, user_note FROM emails WHERE 1=1";

pub const SELECT_ITEMS: &'static str =
    "SELECT id,kind,title,party,event,category,deadline,remind_at,remind_policy,needs_review,status,source_email_id,account_id,notes,created_at,updated_at FROM items WHERE 1=1";

pub const SELECT_LOGS: &'static str =
    "SELECT id,item_id,attempt,kind,to_addr,subject,body,status,error,scheduled_at,sent_at,next_retry_at,message_id FROM send_log WHERE 1=1";

pub const SELECT_APPROVALS: &'static str =
    "SELECT id,tool_name,payload_json,summary,status,source_email_id,decided_at,created_at FROM approvals WHERE 1=1";

pub const LATEST_ROWS: &'static str = " ORDER BY id DESC LIMIT ?";

/// A query with the condition on the label of mail: that there is none, where `__none__` or the
/// empty text is asked for.
pub open spec fn with_label(q: QueryView, label: Option<Seq<char>>) -> QueryView {
    match label {
        Some(l) if l.len() == 0 || l == "__none__"@ => with(q, " AND user_label=''"@, Seq::empty()),
        _ => with_text(q, " AND user_label=?"@, label),
    }
}

/// The query for the mail that a filter asks for, but for its times.
pub open spec fn email_query(f: EmailFilter) -> QueryView {
    let q = with_text(
        (SELECT_EMAILS@, Seq::empty()),
        " AND category=?"@,
        text_of(f.category),
    );
    let q = with_number(q, " AND account_id=?"@, f.account_id);
    let q = with_label(q, text_of(f.label));
    let q = with_words(
        q,
        " AND (subject LIKE ? OR from_addr LIKE ? OR from_name LIKE ? OR body_text LIKE ?)"@,
        text_of(f.q),
    );
    with(q, LATEST_ROWS@, seq![SqlView::Int(f.limit as i64)])
}

/// The query for the mail that a filter asks for, but for its times.
pub fn list_emails_query(f: &EmailFilter) -> (r: Query)
    ensures
        r@ == email_query(*f),
{
    let mut q = Query::start(SELECT_EMAILS);
    q.add_text(" AND category=?", &f.category);
    q.add_number(" AND account_id=?", &f.account_id);
    let unlabelled = match &f.label {
        Some(l) => l.as_str().is_empty() || same(l.as_str(), "__none__"),
        None => false,
    };
    if unlabelled {
        q.add_plain(" AND user_label=''");
    } else {
        q.add_text(" AND user_label=?", &f.label);
    }
    q.add_words(
        " AND (subject LIKE ? OR from_addr LIKE ? OR from_name LIKE ? OR body_text LIKE ?)",
        &f.q,
    );
    q.add_value(LATEST_ROWS, SqlValue::Int(f.limit as i64));
    q
}

/// The name of a kind that may be asked for.
pub open spec fn kind_name(k: Option<ItemKind>) -> Option<Seq<char>> {
    match k {
        Some(x) => Some(x.name()),
        None => None,
    }
}

/// The name of a status that may be asked for.
pub open spec fn status_name(k: Option<ItemStatus>) -> Option<Seq<char>> {
    match k {
        Some(x) => Some(x.name()),
        None => None,
    }
}

/// A query with a condition more where a name is given.
pub open spec fn with_name(q: QueryView, condition: Seq<char>, name: Option<Seq<char>>) -> QueryView {
    match name {
        Some(t) => with(q, condition, seq![SqlView::Text(t)]),
        None => q,
    }
}

/// The query for the items that a filter asks for, but for its times.
pub open spec fn item_query(f: ItemFilter) -> QueryView {
    let q = with_name((SELECT_ITEMS@, Seq::empty()), " AND kind=?"@, kind_name(f.kind));
    let q = with_name(q, " AND status=?"@, status_name(f.status));
    let q = with_text(q, " AND category=?"@, text_of(f.category));
    let q = with_text(q, " AND party=?"@, text_of(f.party));
    let q = with_number(q, " AND account_id=?"@, f.account_id);
    let q = with_words(
        q,
        " AND (title LIKE ? OR party LIKE ? OR event LIKE ? OR notes LIKE ?)"@,
        text_of(f.q),
    );
    with(q, LATEST_ROWS@, seq![SqlView::Int(f.limit as i64)])
}

/// The query for the items that a filter asks for, but for its times.
pub fn list_items_query(f: &ItemFilter) -> (r: Query)
    ensures
        r@ == item_query(*f),
{
    let mut q = Query::start(SELECT_ITEMS);
    if let Some(k) = f.kind {
        q.add_value(" AND kind=?", SqlValue::Text(k.as_str().to_owned()));
    }
    if let Some(s) = f.status {
        q.add_value(" AND status=?", SqlValue::Text(s.as_str().to_owned()));
    }
    q.add_text(" AND category=?", &f.category);
    q.add_text(" AND party=?", &f.party);
    q.add_number(" AND account_id=?", &f.account_id);
    q.add_words(
        " AND (title LIKE ? OR party LIKE ? OR event LIKE ? OR notes LIKE ?)",
        &f.q,
    );
    q.add_value(LATEST_ROWS, SqlValue::Int(f.limit as i64));
    q
}

/// The query for the records of reminders of an item and with a status.
pub fn list_send_logs_query(item_id: Option<i64>, status: Option<SendStatus>, limit: usize) -> (r:
    Query)
    ensures
        r@ == with(
            with_name(
                with_number((SELECT_LOGS@, Seq::empty()), " AND item_id=?"@, item_id),
                " AND status=?"@,
                match status {
                    Some(s) => Some(s.name()),
                    None => None,
                },
            ),
            LATEST_ROWS@,
            seq![SqlView::Int(limit as i64)],
        ),
{
    let mut q = Query::start(SELECT_LOGS);
    q.add_number(" AND item_id=?", &item_id);
    if let Some(s) = status {
        q.add_value(" AND status=?", SqlValue::Text(s.as_str().to_owned()));
    }
    q.add_value(LATEST_ROWS, SqlValue::Int(limit as i64));
    q
}

/// The query for the approvals with a status.
pub fn list_approvals_query(status: &Option<String>, limit: usize) -> (r: Query)
    ensures
        r@ == with(
            with_text((SELECT_APPROVALS@, Seq::empty()), " AND status=?"@, text_of(*status)),
            LATEST_ROWS@,
            seq![SqlView::Int(limit as i64)],
        ),
{
    let mut q = Query::start(SELECT_APPROVALS);
    q.add_text(" AND status=?", status);
    q.add_value(LATEST_ROWS, SqlValue::Int(limit as i64));
    q
}

/// A row that can be copied.
pub trait Row: Sized {
    fn duplicate(&self) -> (r: Self)
        ensures
            r == *self,
    ;
}

impl Row for EmailRecord {
    fn duplicate(&self) -> (r: Self) {
        self.clone()
    }
}

impl Row for Item {
    fn duplicate(&self) -> (r: Self) {
        self.clone()
    }
}

impl Row for SendLog {
    fn duplicate(&self) -> (r: Self) {
        self.clone()
    }
}

impl Row for Approval {
    fn duplicate(&self) -> (r: Self) {
        self.clone()
    }
}

fn arrange<T: Row>(rows: &Vec<T>, o: &Vec<usize>) -> (r: Vec<T>)
    requires
        is_order(ints(o@), rows@.len() as int),
    ensures
        r@ == arranged(rows@, ints(o@)),
{
    let mut out: Vec<T> = Vec::new();
    let mut i: usize = 0;
    while i < o.len()
        invariant
            is_order(ints(o@), rows@.len() as int),
            i <= o@.len(),
            out@ == arranged(rows@, ints(o@)).take(i as int),
        decreases o@.len() - i,
    {
        assert(ints(o@)[i as int] == o@[i as int] as int);
        let row = rows[o[i]].duplicate();
        assert(arranged(rows@, ints(o@)).take(i + 1) == arranged(rows@, ints(o@)).take(
            i as int,
        ).push(row));
        out.push(row);
        i += 1;
    }
    assert(arranged(rows@, ints(o@)).take(i as int) == arranged(rows@, ints(o@)));
    out
}

/// Whether rows are the given ones, put in order by their keys, latest first.
pub open spec fn sorted_from<T>(r: Seq<T>, rows: Seq<T>, key: spec_fn(T) -> (Seq<char>, i64)) -> bool {
    &&& exists|o: Seq<int>| #[trigger] is_order(o, rows.len() as int) && r == arranged(rows, o)
    &&& latest_first(r.map_values(key))
}

fn sort_rows<T: Row>(rows: &Vec<T>, keys: &Vec<Key>, Ghost(key): Ghost<spec_fn(T) -> (Seq<char>, i64)>) -> (r:
    Vec<T>)
    requires
        keys_of(keys@) == rows@.map_values(key),
    ensures
        sorted_from(r@, rows@, key),
{
    assert(keys_of(keys@).len() == rows@.map_values(key).len());
    let o = order_of(keys);
    let r = arrange(rows, &o);
    proof {
        assert(r@.map_values(key) =~= arranged(keys_of(keys@), ints(o@))) by {
            assert forall|i: int| 0 <= i < r@.len() implies r@.map_values(key)[i] == arranged(
                keys_of(keys@),
                ints(o@),
            )[i] by {
                let k = ints(o@)[i];
                assert(0 <= k < rows@.len());
                assert(rows@.map_values(key)[k] == key(rows@[k]));
            }
        }
        assert(is_order(ints(o@), rows@.len() as int));
    }
    r
}

/// The time that mail is listed by: of receipt, else of sending.
pub open spec fn email_time(e: EmailRecord) -> Seq<char> {
    if e.received_at@.len() == 0 {
        e.sent_at@
    } else {
        e.received_at@
    }
}

/// What mail is put in order by.
pub open spec fn email_key(e: EmailRecord) -> (Seq<char>, i64) {
    (email_time(e), e.id)
}

/// Whether mail lies within the times of a filter.
pub open spec fn email_wanted(e: EmailRecord, f: EmailFilter) -> bool {
    &&& f.since matches Some(t) ==> !time_before(email_time(e), t@)
    &&& f.before matches Some(t) ==> !time_before(t@, email_time(e))
}

fn time_of_email(e: &EmailRecord) -> (r: String)
    ensures
        r@ == email_time(*e),
{
    if e.received_at.as_str().is_empty() {
        e.sent_at.clone()
    } else {
        e.received_at.clone()
    }
}

fn is_email_wanted(e: &EmailRecord, f: &EmailFilter) -> (r: bool)
    ensures
        r == email_wanted(*e, *f),
{
    let t = time_of_email(e);
    if let Some(since) = &f.since {
        if is_time_before(t.as_str(), since.as_str()) {
            return false;
        }
    }
    if let Some(before) = &f.before {
        if is_time_before(before.as_str(), t.as_str()) {
            return false;
        }
    }
    true
}

/// The mail that a filter asks for, out of what its query found: within the times of the filter,
/// latest first.
pub fn list_emails(rows: &Vec<EmailRecord>, f: &EmailFilter) -> (r: Vec<EmailRecord>)
    ensures
        sorted_from(
            r@,
            rows@.filter(|e: EmailRecord| email_wanted(e, *f)),
            |e: EmailRecord| email_key(e),
        ),
{
    let mut kept: Vec<EmailRecord> = Vec::new();
    let mut keys: Vec<Key> = Vec::new();
    let ghost wanted = |e: EmailRecord| email_wanted(e, *f);
    let ghost key = |e: EmailRecord| email_key(e);
    let mut i: usize = 0;
    assert(rows@.take(0).filter(wanted) =~= Seq::<EmailRecord>::empty()) by {
        reveal(Seq::filter);
    }
    while i < rows.len()
        invariant
            i <= rows@.len(),
            wanted == (|e: EmailRecord| email_wanted(e, *f)),
            key == (|e: EmailRecord| email_key(e)),
            kept@ == rows@.take(i as int).filter(wanted),
            keys_of(keys@) == kept@.map_values(key),
        decreases rows@.len() - i,
    {
        proof {
            assert(rows@.take(i + 1).drop_last() == rows@.take(i as int));
            reveal(Seq::filter);
        }
        if is_email_wanted(&rows[i], f) {
            let k = Key { time: time_of_email(&rows[i]), id: rows[i].id };
            let e = rows[i].clone();
            proof {
                assert(keys_of(keys@.push(k)) =~= keys_of(keys@).push(k@));
                assert(kept@.push(e).map_values(key) =~= kept@.map_values(key).push(key(e)));
            }
            keys.push(k);
            kept.push(e);
        }
        i += 1;
    }
    assert(rows@.take(i as int) == rows@);
    sort_rows(&kept, &keys, Ghost(key))
}

/// When the mail of that id was received.
pub open spec fn received_of(received: Seq<(i64, String)>, id: i64) -> Option<Seq<char>>
    decreases received.len(),
{
    if received.len() == 0 {
        None
    } else if received[0].0 == id {
        Some(received[0].1@)
    } else {
        received_of(received.drop_first(), id)
    }
}

/// The time that an item is listed by: of receipt of its mail, else when it was made.
pub open spec fn item_time(it: Item, received: Seq<(i64, String)>) -> Seq<char> {
    match it.source_email_id {
        Some(id) => match received_of(received, id) {
            Some(t) => t,
            None => it.created_at@,
        },
        None => it.created_at@,
    }
}

/// What items are put in order by.
pub open spec fn item_key(it: Item, received: Seq<(i64, String)>) -> (Seq<char>, i64) {
    (item_time(it, received), it.id)
}

/// Whether an item lies within the times of a filter; without a deadline it does not where the
/// filter bounds the deadline.
pub open spec fn item_wanted(it: Item, f: ItemFilter) -> bool {
    &&& in_range(it.created_at@, text_of(f.created_after), text_of(f.created_before))
    &&& match text_of(it.deadline) {
        Some(d) => in_range(d, text_of(f.deadline_after), text_of(f.deadline_before)),
        None => f.deadline_after is None && f.deadline_before is None,
    }
}

fn find_received(received: &Vec<(i64, String)>, id: i64) -> (r: Option<String>)
    ensures
        text_of(r) == received_of(received@, id),
{
    let mut i: usize = 0;
    assert(received@.skip(0) == received@);
    while i < received.len()
        invariant
            i <= received@.len(),
            received_of(received@, id) == received_of(received@.skip(i as int), id),
        decreases received@.len() - i,
    {
        assert(received@.skip(i as int).drop_first() == received@.skip(i + 1));
        if received[i].0 == id {
            return Some(received[i].1.clone());
        }
        i += 1;
    }
    None
}

fn time_of_item(it: &Item, received: &Vec<(i64, String)>) -> (r: String)
    ensures
        r@ == item_time(*it, received@),
{
    if let Some(id) = it.source_email_id {
        if let Some(t) = find_received(received, id) {
            return t;
        }
    }
    it.created_at.clone()
}

fn is_item_wanted(it: &Item, f: &ItemFilter) -> (r: bool)
    ensures
        r == item_wanted(*it, *f),
{
    if !range_ok(it.created_at.as_str(), &f.created_after, &f.created_before) {
        return false;
    }
    match &it.deadline {
        Some(d) => range_ok(d.as_str(), &f.deadline_after, &f.deadline_before),
        None => f.deadline_after.is_none() && f.deadline_before.is_none(),
    }
}

/// The items that a filter asks for, out of what its query found: within the times of the filter,
/// latest first by the receipt of their mail.
pub fn list_items(rows: &Vec<Item>, f: &ItemFilter, received: &Vec<(i64, String)>) -> (r: Vec<Item>)
    ensures
        sorted_from(
            r@,
            rows@.filter(|it: Item| item_wanted(it, *f)),
            |it: Item| item_key(it, received@),
        ),
{
    let mut kept: Vec<Item> = Vec::new();
    let mut keys: Vec<Key> = Vec::new();
    let ghost wanted = |it: Item| item_wanted(it, *f);
    let ghost key = |it: Item| item_key(it, received@);
    let mut i: usize = 0;
    assert(rows@.take(0).filter(wanted) =~= Seq::<Item>::empty()) by {
        reveal(Seq::filter);
    }
    while i < rows.len()
        invariant
            i <= rows@.len(),
            wanted == (|it: Item| item_wanted(it, *f)),
            key == (|it: Item| item_key(it, received@)),
            kept@ == rows@.take(i as int).filter(wanted),
            keys_of(keys@) == kept@.map_values(key),
        decreases rows@.len() - i,
    {
        proof {
            assert(rows@.take(i + 1).drop_last() == rows@.take(i as int));
            reveal(Seq::filter);
        }
        if is_item_wanted(&rows[i], f) {
            let k = Key { time: time_of_item(&rows[i], received), id: rows[i].id };
            let it = rows[i].clone();
            proof {
                assert(keys_of(keys@.push(k)) =~= keys_of(keys@).push(k@));
                assert(kept@.push(it).map_values(key) =~= kept@.map_values(key).push(key(it)));
            }
            keys.push(k);
            kept.push(it);
        }
        i += 1;
    }
    assert(rows@.take(i as int) == rows@);
    sort_rows(&kept, &keys, Ghost(key))
}

/// The records of reminders, by when they were due, latest first.
pub fn list_send_logs(rows: &Vec<SendLog>) -> (r: Vec<SendLog>)
    ensures
        sorted_from(r@, rows@, |l: SendLog| (l.scheduled_at@, l.id)),
{
    let ghost key = |l: SendLog| (l.scheduled_at@, l.id);
    let mut keys: Vec<Key> = Vec::new();
    let mut i: usize = 0;
    while i < rows.len()
        invariant
            i <= rows@.len(),
            key == (|l: SendLog| (l.scheduled_at@, l.id)),
            keys_of(keys@) == rows@.take(i as int).map_values(key),
        decreases rows@.len() - i,
    {
        let k = Key { time: rows[i].scheduled_at.clone(), id: rows[i].id };
        proof {
            assert(keys_of(keys@.push(k)) =~= keys_of(keys@).push(k@));
            assert(rows@.take(i + 1).map_values(key) =~= rows@.take(i as int).map_values(key).push(
                key(rows@[i as int]),
            ));
        }
        keys.push(k);
        i += 1;
    }
    assert(rows@.take(i as int) == rows@);
    sort_rows(rows, &keys, Ghost(key))
}

/// The approvals, by when they were asked for, latest first.
pub fn list_approvals(rows: &Vec<Approval>) -> (r: Vec<Approval>)
    ensures
        sorted_from(r@, rows@, |a: Approval| (a.created_at@, a.id)),
{
    let ghost key = |a: Approval| (a.created_at@, a.id);
    let mut keys: Vec<Key> = Vec::new();
    let mut i: usize = 0;
    while i < rows.len()
        invariant
            i <= rows@.len(),
            key == (|a: Approval| (a.created_at@, a.id)),
            keys_of(keys@) == rows@.take(i as int).map_values(key),
        decreases rows@.len() - i,
    {
        let k = Key { time: rows[i].created_at.clone(), id: rows[i].id };
        proof {
            assert(keys_of(keys@.push(k)) =~= keys_of(keys@).push(k@));
            assert(rows@.take(i + 1).map_values(key) =~= rows@.take(i as int).map_values(key).push(
                key(rows@[i as int]),
            ));
        }
        keys.push(k);
        i += 1;
    }
    assert(rows@.take(i as int) == rows@);
    sort_rows(rows, &keys, Ghost(key))
}

/// The ids of the mail that items come from.
pub open spec fn source_ids(items: Seq<Item>) -> Seq<i64>
    decreases items.len(),
{
    if items.len() == 0 {
        Seq::empty()
    } else {
        match items.last().source_email_id {
            Some(id) => source_ids(items.drop_last()).push(id),
            None => source_ids(items.drop_last()),
        }
    }
}

/// So many places for values, with commas between them.
pub open spec fn places(n: nat) -> Seq<char>
    decreases n,
{
    if n == 0 {
        Seq::empty()
    } else if n == 1 {
        "?"@
    } else {
        places((n - 1) as nat) + ",?"@
    }
}

/// The query for when the mail that items come from was received; none where no item comes from
/// mail.
pub fn received_at_query(items: &Vec<Item>) -> (r: Option<Query>)
    ensures
        match r {
            Some(q) => source_ids(items@).len() > 0 && q@ == (
                "SELECT id, received_at FROM emails WHERE id IN ("@ + places(
                    source_ids(items@).len(),
                ) + ")"@,
                source_ids(items@).map_values(|id: i64| SqlView::Int(id)),
            ),
            None => source_ids(items@).len() == 0,
        },
{
    let mut marks = String::new();
    let mut values: Vec<SqlValue> = Vec::new();
    let ghost view = |v: SqlValue| v@;
    let ghost number = |id: i64| SqlView::Int(id);
    let mut i: usize = 0;
    assert(values@.map_values(view) =~= source_ids(items@.take(0)).map_values(number));
    while i < items.len()
        invariant
            i <= items@.len(),
            view == (|v: SqlValue| v@),
            number == (|id: i64| SqlView::Int(id)),
            values@.len() == source_ids(items@.take(i as int)).len(),
            values@.map_values(view) == source_ids(items@.take(i as int)).map_values(number),
            marks@ == places(source_ids(items@.take(i as int)).len()),
        decreases items@.len() - i,
    {
        assert(items@.take(i + 1).drop_last() == items@.take(i as int));
        if let Some(id) = items[i].source_email_id {
            let ghost ids = source_ids(items@.take(i as int));
            if values.len() == 0 {
                marks.append("?");
                assert(marks@ == "?"@);
            } else {
                marks.append(",?");
            }
            let v = SqlValue::Int(id);
            proof {
                assert(values@.push(v).map_values(view) =~= values@.map_values(view).push(v@));
                assert(ids.push(id).map_values(number) =~= ids.map_values(number).push(number(id)));
            }
            values.push(v);
        }
        i += 1;
    }
    assert(items@.take(i as int) == items@);
    if values.len() == 0 {
        return None;
    }
    let mut sql = "SELECT id, received_at FROM emails WHERE id IN (".to_owned();
    sql.append(marks.as_str());
    sql.append(")");
    Some(Query { sql, values })
}

/// Whether an item is active and its deadline lies before a moment.
pub open spec fn overdue(it: Item, now: Stamp) -> bool {
    it.status == ItemStatus::Active && match text_of(it.deadline) {
        Some(d) => match stamp_of(d) {
            Some(t) => t.before(now),
            None => false,
        },
        None => false,
    }
}

/// Whether an item is active and its deadline lies before a moment.
pub fn is_overdue(it: &Item, now: &Stamp) -> (r: bool)
    ensures
        r == overdue(*it, *now),
{
    match it.status {
        ItemStatus::Active => match &it.deadline {
            Some(d) => match Stamp::parse(d.as_str()) {
                Some(t) => t.is_before(now),
                None => false,
            },
            None => false,
        },
        _ => false,
    }
}

/// An item after the sweep for passed deadlines.
pub open spec fn swept(it: Item, now: Stamp, at: String) -> Item {
    if overdue(it, now) {
        Item { status: ItemStatus::Expired, updated_at: at, ..it }
    } else {
        it
    }
}

/// How many items of a list are overdue.
pub open spec fn overdue_count(items: Seq<Item>, now: Stamp) -> nat {
    items.filter(|it: Item| overdue(it, now)).len()
}

/// Sets every active item whose deadline lies before `now` to expired and leaves the others as
/// they are; says how many were set. Nothing where `now` is no RFC 3339 time.
pub fn mark_expired(items: &mut Vec<Item>, now: &String) -> (r: Option<usize>)
    ensures
        match stamp_of(now@) {
            Some(t) => r == Some(overdue_count(old(items)@, t) as usize) && final(items)@
                == old(items)@.map_values(|it: Item| swept(it, t, *now)),
            None => r is None && final(items)@ == old(items)@,
        },
{
    let t = match Stamp::parse(now.as_str()) {
        Some(t) => t,
        None => return None,
    };
    let ghost all = items@;
    let ghost late = |it: Item| overdue(it, t);
    let ghost sweep = |it: Item| swept(it, t, *now);
    let mut out: Vec<Item> = Vec::new();
    let mut n: usize = 0;
    let mut i: usize = 0;
    assert(all.take(0).filter(late) =~= Seq::<Item>::empty()) by {
        reveal(Seq::filter);
    }
    while i < items.len()
        invariant
            i <= items@.len(),
            items@ == all,
            late == (|it: Item| overdue(it, t)),
            sweep == (|it: Item| swept(it, t, *now)),
            n <= i,
            n == all.take(i as int).filter(late).len(),
            out@ == all.map_values(sweep).take(i as int),
        decreases items@.len() - i,
    {
        proof {
            assert(all.take(i + 1).drop_last() == all.take(i as int));
            reveal(Seq::filter);
        }
        let mut it = items[i].clone();
        if is_overdue(&it, &t) {
            it.status = ItemStatus::Expired;
            it.updated_at = now.clone();
            n += 1;
        }
        assert(all.map_values(sweep).take(i + 1) == all.map_values(sweep).take(i as int).push(it));
        out.push(it);
        i += 1;
    }
    assert(all.take(i as int) == all);
    assert(all.map_values(sweep).take(i as int) == all.map_values(sweep));
    *items = out;
    Some(n)
}

/// Whether a reminder waits to be sent: it was never tried, or it failed and its time to be tried
/// again has come.
pub open spec fn log_due(log: SendLog, now: Stamp) -> bool {
    match log.status {
        SendStatus::Pending => true,
        SendStatus::Sent => false,
        SendStatus::Failed => match text_of(log.next_retry_at) {
            Some(t) => match stamp_of(t) {
                Some(x) => !now.before(x),
                None => false,
            },
            None => false,
        },
    }
}

/// Whether a reminder waits to be sent.
pub fn is_log_due(log: &SendLog, now: &Stamp) -> (r: bool)
    ensures
        r == log_due(*log, *now),
{
    match log.status {
        SendStatus::Pending => true,
        SendStatus::Sent => false,
        SendStatus::Failed => match &log.next_retry_at {
            Some(t) => match Stamp::parse(t.as_str()) {
                Some(x) => !now.is_before(&x),
                None => false,
            },
            None => false,
        },
    }
}

/// The kind in a row; something to do where the row holds no kind.
pub fn row_kind(s: &str) -> (r: ItemKind)
    ensures
        r == match ItemKind::named(s@) {
            Some(k) => k,
            None => ItemKind::Todo,
        },
{
    match ItemKind::parse(s) {
        Some(k) => k,
        None => ItemKind::Todo,
    }
}

/// The status in a row; active where the row holds no status.
pub fn row_status(s: &str) -> (r: ItemStatus)
    ensures
        r == match ItemStatus::named(s@) {
            Some(k) => k,
            None => ItemStatus::Active,
        },
{
    match ItemStatus::parse(s) {
        Some(k) => k,
        None => ItemStatus::Active,
    }
}

/// The status of a reminder in a row; pending where the row holds no status.
pub fn row_send_status(s: &str) -> (r: SendStatus)
    ensures
        r == match SendStatus::named(s@) {
            Some(k) => k,
            None => SendStatus::Pending,
        },
{
    match SendStatus::parse(s) {
        Some(k) => k,
        None => SendStatus::Pending,
    }
}

/// An account as it is stored: its passwords obscured, the rest as it is. What is stored gives
/// the passwords back.
pub fn to_stored(a: &MailAccount) -> (r: MailAccount)
    ensures
        r == (MailAccount {
            imap_password: r.imap_password,
            smtp_password: r.smtp_password,
            ..*a
        }),
        r.imap_password@ == obfuscated(a.imap_password@),
        r.smtp_password@ == obfuscated(a.smtp_password@),
        deobfuscated(r.imap_password@) == a.imap_password@,
        deobfuscated(r.smtp_password@) == a.smtp_password@,
{
    let mut r = a.clone();
    r.imap_password = MailAccount::obfuscate(a.imap_password.as_str());
    r.smtp_password = MailAccount::obfuscate(a.smtp_password.as_str());
    r
}

/// An account out of what is stored: its passwords in plain text, the rest as it is.
pub fn from_stored(a: &MailAccount) -> (r: MailAccount)
    ensures
        r == (MailAccount {
            imap_password: r.imap_password,
            smtp_password: r.smtp_password,
            ..*a
        }),
        r.imap_password@ == deobfuscated(a.imap_password@),
        r.smtp_password@ == deobfuscated(a.smtp_password@),
{
    let mut r = a.clone();
    r.imap_password = MailAccount::deobfuscate(a.imap_password.as_str());
    r.smtp_password = MailAccount::deobfuscate(a.smtp_password.as_str());
    r
}

/// Whether a category of that id is in the list.
pub open spec fn known_category(list: Seq<CategoryInfo>, id: Seq<char>) -> bool {
    exists|i: int| 0 <= i < list.len() && (#[trigger] list[i]).id@ == id
}

/// Whether no two categories of a list have one id.
pub open spec fn distinct_ids(list: Seq<CategoryInfo>) -> bool {
    forall|i: int, j: int|
        0 <= i < j < list.len() ==> (#[trigger] list[i]).id@ != (#[trigger] list[j]).id@
}

/// Whether a category of that id is in the list.
pub fn has_category(list: &Vec<CategoryInfo>, id: &str) -> (r: bool)
    ensures
        r == known_category(list@, id@),
{
    let mut i: usize = 0;
    while i < list.len()
        invariant
            i <= list@.len(),
            forall|k: int| 0 <= k < i ==> (#[trigger] list@[k]).id@ != id@,
        decreases list@.len() - i,
    {
        if same(list[i].id.as_str(), id) {
            return true;
        }
        i += 1;
    }
    false
}

/// The kind of a new category: the given one, where it is one of the two, else the usual one.
pub open spec fn category_kind(kind: Seq<char>, id: Seq<char>, create_item: bool) -> Seq<char> {
    if kind == "todo"@ || kind == "notification"@ {
        kind
    } else {
        usual_kind(id, create_item)
    }
}

/// Adds a category unless one of that id is there; says whether it was added.
pub fn upsert_category(
    list: &mut Vec<CategoryInfo>,
    id: &str,
    label: &str,
    create_item: bool,
    kind: &str,
    source: &str,
    now: &str,
) -> (r: bool)
    ensures
        r == !known_category(old(list)@, id@),
        !r ==> final(list)@ == old(list)@,
        r ==> {
            &&& final(list)@.len() == old(list)@.len() + 1
            &&& final(list)@.drop_last() == old(list)@
            &&& final(list)@.last().id@ == id@
            &&& final(list)@.last().label@ == label@
            &&& final(list)@.last().create_item == create_item
            &&& final(list)@.last().kind@ == category_kind(kind@, id@, create_item)
            &&& final(list)@.last().source@ == source@
            &&& final(list)@.last().created_at@ == now@
        },
        distinct_ids(old(list)@) ==> distinct_ids(final(list)@),
{
    if has_category(list, id) {
        return false;
    }
    let kind = if same(kind, "todo") || same(kind, "notification") {
        kind.to_owned()
    } else {
        default_kind(id, create_item).to_owned()
    };
    list.push(
        CategoryInfo {
            id: id.to_owned(),
            label: label.to_owned(),
            create_item,
            kind,
            source: source.to_owned(),
            created_at: now.to_owned(),
        },
    );
    assert(list@.drop_last() =~= old(list)@);
    true
}

/// Whether one of the first configured categories has an id.
pub open spec fn configured_before(configured: Seq<CategoryDef>, n: int, id: Seq<char>) -> bool {
    exists|k: int| 0 <= k < n && (#[trigger] configured[k]).id@ == id
}

/// Those of the first configured categories that are to be added to a list, in their order: of
/// each id that is not there yet, the first.
pub open spec fn fresh_categories(
    list: Seq<CategoryInfo>,
    configured: Seq<CategoryDef>,
    n: nat,
) -> Seq<CategoryDef>
    decreases n,
{
    if n == 0 {
        Seq::empty()
    } else {
        let rest = fresh_categories(list, configured, (n - 1) as nat);
        let d = configured[n - 1];
        if known_category(list, d.id@) || configured_before(configured, n - 1, d.id@) {
            rest
        } else {
            rest.push(d)
        }
    }
}

/// Adds the configured categories that are not there yet. Those that are there stay, and of two
/// configured ones with one id the first counts.
pub fn seed_categories(list: &mut Vec<CategoryInfo>, configured: &Vec<CategoryDef>, now: &str)
    ensures
        final(list)@.take(old(list)@.len() as int) == old(list)@,
        final(list)@.len() == old(list)@.len() + fresh_categories(
            old(list)@,
            configured@,
            configured@.len(),
        ).len(),
        forall|j: int|
            0 <= j < fresh_categories(old(list)@, configured@, configured@.len()).len()
                ==> seeded_from(
                final(list)@[old(list)@.len() + j],
                #[trigger] fresh_categories(old(list)@, configured@, configured@.len())[j],
                now@,
            ),
        forall|i: int|
            0 <= i < configured@.len() ==> known_category(
                final(list)@,
                (#[trigger] configured@[i]).id@,
            ),
        distinct_ids(old(list)@) ==> distinct_ids(final(list)@),
{
    let ghost first = list@;
    let mut i: usize = 0;
    assert(list@.take(first.len() as int) == first);
    while i < configured.len()
        invariant
            first == old(list)@,
            i <= configured@.len(),
            list@.len() == first.len() + fresh_categories(first, configured@, i as nat).len(),
            list@.take(first.len() as int) == first,
            forall|id: Seq<char>| #[trigger]
                known_category(list@, id) == (known_category(first, id) || configured_before(
                    configured@,
                    i as int,
                    id,
                )),
            forall|j: int|
                0 <= j < fresh_categories(first, configured@, i as nat).len() ==> seeded_from(
                    list@[first.len() + j],
                    #[trigger] fresh_categories(first, configured@, i as nat)[j],
                    now@,
                ),
            distinct_ids(first) ==> distinct_ids(list@),
        decreases configured@.len() - i,
    {
        let c = &configured[i];
        let kind = default_kind(c.id.as_str(), c.create_item);
        let ghost before = list@;
        let added = upsert_category(
            list,
            c.id.as_str(),
            c.label.as_str(),
            c.create_item,
            kind,
            "builtin",
            now,
        );
        proof {
            let done = fresh_categories(first, configured@, i as nat);
            assert(added == !(known_category(first, c.id@) || configured_before(
                configured@,
                i as int,
                c.id@,
            )));
            assert forall|j: int| 0 <= j < before.len() implies list@[j] == before[j] by {
                if added {
                    assert(list@.drop_last()[j] == before[j]);
                }
            }
            assert(list@.take(first.len() as int) =~= before.take(first.len() as int));
            assert forall|id: Seq<char>| #[trigger]
                known_category(list@, id) == (known_category(first, id) || configured_before(
                    configured@,
                    i + 1,
                    id,
                )) by {
                assert(known_category(before, id) == (known_category(first, id)
                    || configured_before(configured@, i as int, id)));
                if known_category(before, id) {
                    let m = choose|m: int| 0 <= m < before.len() && (#[trigger] before[m]).id@ == id;
                    assert(list@[m].id@ == id);
                }
                if configured_before(configured@, i as int, id) {
                    let k = choose|k: int| 0 <= k < i && (#[trigger] configured@[k]).id@ == id;
                    assert(configured@[k].id@ == id);
                }
                if id == c.id@ {
                    assert(configured@[i as int].id@ == id);
                    if added {
                        assert(list@[before.len() as int].id@ == id);
                    }
                }
                if known_category(list@, id) && !known_category(before, id) {
                    let m = choose|m: int| 0 <= m < list@.len() && (#[trigger] list@[m]).id@ == id;
                    if m < before.len() {
                        assert(before[m].id@ == id);
                    }
                }
            }
            let next = fresh_categories(first, configured@, (i + 1) as nat);
            assert(next == if added {
                done.push(*c)
            } else {
                done
            });
            assert forall|j: int| 0 <= j < next.len() implies seeded_from(
                list@[first.len() + j],
                #[trigger] next[j],
                now@,
            ) by {
                if j < done.len() {
                    assert(next[j] == done[j]);
                    assert(list@[first.len() + j] == before[first.len() + j]);
                } else {
                    assert(list@[first.len() + j] == list@.last());
                }
            }
        }
        i += 1;
    }
    proof {
        assert forall|k: int| 0 <= k < configured@.len() implies known_category(
            list@,
            (#[trigger] configured@[k]).id@,
        ) by {
            assert(configured_before(configured@, configured@.len() as int, configured@[k].id@));
        }
    }
}

/// Whether a category was made from a configured one.
pub open spec fn seeded_from(c: CategoryInfo, d: CategoryDef, now: Seq<char>) -> bool {
    &&& c.id@ == d.id@
    &&& c.label@ == d.label@
    &&& c.create_item == d.create_item
    &&& c.kind@ == category_kind(usual_kind(d.id@, d.create_item), d.id@, d.create_item)
    &&& c.source@ == "builtin"@
    &&& c.created_at@ == now
}

} // verus!
