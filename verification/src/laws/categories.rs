//! The category of a mail, and whether mail of it is something to do.

use crate::deadline::explicit_time;
use crate::deadline::relative_hint;
use crate::laws::holds_one;
use crate::laws::searching_for_one_of_many;
use crate::model::CategoryInfo;
use crate::model::Item;
use crate::model::ItemKind;
use crate::pipeline::attended_words;
use crate::pipeline::feedback_words;
use crate::pipeline::makes_todo;
use crate::pipeline::promo_words;
use crate::pipeline::revoked;
use crate::pipeline::schedule_words;
use crate::pipeline::settled_category;
use crate::pipeline::Source;
use crate::pipeline::source_of;
use crate::pipeline::time_words;
use crate::pipeline::verdict;
use crate::time::Stamp;
use vstd::prelude::*;

verus! {

/// Words for a recruiting event or a call to apply.
pub open spec fn names_a_promotion(s: Seq<char>) -> bool {
    holds_one(s, seq!["宣讲会"@, "双选会"@, "网申推荐"@, "投递邀请"@])
}

/// Words for something that one attends.
pub open spec fn names_an_appointment(s: Seq<char>) -> bool {
    holds_one(s, seq!["面试"@, "笔试"@, "测评"@])
}

/// Words for an answer to something done before.
pub open spec fn names_an_answer(s: Seq<char>) -> bool {
    holds_one(
        s,
        seq![
            "问卷"@, "调研"@, "反馈"@, "感谢信"@, "感谢"@, "谢谢"@, "结果通知"@, "面试结果"@,
            "笔试结果"@, "测评结果"@, "投递成功"@, "投递反馈"@, "已投递"@, "收到您的简历"@,
            "简历已收到"@, "简历接收"@, "申请进度"@, "进度通知"@, "流程通知"@, "筛选通过"@,
            "通过初筛"@, "笔试通过"@, "测评通过"@, "面试通过"@, "录用通知"@, "offer"@,
        ],
    )
}

/// Words for something that is arranged.
pub open spec fn names_an_arrangement(s: Seq<char>) -> bool {
    holds_one(
        s,
        seq![
            "邀请"@, "预约"@, "安排"@, "参加"@, "确认"@, "时间"@, "链接"@, "报名"@, "开始"@,
            "待办"@, "提醒"@, "笔试通知"@, "面试通知"@,
        ],
    )
}

/// Words for a time.
pub open spec fn names_a_time(s: Seq<char>) -> bool {
    holds_one(
        s,
        seq![
            "小时"@, "日内"@, "日前"@, "截止"@, "时间"@, "日期"@, "24H"@, "48H"@, "72H"@, "24h"@,
            "48h"@, "72h"@,
        ],
    )
}

proof fn words_are_these(s: Seq<char>)
    ensures
        crate::text::any_occurs(s, promo_words()) == names_a_promotion(s),
        crate::text::any_occurs(s, attended_words()) == names_an_appointment(s),
        crate::text::any_occurs(s, feedback_words()) == names_an_answer(s),
        crate::text::any_occurs(s, schedule_words()) == names_an_arrangement(s),
        crate::text::any_occurs(s, time_words()) == names_a_time(s),
{
    searching_for_one_of_many(
        s,
        promo_words(),
        seq!["宣讲会"@, "双选会"@, "网申推荐"@, "投递邀请"@],
    );
    searching_for_one_of_many(s, attended_words(), seq!["面试"@, "笔试"@, "测评"@]);
    searching_for_one_of_many(
        s,
        feedback_words(),
        seq![
            "问卷"@, "调研"@, "反馈"@, "感谢信"@, "感谢"@, "谢谢"@, "结果通知"@, "面试结果"@,
            "笔试结果"@, "测评结果"@, "投递成功"@, "投递反馈"@, "已投递"@, "收到您的简历"@,
            "简历已收到"@, "简历接收"@, "申请进度"@, "进度通知"@, "流程通知"@, "筛选通过"@,
            "通过初筛"@, "笔试通过"@, "测评通过"@, "面试通过"@, "录用通知"@, "offer"@,
        ],
    );
    searching_for_one_of_many(
        s,
        schedule_words(),
        seq![
            "邀请"@, "预约"@, "安排"@, "参加"@, "确认"@, "时间"@, "链接"@, "报名"@, "开始"@,
            "待办"@, "提醒"@, "笔试通知"@, "面试通知"@,
        ],
    );
    searching_for_one_of_many(
        s,
        time_words(),
        seq![
            "小时"@, "日内"@, "日前"@, "截止"@, "时间"@, "日期"@, "24H"@, "48H"@, "72H"@, "24h"@,
            "48h"@, "72h"@,
        ],
    );
}

/// Mail is a promotion where it is classified as one, where its subject names one, or where its
/// body does and its subject names nothing that one attends. It then has the category of
/// promotions, and every item that was made of it is taken back. Of the rest, what was taken for an
/// interview, a test, an assessment or a thing to do is a notification where its subject is that of
/// an answer, arranges nothing and tells no time; a thing to do without a deadline that was made of
/// it is taken back. All other mail keeps its category and its item.
pub proof fn what_mail_is(
    subject: Seq<char>,
    body: Seq<char>,
    category: Seq<char>,
    now: Stamp,
    item: Item,
)
    ensures
        ({
            let v = verdict(subject, body, category, now);
            let promoted = category == "career_promo"@ || names_a_promotion(subject) || (
            names_a_promotion(body) && !names_an_appointment(subject));
            let timed = names_a_time(subject) || relative_hint(subject) is Some || explicit_time(
                subject,
                "Asia/Shanghai"@,
                now,
            ) is Some;
            let answer = names_an_answer(subject) && !names_an_arrangement(subject) && !timed && (
            category == "interview"@ || category == "written_test"@ || category == "assessment"@
                || category == "todo"@);
            if promoted {
                settled_category(v, category) == "career_promo"@ && revoked(v, item)
            } else if answer {
                settled_category(v, category) == "notification"@ && revoked(v, item) == (item.kind
                    == ItemKind::Todo && item.deadline is None)
            } else {
                settled_category(v, category) == category && !revoked(v, item)
            }
        }),
{
    words_are_these(subject);
    words_are_these(body);
}

/// Mail makes an item where it has none and its category makes things to do: as the agent says, or
/// else as is extracted. Promotions never do. An unknown category does where it is the one for
/// things to do.
pub proof fn which_categories_make_items(
    has_item: bool,
    stored: Option<CategoryInfo>,
    category: Seq<char>,
    agent_said: bool,
)
    ensures
        makes_todo(stored, category) == (category != "career_promo"@ && match stored {
            Some(c) => c.create_item && c.kind@ == "todo"@,
            None => category == "todo"@,
        }),
        has_item || !makes_todo(stored, category) ==> source_of(
            has_item,
            stored,
            category,
            agent_said,
        ) == Source::Nothing,
        !has_item && makes_todo(stored, category) ==> source_of(
            has_item,
            stored,
            category,
            agent_said,
        ) == if agent_said {
            Source::Agent
        } else {
            Source::Extract
        },
{
}

} // verus!
