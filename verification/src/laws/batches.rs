//! A batch of mail: what is fetched, what is taken, what is done with it and how it is counted.

use crate::model::RunReport;
use crate::model::ReplyIntent;
use crate::number::decimal;
use crate::number::signed_decimal;
use crate::pipeline::AgentSaid;
use crate::pipeline::counted;
use crate::pipeline::counts;
use crate::pipeline::fetched_above;
use crate::pipeline::MailActionView;
use crate::pipeline::MailEvent;
use crate::pipeline::moved_cursor;
use crate::pipeline::next_action;
use crate::pipeline::own_reminder;
use crate::pipeline::ProcessOpts;
use crate::pipeline::too_old;
use crate::laws::digits_are_read_as_written;
use crate::laws::is_number;
use crate::time::rfc3339_moment;
use crate::time::Stamp;
use vstd::prelude::*;

verus! {

/// New mail is read as a reply, then handed to the agent where there is one, else classified;
/// where the agent fails or names no category it is classified too. Mail that was there already is
/// left. What is named is its place, and that for the rest where classifying fails.
pub proof fn the_way_of_a_mail(
    intent: Option<ReplyIntent>,
    said: AgentSaid,
    category: String,
    agent: bool,
    item: bool,
)
    ensures
        next_action(MailEvent::Stored(true), agent) == MailActionView::ReadReply,
        next_action(MailEvent::Stored(false), agent) == MailActionView::Finish,
        next_action(MailEvent::Replied(intent), true) == MailActionView::RunAgent,
        next_action(MailEvent::Replied(intent), false) == MailActionView::Classify,
        next_action(MailEvent::AgentDone(None), agent) == MailActionView::Classify,
        said.category is None ==> next_action(MailEvent::AgentDone(Some(said)), agent)
            == MailActionView::Classify,
        said.category matches Some(c) ==> next_action(MailEvent::AgentDone(Some(said)), agent)
            == MailActionView::Place(c@),
        next_action(MailEvent::Classified(Some(category)), agent) == MailActionView::Place(
            category@,
        ),
        next_action(MailEvent::Classified(None), agent) == MailActionView::Place("misc"@),
        next_action(MailEvent::Placed(item), agent) == MailActionView::Finish,
{
}

/// The report counts new mail, replies that ask for something, rounds and requests of the agent,
/// mail that could not be classified, mail that has its place and items, each once, and nothing
/// else.
pub proof fn what_is_counted(report: RunReport, said: AgentSaid, item: bool)
    ensures
        counts(report, MailEvent::Stored(true)) ==> counted(report, MailEvent::Stored(true)) == (
        RunReport { new_emails: (report.new_emails + 1) as usize, ..report }),
        counted(report, MailEvent::Stored(false)) == report,
        counts(report, MailEvent::Replied(Some(ReplyIntent::Done))) ==> counted(
            report,
            MailEvent::Replied(Some(ReplyIntent::Done)),
        ) == (RunReport {
            replies_handled: (report.replies_handled + 1) as usize,
            items_updated: (report.items_updated + 1) as usize,
            ..report
        }),
        counts(report, MailEvent::Replied(Some(ReplyIntent::Silent))) ==> counted(
            report,
            MailEvent::Replied(Some(ReplyIntent::Silent)),
        ) == (RunReport {
            replies_handled: (report.replies_handled + 1) as usize,
            items_updated: (report.items_updated + 1) as usize,
            ..report
        }),
        counted(report, MailEvent::Replied(Some(ReplyIntent::Unclear))) == report,
        counted(report, MailEvent::Replied(None)) == report,
        counts(report, MailEvent::AgentDone(Some(said))) ==> counted(
            report,
            MailEvent::AgentDone(Some(said)),
        ) == (RunReport {
            tool_rounds: (report.tool_rounds + said.rounds) as usize,
            approvals_created: (report.approvals_created + said.approvals) as usize,
            ..report
        }),
        counted(report, MailEvent::AgentDone(None)) == report,
        counts(report, MailEvent::Classified(None)) ==> counted(
            report,
            MailEvent::Classified(None),
        ) == (RunReport { llm_fallback_misc: (report.llm_fallback_misc + 1) as usize, ..report }),
        counts(report, MailEvent::Placed(item)) ==> counted(report, MailEvent::Placed(item)) == (
        RunReport {
            classified: (report.classified + 1) as usize,
            items_created: (report.items_created + if item {
                1int
            } else {
                0int
            }) as usize,
            ..report
        }),
{
}

/// Mail that was sent before the moment from which mail is looked at is left; mail that does not
/// tell when it was sent is not.
pub proof fn what_is_too_old(sent_at: Seq<char>, since: Option<Stamp>)
    ensures
        since is None ==> !too_old(sent_at, since),
        rfc3339_moment(sent_at) is None ==> !too_old(sent_at, since),
        since matches Some(s) ==> rfc3339_moment(sent_at) matches Some(t) ==> too_old(
            sent_at,
            since,
        ) == (t.0 < s.secs || (t.0 == s.secs && t.1 < s.nanos)),
{
}

/// A message is one of the reminders only where it comes from the address they are sent from and
/// its subject stands in the brackets of one.
pub proof fn which_mail_is_a_reminder(
    subject: Seq<char>,
    from: Seq<char>,
    address: Seq<char>,
)
    ensures
        own_reminder(subject, from, address) == (from == address && subject.len() > 0 && subject[0]
            == '【' && subject.last() == '】'),
{
    reveal_strlit("【");
    reveal_strlit("】");
    if subject.len() > 0 {
        assert(subject.subrange(0, 1) =~= seq![subject[0]]);
        assert(subject.subrange(subject.len() - 1, subject.len() as int) =~= seq![subject.last()]);
        assert(seq![subject[0]][0] == subject[0]);
        assert(seq![subject.last()][0] == subject.last());
        assert("【"@[0] == '【');
        assert("】"@[0] == '】');
        if subject[0] == '【' {
            assert(seq![subject[0]] =~= "【"@);
        }
        if subject.last() == '】' {
            assert(seq![subject.last()] =~= "】"@);
        }
    }
}

/// Mail is fetched from where the last batch of the account ended, else from the common place;
/// all of it where mail is looked at from a moment on or nothing is kept.
pub proof fn where_fetching_starts(
    since: Option<Stamp>,
    of_account: Option<Seq<char>>,
    common: Option<Seq<char>>,
    n: int,
)
    ensures
        since is Some ==> fetched_above(since, of_account, common) is None,
        of_account is None && common is None ==> fetched_above(since, of_account, common) is None,
        since is None && of_account is Some && is_number(of_account->0, n) ==> fetched_above(
            since,
            of_account,
            common,
        ) == Some(n),
        since is None && of_account is None && common is Some && is_number(common->0, n)
            ==> fetched_above(since, of_account, common) == Some(n),
{
    match of_account {
        Some(t) => {
            if is_number(t, n) {
                digits_are_read_as_written(t, n, 0, u32::MAX as int);
            }
        },
        None => {},
    }
    match common {
        Some(t) => {
            if is_number(t, n) {
                digits_are_read_as_written(t, n, 0, u32::MAX as int);
            }
        },
        None => {},
    }
}

/// The place up to which mail of an account was seen moves to the greatest identifier of a whole
/// batch, under the name of the account, and does not move else.
pub proof fn where_the_next_batch_starts(
    opts: ProcessOpts,
    account_id: i64,
    greatest: Option<u32>,
)
    ensures
        opts.limit is Some || opts.since is Some || !opts.advance_cursor || greatest is None
            ==> moved_cursor(opts, account_id, greatest) is None,
        opts.limit is None && opts.since is None && opts.advance_cursor && greatest is Some
            ==> moved_cursor(opts, account_id, greatest) == Some(
            ("last_uid:"@ + signed_decimal(account_id as int), decimal(greatest->0 as nat)),
        ),
{
}

} // verus!
