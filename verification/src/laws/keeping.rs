//! What is kept and how it is found again: references of mail, categories from the settings, the
//! passwords of accounts.

use crate::config::CategoryDef;
use crate::db::seeded_from;
use crate::db::source_ids;
use crate::encoding::base64_bytes;
use crate::encoding::base64_text;
use crate::encoding::lossy_text;
use crate::laws::only_space;
use crate::laws::trimming_takes_the_white_space;
use crate::model::CategoryInfo;
use crate::model::deobfuscated;
use crate::model::Item;
use crate::model::obfuscated;
use crate::pipeline::bare_id;
use crate::pipeline::ids_among;
use crate::pipeline::referred;
use crate::text::space;
use crate::text::words;
use vstd::prelude::*;
use vstd::utf8::encode_utf8;

verus! {

/// What a mail refers to are the identifiers of what it replies to, then those of its references,
/// without their brackets; an empty one is none.
pub proof fn what_mail_refers_to(
    in_reply_to: Seq<char>,
    references: Seq<char>,
    ws: Seq<Seq<char>>,
    w: Seq<char>,
)
    ensures
        referred(in_reply_to, references) == ids_among(words(in_reply_to) + words(references)),
        ids_among(Seq::empty()).len() == 0,
        bare_id(w).len() > 0 ==> ids_among(ws.push(w)) == ids_among(ws).push(bare_id(w)),
        bare_id(w).len() == 0 ==> ids_among(ws.push(w)) == ids_among(ws),
{
    assert(ws.push(w).drop_last() =~= ws);
}

/// A category of the settings is stored as it is there, marked as built in. It makes things to do
/// where it makes items and is not the one for notifications.
pub proof fn categories_of_the_settings(c: CategoryInfo, d: CategoryDef, now: Seq<char>)
    requires
        seeded_from(c, d, now),
    ensures
        c.id@ == d.id@,
        c.label@ == d.label@,
        c.create_item == d.create_item,
        c.source@ == "builtin"@,
        c.created_at@ == now,
        c.kind@ == if d.create_item && d.id@ != "notification"@ {
            "todo"@
        } else {
            "notification"@
        },
{
}

/// The mail that items come from is told item by item, without those that come from none.
pub proof fn where_items_come_from(items: Seq<Item>, it: Item)
    ensures
        source_ids(Seq::empty()).len() == 0,
        it.source_email_id is None ==> source_ids(items.push(it)) == source_ids(items),
        it.source_email_id matches Some(id) ==> source_ids(items.push(it)) == source_ids(
            items,
        ).push(id),
{
    assert(items.push(it).drop_last() =~= items);
}

/// A password is kept as the Base64 text of its bytes and read from it again, whatever white space
/// is around that; what is no Base64 is a password as it stands.
pub proof fn how_passwords_are_kept(
    password: Seq<char>,
    a: Seq<char>,
    stored: Seq<char>,
    b: Seq<char>,
)
    requires
        only_space(a) && only_space(b),
        stored.len() > 0 ==> !space(stored[0]) && !space(stored.last()),
    ensures
        obfuscated(password) == base64_text(encode_utf8(password)),
        base64_bytes(stored) matches Some(bytes) ==> deobfuscated(a + stored + b) == lossy_text(
            bytes,
        ),
        base64_bytes(stored) is None ==> deobfuscated(a + stored + b) == a + stored + b,
{
    trimming_takes_the_white_space(a, stored, b);
}

} // verus!
