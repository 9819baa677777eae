//! Fetching mail: what is asked of the server, and what is made of its answers.

use crate::config::Endpoint;
use crate::number::decimal;
use crate::number::show_u64;
use vstd::prelude::*;

verus! {

/// A mailbox on a server and how to log in.
#[derive(Debug)]
pub struct ImapClient {
    pub host: String,
    pub port: u16,
    pub user: String,
    pub password: String,
    pub inbox: String,
    pub tls_insecure: bool,
}

impl Clone for ImapClient {
    fn clone(&self) -> (r: Self)
        ensures
            r == *self,
    {
        ImapClient {
            host: self.host.clone(),
            port: self.port,
            user: self.user.clone(),
            password: self.password.clone(),
            inbox: self.inbox.clone(),
            tls_insecure: self.tls_insecure,
        }
    }
}

/// The port on which the line is encrypted from the start.
pub const IMAPS_PORT: u16 = 993;

/// What is fetched of a message: all of it, without marking it as seen.
pub const FETCH_ITEMS: &'static str = "(BODY.PEEK[])";

impl ImapClient {
    /// The inbox of an endpoint.
    pub fn from_config(ep: &Endpoint) -> (r: Self)
        ensures
            r.host == ep.host,
            r.port == ep.port,
            r.user == ep.user,
            r.password == ep.password,
            r.inbox@ == "INBOX"@,
            r.tls_insecure == ep.tls_insecure,
    {
        ImapClient {
            host: ep.host.clone(),
            port: ep.port,
            user: ep.user.clone(),
            password: ep.password.clone(),
            inbox: "INBOX".to_owned(),
            tls_insecure: ep.tls_insecure,
        }
    }

    /// The inbox of a user on a server whose certificate is checked.
    pub fn new(host: &str, port: u16, user: &str, password: &str) -> (r: Self)
        ensures
            r.host@ == host@,
            r.port == port,
            r.user@ == user@,
            r.password@ == password@,
            r.inbox@ == "INBOX"@,
            !r.tls_insecure,
    {
        ImapClient {
            host: host.to_owned(),
            port,
            user: user.to_owned(),
            password: password.to_owned(),
            inbox: "INBOX".to_owned(),
            tls_insecure: false,
        }
    }

    /// Whether the line is encrypted.
    pub fn uses_tls(&self) -> (r: bool)
        ensures
            r == (self.port == IMAPS_PORT),
    {
        self.port == IMAPS_PORT
    }
}

/// The range of messages above an identifier; all of them where there is none.
pub open spec fn uid_range(since_uid: Option<u32>) -> Seq<char> {
    match since_uid {
        Some(u) => decimal((u + 1) as nat) + ":*"@,
        None => "1:*"@,
    }
}

/// The range of messages to fetch: those above an identifier, or all.
pub fn fetch_range(since_uid: Option<u32>) -> (r: String)
    requires
        since_uid matches Some(u) ==> u < u32::MAX,
    ensures
        r@ == uid_range(since_uid),
{
    match since_uid {
        Some(u) => {
            let mut out = show_u64((u + 1) as u64);
            out.append(":*");
            out
        },
        None => "1:*".to_owned(),
    }
}

/// A message as the server hands it over: its identifier and its bytes, where it gives them.
pub struct FetchedMessage {
    pub uid: Option<u32>,
    pub body: Option<Vec<u8>>,
}

/// The greatest identifier among the messages.
pub open spec fn greatest_uid(m: Seq<FetchedMessage>) -> Option<u32>
    decreases m.len(),
{
    if m.len() == 0 {
        None
    } else {
        match (greatest_uid(m.drop_last()), m.last().uid) {
            (Some(a), Some(b)) => Some(
                if a >= b {
                    a
                } else {
                    b
                },
            ),
            (None, Some(b)) => Some(b),
            (a, None) => a,
        }
    }
}

/// The bytes of the messages that have any, in order.
pub open spec fn bodies(m: Seq<FetchedMessage>) -> Seq<Seq<u8>>
    decreases m.len(),
{
    if m.len() == 0 {
        Seq::empty()
    } else {
        match m.last().body {
            Some(b) => bodies(m.drop_last()).push(b@),
            None => bodies(m.drop_last()),
        }
    }
}

/// The bytes of each message.
pub open spec fn byte_seqs(v: Seq<Vec<u8>>) -> Seq<Seq<u8>> {
    v.map_values(|b: Vec<u8>| b@)
}

fn copy_bytes(b: &Vec<u8>) -> (r: Vec<u8>)
    ensures
        r@ == b@,
{
    let mut out: Vec<u8> = Vec::new();
    let mut i: usize = 0;
    while i < b.len()
        invariant
            i <= b@.len(),
            out@ == b@.take(i as int),
        decreases b@.len() - i,
    {
        assert(b@.take(i + 1) == b@.take(i as int).push(b@[i as int]));
        out.push(b[i]);
        i += 1;
    }
    assert(b@.take(i as int) == b@);
    out
}

/// What was fetched: the messages, and the greatest identifier among all that the server named.
pub fn collect_fetched(messages: &Vec<FetchedMessage>) -> (r: (Vec<Vec<u8>>, Option<u32>))
    ensures
        byte_seqs(r.0@) == bodies(messages@),
        r.1 == greatest_uid(messages@),
{
    let mut raws: Vec<Vec<u8>> = Vec::new();
    let mut greatest: Option<u32> = None;
    let mut i: usize = 0;
    assert(byte_seqs(raws@) =~= bodies(messages@.take(0)));
    while i < messages.len()
        invariant
            i <= messages@.len(),
            byte_seqs(raws@) == bodies(messages@.take(i as int)),
            greatest == greatest_uid(messages@.take(i as int)),
        decreases messages@.len() - i,
    {
        proof {
            assert(messages@.take(i + 1).drop_last() == messages@.take(i as int));
            assert(messages@.take(i + 1).last() == messages@[i as int]);
        }
        if let Some(uid) = messages[i].uid {
            greatest = match greatest {
                Some(g) => Some(
                    if g >= uid {
                        g
                    } else {
                        uid
                    },
                ),
                None => Some(uid),
            };
        }
        if let Some(b) = &messages[i].body {
            let copy = copy_bytes(b);
            assert(byte_seqs(raws@.push(copy)) =~= byte_seqs(raws@).push(copy@));
            raws.push(copy);
        }
        i += 1;
    }
    assert(messages@.take(i as int) == messages@);
    (raws, greatest)
}

/// No message that was named has a greater identifier than the greatest.
pub proof fn greatest_uid_is_greatest(m: Seq<FetchedMessage>, i: int)
    requires
        0 <= i < m.len(),
        m[i].uid is Some,
    ensures
        greatest_uid(m) is Some,
        m[i].uid->0 <= greatest_uid(m)->0,
    decreases m.len(),
{
    if i < m.len() - 1 {
        assert(m.drop_last()[i] == m[i]);
        greatest_uid_is_greatest(m.drop_last(), i);
    }
}

} // verus!
