//! Sending mail: how the line is secured, and who sends.

use crate::config::Endpoint;
use crate::text::blank;
use crate::text::is_blank;
use vstd::prelude::*;

verus! {

/// How the line to a server is secured.
#[derive(Clone, Copy, Debug, PartialEq, Eq, Structural)]
pub enum Security {
    /// Encrypted from the start.
    Wrapper,
    /// Encrypted before anything is sent.
    Required,
    Plain,
}

/// How the line to a server on that port is secured.
pub open spec fn security(port: u16) -> Security {
    if port == 465 {
        Security::Wrapper
    } else if port == 587 {
        Security::Required
    } else {
        Security::Plain
    }
}

/// How the line to a server on that port is secured.
pub fn security_of(port: u16) -> (r: Security)
    ensures
        r == security(port),
{
    if port == 465 {
        Security::Wrapper
    } else if port == 587 {
        Security::Required
    } else {
        Security::Plain
    }
}

/// Who sends: the address, else the user, else a stand-in.
pub open spec fn from_address(address: Seq<char>, user: Seq<char>) -> Seq<char> {
    if !blank(address) {
        address
    } else if !blank(user) {
        user
    } else {
        "mail2@localhost"@
    }
}

/// Who sends: the address, else the user of the endpoint, else a stand-in.
pub fn choose_from(ep: &Endpoint, address: &str) -> (r: String)
    ensures
        r@ == from_address(address@, ep.user@),
{
    if !is_blank(address) {
        address.to_owned()
    } else if !is_blank(ep.user.as_str()) {
        ep.user.clone()
    } else {
        "mail2@localhost".to_owned()
    }
}

/// Who sends on a plain line: the user, else a stand-in.
pub fn plain_from(user: &str) -> (r: String)
    ensures
        r@ == if user@.len() == 0 {
            "mail2@localhost"@
        } else {
            user@
        },
{
    if user.is_empty() {
        "mail2@localhost".to_owned()
    } else {
        user.to_owned()
    }
}

} // verus!
