//! Mail: reading it, fetching it, sending it.

pub mod imap;
pub mod parse;
pub mod smtp;

pub use imap::ImapClient;
pub use parse::parse_mail;
pub use parse::strip_html;
pub use parse::ParsedMail;
