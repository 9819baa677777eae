use mail2::config::Endpoint;
use mail2::mail::imap::collect_fetched;
use mail2::mail::imap::fetch_range;
use mail2::mail::imap::FetchedMessage;
use mail2::mail::imap::ImapClient;
use mail2::mail::imap::FETCH_ITEMS;
use mail2::mail::parse::decode_q;
use mail2::mail::parse::decode_rfc2047;
use mail2::mail::parse::parse_from;
use mail2::mail::parse::parse_mail;
use mail2::mail::parse::parse_sent_at;
use mail2::mail::parse::strip_html;
use mail2::mail::smtp::choose_from;
use mail2::mail::smtp::plain_from;
use mail2::mail::smtp::security_of;
use mail2::mail::smtp::Security;

#[test]
fn rfc2047_base64_subject() {
    assert_eq!(decode_rfc2047("=?UTF-8?B?6Z2i6K+V6YKA6K+3?="), "面试邀请");
    assert_eq!(
        decode_rfc2047("Re: =?UTF-8?B?6Z2i6K+V6YKA6K+3?= 已确认"),
        "Re: 面试邀请 已确认"
    );
}

#[test]
fn rfc2047_q_subject() {
    assert_eq!(decode_rfc2047("=?UTF-8?Q?=E9=9D=A2=E8=AF=95?="), "面试");
}

#[test]
fn parse_typical_mail() {
    let raw = "From: HR <hr@acme.com>\r\nTo: me@local\r\nSubject: =?UTF-8?B?6Z2i6K+V6YKA6K+3?=\r\nMessage-ID: <abc@acme.com>\r\nContent-Type: text/plain; charset=utf-8\r\n\r\n你好，请参加面试。".as_bytes();
    let m = parse_mail(raw).unwrap();
    assert_eq!(m.message_id, "abc@acme.com");
    assert_eq!(m.subject, "面试邀请");
    assert_eq!(m.from_addr, "hr@acme.com");
    assert!(m.body_text.contains("参加面试"));
}

#[test]
fn html_body_fallback() {
    let raw = b"From: a@b.c\r\nSubject: x\r\nContent-Type: text/html; charset=utf-8\r\n\r\n<html><body><p>line1</p><p>line2</p></body></html>";
    let m = parse_mail(raw).unwrap();
    assert!(m.body_text.contains("line1"));
    assert!(m.body_text.contains("line2"));
}

#[test]
fn a_message_without_id_gets_one() {
    let raw = b"From: a@b.c\r\nSubject: x\r\nDate: Wed, 1 Sep 2027 10:00:00 +0800\r\n\r\nhi";
    let a = parse_mail(raw).unwrap();
    let b = parse_mail(raw).unwrap();
    assert!(!a.message_id.is_empty());
    assert_eq!(a.message_id, b.message_id);
    let other = parse_mail(b"From: a@b.c\r\nSubject: y\r\nDate: Wed, 1 Sep 2027 10:00:00 +0800\r\n\r\nhi").unwrap();
    assert_ne!(a.message_id, other.message_id);
}

#[test]
fn when_a_message_was_sent() {
    assert_eq!(parse_sent_at("Wed, 1 Sep 2027 10:00:00 +0800"), "2027-09-01T02:00:00+00:00");
    assert_eq!(parse_sent_at(""), "");
    assert_eq!(parse_sent_at("Wed, 1 Zzz 2027 10:00:00 +0800"), "");
}

#[test]
fn who_sent_a_message() {
    assert_eq!(parse_from("HR <hr@acme.com>"), ("HR".to_string(), "hr@acme.com".to_string()));
    assert_eq!(parse_from("hr@acme.com"), (String::new(), "hr@acme.com".to_string()));
}

#[test]
fn quoted_printable_words() {
    assert_eq!(decode_q("a_b=21"), "a b!");
    assert_eq!(decode_q("=ZZ"), "=ZZ");
}

#[test]
fn tags_go() {
    let t = strip_html("<p>a</p><br>b &amp; c");
    assert!(!t.contains('<'));
    assert!(t.contains('a') && t.contains('b'));
}

#[test]
fn mail_is_read_without_a_trace() {
    assert_eq!(FETCH_ITEMS, "(BODY.PEEK[])");
}

#[test]
fn what_is_asked_of_the_server() {
    assert_eq!(fetch_range(None), "1:*");
    assert_eq!(fetch_range(Some(41)), "42:*");
}

#[test]
fn the_greatest_uid_counts() {
    let m = vec![
        FetchedMessage { uid: Some(3), body: Some(b"a".to_vec()) },
        FetchedMessage { uid: Some(9), body: None },
        FetchedMessage { uid: None, body: Some(b"b".to_vec()) },
    ];
    let (raws, greatest) = collect_fetched(&m);
    assert_eq!(raws, vec![b"a".to_vec(), b"b".to_vec()]);
    assert_eq!(greatest, Some(9));
    let (raws, greatest) = collect_fetched(&vec![]);
    assert!(raws.is_empty());
    assert_eq!(greatest, None);
}

#[test]
fn how_servers_are_reached() {
    assert!(ImapClient::new("h", 993, "u", "p").uses_tls());
    assert!(!ImapClient::new("h", 143, "u", "p").uses_tls());
    assert_eq!(security_of(465), Security::Wrapper);
    assert_eq!(security_of(587), Security::Required);
    assert_eq!(security_of(3025), Security::Plain);
    let ep = Endpoint {
        host: "h".into(),
        port: 465,
        user: "u@x".into(),
        password: "p".into(),
        tls_insecure: false,
    };
    assert_eq!(choose_from(&ep, "me@x"), "me@x");
    assert_eq!(choose_from(&ep, " "), "u@x");
    assert_eq!(plain_from(""), "mail2@localhost");
}

#[test]
fn text_of_html_is_clean() {
    let once = strip_html("<p> a &lt; b </p>\r\n\n<br>\t<b>c</b>\n d>");
    assert_eq!(once, "a &lt; b\nc\nd\n");
    assert_eq!(strip_html(&once), once);
}
