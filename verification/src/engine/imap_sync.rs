//! The decisions of the IMAP mailbox poller: how a fetched message is
//! stored, and how long to wait before the next poll.
use vstd::prelude::*;
use vstd::utf8::{decode_utf8, valid_utf8};
use crate::db::{InboundEmail, InboundEmailView};
use crate::engine::parser::{parsed_email, EmailParser};
use crate::text::{owned, utf8_decode};

verus! {

/// The inbound email of a message fetched over IMAP for the mailbox user
/// `username`: `None` where the bytes are not a MIME message; else its
/// fields, addressed to its first recipient (or the mailbox user), with the
/// raw text kept when the bytes are valid UTF-8.
pub open spec fn imap_email(raw: Seq<u8>, username: Seq<char>) -> Option<InboundEmailView> {
    match parsed_email(raw) {
        Some(p) => Some(
            InboundEmailView {
                from: p.from,
                to: if p.to.len() > 0 {
                    p.to[0]
                } else {
                    username
                },
                subject: p.subject,
                body_text: p.body_text,
                body_html: p.body_html,
                raw_mime: if valid_utf8(raw) {
                    Some(decode_utf8(raw))
                } else {
                    None
                },
            },
        ),
        None => None,
    }
}

/// The inbound email of a fetched message.
pub fn resolve_imap_email(raw_bytes: &[u8], username: &str) -> (r: Option<InboundEmail>)
    ensures
        match r {
            Some(e) => imap_email(raw_bytes@, username@) == Some(e@),
            None => imap_email(raw_bytes@, username@) is None,
        },
{
    match EmailParser::parse_mime(raw_bytes) {
        Some(parsed) => {
            let to = if parsed.to.len() > 0 {
                owned(parsed.to[0].as_str())
            } else {
                owned(username)
            };
            Some(
                InboundEmail {
                    from: parsed.from,
                    to,
                    subject: parsed.subject,
                    body_text: parsed.body_text,
                    body_html: parsed.body_html,
                    raw_mime: utf8_decode(raw_bytes),
                },
            )
        },
        None => None,
    }
}

/// The seconds to wait before the next poll: ten after a failed round,
/// otherwise the poll interval.
pub fn poll_delay_secs(round_failed: bool, poll_interval_secs: u64) -> (r: u64)
    ensures
        r == (if round_failed {
            10
        } else {
            poll_interval_secs
        }),
{
    if round_failed {
        10
    } else {
        poll_interval_secs
    }
}

/// The seconds between two polls of a healthy mailbox.
pub fn default_poll_interval_secs() -> (r: u64)
    ensures
        r == 5,
{
    5
}

/// The display name of an inbox made for mail fetched over IMAP.
pub fn imap_inbox_display_name() -> (r: String)
    ensures
        r@ == "Live Hostinger Inbox"@,
{
    owned("Live Hostinger Inbox")
}

/// The error of a refused IMAP login.
pub fn login_failure_text(error: &str) -> (r: String)
    ensures
        r@ == "IMAP login failed: "@ + error@,
{
    crate::text::concat2("IMAP login failed: ", error)
}

} // verus!
