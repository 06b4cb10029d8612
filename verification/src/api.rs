//! The request decisions of the HTTP API: how an inbound webhook becomes a
//! stored email, how a new inbox is named, how the configuration is shown
//! and saved, and which AI tool integrations are probed and written.
use vstd::prelude::*;
use vstd::utf8::encode_utf8;
use crate::db::{InboundEmail, InboundEmailView};
use crate::engine::extractor::{extraction, ExtractedMetadata, Extractor};
use crate::engine::outbound::SendEmailRequest;
use crate::engine::parser::{parsed_email, EmailParser};
use crate::ids::{default_inbox_address, inbox_address};
use crate::text::{
    chars_of, concat2, contains_char, opt_view, owned, str_contains_char, string_views,
    text_or_empty,
};

verus! {

/// The payload of `POST /v1/accounts`.
pub struct CreateAccountDto {
    pub display_name: Option<String>,
    pub address: Option<String>,
}

/// A message as a mail host's webhook describes it.
pub struct HostingerMessageDto {
    pub from: Option<String>,
    pub to: Option<String>,
    pub subject: Option<String>,
    pub body: Option<String>,
    pub text: Option<String>,
    pub html: Option<String>,
    pub thread_id: Option<String>,
}

/// The payload of `POST /v1/inbound`.
pub struct InboundEmailDto {
    pub to: Option<String>,
    pub from: Option<String>,
    pub subject: Option<String>,
    pub body: Option<String>,
    pub raw_mime: Option<String>,
    pub event: Option<String>,
    pub mailbox: Option<String>,
    pub message: Option<HostingerMessageDto>,
}

/// The answer of `GET /v1/accounts/:id/otp`.
pub struct OtpResponse {
    pub account_id: String,
    pub otp: Option<String>,
    pub message_id: Option<String>,
    pub timestamp: i64,
}

/// The answer of `GET /v1/accounts/:id/links`.
pub struct ActionLinksResponse {
    pub account_id: String,
    pub links: Vec<String>,
    pub timestamp: i64,
}

/// The configuration as shown and as saved.
pub struct ConfigDto {
    pub domain: String,
    pub primary_email: String,
    pub agent_name: Option<String>,
    pub imap_host: Option<String>,
    pub imap_port: Option<u16>,
    pub imap_user: Option<String>,
    pub imap_pass: Option<String>,
    pub has_imap_pass: Option<bool>,
    pub smtp_host: Option<String>,
    pub smtp_port: Option<u16>,
    pub smtp_user: Option<String>,
    pub smtp_pass: Option<String>,
    pub has_smtp_pass: Option<bool>,
    pub configured: Option<bool>,
}

/// The payload of `POST /v1/config/test`.
pub struct TestConnectionDto {
    pub protocol: Option<String>,
    pub host: String,
    pub port: u16,
    pub username: String,
    pub password: String,
}

/// An AI tool that can be connected, and whether it was found.
pub struct DetectedFramework {
    pub id: String,
    pub name: String,
    pub detected: bool,
    pub status: String,
    pub config_path: String,
    pub description: String,
}

/// The answer of `GET /v1/integrations/detect`.
pub struct DetectIntegrationsResponse {
    pub frameworks: Vec<DetectedFramework>,
    pub identities: Vec<crate::db::AgentIdentityPublic>,
}

/// The payload of `POST /v1/integrations/connect`.
pub struct ConnectAgentDto {
    pub frameworks: Vec<String>,
    pub agent_id: Option<String>,
    pub create_agent: Option<CreateAgentPayloadDto>,
}

/// An agent to create while connecting tools.
pub struct CreateAgentPayloadDto {
    pub name: String,
    pub email: Option<String>,
    pub capabilities: Option<Vec<String>>,
}

/// The outcome of connecting one tool.
pub struct ConnectResultItem {
    pub framework: String,
    pub name: String,
    pub status: String,
    pub verified: bool,
    pub path: String,
}

/// The answer of `POST /v1/integrations/connect`.
pub struct ConnectAgentResponse {
    pub status: String,
    pub agent_id: String,
    pub agent_name: String,
    pub agent_email: String,
    pub results: Vec<ConnectResultItem>,
}

// ---------------------------------------------------------------------------
// Inbound webhook
// ---------------------------------------------------------------------------

/// The address that receives mail nobody addressed: `agent@<domain>`.
pub open spec fn catch_all(domain: Seq<char>) -> Seq<char> {
    "agent@"@ + domain
}

/// The sender recorded when a webhook names none.
pub open spec fn unknown_external_sender() -> Seq<char> {
    "external@service.com"@
}

/// The first of two optional texts that is present.
pub open spec fn or_else(a: Option<Seq<char>>, b: Option<Seq<char>>) -> Option<Seq<char>> {
    match a {
        Some(x) => Some(x),
        None => b,
    }
}

/// A present text, or the default.
pub open spec fn or_default(a: Option<Seq<char>>, d: Seq<char>) -> Seq<char> {
    match a {
        Some(x) => x,
        None => d,
    }
}

/// The stored form of an inbound webhook payload; `None` when it carries
/// MIME text that does not parse (the request is refused). A payload with
/// MIME text is read from it; one with a host message takes that message's
/// fields (the mailbox, else its recipient); a plain payload is HTML when
/// its body holds both `<` and `>`, plain text otherwise.
pub open spec fn inbound_email(p: InboundEmailDto, domain: Seq<char>) -> Option<InboundEmailView> {
    match p.raw_mime {
        Some(mime) => match parsed_email(encode_utf8(mime@)) {
            Some(e) => Some(
                InboundEmailView {
                    from: e.from,
                    to: if e.to.len() > 0 {
                        e.to[0]
                    } else {
                        catch_all(domain)
                    },
                    subject: e.subject,
                    body_text: e.body_text,
                    body_html: e.body_html,
                    raw_mime: Some(mime@),
                },
            ),
            None => None,
        },
        None => match p.message {
            Some(m) => Some(
                InboundEmailView {
                    from: or_default(opt_view(m.from), unknown_external_sender()),
                    to: or_default(or_else(opt_view(p.mailbox), opt_view(m.to)), catch_all(domain)),
                    subject: opt_view(m.subject),
                    body_text: or_else(opt_view(m.text), opt_view(m.body)),
                    body_html: opt_view(m.html),
                    raw_mime: None,
                },
            ),
            None => {
                let body = text_or_empty(opt_view(p.body));
                let is_html = body.contains('<') && body.contains('>');
                Some(
                    InboundEmailView {
                        from: or_default(opt_view(p.from), unknown_external_sender()),
                        to: or_default(opt_view(p.to), catch_all(domain)),
                        subject: opt_view(p.subject),
                        body_text: if is_html {
                            None
                        } else {
                            Some(body)
                        },
                        body_html: if is_html {
                            Some(body)
                        } else {
                            None
                        },
                        raw_mime: None,
                    },
                )
            },
        },
    }
}

fn or_default_string(a: Option<String>, d: &str) -> (r: String)
    ensures
        r@ == or_default(opt_view(a), d@),
{
    match a {
        Some(x) => x,
        None => owned(d),
    }
}

fn or_else_string(a: Option<String>, b: Option<String>) -> (r: Option<String>)
    ensures
        opt_view(r) == or_else(opt_view(a), opt_view(b)),
{
    match a {
        Some(x) => Some(x),
        None => b,
    }
}

/// The stored form of an inbound webhook payload (`None`: refused).
pub fn resolve_inbound(payload: InboundEmailDto, domain: &str) -> (r: Option<InboundEmail>)
    ensures
        match r {
            Some(e) => inbound_email(payload, domain@) == Some(e@),
            None => inbound_email(payload, domain@) is None,
        },
{
    let catch = concat2("agent@", domain);
    match payload.raw_mime {
        Some(mime) => {
            match EmailParser::parse_mime(mime.as_str().as_bytes()) {
                Some(e) => {
                    let to = if e.to.len() > 0 {
                        owned(e.to[0].as_str())
                    } else {
                        catch
                    };
                    Some(
                        InboundEmail {
                            from: e.from,
                            to,
                            subject: e.subject,
                            body_text: e.body_text,
                            body_html: e.body_html,
                            raw_mime: Some(mime),
                        },
                    )
                },
                None => None,
            }
        },
        None => match payload.message {
            Some(m) => {
                let to = or_default_string(or_else_string(payload.mailbox, m.to), catch.as_str());
                Some(
                    InboundEmail {
                        from: or_default_string(m.from, "external@service.com"),
                        to,
                        subject: m.subject,
                        body_text: or_else_string(m.text, m.body),
                        body_html: m.html,
                        raw_mime: None,
                    },
                )
            },
            None => {
                let body = match payload.body {
                    Some(b) => b,
                    None => String::new(),
                };
                let is_html = str_contains_char(body.as_str(), '<') && str_contains_char(
                    body.as_str(),
                    '>',
                );
                let (body_text, body_html) = if is_html {
                    (None, Some(body))
                } else {
                    (Some(body), None)
                };
                Some(
                    InboundEmail {
                        from: or_default_string(payload.from, "external@service.com"),
                        to: or_default_string(payload.to, catch.as_str()),
                        subject: payload.subject,
                        body_text,
                        body_html,
                        raw_mime: None,
                    },
                )
            },
        },
    }
}

// ---------------------------------------------------------------------------
// New inboxes
// ---------------------------------------------------------------------------

/// The display name and address of an inbox made for a request: the given
/// name (or `agent`), and the given address (or one made from the name, the
/// random `slug` and the domain).
pub open spec fn new_inbox_names(p: CreateAccountDto, slug: Seq<char>, domain: Seq<char>) -> (
    Seq<char>,
    Seq<char>,
) {
    let name = or_default(opt_view(p.display_name), "agent"@);
    (
        name,
        match p.address {
            Some(a) => a@,
            None => inbox_address(name, slug, domain),
        },
    )
}

/// The display name and address of an inbox made for a request.
pub fn new_inbox_request(payload: CreateAccountDto, slug: &str, domain: &str) -> (r: (String, String))
    ensures
        (r.0@, r.1@) == new_inbox_names(payload, slug@, domain@),
{
    let name = or_default_string(payload.display_name, "agent");
    let address = match payload.address {
        Some(a) => a,
        None => default_inbox_address(name.as_str(), slug, domain),
    };
    (name, address)
}

// ---------------------------------------------------------------------------
// Storing inbound mail and sending mail
// ---------------------------------------------------------------------------

/// The display name of an inbox made because mail arrived for an address
/// that had none.
pub fn auto_inbox_display_name() -> (r: String)
    ensures
        r@ == "Auto-Provisioned Inbox"@,
{
    owned("Auto-Provisioned Inbox")
}

/// The OTP code and action links of an inbound email, read from its
/// subject, text and HTML.
pub fn inbound_extraction(email: &InboundEmail) -> (r: ExtractedMetadata)
    ensures
        r@ == extraction(email@.subject, email@.body_text, email@.body_html),
{
    let subject = match &email.subject {
        Some(s) => Some(s.as_str()),
        None => None,
    };
    let text = match &email.body_text {
        Some(s) => Some(s.as_str()),
        None => None,
    };
    let html = match &email.body_html {
        Some(s) => Some(s.as_str()),
        None => None,
    };
    Extractor::extract(subject, text, html)
}

/// A request sent from an inbox: its own sender when it names one, else
/// the inbox's address.
pub fn with_default_sender(req: SendEmailRequest, address: &str) -> (r: SendEmailRequest)
    ensures
        opt_view(r.from) == Some(
            match req.from {
                Some(f) => f@,
                None => address@,
            },
        ),
        r.to == req.to,
        r.cc == req.cc,
        r.bcc == req.bcc,
        r.subject == req.subject,
        r.text == req.text,
        r.html == req.html,
        r.in_reply_to == req.in_reply_to,
{
    let from = match req.from {
        Some(f) => Some(f),
        None => Some(owned(address)),
    };
    SendEmailRequest {
        from,
        to: req.to,
        cc: req.cc,
        bcc: req.bcc,
        subject: req.subject,
        text: req.text,
        html: req.html,
        in_reply_to: req.in_reply_to,
    }
}

// ---------------------------------------------------------------------------
// The embedded dashboard
// ---------------------------------------------------------------------------

/// The web dashboard's files, embedded in the program.
pub struct UiAssets;

/// The MIME type that `mime_guess` gives a path by its extension
/// (`application/octet-stream` where it knows none).
pub uninterp spec fn guessed_mime(path: Seq<char>) -> Seq<char>;

/// `mime_guess::from_path(path).first_or_octet_stream()` as text; the
/// result is named by `guessed_mime`, a function of the path alone.
#[verifier::external_body]
fn mime_type_for(path: &str) -> (r: String)
    ensures
        r@ == guessed_mime(path@),
{
    mime_guess::from_path(path).first_or_octet_stream().as_ref().to_string()
}

/// The answer to a request for a dashboard file.
pub enum AssetReply {
    /// 200, with the file's MIME type and content.
    Found { content_type: String, body: Vec<u8> },
    /// 404, with this text.
    NotFound { text: String },
}

/// The answer for the dashboard file `path` whose embedded content is
/// `content` (none: no such file).
pub fn static_asset_reply(path: &str, content: Option<Vec<u8>>) -> (r: AssetReply)
    ensures
        match content {
            Some(c) => r matches AssetReply::Found { content_type, body } && content_type@
                == guessed_mime(path@) && body == c,
            None => r matches AssetReply::NotFound { text } && text@ == "404 Not Found"@,
        },
{
    match content {
        Some(c) => AssetReply::Found { content_type: mime_type_for(path), body: c },
        None => AssetReply::NotFound { text: owned("404 Not Found") },
    }
}


/// Mail sent as raw MIME lands in the inbox of its first `To` recipient as
/// the parser reads it; only a message without recipients goes to
/// `agent@<domain>`. Its sender is the parsed sender and the MIME text is
/// kept.
pub proof fn law_raw_mime_goes_to_first_recipient(p: InboundEmailDto, domain: Seq<char>)
    requires
        p.raw_mime is Some,
        parsed_email(encode_utf8(opt_view(p.raw_mime).unwrap())) is Some,
    ensures
        ({
            let mime = opt_view(p.raw_mime).unwrap();
            let e = parsed_email(encode_utf8(mime)).unwrap();
            inbound_email(p, domain) matches Some(v) && v.from == e.from && v.raw_mime == Some(mime)
                && (e.to.len() > 0 ==> v.to == e.to[0]) && (e.to.len() == 0 ==> v.to == "agent@"@
                + domain)
        }),
{
}

/// MIME text that the parser refuses is refused.
pub proof fn law_unparsable_mime_refused(p: InboundEmailDto, domain: Seq<char>)
    requires
        p.raw_mime is Some,
        parsed_email(encode_utf8(opt_view(p.raw_mime).unwrap())) is None,
    ensures
        inbound_email(p, domain) is None,
{
}

} // verus!
