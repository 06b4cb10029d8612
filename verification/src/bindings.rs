//! The calls into outside crates that the verified logic makes, each with
//! the contract that the crate's source and documentation support. Results
//! that take pages to describe are named by `uninterp` spec functions; the
//! verified code is exact over those names.
use vstd::prelude::*;
use mail_parser::MimeHeaders;
use mail_parser::Message as MailParserMessage;
use crate::text::{opt_view, string_views};

verus! {

// ---------------------------------------------------------------------------
// regex
// ---------------------------------------------------------------------------

/// What group 1 of the leftmost match of the regular expression `pattern`
/// in `text` holds; `None` where the pattern does not compile, nothing
/// matches, or the match leaves group 1 unset.
pub uninterp spec fn regex_first_group(pattern: Seq<char>, text: Seq<char>) -> Option<Seq<char>>;

/// Whether the regular expression `pattern` matches somewhere in `text`
/// (`false` where the pattern does not compile).
pub uninterp spec fn regex_matches(pattern: Seq<char>, text: Seq<char>) -> bool;

/// The texts of the successive non-overlapping matches of `pattern` in
/// `text` (none where the pattern does not compile).
pub uninterp spec fn regex_match_texts(pattern: Seq<char>, text: Seq<char>) -> Seq<Seq<char>>;

/// `regex::Regex::new(pattern)` then `captures(text)` and `get(1)`: the text
/// of capture group 1, named by `regex_first_group`.
#[verifier::external_body]
pub(crate) fn regex_capture_group1(pattern: &str, text: &str) -> (r: Option<String>)
    ensures
        opt_view(r) == regex_first_group(pattern@, text@),
{
    let re = regex::Regex::new(pattern).ok()?;
    let caps = re.captures(text)?;
    caps.get(1).map(|m| m.as_str().to_string())
}

/// `regex::Regex::new(pattern)` then `is_match(text)`, named by
/// `regex_matches`.
#[verifier::external_body]
pub(crate) fn regex_is_match(pattern: &str, text: &str) -> (r: bool)
    ensures
        r == regex_matches(pattern@, text@),
{
    match regex::Regex::new(pattern) {
        Ok(re) => re.is_match(text),
        Err(_) => false,
    }
}

/// The pattern of a plain-text web URL: `http`, an optional `s`, `://`,
/// then characters other than white space, `<`, `>`, quotes and brackets.
pub open spec fn web_url_pattern() -> Seq<char> {
    r#"https?://[^\s<>'"()]+"#@
}

/// `regex::Regex::new(pattern)` then `find_iter(text)`: the matched texts in
/// order, named by `regex_match_texts`. A match of the web URL pattern
/// begins with what the pattern begins with: `http://` or `https://`.
#[verifier::external_body]
pub(crate) fn regex_find_all(pattern: &str, text: &str) -> (r: Vec<String>)
    ensures
        string_views(r@) == regex_match_texts(pattern@, text@),
        pattern@ == web_url_pattern() ==> forall|i: int|
            0 <= i < r@.len() ==> "http://"@.is_prefix_of(#[trigger] r@[i]@) || "https://"@.is_prefix_of(
                r@[i]@,
            ),
{
    match regex::Regex::new(pattern) {
        Ok(re) => re.find_iter(text).map(|m| m.as_str().to_string()).collect(),
        Err(_) => Vec::new(),
    }
}

// ---------------------------------------------------------------------------
// scraper
// ---------------------------------------------------------------------------

/// An element picked from an HTML document: the value of one of its
/// attributes, if present, and its descendant text nodes in order.
pub open spec fn element_views(v: Seq<(Option<String>, Vec<String>)>) -> Seq<
    (Option<Seq<char>>, Seq<Seq<char>>),
> {
    v.map_values(|e: (Option<String>, Vec<String>)| (opt_view(e.0), string_views(e.1@)))
}

/// For the HTML document `html` parsed as `scraper::Html::parse_document`
/// does, the elements that the CSS selector `selector` picks, in document
/// order, each as the value of its attribute `attr` and its text nodes;
/// `None` where the selector does not parse.
pub uninterp spec fn html_selection(html: Seq<char>, selector: Seq<char>, attr: Seq<char>) -> Option<
    Seq<(Option<Seq<char>>, Seq<Seq<char>>)>,
>;

/// `Html::parse_document`, `Selector::parse` and `select`, with each picked
/// element's `attr` and `text()` pieces; named by `html_selection`.
#[verifier::external_body]
pub(crate) fn html_select(html: &str, selector: &str, attr: &str) -> (r: Option<
    Vec<(Option<String>, Vec<String>)>,
>)
    ensures
        html_selection(html@, selector@, attr@) == (match r {
            Some(v) => Some(element_views(v@)),
            None => None,
        }),
{
    let document = scraper::Html::parse_document(html);
    let sel = scraper::Selector::parse(selector).ok()?;
    let mut out = Vec::new();
    for e in document.select(&sel) {
        let texts: Vec<String> = e.text().map(|t| t.to_string()).collect();
        out.push((e.value().attr(attr).map(|a| a.to_string()), texts));
    }
    Some(out)
}

// ---------------------------------------------------------------------------
// url
// ---------------------------------------------------------------------------

/// The parts of a parsed URL that link screening reads.
pub struct UrlParts {
    pub scheme: String,
    pub host: Option<String>,
    pub query_pairs: Vec<(String, String)>,
}

/// The texts of a parsed URL's scheme, host and decoded query pairs.
pub struct UrlPartsView {
    pub scheme: Seq<char>,
    pub host: Option<Seq<char>>,
    pub query_pairs: Seq<(Seq<char>, Seq<char>)>,
}

/// The texts of a list of string pairs.
pub open spec fn pair_views(v: Seq<(String, String)>) -> Seq<(Seq<char>, Seq<char>)> {
    v.map_values(|p: (String, String)| (p.0@, p.1@))
}

impl View for UrlParts {
    type V = UrlPartsView;

    open spec fn view(&self) -> UrlPartsView {
        UrlPartsView {
            scheme: self.scheme@,
            host: opt_view(self.host),
            query_pairs: pair_views(self.query_pairs@),
        }
    }
}

/// For the text `raw`, what `url::Url::parse` yields: `None` where it
/// refuses the text, else the URL's `scheme()`, `host_str()` and decoded
/// `query_pairs()`.
pub uninterp spec fn url_components(raw: Seq<char>) -> Option<UrlPartsView>;

/// `url::Url::parse(raw)`, read through `scheme`, `host_str` and
/// `query_pairs`; named by `url_components`.
#[verifier::external_body]
pub(crate) fn parse_url(raw: &str) -> (r: Option<UrlParts>)
    ensures
        url_components(raw@) == (match r {
            Some(p) => Some(p@),
            None => None,
        }),
{
    match url::Url::parse(raw) {
        Ok(u) => Some(UrlParts {
            scheme: u.scheme().to_string(),
            host: u.host_str().map(|h| h.to_string()),
            query_pairs: u.query_pairs().map(|(k, v)| (k.to_string(), v.to_string())).collect(),
        }),
        Err(_) => None,
    }
}

// ---------------------------------------------------------------------------
// mail-parser
// ---------------------------------------------------------------------------

#[verifier::external_type_specification]
#[verifier::external_body]
pub struct ExMailMessage<'x>(MailParserMessage<'x>);

/// A MIME message parsed from the bytes `raw`, with the parser's default
/// settings. Its view is those bytes.
pub struct MimeMessage<'a> {
    raw: &'a [u8],
    message: MailParserMessage<'a>,
}

impl<'a> View for MimeMessage<'a> {
    type V = Seq<u8>;

    closed spec fn view(&self) -> Seq<u8> {
        self.raw@
    }
}

/// The recipients of a `To` header: a plain address list, or a list of
/// groups of addresses; each address as the optional e-mail address it
/// carries.
pub enum MimeAddressList {
    List(Vec<Option<String>>),
    Group(Vec<Vec<Option<String>>>),
}

/// The texts of a `MimeAddressList`.
pub enum MimeAddressListView {
    List(Seq<Option<Seq<char>>>),
    Group(Seq<Seq<Option<Seq<char>>>>),
}

/// The texts of a list of optional strings.
pub open spec fn opt_views(v: Seq<Option<String>>) -> Seq<Option<Seq<char>>> {
    v.map_values(|o: Option<String>| opt_view(o))
}

impl View for MimeAddressList {
    type V = MimeAddressListView;

    open spec fn view(&self) -> MimeAddressListView {
        match self {
            MimeAddressList::List(l) => MimeAddressListView::List(opt_views(l@)),
            MimeAddressList::Group(g) => MimeAddressListView::Group(
                g@.map_values(|v: Vec<Option<String>>| opt_views(v@)),
            ),
        }
    }
}

/// An attachment as the parser gives it: its name, its content type's main
/// type, and its decoded contents.
pub struct MimeAttachment {
    pub name: Option<String>,
    pub content_type: Option<String>,
    pub contents: Vec<u8>,
}

/// The content of a `MimeAttachment`.
pub struct MimeAttachmentView {
    pub name: Option<Seq<char>>,
    pub content_type: Option<Seq<char>>,
    pub contents: Seq<u8>,
}

impl View for MimeAttachment {
    type V = MimeAttachmentView;

    open spec fn view(&self) -> MimeAttachmentView {
        MimeAttachmentView {
            name: opt_view(self.name),
            content_type: opt_view(self.content_type),
            contents: self.contents@,
        }
    }
}

/// Whether `mail_parser::MessageParser::default().parse` accepts `raw`.
pub uninterp spec fn mime_parses(raw: Seq<u8>) -> bool;

/// The display name and address of the first `From` address of the message
/// parsed from `raw` (`from()` then `first()`).
pub uninterp spec fn mime_from(raw: Seq<u8>) -> Option<(Option<Seq<char>>, Option<Seq<char>>)>;

/// The `To` header of the message parsed from `raw` (`to()`).
pub uninterp spec fn mime_to(raw: Seq<u8>) -> Option<MimeAddressListView>;

/// The subject of the message parsed from `raw` (`subject()`).
pub uninterp spec fn mime_subject(raw: Seq<u8>) -> Option<Seq<char>>;

/// The first plain-text body of the message parsed from `raw`
/// (`body_text(0)`, which converts an HTML-only body to text).
pub uninterp spec fn mime_body_text(raw: Seq<u8>) -> Option<Seq<char>>;

/// The first HTML body of the message parsed from `raw` (`body_html(0)`,
/// which converts a text-only body to HTML).
pub uninterp spec fn mime_body_html(raw: Seq<u8>) -> Option<Seq<char>>;

/// The attachments of the message parsed from `raw` (`attachments()`), in
/// order, each with `attachment_name()`, `content_type().c_type` and
/// `contents()`.
pub uninterp spec fn mime_attachments(raw: Seq<u8>) -> Seq<MimeAttachmentView>;

impl<'a> MimeMessage<'a> {
    /// `mail_parser::MessageParser::default().parse(raw)`.
    #[verifier::external_body]
    pub(crate) fn parse(raw: &'a [u8]) -> (r: Option<MimeMessage<'a>>)
        ensures
            r is Some <==> mime_parses(raw@),
            r matches Some(m) ==> m@ == raw@,
    {
        let message = mail_parser::MessageParser::default().parse(raw)?;
        Some(MimeMessage { raw, message })
    }

    /// `from()` then `first()`: the first sender's name and address.
    #[verifier::external_body]
    pub(crate) fn first_from(&self) -> (r: Option<(Option<String>, Option<String>)>)
        ensures
            mime_from(self@) == (match r {
                Some(p) => Some((opt_view(p.0), opt_view(p.1))),
                None => None,
            }),
    {
        let a = self.message.from()?.first()?;
        Some((a.name().map(|s| s.to_string()), a.address().map(|s| s.to_string())))
    }

    /// `to()`, each address read with `address()`.
    #[verifier::external_body]
    pub(crate) fn to_field(&self) -> (r: Option<MimeAddressList>)
        ensures
            mime_to(self@) == (match r {
                Some(l) => Some(l@),
                None => None,
            }),
    {
        let conv = |a: &mail_parser::Addr| a.address().map(|s| s.to_string());
        match self.message.to()? {
            mail_parser::Address::List(l) => Some(MimeAddressList::List(l.iter().map(conv).collect())),
            mail_parser::Address::Group(g) => Some(MimeAddressList::Group(
                g.iter().map(|g| g.addresses.iter().map(conv).collect()).collect(),
            )),
        }
    }

    /// `subject()`.
    #[verifier::external_body]
    pub(crate) fn subject(&self) -> (r: Option<String>)
        ensures
            opt_view(r) == mime_subject(self@),
    {
        self.message.subject().map(|s| s.to_string())
    }

    /// `body_text(0)`.
    #[verifier::external_body]
    pub(crate) fn body_text(&self) -> (r: Option<String>)
        ensures
            opt_view(r) == mime_body_text(self@),
    {
        self.message.body_text(0).map(|s| s.to_string())
    }

    /// `body_html(0)`.
    #[verifier::external_body]
    pub(crate) fn body_html(&self) -> (r: Option<String>)
        ensures
            opt_view(r) == mime_body_html(self@),
    {
        self.message.body_html(0).map(|s| s.to_string())
    }

    /// `attachments()`, each read with `attachment_name()`,
    /// `content_type()` and `contents()`.
    #[verifier::external_body]
    pub(crate) fn attachments(&self) -> (r: Vec<MimeAttachment>)
        ensures
            r@.map_values(|a: MimeAttachment| a@) == mime_attachments(self@),
    {
        self.message.attachments().map(|a| MimeAttachment {
            name: a.attachment_name().map(|s| s.to_string()),
            content_type: a.content_type().map(|c| c.c_type.to_string()),
            contents: a.contents().to_vec(),
        }).collect()
    }
}

// ---------------------------------------------------------------------------
// uuid
// ---------------------------------------------------------------------------

/// Whether `c` is a lowercase hexadecimal digit.
pub open spec fn is_lower_hex(c: char) -> bool {
    (48 <= (c as u32) <= 57) || (97 <= (c as u32) <= 102)
}

/// Whether `u` is the hyphenated lowercase text of a UUID:
/// `xxxxxxxx-xxxx-xxxx-xxxx-xxxxxxxxxxxx` with lowercase hex digits.
pub open spec fn is_uuid_text(u: Seq<char>) -> bool {
    &&& u.len() == 36
    &&& forall|i: int|
        0 <= i < 36 ==> if i == 8 || i == 13 || i == 18 || i == 23 {
            #[trigger] u[i] == '-'
        } else {
            is_lower_hex(u[i])
        }
}

/// `uuid::Uuid::new_v4().to_string()`: a random UUID, written hyphenated in
/// lowercase hex (its `Display` is `LowerHex` of the hyphenated form). Only
/// that shape is promised; the value is random.
#[verifier::external_body]
pub(crate) fn new_uuid_text() -> (r: String)
    ensures
        is_uuid_text(r@),
{
    uuid::Uuid::new_v4().to_string()
}

// ---------------------------------------------------------------------------
// chrono
// ---------------------------------------------------------------------------

/// `chrono::Utc::now().timestamp()`: the current time in seconds since the
/// Unix epoch. Nothing is promised of the value; it depends on the clock.
#[verifier::external_body]
pub(crate) fn now_timestamp() -> (r: i64) {
    chrono::Utc::now().timestamp()
}

// ---------------------------------------------------------------------------
// serde_json
// ---------------------------------------------------------------------------

/// The JSON text that `serde_json::to_string` writes for a list of strings
/// (`None` where it reports an error).
pub uninterp spec fn json_of_strings(items: Seq<Seq<char>>) -> Option<Seq<char>>;

/// The list of strings that `serde_json::from_str::<Vec<String>>` reads from
/// `text` (`None` where the text is not a JSON array of strings).
pub uninterp spec fn strings_of_json(text: Seq<char>) -> Option<Seq<Seq<char>>>;

/// `serde_json::to_string(items).ok()`, named by `json_of_strings`.
#[verifier::external_body]
pub(crate) fn strings_to_json(items: &Vec<String>) -> (r: Option<String>)
    ensures
        opt_view(r) == json_of_strings(string_views(items@)),
{
    serde_json::to_string(items).ok()
}

/// `serde_json::from_str::<Vec<String>>(text).ok()`, named by
/// `strings_of_json`.
#[verifier::external_body]
pub(crate) fn json_to_strings(text: &str) -> (r: Option<Vec<String>>)
    ensures
        strings_of_json(text@) == (match r {
            Some(v) => Some(string_views(v@)),
            None => None,
        }),
{
    serde_json::from_str::<Vec<String>>(text).ok()
}

/// The items of a JSON array as `serde_json::from_str::<Vec<Value>>` reads
/// them, each as the pair (the item where it is a string, the item's `url`
/// member where the item is an object whose `url` is a string); `None`
/// where the text is not a JSON array.
pub uninterp spec fn json_link_items(text: Seq<char>) -> Option<
    Seq<(Option<Seq<char>>, Option<Seq<char>>)>,
>;

/// The texts of a list of optional string pairs.
pub open spec fn link_item_views(v: Seq<(Option<String>, Option<String>)>) -> Seq<
    (Option<Seq<char>>, Option<Seq<char>>),
> {
    v.map_values(|p: (Option<String>, Option<String>)| (opt_view(p.0), opt_view(p.1)))
}

/// `serde_json::from_str::<Vec<Value>>(text)`, each item taken by
/// `Value::as_str` and by `Value::get("url")` then `as_str`; named by
/// `json_link_items`.
#[verifier::external_body]
pub(crate) fn json_to_link_items(text: &str) -> (r: Option<Vec<(Option<String>, Option<String>)>>)
    ensures
        json_link_items(text@) == (match r {
            Some(v) => Some(link_item_views(v@)),
            None => None,
        }),
{
    let items = serde_json::from_str::<Vec<serde_json::Value>>(text).ok()?;
    Some(
        items.iter().map(
            |v| (v.as_str().map(String::from), v.get("url").and_then(|u| u.as_str()).map(String::from)),
        ).collect(),
    )
}

// ---------------------------------------------------------------------------
// lettre
// ---------------------------------------------------------------------------

/// Whether `lettre` reads `addr` as a mailbox (`Mailbox::from_str` gives
/// `Ok`).
pub uninterp spec fn mailbox_parses(addr: Seq<char>) -> bool;

/// `addr.parse::<lettre::message::Mailbox>().is_ok()`, named by
/// `mailbox_parses`.
#[verifier::external_body]
pub(crate) fn parses_as_mailbox(addr: &str) -> (r: bool)
    ensures
        r == mailbox_parses(addr@),
{
    addr.parse::<lettre::message::Mailbox>().is_ok()
}

} // verus!
