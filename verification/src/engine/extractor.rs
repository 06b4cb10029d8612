//! OTP codes and action links found in an email, and the anti-phishing
//! screening of each link.
use vstd::prelude::*;
use crate::bindings::{
    html_select, html_selection, parse_url, regex_capture_group1, regex_find_all,
    regex_first_group, regex_is_match, regex_match_texts, regex_matches, url_components,
    UrlParts, UrlPartsView,
};
use crate::text::{
    opt_str_view, is_digit, all_digits, chars_of, concat2, concat3, contains_chars, contains_seq, has_prefix,
    join_spec, join_strings, opt_view, owned, parse_unsigned, parse_unsigned_spec,
    remove_char, remove_char_spec, split_chars, split_on, str_eq, str_or_empty,
    str_starts_with, string_of, string_views, text_or_empty, to_lowercase, trim_str,
    trim_ws, unicode_lowercase,
};

verus! {

/// A link found in an email with the verdict of its screening. The
/// confidence that the link is safe is given in hundredths.
pub struct SafeLink {
    pub url: String,
    pub domain: String,
    pub is_safe: bool,
    pub has_open_redirect: bool,
    pub confidence_percent: u8,
    pub reason: Option<String>,
}

/// The content of a `SafeLink`.
pub struct SafeLinkView {
    pub url: Seq<char>,
    pub domain: Seq<char>,
    pub is_safe: bool,
    pub has_open_redirect: bool,
    pub confidence_percent: int,
    pub reason: Option<Seq<char>>,
}

impl View for SafeLink {
    type V = SafeLinkView;

    open spec fn view(&self) -> SafeLinkView {
        SafeLinkView {
            url: self.url@,
            domain: self.domain@,
            is_safe: self.is_safe,
            has_open_redirect: self.has_open_redirect,
            confidence_percent: self.confidence_percent as int,
            reason: opt_view(self.reason),
        }
    }
}

/// The OTP code and action links extracted from an email.
pub struct ExtractedMetadata {
    pub otp: Option<String>,
    pub action_links: Vec<SafeLink>,
}

/// The content of an `ExtractedMetadata`.
pub struct ExtractedMetadataView {
    pub otp: Option<Seq<char>>,
    pub action_links: Seq<SafeLinkView>,
}

impl View for ExtractedMetadata {
    type V = ExtractedMetadataView;

    open spec fn view(&self) -> ExtractedMetadataView {
        ExtractedMetadataView {
            otp: opt_view(self.otp),
            action_links: self.action_links@.map_values(|l: SafeLink| l@),
        }
    }
}

impl Default for ExtractedMetadata {
    fn default() -> (r: ExtractedMetadata)
        ensures
            r@.otp is None,
            r@.action_links.len() == 0,
    {
        ExtractedMetadata { otp: None, action_links: Vec::new() }
    }
}

// ---------------------------------------------------------------------------
// Link screening
// ---------------------------------------------------------------------------

/// The query parameters whose absolute URL values make an open redirect.
pub open spec fn redirect_param_names() -> Seq<Seq<char>> {
    seq![
        "redirect"@,
        "redirect_to"@,
        "redirect_url"@,
        "url"@,
        "next"@,
        "dest"@,
        "target"@,
        "to"@,
        "return_to"@,
    ]
}

/// Whether a query value points off-site: `http://`, `https://` or `//`.
pub open spec fn absolute_target(v: Seq<char>) -> bool {
    "http://"@.is_prefix_of(v) || "https://"@.is_prefix_of(v) || "//"@.is_prefix_of(v)
}

/// Whether a query pair is an open redirect.
pub open spec fn is_redirect_pair(p: (Seq<char>, Seq<char>)) -> bool {
    redirect_param_names().contains(unicode_lowercase(p.0)) && absolute_target(p.1)
}

/// The value of the first query pair that is an open redirect.
pub open spec fn first_redirect_target(q: Seq<(Seq<char>, Seq<char>)>) -> Option<Seq<char>>
    decreases q.len(),
{
    if q.len() == 0 {
        None
    } else if is_redirect_pair(q[0]) {
        Some(q[0].1)
    } else {
        first_redirect_target(q.drop_first())
    }
}

/// Whether a host is a dotted quad: four dot-separated parts, each a
/// number that fits in a byte.
pub open spec fn is_dotted_quad(h: Seq<char>) -> bool {
    split_on(h, '.').len() == 4 && forall|i: int|
        0 <= i < 4 ==> parse_unsigned_spec(#[trigger] split_on(h, '.')[i], 255) is Some
}

/// The verdict on the link `raw`, given what URL parsing yields for it.
pub open spec fn link_verdict(raw: Seq<char>, parsed: Option<UrlPartsView>) -> SafeLinkView {
    match parsed {
        None => SafeLinkView {
            url: raw,
            domain: "unknown"@,
            is_safe: false,
            has_open_redirect: false,
            confidence_percent: 0,
            reason: Some("Malformed URL syntax"@),
        },
        Some(u) => {
            let host = text_or_empty(u.host);
            if is_dotted_quad(host) {
                SafeLinkView {
                    url: raw,
                    domain: host,
                    is_safe: false,
                    has_open_redirect: false,
                    confidence_percent: 20,
                    reason: Some("Raw IP address detected instead of domain"@),
                }
            } else if contains_seq(host, "xn--"@) {
                SafeLinkView {
                    url: raw,
                    domain: host,
                    is_safe: false,
                    has_open_redirect: false,
                    confidence_percent: 30,
                    reason: Some("Punycode homograph domain detected"@),
                }
            } else {
                let target = first_redirect_target(u.query_pairs);
                let redirect = target is Some;
                let https = u.scheme == "https"@;
                let safe = !redirect && https;
                SafeLinkView {
                    url: raw,
                    domain: host,
                    is_safe: safe,
                    has_open_redirect: redirect,
                    confidence_percent: if safe {
                        98
                    } else if redirect {
                        40
                    } else {
                        70
                    },
                    reason: if redirect {
                        Some(
                            "Suspicious open redirect parameter targeting: "@ + text_or_empty(
                                target,
                            ),
                        )
                    } else if !https {
                        Some("Insecure HTTP protocol"@)
                    } else {
                        None
                    },
                }
            }
        },
    }
}

/// Whether `h` is a dotted quad.
fn dotted_quad(h: &str) -> (r: bool)
    ensures
        r == is_dotted_quad(h@),
{
    let v = chars_of(h);
    let parts = split_chars(&v, '.');
    if parts.len() != 4 {
        return false;
    }
    let mut i: usize = 0;
    while i < 4
        invariant
            i <= 4,
            v@ == h@,
            parts@.len() == 4,
            split_on(v@, '.').len() == 4,
            forall|k: int| 0 <= k < 4 ==> #[trigger] parts@[k]@ == split_on(v@, '.')[k],
            forall|k: int| 0 <= k < i ==> parse_unsigned_spec(#[trigger] split_on(v@, '.')[k], 255) is Some,
        decreases 4 - i,
    {
        if parse_unsigned(&parts[i], 255).is_none() {
            assert(parse_unsigned_spec(split_on(v@, '.')[i as int], 255) is None);
            assert(!is_dotted_quad(v@));
            return false;
        }
        i = i + 1;
    }
    true
}

/// Whether a lowercased parameter name is one of the redirect parameters.
fn is_redirect_name(k: &str) -> (r: bool)
    ensures
        r == redirect_param_names().contains(k@),
{
    let r = str_eq(k, "redirect") || str_eq(k, "redirect_to") || str_eq(k, "redirect_url") || str_eq(
        k,
        "url",
    ) || str_eq(k, "next") || str_eq(k, "dest") || str_eq(k, "target") || str_eq(k, "to")
        || str_eq(k, "return_to");
    proof {
        let n = redirect_param_names();
        if r {
            if k@ == "redirect"@ { assert(n[0] == k@); }
            else if k@ == "redirect_to"@ { assert(n[1] == k@); }
            else if k@ == "redirect_url"@ { assert(n[2] == k@); }
            else if k@ == "url"@ { assert(n[3] == k@); }
            else if k@ == "next"@ { assert(n[4] == k@); }
            else if k@ == "dest"@ { assert(n[5] == k@); }
            else if k@ == "target"@ { assert(n[6] == k@); }
            else if k@ == "to"@ { assert(n[7] == k@); }
            else { assert(n[8] == k@); }
        } else {
            assert forall|j: int| 0 <= j < n.len() implies n[j] != k@ by {}
        }
    }
    r
}

/// The value of the first query pair that is an open redirect.
fn find_redirect_target(q: &Vec<(String, String)>) -> (r: Option<String>)
    ensures
        opt_view(r) == first_redirect_target(crate::bindings::pair_views(q@)),
{
    let ghost pv = crate::bindings::pair_views(q@);
    let mut i: usize = 0;
    assert(pv.skip(0) =~= pv);
    while i < q.len()
        invariant
            i <= q.len(),
            pv == crate::bindings::pair_views(q@),
            first_redirect_target(pv) == first_redirect_target(pv.skip(i as int)),
        decreases q.len() - i,
    {
        let (k, v) = &q[i];
        let lower = to_lowercase(k.as_str());
        let vs = v.as_str();
        assert(pv.skip(i as int)[0] == (k@, v@));
        if is_redirect_name(lower.as_str()) && (str_starts_with(vs, "http://")
            || str_starts_with(vs, "https://") || str_starts_with(vs, "//")) {
            return Some(owned(vs));
        }
        assert(pv.skip(i as int).drop_first() =~= pv.skip(i + 1));
        i = i + 1;
    }
    None
}

impl Extractor {
    /// Screens a link whose URL parsing yielded `parsed`: an unparsable URL,
    /// a dotted-quad host or a punycode host is unsafe; otherwise the link is
    /// safe when it uses `https` and no redirect parameter carries an
    /// absolute URL.
    pub fn assess_link(raw_url: &str, parsed: Option<UrlParts>) -> (r: SafeLink)
        ensures
            r@ == link_verdict(raw_url@, match parsed {
                Some(p) => Some(p@),
                None => None,
            }),
    {
        match parsed {
            None => SafeLink {
                url: owned(raw_url),
                domain: owned("unknown"),
                is_safe: false,
                has_open_redirect: false,
                confidence_percent: 0,
                reason: Some(owned("Malformed URL syntax")),
            },
            Some(u) => {
                let host = match &u.host {
                    Some(h) => owned(h.as_str()),
                    None => String::new(),
                };
                if dotted_quad(host.as_str()) {
                    return SafeLink {
                        url: owned(raw_url),
                        domain: host,
                        is_safe: false,
                        has_open_redirect: false,
                        confidence_percent: 20,
                        reason: Some(owned("Raw IP address detected instead of domain")),
                    };
                }
                let hv = chars_of(host.as_str());
                let puny = chars_of("xn--");
                if contains_chars(&hv, &puny) {
                    return SafeLink {
                        url: owned(raw_url),
                        domain: host,
                        is_safe: false,
                        has_open_redirect: false,
                        confidence_percent: 30,
                        reason: Some(owned("Punycode homograph domain detected")),
                    };
                }
                let target = find_redirect_target(&u.query_pairs);
                let https = str_eq(u.scheme.as_str(), "https");
                let redirect = target.is_some();
                let safe = !redirect && https;
                let confidence_percent: u8 = if safe {
                    98
                } else if redirect {
                    40
                } else {
                    70
                };
                let reason = match target {
                    Some(t) => Some(concat2("Suspicious open redirect parameter targeting: ", t.as_str())),
                    None => {
                        if !https {
                            Some(owned("Insecure HTTP protocol"))
                        } else {
                            None
                        }
                    },
                };
                SafeLink {
                    url: owned(raw_url),
                    domain: host,
                    is_safe: safe,
                    has_open_redirect: redirect,
                    confidence_percent,
                    reason,
                }
            },
        }
    }

    /// Parses the link and screens it.
    pub fn analyze_link_safety(raw_url: &str) -> (r: SafeLink)
        ensures
            r@ == link_verdict(raw_url@, url_components(raw_url@)),
    {
        let parsed = parse_url(raw_url);
        Self::assess_link(raw_url, parsed)
    }
}

/// Extracts OTP codes and action links from emails.
pub struct Extractor;

// ---------------------------------------------------------------------------
// OTP codes and candidate links
// ---------------------------------------------------------------------------

/// The patterns that find an OTP code, tried in order: a code after words
/// such as "verification code", "otp" or "pin"; a 4-8 digit number after
/// "is", "enter" or "use"; a stand-alone 6-digit number.
pub open spec fn otp_patterns() -> Seq<Seq<char>> {
    seq![
        r"(?i)(?:verification\s*code|security\s*code|login\s*code|otp|passcode|pin|confirmation\s*code)[\s:=—–-]+([0-9]{4,8}|[0-9]{3}-[0-9]{3})"@,
        r"(?i)\b(?:is|enter|use)\s+([0-9]{4,8})\b"@,
        r"\b([0-9]{6})\b"@,
    ]
}

/// The pattern of words that mark a verification, confirmation or login
/// link.
pub open spec fn link_keyword_pattern() -> Seq<char> {
    r"(?i)(verify|confirm|activate|magic[-_]?link|login|session|auth|token|register|validate|signup)"@
}

/// The pattern of a plain-text web URL.
pub open spec fn url_pattern() -> Seq<char> {
    r#"https?://[^\s<>'"()]+"#@
}

/// Whether a cleaned capture is an OTP code: 4 to 8 digits.
pub open spec fn valid_otp(s: Seq<char>) -> bool {
    all_digits(s) && 4 <= s.len() <= 8
}

/// A captured code without its dashes, if that is an OTP code.
pub open spec fn cleaned_otp(c: Seq<char>) -> Option<Seq<char>> {
    let d = remove_char_spec(c, '-');
    if valid_otp(d) {
        Some(d)
    } else {
        None
    }
}

/// The first capture that cleans to an OTP code, cleaned.
pub open spec fn first_valid_otp_spec(caps: Seq<Option<Seq<char>>>) -> Option<Seq<char>>
    decreases caps.len(),
{
    if caps.len() == 0 {
        None
    } else {
        match (match caps[0] {
            Some(c) => cleaned_otp(c),
            None => None,
        }) {
            Some(d) => Some(d),
            None => first_valid_otp_spec(caps.drop_first()),
        }
    }
}

/// The text searched for codes and links: subject, plain body and HTML
/// body, one per line.
pub open spec fn message_text(
    subject: Option<Seq<char>>,
    text_body: Option<Seq<char>>,
    html_body: Option<Seq<char>>,
) -> Seq<char> {
    text_or_empty(subject) + "\n"@ + text_or_empty(text_body) + "\n"@ + text_or_empty(html_body)
}

/// The OTP code found in a message text.
pub open spec fn otp_in(full: Seq<char>) -> Option<Seq<char>> {
    first_valid_otp_spec(otp_patterns().map_values(|p: Seq<char>| regex_first_group(p, full)))
}

/// Whether a link is an absolute web URL.
pub open spec fn is_web_url(h: Seq<char>) -> bool {
    "http://"@.is_prefix_of(h) || "https://"@.is_prefix_of(h)
}

/// The candidate that an `<a>` element gives: its trimmed `href`, when that
/// is a web URL and the URL or the element's text matches the keyword
/// pattern.
pub open spec fn anchor_candidate(e: (Option<Seq<char>>, Seq<Seq<char>>)) -> Option<Seq<char>> {
    match e.0 {
        Some(href) => {
            let h = trim_ws(href);
            if is_web_url(h) && (regex_matches(link_keyword_pattern(), h) || regex_matches(
                link_keyword_pattern(),
                join_spec(e.1, " "@),
            )) {
                Some(h)
            } else {
                None
            }
        },
        None => None,
    }
}

/// The candidates that the `<a href>` elements of an HTML body give.
pub open spec fn anchor_candidates(html_body: Option<Seq<char>>) -> Seq<Seq<char>> {
    match html_body {
        Some(h) => match html_selection(h, "a[href]"@, "href"@) {
            Some(els) => els.filter_map(|e: (Option<Seq<char>>, Seq<Seq<char>>)| anchor_candidate(e)),
            None => Seq::empty(),
        },
        None => Seq::empty(),
    }
}

/// A plain-text URL, kept when it matches the keyword pattern.
pub open spec fn keyword_url(u: Seq<char>) -> Option<Seq<char>> {
    if regex_matches(link_keyword_pattern(), u) {
        Some(u)
    } else {
        None
    }
}

/// The plain-text URLs of a message text that match the keyword pattern.
pub open spec fn keyword_urls(full: Seq<char>) -> Seq<Seq<char>> {
    regex_match_texts(url_pattern(), full).filter_map(|u: Seq<char>| keyword_url(u))
}

/// `s` with each text kept at its first occurrence only.
pub open spec fn dedup(s: Seq<Seq<char>>) -> Seq<Seq<char>>
    decreases s.len(),
{
    if s.len() == 0 {
        s
    } else {
        let d = dedup(s.drop_last());
        if d.contains(s.last()) {
            d
        } else {
            d.push(s.last())
        }
    }
}

/// The candidate links of a message: those of its HTML anchors, then its
/// plain-text URLs, each once.
pub open spec fn candidate_links(
    subject: Option<Seq<char>>,
    text_body: Option<Seq<char>>,
    html_body: Option<Seq<char>>,
) -> Seq<Seq<char>> {
    dedup(anchor_candidates(html_body) + keyword_urls(message_text(subject, text_body, html_body)))
}

/// What `Extractor::extract` finds in a message.
pub open spec fn extraction(
    subject: Option<Seq<char>>,
    text_body: Option<Seq<char>>,
    html_body: Option<Seq<char>>,
) -> ExtractedMetadataView {
    ExtractedMetadataView {
        otp: otp_in(message_text(subject, text_body, html_body)),
        action_links: candidate_links(subject, text_body, html_body).map_values(
            |u: Seq<char>| link_verdict(u, url_components(u)),
        ),
    }
}

/// Whether every text is an absolute web URL.
pub open spec fn all_web(s: Seq<Seq<char>>) -> bool {
    forall|i: int| 0 <= i < s.len() ==> is_web_url(#[trigger] s[i])
}

/// Appends `url` to `list` unless the list holds it already.
pub fn add_candidate(list: &mut Vec<String>, url: String)
    ensures
        string_views(final(list)@) == (if string_views(old(list)@).contains(url@) {
            string_views(old(list)@)
        } else {
            string_views(old(list)@).push(url@)
        }),
{
    let ghost views = string_views(list@);
    let mut i: usize = 0;
    while i < list.len()
        invariant
            i <= list.len(),
            views == string_views(list@),
            forall|j: int| 0 <= j < i ==> views[j] != url@,
        decreases list.len() - i,
    {
        if str_eq(list[i].as_str(), url.as_str()) {
            assert(views[i as int] == url@);
            return;
        }
        i = i + 1;
    }
    list.push(url);
    assert(string_views(list@) =~= views.push(url@));
}

impl Extractor {
    /// The captured code without dashes, when that leaves 4 to 8 digits.
    pub fn clean_otp(captured: &str) -> (r: Option<String>)
        ensures
            opt_view(r) == cleaned_otp(captured@),
    {
        let v = chars_of(captured);
        let d = remove_char(&v, '-');
        if d.len() < 4 || d.len() > 8 {
            return None;
        }
        let mut i: usize = 0;
        while i < d.len()
            invariant
                i <= d.len(),
                4 <= d.len() <= 8,
                d@ == remove_char_spec(captured@, '-'),
                forall|j: int| 0 <= j < i ==> is_digit(#[trigger] d@[j]),
            decreases d.len() - i,
        {
            let u = d[i] as u32;
            if u < 48 || u > 57 {
                assert(!is_digit(d@[i as int]));
                return None;
            }
            i = i + 1;
        }
        Some(string_of(&d))
    }

    /// The first capture that cleans to an OTP code, cleaned.
    pub fn first_valid_otp(captures: &Vec<Option<String>>) -> (r: Option<String>)
        ensures
            opt_view(r) == first_valid_otp_spec(captures@.map_values(|c: Option<String>| opt_view(c))),
    {
        let ghost cv = captures@.map_values(|c: Option<String>| opt_view(c));
        let mut i: usize = 0;
        assert(cv.skip(0) =~= cv);
        while i < captures.len()
            invariant
                i <= captures.len(),
                cv == captures@.map_values(|c: Option<String>| opt_view(c)),
                first_valid_otp_spec(cv) == first_valid_otp_spec(cv.skip(i as int)),
            decreases captures.len() - i,
        {
            assert(cv.skip(i as int)[0] == opt_view(captures@[i as int]));
            assert(cv.skip(i as int).drop_first() =~= cv.skip(i + 1));
            match &captures[i] {
                Some(c) => {
                    match Self::clean_otp(c.as_str()) {
                        Some(d) => {
                            return Some(d);
                        },
                        None => {},
                    }
                },
                None => {},
            }
            i = i + 1;
        }
        None
    }

    /// Finds the OTP code and the action links of an email. The code is the
    /// first capture of the OTP patterns that cleans to 4-8 digits; the
    /// links are the keyword-matching `<a href>` targets of the HTML body,
    /// then the keyword-matching plain-text URLs, each once, each screened.
    pub fn extract(subject: Option<&str>, text_body: Option<&str>, html_body: Option<&str>) -> (r:
        ExtractedMetadata)
        ensures
            r@ == extraction(opt_str_view(subject), opt_str_view(text_body), opt_str_view(html_body)),
            forall|i: int| 0 <= i < r@.action_links.len() ==> is_web_url(#[trigger] r@.action_links[i].url),
    {
        let ghost sv = opt_str_view(subject);
        let ghost tv = opt_str_view(text_body);
        let ghost hv = opt_str_view(html_body);
        let s = str_or_empty(subject);
        let t = str_or_empty(text_body);
        let h = str_or_empty(html_body);
        let first = concat3(s, "\n", t);
        let full = concat3(first.as_str(), "\n", h);
        assert(full@ == message_text(sv, tv, hv));
        // 1. OTP code
        let mut caps: Vec<Option<String>> = Vec::new();
        caps.push(regex_capture_group1(
            r"(?i)(?:verification\s*code|security\s*code|login\s*code|otp|passcode|pin|confirmation\s*code)[\s:=—–-]+([0-9]{4,8}|[0-9]{3}-[0-9]{3})",
            full.as_str(),
        ));
        caps.push(regex_capture_group1(r"(?i)\b(?:is|enter|use)\s+([0-9]{4,8})\b", full.as_str()));
        caps.push(regex_capture_group1(r"\b([0-9]{6})\b", full.as_str()));
        assert(caps@.map_values(|c: Option<String>| opt_view(c)) =~= otp_patterns().map_values(
            |p: Seq<char>| regex_first_group(p, full@),
        ));
        let otp = Self::first_valid_otp(&caps);
        // 2. candidate links of the HTML anchors
        let mut cands: Vec<String> = Vec::new();
        assert(string_views(cands@) =~= dedup(Seq::empty()));
        match html_body {
            Some(html) => {
                match html_select(html, "a[href]", "href") {
                    Some(els) => {
                        let ghost ev = crate::bindings::element_views(els@);
                        let mut i: usize = 0;
                        assert(ev.take(0).filter_map(|e: (Option<Seq<char>>, Seq<Seq<char>>)| anchor_candidate(e)) =~= Seq::<Seq<char>>::empty());
                        while i < els.len()
                            invariant
                                i <= els.len(),
                                ev == crate::bindings::element_views(els@),
                                all_web(string_views(cands@)),
                                string_views(cands@) == dedup(ev.take(i as int).filter_map(
                                    |e: (Option<Seq<char>>, Seq<Seq<char>>)| anchor_candidate(e),
                                )),
                            decreases els.len() - i,
                        {
                            let ghost before = ev.take(i as int).filter_map(
                                |e: (Option<Seq<char>>, Seq<Seq<char>>)| anchor_candidate(e),
                            );
                            assert(ev.take(i + 1).drop_last() =~= ev.take(i as int));
                            assert(ev.take(i + 1).last() == ev[i as int]);
                            assert(ev[i as int] == (opt_view(els@[i as int].0), string_views(
                                els@[i as int].1@,
                            )));
                            let ghost after = ev.take(i + 1).filter_map(
                                |e: (Option<Seq<char>>, Seq<Seq<char>>)| anchor_candidate(e),
                            );
                            assert(after == (match anchor_candidate(ev[i as int]) {
                                Some(x) => before + seq![x],
                                None => before,
                            }));
                            let (href, texts) = &els[i];
                            match href {
                                Some(href) => {
                                    let hs = trim_str(href.as_str());
                                    let web = str_starts_with(hs.as_str(), "http://")
                                        || str_starts_with(hs.as_str(), "https://");
                                    if web {
                                        let link_text = join_strings(texts, " ");
                                        let kw = r"(?i)(verify|confirm|activate|magic[-_]?link|login|session|auth|token|register|validate|signup)";
                                        if regex_is_match(kw, hs.as_str()) || regex_is_match(
                                            kw,
                                            link_text.as_str(),
                                        ) {
                                            proof {
                                                assert(anchor_candidate(ev[i as int]) == Some(hs@));
                                                assert(before + seq![hs@] =~= before.push(hs@));
                                                assert(before.push(hs@).drop_last() =~= before);
                                            }
                                            add_candidate(&mut cands, hs);
                                        } else {
                                            assert(anchor_candidate(ev[i as int]) is None);
                                        }
                                    } else {
                                        assert(anchor_candidate(ev[i as int]) is None);
                                    }
                                },
                                None => {
                                    assert(anchor_candidate(ev[i as int]) is None);
                                },
                            }
                            i = i + 1;
                        }
                        assert(ev.take(els.len() as int) =~= ev);
                    },
                    None => {},
                }
            },
            None => {},
        }
        let ghost anchors = anchor_candidates(hv);
        assert(string_views(cands@) == dedup(anchors));
        // 3. candidate links of the plain text
        let urls = regex_find_all(r#"https?://[^\s<>'"()]+"#, full.as_str());
        let ghost uv = string_views(urls@);
        assert forall|m: int| 0 <= m < urls@.len() implies is_web_url(#[trigger] uv[m]) by {
            assert(uv[m] == urls@[m]@);
        }
        let mut j: usize = 0;
        assert(anchors + uv.take(0).filter_map(|u: Seq<char>| keyword_url(u)) =~= anchors);
        while j < urls.len()
            invariant
                j <= urls.len(),
                uv == string_views(urls@),
                all_web(string_views(cands@)),
                forall|m: int| 0 <= m < urls@.len() ==> is_web_url(#[trigger] uv[m]),
                string_views(cands@) == dedup(anchors + uv.take(j as int).filter_map(
                    |u: Seq<char>| keyword_url(u),
                )),
            decreases urls.len() - j,
        {
            let ghost before = anchors + uv.take(j as int).filter_map(|u: Seq<char>| keyword_url(u));
            assert(uv.take(j + 1).drop_last() =~= uv.take(j as int));
            assert(uv.take(j + 1).last() == uv[j as int]);
            let u = urls[j].as_str();
            let kw = r"(?i)(verify|confirm|activate|magic[-_]?link|login|session|auth|token|register|validate|signup)";
            if regex_is_match(kw, u) {
                proof {
                    assert(anchors + uv.take(j + 1).filter_map(|u: Seq<char>| keyword_url(u))
                        =~= before.push(u@));
                    assert(before.push(u@).drop_last() =~= before);
                }
                add_candidate(&mut cands, owned(u));
            } else {
                assert(anchors + uv.take(j + 1).filter_map(|u: Seq<char>| keyword_url(u))
                    =~= before);
            }
            j = j + 1;
        }
        assert(uv.take(urls.len() as int) =~= uv);
        assert(string_views(cands@) == candidate_links(sv, tv, hv));
        // 4. screening
        let ghost cv = string_views(cands@);
        let mut links: Vec<SafeLink> = Vec::new();
        let mut k: usize = 0;
        while k < cands.len()
            invariant
                k <= cands.len(),
                links@.len() == k,
                cv == string_views(cands@),
                all_web(cv),
                links@.map_values(|l: SafeLink| l@) == cv.take(k as int).map_values(
                    |u: Seq<char>| link_verdict(u, url_components(u)),
                ),
            decreases cands.len() - k,
        {
            let link = Self::analyze_link_safety(cands[k].as_str());
            assert(cv[k as int] == cands@[k as int]@);
            let ghost old_links = links@;
            links.push(link);
            assert forall|m: int| 0 <= m < k implies #[trigger] links@[m]@ == link_verdict(
                cv[m],
                url_components(cv[m]),
            ) by {
                assert(links@[m] == old_links[m]);
                assert(old_links.map_values(|l: SafeLink| l@)[m] == cv.take(k as int).map_values(
                    |u: Seq<char>| link_verdict(u, url_components(u)),
                )[m]);
            }
            assert(links@.map_values(|l: SafeLink| l@) =~= cv.take(k + 1).map_values(
                |u: Seq<char>| link_verdict(u, url_components(u)),
            ));
            k = k + 1;
        }
        assert(cv.take(cands.len() as int) =~= cv);
        let r = ExtractedMetadata { otp, action_links: links };
        assert forall|i: int| 0 <= i < r@.action_links.len() implies is_web_url(
            #[trigger] r@.action_links[i].url,
        ) by {
            assert(r@.action_links[i] == link_verdict(cv[i], url_components(cv[i])));
            assert(is_web_url(cv[i]));
        }
        r
    }
}

// ---------------------------------------------------------------------------
// Laws
// ---------------------------------------------------------------------------

/// A screened link keeps its URL; it is marked safe exactly when no reason
/// is given; a safe link has confidence 98 and no open redirect; a link
/// with an open redirect is unsafe with confidence below 50; every unsafe
/// link has confidence at most 70.
pub proof fn law_link_verdict_consistent(raw: Seq<char>, parsed: Option<UrlPartsView>)
    ensures
        link_verdict(raw, parsed).url == raw,
        link_verdict(raw, parsed).is_safe <==> link_verdict(raw, parsed).reason is None,
        link_verdict(raw, parsed).is_safe ==> link_verdict(raw, parsed).confidence_percent == 98
            && !link_verdict(raw, parsed).has_open_redirect,
        link_verdict(raw, parsed).has_open_redirect ==> !link_verdict(raw, parsed).is_safe
            && link_verdict(raw, parsed).confidence_percent < 50,
        !link_verdict(raw, parsed).is_safe ==> link_verdict(raw, parsed).confidence_percent <= 70,
{
}

/// Whatever the captures, the chosen code is 4 to 8 digits.
pub proof fn law_otp_is_short_digit_code(caps: Seq<Option<Seq<char>>>)
    ensures
        first_valid_otp_spec(caps) matches Some(d) ==> valid_otp(d),
    decreases caps.len(),
{
    if caps.len() > 0 {
        law_otp_is_short_digit_code(caps.drop_first());
    }
}

/// Removing repeats leaves each text once, and only texts of the input.
pub proof fn law_dedup_distinct(s: Seq<Seq<char>>)
    ensures
        forall|i: int, j: int| 0 <= i < j < dedup(s).len() ==> dedup(s)[i] != dedup(s)[j],
        forall|i: int| 0 <= i < dedup(s).len() ==> s.contains(#[trigger] dedup(s)[i]),
        forall|i: int| 0 <= i < s.len() ==> dedup(s).contains(#[trigger] s[i]),
    decreases s.len(),
{
    if s.len() > 0 {
        let p = s.drop_last();
        law_dedup_distinct(p);
        let d = dedup(p);
        assert forall|i: int| 0 <= i < dedup(s).len() implies s.contains(#[trigger] dedup(s)[i]) by {
            if i < d.len() {
                let k = choose|k: int| 0 <= k < p.len() && p[k] == d[i];
                assert(s[k] == d[i]);
            } else {
                assert(s[s.len() - 1] == s.last());
            }
        }
        assert forall|i: int| 0 <= i < s.len() implies dedup(s).contains(#[trigger] s[i]) by {
            if i < s.len() - 1 {
                assert(p[i] == s[i]);
                let k = choose|k: int| 0 <= k < d.len() && d[k] == p[i];
                assert(dedup(s)[k] == s[i]);
            } else if !d.contains(s.last()) {
                assert(dedup(s)[d.len() as int] == s.last());
            }
        }
    }
}

/// The links that `extract` returns have pairwise different URLs.
pub proof fn law_extracted_links_distinct(
    subject: Option<Seq<char>>,
    text_body: Option<Seq<char>>,
    html_body: Option<Seq<char>>,
)
    ensures
        forall|i: int, j: int|
            0 <= i < j < extraction(subject, text_body, html_body).action_links.len()
                ==> extraction(subject, text_body, html_body).action_links[i].url != extraction(
                subject,
                text_body,
                html_body,
            ).action_links[j].url,
{
    let c = candidate_links(subject, text_body, html_body);
    law_dedup_distinct(anchor_candidates(html_body) + keyword_urls(
        message_text(subject, text_body, html_body),
    ));
    let links = extraction(subject, text_body, html_body).action_links;
    assert forall|i: int, j: int| 0 <= i < j < links.len() implies links[i].url != links[j].url by {
        assert(links[i].url == c[i]);
        assert(links[j].url == c[j]);
    }
}

/// What `extract` finds, whatever the message: the code, if any, is 4 to
/// 8 digits; the links have pairwise different URLs; each link is the
/// verdict on its own URL; and each URL is a candidate of the message (a
/// keyword `<a href>` target or a keyword plain-text URL).
pub proof fn law_extraction_result(
    subject: Option<Seq<char>>,
    text_body: Option<Seq<char>>,
    html_body: Option<Seq<char>>,
)
    ensures
        extraction(subject, text_body, html_body).otp matches Some(d) ==> valid_otp(d),
        forall|i: int, j: int|
            0 <= i < j < extraction(subject, text_body, html_body).action_links.len()
                ==> extraction(subject, text_body, html_body).action_links[i].url != extraction(
                subject,
                text_body,
                html_body,
            ).action_links[j].url,
        forall|i: int|
            0 <= i < extraction(subject, text_body, html_body).action_links.len() ==> {
                let l = #[trigger] extraction(subject, text_body, html_body).action_links[i];
                &&& l == link_verdict(l.url, url_components(l.url))
                &&& (anchor_candidates(html_body) + keyword_urls(
                    message_text(subject, text_body, html_body),
                )).contains(l.url)
            },
{
    let full = message_text(subject, text_body, html_body);
    law_otp_is_short_digit_code(otp_patterns().map_values(|p: Seq<char>| regex_first_group(p, full)));
    law_extracted_links_distinct(subject, text_body, html_body);
    let all = anchor_candidates(html_body) + keyword_urls(full);
    law_dedup_distinct(all);
    let c = candidate_links(subject, text_body, html_body);
    let links = extraction(subject, text_body, html_body).action_links;
    assert forall|i: int| 0 <= i < links.len() implies {
        let l = #[trigger] links[i];
        &&& l == link_verdict(l.url, url_components(l.url))
        &&& all.contains(l.url)
    } by {
        assert(links[i] == link_verdict(c[i], url_components(c[i])));
        law_link_verdict_consistent(c[i], url_components(c[i]));
        assert(dedup(all)[i] == c[i]);
    }
}


proof fn lemma_first_redirect_found(q: Seq<(Seq<char>, Seq<char>)>, i: int)
    requires
        0 <= i < q.len(),
        is_redirect_pair(q[i]),
    ensures
        first_redirect_target(q) is Some,
    decreases i,
{
    if i > 0 && !is_redirect_pair(q[0]) {
        lemma_first_redirect_found(q.drop_first(), i - 1);
    }
}

/// Open redirects are caught through each of the parameters `redirect`,
/// `redirect_to`, `redirect_url`, `url`, `next`, `dest`, `target`, `to` and
/// `return_to` (letter case ignored): a link on an ordinary host with such
/// a parameter whose value starts with `http://`, `https://` or `//` is
/// marked as an open redirect, unsafe, with confidence 40.
pub proof fn law_redirect_parameters_flagged(raw: Seq<char>, u: UrlPartsView, i: int)
    requires
        0 <= i < u.query_pairs.len(),
        ({
            let n = unicode_lowercase(u.query_pairs[i].0);
            n == "redirect"@ || n == "redirect_to"@ || n == "redirect_url"@ || n == "url"@ || n
                == "next"@ || n == "dest"@ || n == "target"@ || n == "to"@ || n == "return_to"@
        }),
        ({
            let v = u.query_pairs[i].1;
            "http://"@.is_prefix_of(v) || "https://"@.is_prefix_of(v) || "//"@.is_prefix_of(v)
        }),
        !is_dotted_quad(text_or_empty(u.host)),
        !contains_seq(text_or_empty(u.host), "xn--"@),
    ensures
        link_verdict(raw, Some(u)).has_open_redirect,
        !link_verdict(raw, Some(u)).is_safe,
        link_verdict(raw, Some(u)).confidence_percent == 40,
{
    let n = unicode_lowercase(u.query_pairs[i].0);
    let names = redirect_param_names();
    assert(names.contains(n)) by {
        if n == "redirect"@ {
            assert(names[0] == n);
        } else if n == "redirect_to"@ {
            assert(names[1] == n);
        } else if n == "redirect_url"@ {
            assert(names[2] == n);
        } else if n == "url"@ {
            assert(names[3] == n);
        } else if n == "next"@ {
            assert(names[4] == n);
        } else if n == "dest"@ {
            assert(names[5] == n);
        } else if n == "target"@ {
            assert(names[6] == n);
        } else if n == "to"@ {
            assert(names[7] == n);
        } else {
            assert(names[8] == n);
        }
    }
    assert(is_redirect_pair(u.query_pairs[i]));
    lemma_first_redirect_found(u.query_pairs, i);
}

/// A 4 to 8 digit code once dashes are removed.
pub open spec fn short_code(c: Option<Seq<char>>) -> Option<Seq<char>> {
    match c {
        Some(x) => {
            let d = remove_char_spec(x, '-');
            if all_digits(d) && 4 <= d.len() <= 8 {
                Some(d)
            } else {
                None
            }
        },
        None => None,
    }
}

/// The code taken from a message is found by three searches in turn: a code
/// of 4 to 8 digits (or `ddd-ddd`) after words such as "verification code",
/// "otp" or "pin"; else a word-bounded run of 4 to 8 digits after "is",
/// "enter" or "use" (any case) and white space; else a stand-alone run of 6
/// digits. The first search whose capture is 4 to 8 digits once dashes are
/// removed gives the code.
pub proof fn law_otp_search_order(
    subject: Option<Seq<char>>,
    text_body: Option<Seq<char>>,
    html_body: Option<Seq<char>>,
)
    ensures
        ({
            let t = message_text(subject, text_body, html_body);
            let a = short_code(regex_first_group(
                r"(?i)(?:verification\s*code|security\s*code|login\s*code|otp|passcode|pin|confirmation\s*code)[\s:=—–-]+([0-9]{4,8}|[0-9]{3}-[0-9]{3})"@,
                t,
            ));
            let b = short_code(regex_first_group(r"(?i)\b(?:is|enter|use)\s+([0-9]{4,8})\b"@, t));
            let c = short_code(regex_first_group(r"\b([0-9]{6})\b"@, t));
            extraction(subject, text_body, html_body).otp == if a is Some {
                a
            } else if b is Some {
                b
            } else {
                c
            }
        }),
{
    let t = message_text(subject, text_body, html_body);
    let caps = otp_patterns().map_values(|p: Seq<char>| regex_first_group(p, t));
    let ps = otp_patterns();
    assert(caps.len() == 3);
    assert(caps[0] == regex_first_group(ps[0], t));
    assert(caps[1] == regex_first_group(ps[1], t));
    assert(caps[2] == regex_first_group(ps[2], t));
    let c1 = caps.drop_first();
    let c2 = c1.drop_first();
    let c3 = c2.drop_first();
    assert(c1[0] == caps[1]);
    assert(c2[0] == caps[2]);
    assert(c3.len() == 0);
    assert(first_valid_otp_spec(c3) is None);
    assert(first_valid_otp_spec(c2) == short_code(caps[2]));
    assert(first_valid_otp_spec(c1) == (if short_code(caps[1]) is Some {
        short_code(caps[1])
    } else {
        short_code(caps[2])
    }));
}


/// How a link is judged: an unparsable URL is unsafe with confidence 0 on
/// domain `unknown`; a host that is a dotted quad is unsafe with confidence
/// 20; a punycode host (`xn--`) is unsafe with confidence 30; otherwise an
/// `https` link without an open redirect is safe with confidence 98 and no
/// reason, and a link of another scheme without one is unsafe with
/// confidence 70 for its insecure protocol. The domain is the URL's host.
pub proof fn law_link_verdict_cases(raw: Seq<char>, parsed: Option<UrlPartsView>)
    ensures
        ({
            let v = link_verdict(raw, parsed);
            match parsed {
                None => v.domain == "unknown"@ && !v.is_safe && !v.has_open_redirect
                    && v.confidence_percent == 0 && v.reason == Some("Malformed URL syntax"@),
                Some(u) => {
                    let host = text_or_empty(u.host);
                    let plain = !is_dotted_quad(host) && !contains_seq(host, "xn--"@);
                    &&& v.domain == host
                    &&& is_dotted_quad(host) ==> !v.is_safe && v.confidence_percent == 20
                        && v.reason == Some("Raw IP address detected instead of domain"@)
                    &&& !is_dotted_quad(host) && contains_seq(host, "xn--"@) ==> !v.is_safe
                        && v.confidence_percent == 30 && v.reason == Some(
                        "Punycode homograph domain detected"@,
                    )
                    &&& plain && first_redirect_target(u.query_pairs) is None && u.scheme
                        == "https"@ ==> v.is_safe && v.confidence_percent == 98 && v.reason is None
                    &&& plain && first_redirect_target(u.query_pairs) is None && u.scheme
                        != "https"@ ==> !v.is_safe && v.confidence_percent == 70 && v.reason == Some(
                        "Insecure HTTP protocol"@,
                    )
                },
            }
        }),
{
}

} // verus!
