//! Capability scopes of agent tokens and the check that a granted scope list
//! allows a required capability.
use vstd::prelude::*;
use crate::text::{
    ascii_lower, ascii_lower_seq, ascii_upper, ascii_upper_seq, chars_of, is_ascii_seq,
    is_white_space, str_eq, string_of, strip_all_prefix, strip_all_prefix_chars, to_lowercase,
    trim_chars, trim_end_ws, trim_start_ws, trim_ws, unicode_lowercase, lemma_trim_no_edge_ws,
    lemma_strip_all_prefix_absent,
};

verus! {

/// One permission that an agent token may carry.
#[derive(Clone, Copy, Debug, PartialEq, Eq, Hash, Structural)]
pub enum Capability {
    InboxRead,
    InboxCreate,
    InboxDelete,
    OtpRead,
    LinksRead,
    EmailSend,
    IdentityManage,
}

/// The canonical name of a capability.
pub open spec fn capability_name(c: Capability) -> Seq<char> {
    match c {
        Capability::InboxRead => "inbox.read"@,
        Capability::InboxCreate => "inbox.create"@,
        Capability::InboxDelete => "inbox.delete"@,
        Capability::OtpRead => "otp.read"@,
        Capability::LinksRead => "links.read"@,
        Capability::EmailSend => "email.send"@,
        Capability::IdentityManage => "identity.manage"@,
    }
}

/// The part of a scope text that names the capability: the trimmed text
/// without any leading `agentbox.` prefixes.
pub open spec fn capability_key(s: Seq<char>) -> Seq<char> {
    strip_all_prefix(trim_ws(s), "agentbox."@)
}

/// The capability that a lowercased key names: its canonical name or its
/// short alias (`read`, `create`, `delete`, `otp`, `links`, `send`,
/// `identity`, `admin`).
pub open spec fn capability_from_clean(t: Seq<char>) -> Option<Capability> {
    if t == "inbox.read"@ || t == "read"@ {
        Some(Capability::InboxRead)
    } else if t == "inbox.create"@ || t == "create"@ {
        Some(Capability::InboxCreate)
    } else if t == "inbox.delete"@ || t == "delete"@ {
        Some(Capability::InboxDelete)
    } else if t == "otp.read"@ || t == "otp"@ {
        Some(Capability::OtpRead)
    } else if t == "links.read"@ || t == "links"@ {
        Some(Capability::LinksRead)
    } else if t == "email.send"@ || t == "send"@ {
        Some(Capability::EmailSend)
    } else if t == "identity.manage"@ || t == "identity"@ || t == "admin"@ {
        Some(Capability::IdentityManage)
    } else {
        None
    }
}

/// Every capability, in declaration order.
pub open spec fn all_capabilities() -> Seq<Capability> {
    seq![
        Capability::InboxRead,
        Capability::InboxCreate,
        Capability::InboxDelete,
        Capability::OtpRead,
        Capability::LinksRead,
        Capability::EmailSend,
        Capability::IdentityManage,
    ]
}

/// The scope set of an ordinary agent.
pub open spec fn standard_agent_capabilities() -> Seq<Capability> {
    seq![
        Capability::InboxRead,
        Capability::InboxCreate,
        Capability::OtpRead,
        Capability::LinksRead,
    ]
}

/// The scope set of a browser QA agent.
pub open spec fn browser_qa_capabilities() -> Seq<Capability> {
    seq![Capability::InboxRead, Capability::OtpRead, Capability::LinksRead]
}

impl Capability {
    /// The canonical name, such as `inbox.read`.
    pub fn as_str(&self) -> (r: &'static str)
        ensures
            r@ == capability_name(*self),
    {
        match self {
            Capability::InboxRead => "inbox.read",
            Capability::InboxCreate => "inbox.create",
            Capability::InboxDelete => "inbox.delete",
            Capability::OtpRead => "otp.read",
            Capability::LinksRead => "links.read",
            Capability::EmailSend => "email.send",
            Capability::IdentityManage => "identity.manage",
        }
    }

    /// Reads a scope text: surrounding white space and leading `agentbox.`
    /// prefixes are ignored, the rest is lowercased and must be a canonical
    /// name or an alias.
    pub fn parse(s: &str) -> (r: Option<Capability>)
        ensures
            r == capability_from_clean(unicode_lowercase(capability_key(s@))),
            is_ascii_seq(capability_key(s@)) ==> r == capability_from_clean(
                ascii_lower_seq(capability_key(s@)),
            ),
    {
        let v = chars_of(s);
        let t = trim_chars(&v);
        let p = chars_of("agentbox.");
        let k = strip_all_prefix_chars(&t, &p);
        let ks = string_of(&k);
        let clean = to_lowercase(ks.as_str());
        let c = clean.as_str();
        if str_eq(c, "inbox.read") || str_eq(c, "read") {
            Some(Capability::InboxRead)
        } else if str_eq(c, "inbox.create") || str_eq(c, "create") {
            Some(Capability::InboxCreate)
        } else if str_eq(c, "inbox.delete") || str_eq(c, "delete") {
            Some(Capability::InboxDelete)
        } else if str_eq(c, "otp.read") || str_eq(c, "otp") {
            Some(Capability::OtpRead)
        } else if str_eq(c, "links.read") || str_eq(c, "links") {
            Some(Capability::LinksRead)
        } else if str_eq(c, "email.send") || str_eq(c, "send") {
            Some(Capability::EmailSend)
        } else if str_eq(c, "identity.manage") || str_eq(c, "identity") || str_eq(c, "admin") {
            Some(Capability::IdentityManage)
        } else {
            None
        }
    }

    /// Every capability.
    pub fn all() -> (r: Vec<Capability>)
        ensures
            r@ == all_capabilities(),
    {
        let r = vec![
            Capability::InboxRead,
            Capability::InboxCreate,
            Capability::InboxDelete,
            Capability::OtpRead,
            Capability::LinksRead,
            Capability::EmailSend,
            Capability::IdentityManage,
        ];
        assert(r@ =~= all_capabilities());
        r
    }

    /// The scopes of an ordinary agent: read and create inboxes, read OTPs
    /// and links.
    pub fn standard_agent() -> (r: Vec<Capability>)
        ensures
            r@ == standard_agent_capabilities(),
    {
        let r = vec![
            Capability::InboxRead,
            Capability::InboxCreate,
            Capability::OtpRead,
            Capability::LinksRead,
        ];
        assert(r@ =~= standard_agent_capabilities());
        r
    }

    /// The scopes of a browser QA agent: read inboxes, OTPs and links.
    pub fn browser_qa_agent() -> (r: Vec<Capability>)
        ensures
            r@ == browser_qa_capabilities(),
    {
        let r = vec![Capability::InboxRead, Capability::OtpRead, Capability::LinksRead];
        assert(r@ =~= browser_qa_capabilities());
        r
    }
}

/// Whether a granted scope text grants every capability.
pub open spec fn grants_everything(c: Seq<char>) -> bool {
    c == "*"@ || c == "admin"@ || c == "all"@
}

/// Whether a granted scope text names the capability `req`.
pub open spec fn grants(c: Seq<char>, req: Capability) -> bool {
    capability_key(c) == capability_name(req)
}

/// The texts of a list of granted scopes.
pub open spec fn scope_texts(caps: Seq<String>) -> Seq<Seq<char>> {
    caps.map_values(|s: String| s@)
}

/// Whether the granted scopes allow `req`: some scope grants everything, or
/// some scope names `req` (ignoring white space and `agentbox.` prefixes).
pub open spec fn allows(caps: Seq<Seq<char>>, req: Capability) -> bool {
    (exists|i: int| 0 <= i < caps.len() && grants_everything(#[trigger] caps[i])) || (exists|i: int|
        0 <= i < caps.len() && grants(#[trigger] caps[i], req))
}

/// Checks the scopes of MCP tool and API callers.
#[derive(Debug, Clone, Copy)]
pub struct ScopeValidator;

impl ScopeValidator {
    /// Whether the scopes `allowed_caps` allow the capability `required`.
    pub fn has_capability(allowed_caps: &[String], required: Capability) -> (r: bool)
        ensures
            r == allows(scope_texts(allowed_caps@), required),
    {
        let r = scope_allowed(allowed_caps, required.as_str());
        proof {
            let caps = scope_texts(allowed_caps@);
            assert(allows_scope(caps, capability_name(required)) == allows(caps, required)) by {
                if allows_scope(caps, capability_name(required)) {
                    if !(exists|i: int| 0 <= i < caps.len() && grants_everything(#[trigger] caps[i])) {
                        let i = choose|i: int|
                            0 <= i < caps.len() && capability_key(#[trigger] caps[i])
                                == capability_name(required);
                        assert(grants(caps[i], required));
                    }
                }
                if allows(caps, required) {
                    if !(exists|i: int| 0 <= i < caps.len() && grants_everything(#[trigger] caps[i])) {
                        let i = choose|i: int| 0 <= i < caps.len() && grants(#[trigger] caps[i], required);
                        assert(capability_key(caps[i]) == capability_name(required));
                    }
                }
            }
        }
        r
    }
}

/// Whether the granted scopes allow the scope named `scope`: some scope
/// grants everything, or some scope's key (white space and `agentbox.`
/// prefixes dropped) is `scope`.
pub open spec fn allows_scope(caps: Seq<Seq<char>>, scope: Seq<char>) -> bool {
    (exists|i: int| 0 <= i < caps.len() && grants_everything(#[trigger] caps[i])) || (exists|i: int|
        0 <= i < caps.len() && capability_key(#[trigger] caps[i]) == scope)
}

/// Whether the scopes `allowed_caps` allow the scope named `scope`.
pub fn scope_allowed(allowed_caps: &[String], scope: &str) -> (r: bool)
    ensures
        r == allows_scope(scope_texts(allowed_caps@), scope@),
{
    let ghost caps = scope_texts(allowed_caps@);
    let mut i: usize = 0;
    while i < allowed_caps.len()
        invariant
            i <= allowed_caps.len(),
            caps == scope_texts(allowed_caps@),
            forall|j: int| 0 <= j < i ==> !grants_everything(#[trigger] caps[j]),
        decreases allowed_caps.len() - i,
    {
        let c = allowed_caps[i].as_str();
        assert(caps[i as int] == c@);
        if str_eq(c, "*") || str_eq(c, "admin") || str_eq(c, "all") {
            return true;
        }
        i = i + 1;
    }
    let prefix = chars_of("agentbox.");
    let mut k: usize = 0;
    while k < allowed_caps.len()
        invariant
            k <= allowed_caps.len(),
            caps == scope_texts(allowed_caps@),
            prefix@ == "agentbox."@,
            forall|j: int| 0 <= j < allowed_caps.len() ==> !grants_everything(#[trigger] caps[j]),
            forall|j: int| 0 <= j < k ==> capability_key(#[trigger] caps[j]) != scope@,
        decreases allowed_caps.len() - k,
    {
        let v = chars_of(allowed_caps[k].as_str());
        assert(caps[k as int] == v@);
        let t = trim_chars(&v);
        let clean = strip_all_prefix_chars(&t, &prefix);
        let cs = string_of(&clean);
        if str_eq(cs.as_str(), scope) {
            return true;
        }
        k = k + 1;
    }
    false
}

// ---------------------------------------------------------------------------
// Laws
// ---------------------------------------------------------------------------

/// Every canonical name reads back as its capability: it is ASCII, and its
/// key, lowered, names that capability. With the contract of
/// `Capability::parse`, `Capability::parse(c.as_str()) == Some(c)`.
pub proof fn law_parse_reads_canonical_name(c: Capability)
    ensures
        capability_key(capability_name(c)) == capability_name(c),
        is_ascii_seq(capability_key(capability_name(c))),
        capability_from_clean(ascii_lower_seq(capability_key(capability_name(c)))) == Some(c),
{
    reveal_strlit("inbox.read");
    reveal_strlit("inbox.create");
    reveal_strlit("inbox.delete");
    reveal_strlit("otp.read");
    reveal_strlit("links.read");
    reveal_strlit("email.send");
    reveal_strlit("identity.manage");
    reveal_strlit("read");
    reveal_strlit("create");
    reveal_strlit("delete");
    reveal_strlit("otp");
    reveal_strlit("links");
    reveal_strlit("send");
    reveal_strlit("identity");
    reveal_strlit("admin");
    reveal_strlit("agentbox.");
    let n = capability_name(c);
    assert(!is_white_space(n[0]) && !is_white_space(n.last()));
    lemma_trim_no_edge_ws(n);
    assert(!"agentbox."@.is_prefix_of(n)) by {
        if "agentbox."@.is_prefix_of(n) {
            assert(n[0] == "agentbox."@[0]);
        }
    }
    lemma_strip_all_prefix_absent(n, "agentbox."@);
    assert(ascii_lower_seq(n) =~= n);
    // Names of equal length differ in one of their characters.
    match c {
        Capability::InboxRead => {},
        Capability::InboxCreate => {},
        Capability::InboxDelete => {
            assert(n[6] != "inbox.create"@[6]);
        },
        Capability::OtpRead => {},
        Capability::LinksRead => {
            assert(n[0] != "inbox.read"@[0]);
        },
        Capability::EmailSend => {
            assert(n[0] != "inbox.read"@[0]);
            assert(n[0] != "links.read"@[0]);
        },
        Capability::IdentityManage => {},
    }
}

/// A scope that grants everything allows every capability, whatever else is
/// granted.
pub proof fn law_wildcard_allows_all(caps: Seq<Seq<char>>, req: Capability, i: int)
    requires
        0 <= i < caps.len(),
        grants_everything(caps[i]),
    ensures
        allows(caps, req),
{
}

/// Granting more scopes never withdraws a capability.
pub proof fn law_allows_monotone(caps: Seq<Seq<char>>, more: Seq<Seq<char>>, req: Capability)
    requires
        allows(caps, req),
    ensures
        allows(caps + more, req),
{
    if exists|i: int| 0 <= i < caps.len() && grants_everything(#[trigger] caps[i]) {
        let i = choose|i: int| 0 <= i < caps.len() && grants_everything(#[trigger] caps[i]);
        assert((caps + more)[i] == caps[i]);
    } else {
        let i = choose|i: int| 0 <= i < caps.len() && grants(#[trigger] caps[i], req);
        assert((caps + more)[i] == caps[i]);
    }
}

/// A scope list that holds the canonical name of a capability, bare or
/// behind `agentbox.`, allows it.
pub proof fn law_canonical_scope_allows(c: Capability)
    ensures
        allows(seq![capability_name(c)], c),
        allows(seq!["agentbox."@ + capability_name(c)], c),
{
    law_parse_reads_canonical_name(c);
    reveal_strlit("agentbox.");
    reveal_strlit("inbox.read");
    reveal_strlit("inbox.create");
    reveal_strlit("inbox.delete");
    reveal_strlit("otp.read");
    reveal_strlit("links.read");
    reveal_strlit("email.send");
    reveal_strlit("identity.manage");
    let n = capability_name(c);
    let p = "agentbox."@;
    let s = p + n;
    assert(seq![n][0] == n);
    assert(grants(seq![n][0], c));
    assert(!is_white_space(s[0]) && !is_white_space(s.last()));
    lemma_trim_no_edge_ws(s);
    assert(p.is_prefix_of(s)) by {
        assert(s.subrange(0, p.len() as int) =~= p);
    }
    assert(s.skip(p.len() as int) =~= n);
    assert(strip_all_prefix(s, p) == strip_all_prefix(n, p));
    assert(seq![s][0] == s);
    assert(grants(seq![s][0], c));
}

/// The browser QA scopes are standard-agent scopes, and those are among
/// all capabilities.
pub proof fn law_scope_sets_nested()
    ensures
        forall|i: int|
            0 <= i < browser_qa_capabilities().len() ==> standard_agent_capabilities().contains(
                #[trigger] browser_qa_capabilities()[i],
            ),
        forall|i: int|
            0 <= i < standard_agent_capabilities().len() ==> all_capabilities().contains(
                #[trigger] standard_agent_capabilities()[i],
            ),
{
    assert(standard_agent_capabilities()[0] == Capability::InboxRead);
    assert(standard_agent_capabilities()[2] == Capability::OtpRead);
    assert(standard_agent_capabilities()[3] == Capability::LinksRead);
    assert(all_capabilities()[0] == Capability::InboxRead);
    assert(all_capabilities()[1] == Capability::InboxCreate);
    assert(all_capabilities()[3] == Capability::OtpRead);
    assert(all_capabilities()[4] == Capability::LinksRead);
}

/// Whether every character of `s` is white space.
pub open spec fn all_white_space(s: Seq<char>) -> bool {
    forall|i: int| 0 <= i < s.len() ==> is_white_space(#[trigger] s[i])
}

proof fn lemma_trim_start_padding(pre: Seq<char>, u: Seq<char>)
    requires
        all_white_space(pre),
        u.len() > 0,
        !is_white_space(u[0]),
    ensures
        trim_start_ws(pre + u) == u,
    decreases pre.len(),
{
    if pre.len() > 0 {
        assert((pre + u)[0] == pre[0]);
        assert((pre + u).drop_first() =~= pre.drop_first() + u);
        lemma_trim_start_padding(pre.drop_first(), u);
    } else {
        assert(pre + u =~= u);
    }
}

proof fn lemma_trim_end_padding(u: Seq<char>, post: Seq<char>)
    requires
        all_white_space(post),
        u.len() > 0,
        !is_white_space(u.last()),
    ensures
        trim_end_ws(u + post) == u,
    decreases post.len(),
{
    if post.len() > 0 {
        assert((u + post).last() == post.last());
        assert((u + post).drop_last() =~= u + post.drop_last());
        lemma_trim_end_padding(u, post.drop_last());
    } else {
        assert(u + post =~= u);
    }
}

proof fn lemma_ascii_upper_char(c: char)
    ensures
        ascii_lower(ascii_upper(c)) == ascii_lower(c),
        ascii_upper(c) != 'a',
        !is_white_space(c) ==> !is_white_space(ascii_upper(c)),
        (c as u32) < 128 ==> (ascii_upper(c) as u32) < 128,
{
}

/// Letter case and surrounding white space do not matter: a canonical name
/// written in capitals with white space around it reads back as its
/// capability. With the contract of `Capability::parse`,
/// `Capability::parse(" OTP.READ ")` is `Some(Capability::OtpRead)`.
pub proof fn law_parse_ignores_case_and_padding(c: Capability, pre: Seq<char>, post: Seq<char>)
    requires
        all_white_space(pre),
        all_white_space(post),
    ensures
        is_ascii_seq(capability_key(pre + ascii_upper_seq(capability_name(c)) + post)),
        capability_from_clean(
            ascii_lower_seq(capability_key(pre + ascii_upper_seq(capability_name(c)) + post)),
        ) == Some(c),
{
    law_parse_reads_canonical_name(c);
    let n = capability_name(c);
    let u = ascii_upper_seq(n);
    reveal_strlit("agentbox.");
    reveal_strlit("inbox.read");
    reveal_strlit("inbox.create");
    reveal_strlit("inbox.delete");
    reveal_strlit("otp.read");
    reveal_strlit("links.read");
    reveal_strlit("email.send");
    reveal_strlit("identity.manage");
    assert(n.len() > 0);
    assert(!is_white_space(n[0]) && !is_white_space(n.last()));
    lemma_ascii_upper_char(n[0]);
    lemma_ascii_upper_char(n.last());
    assert(u[0] == ascii_upper(n[0]));
    assert(u.last() == ascii_upper(n.last()));
    lemma_trim_start_padding(pre, u + post);
    assert(pre + u + post =~= pre + (u + post));
    lemma_trim_end_padding(u, post);
    assert(trim_ws(pre + u + post) == u);
    assert(!"agentbox."@.is_prefix_of(u)) by {
        if "agentbox."@.is_prefix_of(u) {
            assert(u[0] == "agentbox."@[0]);
        }
    }
    lemma_strip_all_prefix_absent(u, "agentbox."@);
    assert(capability_key(pre + u + post) == u);
    assert forall|i: int| 0 <= i < u.len() implies (#[trigger] u[i] as u32) < 128 by {
        lemma_ascii_upper_char(n[i]);
        assert(capability_key(n) == n);
        assert((n[i] as u32) < 128);
    }
    assert(ascii_lower_seq(u) =~= ascii_lower_seq(n)) by {
        assert forall|i: int| 0 <= i < u.len() implies ascii_lower_seq(u)[i] == ascii_lower_seq(n)[i] by {
            lemma_ascii_upper_char(n[i]);
        }
    }
}


/// The names a scope text may use once cleaned and lowered: each capability
/// by its canonical name or its short alias (`read`, `create`, `delete`,
/// `otp`, `links`, `send`, `identity`, and `admin` for identity management);
/// nothing else names a capability.
pub proof fn law_capability_aliases(t: Seq<char>)
    ensures
        t == "inbox.read"@ || t == "read"@ ==> capability_from_clean(t) == Some(Capability::InboxRead),
        t == "inbox.create"@ || t == "create"@ ==> capability_from_clean(t) == Some(
            Capability::InboxCreate,
        ),
        t == "inbox.delete"@ || t == "delete"@ ==> capability_from_clean(t) == Some(
            Capability::InboxDelete,
        ),
        t == "otp.read"@ || t == "otp"@ ==> capability_from_clean(t) == Some(Capability::OtpRead),
        t == "links.read"@ || t == "links"@ ==> capability_from_clean(t) == Some(Capability::LinksRead),
        t == "email.send"@ || t == "send"@ ==> capability_from_clean(t) == Some(Capability::EmailSend),
        t == "identity.manage"@ || t == "identity"@ || t == "admin"@ ==> capability_from_clean(t)
            == Some(Capability::IdentityManage),
        !(t == "inbox.read"@ || t == "read"@ || t == "inbox.create"@ || t == "create"@ || t
            == "inbox.delete"@ || t == "delete"@ || t == "otp.read"@ || t == "otp"@ || t
            == "links.read"@ || t == "links"@ || t == "email.send"@ || t == "send"@ || t
            == "identity.manage"@ || t == "identity"@ || t == "admin"@) ==> capability_from_clean(t)
            is None,
{
    reveal_strlit("inbox.read");
    reveal_strlit("inbox.create");
    reveal_strlit("inbox.delete");
    reveal_strlit("otp.read");
    reveal_strlit("links.read");
    reveal_strlit("email.send");
    reveal_strlit("identity.manage");
    reveal_strlit("read");
    reveal_strlit("create");
    reveal_strlit("delete");
    reveal_strlit("otp");
    reveal_strlit("links");
    reveal_strlit("send");
    reveal_strlit("identity");
    reveal_strlit("admin");
    assert("inbox.delete"@[6] != "inbox.create"@[6]);
    assert("links.read"@[0] != "inbox.read"@[0]);
    assert("email.send"@[0] != "inbox.read"@[0]);
    assert("email.send"@[0] != "links.read"@[0]);
    assert("delete"@[0] != "create"@[0]);
    assert("links"@[0] != "admin"@[0]);
    assert("read"@[0] != "send"@[0]);
    assert("otp.read"@[0] != "identity"@[0]);
    assert("otp.read"@.len() == 8 && "otp"@.len() == 3 && "identity"@.len() == 8
        && "identity.manage"@.len() == 15 && "admin"@.len() == 5 && "inbox.read"@.len() == 10
        && "read"@.len() == 4 && "inbox.create"@.len() == 12 && "create"@.len() == 6
        && "inbox.delete"@.len() == 12 && "delete"@.len() == 6 && "links.read"@.len() == 10
        && "links"@.len() == 5 && "email.send"@.len() == 10 && "send"@.len() == 4);
    if t == "otp.read"@ || t == "otp"@ {
        assert(t != "inbox.read"@ && t != "read"@ && t != "inbox.create"@ && t != "create"@ && t
            != "inbox.delete"@ && t != "delete"@);
    }
    if t == "identity.manage"@ || t == "identity"@ || t == "admin"@ {
        assert(t != "inbox.read"@ && t != "read"@ && t != "inbox.create"@ && t != "create"@ && t
            != "inbox.delete"@ && t != "delete"@ && t != "otp"@ && t != "links.read"@ && t
            != "email.send"@ && t != "send"@);
        if t == "identity"@ {
            assert(t != "otp.read"@);
        }
        if t == "admin"@ {
            assert(t != "links"@);
        }
    }
}

} // verus!
