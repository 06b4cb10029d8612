//! Records of the mailbox store (accounts, agent identities, messages,
//! attachments) and the decisions taken over them: who owns an inbox, which
//! links an inbox has received, how task queries are formed.
use vstd::prelude::*;
use crate::bindings::{
    json_link_items, json_of_strings, json_to_link_items, json_to_strings, link_item_views,
    new_uuid_text, now_timestamp, strings_of_json, strings_to_json,
};
use crate::engine::capabilities::grants_everything;
use crate::ids::{id_slug, lemma_uuid_compact, name_slug, prefixed_id, slugify_name};
use crate::text::{
    chars_of, concat2, concat3, copy, copy_opt, find_char_from, first_index, has_prefix, opt_str_view,
    opt_view, owned, remove_char_spec, slice_chars, str_eq, string_of, string_views,
    to_lowercase, unicode_lowercase,
};

verus! {

/// A mailbox.
pub struct Account {
    pub id: String,
    pub address: String,
    pub display_name: Option<String>,
    pub owner_agent_id: Option<String>,
    pub status: String,
    pub created_at: i64,
}

/// An agent identity as it may be shown: without its token.
pub struct AgentIdentityPublic {
    pub id: String,
    pub name: String,
    pub email_address: String,
    pub capabilities: String,
    pub status: String,
    pub created_at: i64,
    pub last_active_at: i64,
}

/// An agent identity with the token that authenticates it.
pub struct AgentIdentity {
    pub id: String,
    pub name: String,
    pub email_address: String,
    pub capabilities: String,
    pub token: String,
    pub status: String,
    pub created_at: i64,
    pub last_active_at: i64,
}

/// What the creator of an agent identity is told, once.
pub struct AgentCredentialResponse {
    pub agent_id: String,
    pub name: String,
    pub email_address: String,
    pub capabilities: Vec<String>,
    pub auth_token: String,
    pub note: String,
}

/// A stored email.
pub struct Message {
    pub id: String,
    pub account_id: String,
    pub from_address: String,
    pub to_address: String,
    pub subject: Option<String>,
    pub body_text: Option<String>,
    pub body_html: Option<String>,
    pub raw_mime: Option<String>,
    pub extracted_otp: Option<String>,
    pub extracted_links: Option<String>,
    pub direction: String,
    pub created_at: i64,
}

/// A stored attachment.
pub struct Attachment {
    pub id: String,
    pub message_id: String,
    pub filename: String,
    pub content_type: String,
    pub size_bytes: i64,
    pub data_base64: Option<String>,
}

fn owned_opt(o: Option<&str>) -> (r: Option<String>)
    ensures
        opt_view(r) == opt_str_view(o),
{
    match o {
        Some(s) => Some(owned(s)),
        None => None,
    }
}

impl AgentIdentity {
    /// The identity without its token.
    pub fn to_public(&self) -> (r: AgentIdentityPublic)
        ensures
            r.id@ == self.id@,
            r.name@ == self.name@,
            r.email_address@ == self.email_address@,
            r.capabilities@ == self.capabilities@,
            r.status@ == self.status@,
            r.created_at == self.created_at,
            r.last_active_at == self.last_active_at,
    {
        AgentIdentityPublic {
            id: copy(&self.id),
            name: copy(&self.name),
            email_address: copy(&self.email_address),
            capabilities: copy(&self.capabilities),
            status: copy(&self.status),
            created_at: self.created_at,
            last_active_at: self.last_active_at,
        }
    }
}

impl Account {
    /// An active mailbox with identifier `acc_` + the first 12 hex digits of
    /// `uuid`, created at `now`.
    pub fn assemble(
        address: &str,
        display_name: Option<&str>,
        owner_agent_id: Option<&str>,
        uuid: &str,
        now: i64,
    ) -> (r: Account)
        requires
            12 <= remove_char_spec(uuid@, '-').len(),
        ensures
            r.id@ == "acc_"@ + id_slug(uuid@, 12),
            r.address@ == address@,
            opt_view(r.display_name) == opt_str_view(display_name),
            opt_view(r.owner_agent_id) == opt_str_view(owner_agent_id),
            r.status@ == "active"@,
            r.created_at == now,
    {
        Account {
            id: prefixed_id("acc_", uuid, 12),
            address: owned(address),
            display_name: owned_opt(display_name),
            owner_agent_id: owned_opt(owner_agent_id),
            status: owned("active"),
            created_at: now,
        }
    }

    /// A new active mailbox with a fresh identifier, created now.
    pub fn new_active(address: &str, display_name: Option<&str>, owner_agent_id: Option<&str>) -> (r:
        Account)
        ensures
            r.id@.len() == 16,
            "acc_"@.is_prefix_of(r.id@),
            r.address@ == address@,
            opt_view(r.display_name) == opt_str_view(display_name),
            opt_view(r.owner_agent_id) == opt_str_view(owner_agent_id),
            r.status@ == "active"@,
    {
        let uuid = new_uuid_text();
        proof {
            lemma_uuid_compact(uuid@);
            reveal_strlit("acc_");
        }
        let r = Self::assemble(address, display_name, owner_agent_id, uuid.as_str(), now_timestamp());
        assert(r.id@.subrange(0, 4) =~= "acc_"@);
        r
    }
}

// ---------------------------------------------------------------------------
// Agent identities
// ---------------------------------------------------------------------------

/// The note handed out with a new agent token.
pub open spec fn credential_note() -> Seq<char> {
    "Store this auth_token securely. It is only displayed once upon creation and cannot be retrieved again."@
}

/// The identifier of an agent: `agent_<name slug>_<slug>`.
pub open spec fn agent_identifier(name: Seq<char>, slug: Seq<char>) -> Seq<char> {
    "agent_"@ + name_slug(name) + "_"@ + slug
}

/// The stored text of an agent's capabilities: their JSON list, or `[]`.
pub open spec fn capabilities_text(caps: Seq<Seq<char>>) -> Seq<char> {
    match json_of_strings(caps) {
        Some(t) => t,
        None => "[]"@,
    }
}

/// The display name of the mailbox made for an agent.
pub open spec fn agent_mailbox_display_name(name: Seq<char>) -> Seq<char> {
    "Agent: "@ + name
}

/// A newly registered agent: its stored identity and the credential shown
/// to its creator.
pub struct AgentRegistration {
    pub identity: AgentIdentity,
    pub credential: AgentCredentialResponse,
    pub mailbox_display_name: String,
}

/// Whether a registration is the one of an agent `name` at `email` with the
/// capabilities `caps`, identifier `agent_<name slug>_<id_slug>`, token
/// `agb_<token_slug>`, registered at `now`.
pub open spec fn registration_matches(
    r: AgentRegistration,
    name: Seq<char>,
    email: Seq<char>,
    caps: Seq<Seq<char>>,
    id_slug_text: Seq<char>,
    token_slug: Seq<char>,
    now: i64,
) -> bool {
    &&& r.identity.id@ == agent_identifier(name, id_slug_text)
    &&& r.identity.name@ == name
    &&& r.identity.email_address@ == email
    &&& r.identity.capabilities@ == capabilities_text(caps)
    &&& r.identity.token@ == "agb_"@ + token_slug
    &&& r.identity.status@ == "active"@
    &&& r.identity.created_at == now
    &&& r.identity.last_active_at == now
    &&& r.credential.agent_id@ == r.identity.id@
    &&& r.credential.name@ == name
    &&& r.credential.email_address@ == email
    &&& string_views(r.credential.capabilities@) == caps
    &&& r.credential.auth_token@ == r.identity.token@
    &&& r.credential.note@ == credential_note()
    &&& r.mailbox_display_name@ == agent_mailbox_display_name(name)
}

fn copy_all(v: &[String]) -> (r: Vec<String>)
    ensures
        string_views(r@) == string_views(v@),
{
    let mut r: Vec<String> = Vec::new();
    let mut i: usize = 0;
    while i < v.len()
        invariant
            i <= v.len(),
            string_views(r@) == string_views(v@).take(i as int),
        decreases v.len() - i,
    {
        let ghost before = string_views(r@);
        r.push(copy(&v[i]));
        assert(string_views(r@) =~= before.push(v@[i as int]@));
        assert(string_views(v@).take(i + 1) =~= string_views(v@).take(i as int).push(v@[i as int]@));
        i = i + 1;
    }
    assert(string_views(v@).take(v.len() as int) =~= string_views(v@));
    r
}

impl AgentIdentity {
    /// Registers an agent from the random texts `id_uuid` (6 digits of its
    /// identifier) and `token_uuid` (the 32 digits of its token), at `now`.
    pub fn register(
        name: &str,
        email_address: &str,
        capabilities: &[String],
        id_uuid: &str,
        token_uuid: &str,
        now: i64,
    ) -> (r: AgentRegistration)
        requires
            6 <= remove_char_spec(id_uuid@, '-').len(),
            32 <= remove_char_spec(token_uuid@, '-').len(),
        ensures
            registration_matches(
                r,
                name@,
                email_address@,
                string_views(capabilities@),
                id_slug(id_uuid@, 6),
                id_slug(token_uuid@, 32),
                now,
            ),
    {
        let slug = slugify_name(name);
        let head = concat3("agent_", slug.as_str(), "_");
        let id = prefixed_id(head.as_str(), id_uuid, 6);
        let token = prefixed_id("agb_", token_uuid, 32);
        let caps_vec = copy_all(capabilities);
        let caps_json = match strings_to_json(&caps_vec) {
            Some(t) => t,
            None => owned("[]"),
        };
        let identity = AgentIdentity {
            id: copy(&id),
            name: owned(name),
            email_address: owned(email_address),
            capabilities: caps_json,
            token: copy(&token),
            status: owned("active"),
            created_at: now,
            last_active_at: now,
        };
        let credential = AgentCredentialResponse {
            agent_id: id,
            name: owned(name),
            email_address: owned(email_address),
            capabilities: caps_vec,
            auth_token: token,
            note: owned(
                "Store this auth_token securely. It is only displayed once upon creation and cannot be retrieved again.",
            ),
        };
        AgentRegistration {
            identity,
            credential,
            mailbox_display_name: concat2("Agent: ", name),
        }
    }

    /// Registers an agent with fresh random identifier and token, now.
    pub fn register_fresh(name: &str, email_address: &str, capabilities: &[String]) -> (r:
        AgentRegistration)
        ensures
            exists|id_slug_text: Seq<char>, token_slug: Seq<char>, now: i64|
                id_slug_text.len() == 6 && token_slug.len() == 32 && registration_matches(
                    r,
                    name@,
                    email_address@,
                    string_views(capabilities@),
                    id_slug_text,
                    token_slug,
                    now,
                ),
    {
        let id_uuid = new_uuid_text();
        let token_uuid = new_uuid_text();
        proof {
            lemma_uuid_compact(id_uuid@);
            lemma_uuid_compact(token_uuid@);
        }
        let now = now_timestamp();
        let r = Self::register(name, email_address, capabilities, id_uuid.as_str(), token_uuid.as_str(), now);
        assert(registration_matches(
            r,
            name@,
            email_address@,
            string_views(capabilities@),
            id_slug(id_uuid@, 6),
            id_slug(token_uuid@, 32),
            now,
        ));
        r
    }
}

// ---------------------------------------------------------------------------
// Ownership
// ---------------------------------------------------------------------------

/// Whether a capability list (read from its stored JSON) grants everything.
pub open spec fn grants_admin(c: Seq<Seq<char>>) -> bool {
    exists|i: int| 0 <= i < c.len() && grants_everything(#[trigger] c[i])
}

/// Whether `agent` may act on `account`: it is the account's owner, or the
/// account has the agent's address (ignoring case), or the account has no
/// owner and the agent's capabilities grant everything.
pub open spec fn owns(agent: AgentIdentity, account: Option<Account>) -> bool {
    match account {
        None => false,
        Some(acc) => {
            ||| opt_view(acc.owner_agent_id) == Some(agent.id@)
            ||| unicode_lowercase(acc.address@) == unicode_lowercase(agent.email_address@)
            ||| (acc.owner_agent_id is None && match strings_of_json(agent.capabilities@) {
                Some(c) => grants_admin(c),
                None => false,
            })
        },
    }
}

/// Whether `agent` may act on `account` (`None` when no such account
/// exists).
pub fn verify_resource_ownership(agent: &AgentIdentity, account: Option<&Account>) -> (r: bool)
    ensures
        r == owns(*agent, match account {
            Some(a) => Some(*a),
            None => None,
        }),
{
    let acc = match account {
        Some(a) => a,
        None => return false,
    };
    match &acc.owner_agent_id {
        Some(o) => {
            if str_eq(o.as_str(), agent.id.as_str()) {
                return true;
            }
        },
        None => {},
    }
    let a = to_lowercase(acc.address.as_str());
    let b = to_lowercase(agent.email_address.as_str());
    if str_eq(a.as_str(), b.as_str()) {
        return true;
    }
    if acc.owner_agent_id.is_none() {
        match json_to_strings(agent.capabilities.as_str()) {
            Some(caps) => any_grants_everything(&caps),
            None => false,
        }
    } else {
        false
    }
}

/// Whether some of the texts grants everything.
fn any_grants_everything(caps: &Vec<String>) -> (r: bool)
    ensures
        r == grants_admin(string_views(caps@)),
{
    let ghost cv = string_views(caps@);
    let mut i: usize = 0;
    while i < caps.len()
        invariant
            i <= caps.len(),
            cv == string_views(caps@),
            forall|j: int| 0 <= j < i ==> !grants_everything(#[trigger] cv[j]),
        decreases caps.len() - i,
    {
        let c = caps[i].as_str();
        assert(cv[i as int] == c@);
        if str_eq(c, "*") || str_eq(c, "admin") || str_eq(c, "all") {
            assert(grants_everything(cv[i as int]));
            assert(cv.len() == caps@.len());
            assert(grants_admin(cv));
            return true;
        }
        i = i + 1;
    }
    false
}

/// An account owned by another agent, at another address, is never the
/// agent's, whatever capabilities the agent holds.
pub proof fn law_foreign_inbox_denied(agent: AgentIdentity, acc: Account)
    requires
        acc.owner_agent_id is Some,
        opt_view(acc.owner_agent_id) != Some(agent.id@),
        unicode_lowercase(acc.address@) != unicode_lowercase(agent.email_address@),
    ensures
        !owns(agent, Some(acc)),
{
}

/// The mailbox made for an agent at registration is the agent's.
pub proof fn law_own_inbox_allowed(agent: AgentIdentity, acc: Account)
    requires
        opt_view(acc.owner_agent_id) == Some(agent.id@),
    ensures
        owns(agent, Some(acc)),
{
}

/// A missing account is nobody's.
pub proof fn law_missing_account_denied(agent: AgentIdentity)
    ensures
        !owns(agent, None),
{
}

// ---------------------------------------------------------------------------
// Links received by an inbox
// ---------------------------------------------------------------------------

/// The URL an item of a stored link list stands for: the item itself where
/// it is a string, else its `url` member.
pub open spec fn link_item_url(item: (Option<Seq<char>>, Option<Seq<char>>)) -> Option<Seq<char>> {
    match item.0 {
        Some(u) => Some(u),
        None => item.1,
    }
}

/// The URLs of a stored link list, in order; items without one are
/// skipped.
pub open spec fn link_urls(items: Seq<(Option<Seq<char>>, Option<Seq<char>>)>) -> Seq<Seq<char>>
    decreases items.len(),
{
    if items.len() == 0 {
        Seq::empty()
    } else {
        link_urls(items.drop_last()) + match link_item_url(items.last()) {
            Some(u) => seq![u],
            None => Seq::empty(),
        }
    }
}

/// The URLs of the action links stored with a message: its link list is a
/// JSON array whose items are URLs or link records with a `url` (nothing
/// when absent or unreadable).
pub open spec fn stored_links(m: Message) -> Seq<Seq<char>> {
    match opt_view(m.extracted_links) {
        Some(t) => match json_link_items(t) {
            Some(items) => link_urls(items),
            None => Seq::empty(),
        },
        None => Seq::empty(),
    }
}

fn urls_of_items(items: &Vec<(Option<String>, Option<String>)>) -> (r: Vec<String>)
    ensures
        string_views(r@) == link_urls(link_item_views(items@)),
{
    let ghost iv = link_item_views(items@);
    let mut r: Vec<String> = Vec::new();
    let mut i: usize = 0;
    while i < items.len()
        invariant
            i <= items.len(),
            iv == link_item_views(items@),
            string_views(r@) == link_urls(iv.take(i as int)),
        decreases items.len() - i,
    {
        assert(iv.take(i + 1).drop_last() =~= iv.take(i as int));
        assert(iv.take(i + 1).last() == iv[i as int]);
        let ghost before = string_views(r@);
        let (a, b) = &items[i];
        match a {
            Some(u) => {
                r.push(copy(u));
                assert(string_views(r@) =~= before + seq![u@]);
            },
            None => match b {
                Some(u) => {
                    r.push(copy(u));
                    assert(string_views(r@) =~= before + seq![u@]);
                },
                None => {
                    assert(before + Seq::<Seq<char>>::empty() =~= before);
                },
            },
        }
        i = i + 1;
    }
    assert(iv.take(items.len() as int) =~= iv);
    r
}

/// The URLs of the action links stored with a message.
pub fn message_link_urls(m: &Message) -> (r: Vec<String>)
    ensures
        string_views(r@) == stored_links(*m),
{
    match &m.extracted_links {
        Some(text) => match json_to_link_items(text.as_str()) {
            Some(items) => urls_of_items(&items),
            None => Vec::new(),
        },
        None => Vec::new(),
    }
}

/// The links of a list of messages, in order, each kept at its first
/// occurrence.
pub open spec fn unique_links(msgs: Seq<Message>) -> Seq<Seq<char>>
    decreases msgs.len(),
{
    if msgs.len() == 0 {
        Seq::empty()
    } else {
        add_all_new(unique_links(msgs.drop_last()), stored_links(msgs.last()))
    }
}

/// `acc` extended by the texts of `more` it does not hold yet, in order.
pub open spec fn add_all_new(acc: Seq<Seq<char>>, more: Seq<Seq<char>>) -> Seq<Seq<char>>
    decreases more.len(),
{
    if more.len() == 0 {
        acc
    } else {
        let prev = add_all_new(acc, more.drop_last());
        if prev.contains(more.last()) {
            prev
        } else {
            prev.push(more.last())
        }
    }
}

fn add_new(list: &mut Vec<String>, items: &Vec<String>)
    ensures
        string_views(final(list)@) == add_all_new(string_views(old(list)@), string_views(items@)),
{
    let ghost start = string_views(list@);
    let ghost iv = string_views(items@);
    let mut i: usize = 0;
    while i < items.len()
        invariant
            i <= items.len(),
            iv == string_views(items@),
            string_views(list@) == add_all_new(start, iv.take(i as int)),
        decreases items.len() - i,
    {
        assert(iv.take(i + 1).drop_last() =~= iv.take(i as int));
        assert(iv.take(i + 1).last() == items@[i as int]@);
        let ghost before = string_views(list@);
        let mut found = false;
        let mut k: usize = 0;
        while k < list.len()
            invariant
                i < items.len(),
                k <= list.len(),
                before == string_views(list@),
                !found ==> forall|j: int| 0 <= j < k ==> before[j] != items@[i as int]@,
                found ==> before.contains(items@[i as int]@),
            decreases list.len() - k,
        {
            if str_eq(list[k].as_str(), items[i].as_str()) {
                assert(before[k as int] == items@[i as int]@);
                found = true;
            }
            k = k + 1;
        }
        if !found {
            list.push(copy(&items[i]));
            assert(string_views(list@) =~= before.push(items@[i as int]@));
        }
        i = i + 1;
    }
    assert(iv.take(items.len() as int) =~= iv);
}

/// The URLs of the action links that the messages of an inbox carry, each
/// once, in order of the messages.
pub fn collect_unique_links(messages: &Vec<Message>) -> (r: Vec<String>)
    ensures
        string_views(r@) == unique_links(messages@),
{
    let mut links: Vec<String> = Vec::new();
    let mut i: usize = 0;
    while i < messages.len()
        invariant
            i <= messages.len(),
            string_views(links@) == unique_links(messages@.take(i as int)),
        decreases messages.len() - i,
    {
        assert(messages@.take(i + 1).drop_last() =~= messages@.take(i as int));
        assert(messages@.take(i + 1).last() == messages@[i as int]);
        let urls = message_link_urls(&messages[i]);
        add_new(&mut links, &urls);
        i = i + 1;
    }
    assert(messages@.take(messages.len() as int) =~= messages@);
    links
}

/// Adding texts keeps the list free of repeats.
pub proof fn lemma_add_all_new_distinct(acc: Seq<Seq<char>>, more: Seq<Seq<char>>)
    requires
        forall|i: int, j: int| 0 <= i < j < acc.len() ==> acc[i] != acc[j],
    ensures
        forall|i: int, j: int|
            0 <= i < j < add_all_new(acc, more).len() ==> add_all_new(acc, more)[i]
                != add_all_new(acc, more)[j],
    decreases more.len(),
{
    if more.len() > 0 {
        lemma_add_all_new_distinct(acc, more.drop_last());
        let prev = add_all_new(acc, more.drop_last());
        if !prev.contains(more.last()) {
            let now = prev.push(more.last());
            assert forall|i: int, j: int| 0 <= i < j < now.len() implies now[i] != now[j] by {
                if j == now.len() - 1 {
                    assert(now[i] == prev[i]);
                    if now[i] == now[j] {
                        assert(prev.contains(more.last()));
                    }
                } else {
                    assert(now[i] == prev[i] && now[j] == prev[j]);
                }
            }
        }
    }
}

/// The links reported for an inbox are pairwise different.
pub proof fn law_unique_links_distinct(msgs: Seq<Message>)
    ensures
        forall|i: int, j: int|
            0 <= i < j < unique_links(msgs).len() ==> unique_links(msgs)[i] != unique_links(msgs)[j],
    decreases msgs.len(),
{
    if msgs.len() > 0 {
        law_unique_links_distinct(msgs.drop_last());
        lemma_add_all_new_distinct(unique_links(msgs.drop_last()), stored_links(msgs.last()));
    }
}

// ---------------------------------------------------------------------------
// Tasks and OTP retention
// ---------------------------------------------------------------------------

/// The SQL text of a task listing, with the agent filter and the status
/// filter when asked for.
pub open spec fn list_tasks_sql(by_agent: bool, by_status: bool) -> Seq<char> {
    "SELECT * FROM agent_tasks WHERE 1=1"@ + (if by_agent {
        " AND (source_agent_id = ? OR target_agent_id = ? OR target_agent_id = ? OR assigned_agent_id = ? OR target_agent_id IS NULL OR status = 'received')"@
    } else {
        Seq::empty()
    }) + (if by_status {
        " AND status = ?"@
    } else {
        Seq::empty()
    }) + " ORDER BY created_at DESC LIMIT ?"@
}

/// The SQL text of a task listing.
pub fn list_tasks_query(by_agent: bool, by_status: bool) -> (r: String)
    ensures
        r@ == list_tasks_sql(by_agent, by_status),
{
    let mut q = owned("SELECT * FROM agent_tasks WHERE 1=1");
    let ghost q0 = q@;
    if by_agent {
        q.append(
            " AND (source_agent_id = ? OR target_agent_id = ? OR target_agent_id = ? OR assigned_agent_id = ? OR target_agent_id IS NULL OR status = 'received')",
        );
    } else {
        assert(q@ =~= q0 + Seq::<char>::empty());
    }
    let ghost q1 = q@;
    if by_status {
        q.append(" AND status = ?");
    } else {
        assert(q@ =~= q1 + Seq::<char>::empty());
    }
    q.append(" ORDER BY created_at DESC LIMIT ?");
    q
}

/// The short name of an agent identifier: for `agent_<name>_<rest>` the
/// `<name>` part (up to the next underscore), otherwise the identifier.
pub open spec fn agent_short_name(aid: Seq<char>) -> Seq<char> {
    if "agent_"@.is_prefix_of(aid) {
        let rest = aid.skip(6);
        match first_index(rest, '_') {
            Some(i) => rest.take(i),
            None => rest,
        }
    } else {
        aid
    }
}

/// The short name of an agent identifier.
pub fn agent_id_prefix(aid: &str) -> (r: String)
    ensures
        r@ == agent_short_name(aid@),
{
    proof {
        reveal_strlit("agent_");
    }
    let v = chars_of(aid);
    let p = chars_of("agent_");
    if has_prefix(&v, &p) {
        match find_char_from(&v, '_', 6) {
            Some(i) => {
                let s = slice_chars(&v, 6, i);
                assert(s@ =~= v@.skip(6).take(i - 6));
                string_of(&s)
            },
            None => {
                let s = slice_chars(&v, 6, v.len());
                assert(s@ =~= v@.skip(6));
                string_of(&s)
            },
        }
    } else {
        owned(aid)
    }
}

/// The event type recorded when a task moves to `status`.
pub fn progress_event_type(status: &str) -> (r: String)
    ensures
        r@ == "task."@ + status@,
{
    concat2("task.", status)
}

/// The creation time before which stored OTP codes have expired.
pub fn otp_cutoff(now: i64, max_age_seconds: i64) -> (r: i64)
    requires
        i64::MIN <= now - max_age_seconds <= i64::MAX,
    ensures
        r == now - max_age_seconds,
{
    now - max_age_seconds
}

// ---------------------------------------------------------------------------
// Message records
// ---------------------------------------------------------------------------

/// The fields of a received email before it is stored.
pub struct InboundEmail {
    pub from: String,
    pub to: String,
    pub subject: Option<String>,
    pub body_text: Option<String>,
    pub body_html: Option<String>,
    pub raw_mime: Option<String>,
}

/// The content of an `InboundEmail`.
pub struct InboundEmailView {
    pub from: Seq<char>,
    pub to: Seq<char>,
    pub subject: Option<Seq<char>>,
    pub body_text: Option<Seq<char>>,
    pub body_html: Option<Seq<char>>,
    pub raw_mime: Option<Seq<char>>,
}

impl View for InboundEmail {
    type V = InboundEmailView;

    open spec fn view(&self) -> InboundEmailView {
        InboundEmailView {
            from: self.from@,
            to: self.to@,
            subject: opt_view(self.subject),
            body_text: opt_view(self.body_text),
            body_html: opt_view(self.body_html),
            raw_mime: opt_view(self.raw_mime),
        }
    }
}

impl Message {
    /// The record of a received email, stored in `account_id` under `id`
    /// with the extracted OTP code and the JSON text of its links.
    pub fn inbound(
        id: String,
        account_id: String,
        email: InboundEmail,
        extracted_otp: Option<String>,
        extracted_links: Option<String>,
        created_at: i64,
    ) -> (r: Message)
        ensures
            r.id == id,
            r.account_id == account_id,
            r.from_address@ == email@.from,
            r.to_address@ == email@.to,
            opt_view(r.subject) == email@.subject,
            opt_view(r.body_text) == email@.body_text,
            opt_view(r.body_html) == email@.body_html,
            opt_view(r.raw_mime) == email@.raw_mime,
            r.extracted_otp == extracted_otp,
            r.extracted_links == extracted_links,
            r.direction@ == "inbound"@,
            r.created_at == created_at,
    {
        Message {
            id,
            account_id,
            from_address: email.from,
            to_address: email.to,
            subject: email.subject,
            body_text: email.body_text,
            body_html: email.body_html,
            raw_mime: email.raw_mime,
            extracted_otp,
            extracted_links,
            direction: owned("inbound"),
            created_at,
        }
    }

    /// The record of a sent email: from the account's address to the first
    /// recipient (or nobody), with no MIME text and nothing extracted.
    pub fn outbound(
        id: String,
        account_id: String,
        from_address: String,
        to: &Vec<String>,
        subject: String,
        body_text: Option<String>,
        body_html: Option<String>,
        created_at: i64,
    ) -> (r: Message)
        ensures
            r.id == id,
            r.account_id == account_id,
            r.from_address == from_address,
            r.to_address@ == (if to@.len() > 0 {
                to@[0]@
            } else {
                Seq::empty()
            }),
            r.subject == Some(subject),
            r.body_text == body_text,
            r.body_html == body_html,
            r.raw_mime is None,
            r.extracted_otp is None,
            r.extracted_links is None,
            r.direction@ == "outbound"@,
            r.created_at == created_at,
    {
        let to_address = if to.len() > 0 {
            copy(&to[0])
        } else {
            String::new()
        };
        Message {
            id,
            account_id,
            from_address,
            to_address,
            subject: Some(subject),
            body_text,
            body_html,
            raw_mime: None,
            extracted_otp: None,
            extracted_links: None,
            direction: owned("outbound"),
            created_at,
        }
    }
}

} // verus!
