//! The engine's configuration: how it is shown from the environment, how
//! the setup wizard saves it to the `.env` file, and how that file is read
//! back into the environment at start-up.
use vstd::prelude::*;
use crate::api::{catch_all, or_default, ConfigDto};
use crate::bindings::pair_views;
use crate::text::{
    all_digits, chars_of, concat2, concat3, copy, decimal_string, decimal_text, first_index,
    is_digit, is_white_space, join_spec, join_strings, lemma_decimal_text, lemma_first_index,
    lemma_first_index_at, lemma_parse_decimal_text, lemma_trim_no_edge_ws, lines_chars, lines_spec,
    opt_view, owned, parse_unsigned, parse_unsigned_spec, split_once_chars, split_once_spec,
    string_of, string_views, trim_chars, trim_end_ws, trim_start_ws, trim_ws,
};

verus! {

/// The environment variables that the configuration is read from.
pub struct ConfigEnv {
    pub domain: Option<String>,
    pub primary_email: Option<String>,
    pub agent_name: Option<String>,
    pub imap_host: Option<String>,
    pub imap_port: Option<String>,
    pub imap_user: Option<String>,
    pub imap_pass: Option<String>,
    pub smtp_host: Option<String>,
    pub smtp_port: Option<String>,
    pub smtp_user: Option<String>,
    pub smtp_pass: Option<String>,
}

/// The texts of a `ConfigEnv`.
pub struct ConfigEnvView {
    pub domain: Option<Seq<char>>,
    pub primary_email: Option<Seq<char>>,
    pub agent_name: Option<Seq<char>>,
    pub imap_host: Option<Seq<char>>,
    pub imap_port: Option<Seq<char>>,
    pub imap_user: Option<Seq<char>>,
    pub imap_pass: Option<Seq<char>>,
    pub smtp_host: Option<Seq<char>>,
    pub smtp_port: Option<Seq<char>>,
    pub smtp_user: Option<Seq<char>>,
    pub smtp_pass: Option<Seq<char>>,
}

impl View for ConfigEnv {
    type V = ConfigEnvView;

    open spec fn view(&self) -> ConfigEnvView {
        ConfigEnvView {
            domain: opt_view(self.domain),
            primary_email: opt_view(self.primary_email),
            agent_name: opt_view(self.agent_name),
            imap_host: opt_view(self.imap_host),
            imap_port: opt_view(self.imap_port),
            imap_user: opt_view(self.imap_user),
            imap_pass: opt_view(self.imap_pass),
            smtp_host: opt_view(self.smtp_host),
            smtp_port: opt_view(self.smtp_port),
            smtp_user: opt_view(self.smtp_user),
            smtp_pass: opt_view(self.smtp_pass),
        }
    }
}

/// The content of a `ConfigDto`.
pub struct ConfigView {
    pub domain: Seq<char>,
    pub primary_email: Seq<char>,
    pub agent_name: Option<Seq<char>>,
    pub imap_host: Option<Seq<char>>,
    pub imap_port: Option<u16>,
    pub imap_user: Option<Seq<char>>,
    pub imap_pass: Option<Seq<char>>,
    pub has_imap_pass: Option<bool>,
    pub smtp_host: Option<Seq<char>>,
    pub smtp_port: Option<u16>,
    pub smtp_user: Option<Seq<char>>,
    pub smtp_pass: Option<Seq<char>>,
    pub has_smtp_pass: Option<bool>,
    pub configured: Option<bool>,
}

impl View for ConfigDto {
    type V = ConfigView;

    open spec fn view(&self) -> ConfigView {
        ConfigView {
            domain: self.domain@,
            primary_email: self.primary_email@,
            agent_name: opt_view(self.agent_name),
            imap_host: opt_view(self.imap_host),
            imap_port: self.imap_port,
            imap_user: opt_view(self.imap_user),
            imap_pass: opt_view(self.imap_pass),
            has_imap_pass: self.has_imap_pass,
            smtp_host: opt_view(self.smtp_host),
            smtp_port: self.smtp_port,
            smtp_user: opt_view(self.smtp_user),
            smtp_pass: opt_view(self.smtp_pass),
            has_smtp_pass: self.has_smtp_pass,
            configured: self.configured,
        }
    }
}

// ---------------------------------------------------------------------------
// Showing the configuration
// ---------------------------------------------------------------------------

/// A port read from the environment: the variable's text when it parses as
/// a `u16`, else `default`.
pub open spec fn env_port(text: Option<Seq<char>>, default: u16) -> u16 {
    match text {
        Some(t) => match parse_unsigned_spec(t, 65535) {
            Some(n) => n as u16,
            None => default,
        },
        None => default,
    }
}

/// Whether a password variable is set to something other than white space.
pub open spec fn secret_present(text: Option<Seq<char>>) -> bool {
    match text {
        Some(t) => trim_ws(t).len() > 0,
        None => false,
    }
}

/// The configuration shown for the environment `env`: the domain (else
/// `fallback_domain`), the primary address (else `agent@<domain>`), the
/// mail servers with their ports (else 993 and 587), never a password but
/// whether one is set, and whether any mail server is configured.
pub open spec fn shown_config(env: ConfigEnvView, fallback_domain: Seq<char>) -> ConfigView {
    let domain = or_default(env.domain, fallback_domain);
    ConfigView {
        domain,
        primary_email: or_default(env.primary_email, catch_all(domain)),
        agent_name: env.agent_name,
        imap_host: env.imap_host,
        imap_port: Some(env_port(env.imap_port, 993)),
        imap_user: env.imap_user,
        imap_pass: None,
        has_imap_pass: Some(secret_present(env.imap_pass)),
        smtp_host: env.smtp_host,
        smtp_port: Some(env_port(env.smtp_port, 587)),
        smtp_user: env.smtp_user,
        smtp_pass: None,
        has_smtp_pass: Some(secret_present(env.smtp_pass)),
        configured: Some(env.imap_host is Some || env.smtp_host is Some),
    }
}

fn port_from_env(text: &Option<String>, default: u16) -> (r: u16)
    ensures
        r == env_port(opt_view(*text), default),
{
    match text {
        Some(t) => {
            let v = chars_of(t.as_str());
            match parse_unsigned(&v, 65535) {
                Some(n) => n as u16,
                None => default,
            }
        },
        None => default,
    }
}

fn secret_from_env(text: &Option<String>) -> (r: bool)
    ensures
        r == secret_present(opt_view(*text)),
{
    match text {
        Some(t) => {
            let v = chars_of(t.as_str());
            let trimmed = trim_chars(&v);
            trimmed.len() > 0
        },
        None => false,
    }
}

/// The configuration shown for the environment `env`.
pub fn config_from_env(env: ConfigEnv, fallback_domain: &str) -> (r: ConfigDto)
    ensures
        r@ == shown_config(env@, fallback_domain@),
{
    let imap_port = port_from_env(&env.imap_port, 993);
    let smtp_port = port_from_env(&env.smtp_port, 587);
    let has_imap_pass = secret_from_env(&env.imap_pass);
    let has_smtp_pass = secret_from_env(&env.smtp_pass);
    let configured = env.imap_host.is_some() || env.smtp_host.is_some();
    let domain = match env.domain {
        Some(d) => d,
        None => owned(fallback_domain),
    };
    let primary_email = match env.primary_email {
        Some(p) => p,
        None => concat2("agent@", domain.as_str()),
    };
    ConfigDto {
        domain,
        primary_email,
        agent_name: env.agent_name,
        imap_host: env.imap_host,
        imap_port: Some(imap_port),
        imap_user: env.imap_user,
        imap_pass: None,
        has_imap_pass: Some(has_imap_pass),
        smtp_host: env.smtp_host,
        smtp_port: Some(smtp_port),
        smtp_user: env.smtp_user,
        smtp_pass: None,
        has_smtp_pass: Some(has_smtp_pass),
        configured: Some(configured),
    }
}

// ---------------------------------------------------------------------------
// Saving the configuration
// ---------------------------------------------------------------------------

/// The line `KEY=value`.
pub open spec fn assignment(key: Seq<char>, value: Seq<char>) -> Seq<char> {
    key + "="@ + value
}

/// The variable `key` set to `value` when there is one.
pub open spec fn opt_pair(key: Seq<char>, value: Option<Seq<char>>) -> Seq<(Seq<char>, Seq<char>)> {
    match value {
        Some(v) => seq![(key, v)],
        None => Seq::empty(),
    }
}

/// The variable `key` set to the decimal text of `port` when there is one.
pub open spec fn port_pair(key: Seq<char>, port: Option<u16>) -> Seq<(Seq<char>, Seq<char>)> {
    match port {
        Some(n) => seq![(key, decimal_text(n as nat))],
        None => Seq::empty(),
    }
}

/// The variable `key` set to a password that is not blank.
pub open spec fn secret_pair(key: Seq<char>, value: Option<Seq<char>>) -> Seq<
    (Seq<char>, Seq<char>),
> {
    match value {
        Some(v) => if trim_ws(v).len() > 0 {
            seq![(key, v)]
        } else {
            Seq::empty()
        },
        None => Seq::empty(),
    }
}

/// The variables of the IMAP account, in the order they are written.
pub open spec fn imap_pairs(c: ConfigView) -> Seq<(Seq<char>, Seq<char>)> {
    opt_pair("IMAP_HOST"@, c.imap_host) + port_pair("IMAP_PORT"@, c.imap_port) + opt_pair(
        "IMAP_USER"@,
        c.imap_user,
    ) + secret_pair("IMAP_PASS"@, c.imap_pass)
}

/// The variables of the SMTP relay, in the order they are written.
pub open spec fn smtp_pairs(c: ConfigView) -> Seq<(Seq<char>, Seq<char>)> {
    opt_pair("SMTP_HOST"@, c.smtp_host) + port_pair("SMTP_PORT"@, c.smtp_port) + opt_pair(
        "SMTP_USER"@,
        c.smtp_user,
    ) + secret_pair("SMTP_PASS"@, c.smtp_pass)
}

/// The fixed settings of the local servers written with every configuration.
pub open spec fn local_pairs() -> Seq<(Seq<char>, Seq<char>)> {
    seq![
        ("PORT"@, "3000"@),
        ("SMTP_INBOUND_PORT"@, "2525"@),
        ("DATABASE_URL"@, "sqlite://agentbox.db?mode=rwc"@),
    ]
}

/// The variables that the `.env` file is given for configuration `c`, in
/// order: the domain and primary address, the agent name when there is
/// one, the local servers, then the IMAP and SMTP settings that are given
/// (passwords only when not blank).
pub open spec fn saved_pairs(c: ConfigView) -> Seq<(Seq<char>, Seq<char>)> {
    seq![("DOMAIN"@, c.domain), ("PRIMARY_EMAIL"@, c.primary_email)] + opt_pair(
        "AGENT_NAME"@,
        c.agent_name,
    ) + local_pairs() + imap_pairs(c) + smtp_pairs(c)
}

/// The lines of the `.env` file for configuration `c`.
pub open spec fn saved_lines(c: ConfigView) -> Seq<Seq<char>> {
    saved_pairs(c).map_values(|kv: (Seq<char>, Seq<char>)| assignment(kv.0, kv.1))
}

/// The text of the `.env` file for configuration `c`: its lines joined by
/// line feeds.
pub open spec fn saved_text(c: ConfigView) -> Seq<char> {
    join_spec(saved_lines(c), "\n"@)
}

/// The variables that saving configuration `c` sets in the running
/// process: those of the file but the agent name and the local servers.
pub open spec fn activated_pairs(c: ConfigView) -> Seq<(Seq<char>, Seq<char>)> {
    seq![("DOMAIN"@, c.domain), ("PRIMARY_EMAIL"@, c.primary_email)] + imap_pairs(c) + smtp_pairs(
        c,
    )
}

fn push_pair(pairs: &mut Vec<(String, String)>, key: &str, value: &String)
    ensures
        pair_views(final(pairs)@) == pair_views(old(pairs)@).push((key@, value@)),
{
    pairs.push((owned(key), copy(value)));
    assert(pair_views(final(pairs)@) =~= pair_views(old(pairs)@).push((key@, value@)));
}

fn push_opt_pair(pairs: &mut Vec<(String, String)>, key: &str, value: &Option<String>)
    ensures
        pair_views(final(pairs)@) == pair_views(old(pairs)@) + opt_pair(key@, opt_view(*value)),
{
    match value {
        Some(v) => push_pair(pairs, key, v),
        None => {
            assert(pair_views(final(pairs)@) =~= pair_views(old(pairs)@) + opt_pair(
                key@,
                opt_view(*value),
            ));
        },
    }
}

fn push_port_pair(pairs: &mut Vec<(String, String)>, key: &str, port: Option<u16>)
    ensures
        pair_views(final(pairs)@) == pair_views(old(pairs)@) + port_pair(key@, port),
{
    match port {
        Some(n) => {
            let text = decimal_string(n as u64);
            push_pair(pairs, key, &text);
        },
        None => {
            assert(pair_views(final(pairs)@) =~= pair_views(old(pairs)@) + port_pair(key@, port));
        },
    }
}

fn push_secret_pair(pairs: &mut Vec<(String, String)>, key: &str, value: &Option<String>)
    ensures
        pair_views(final(pairs)@) == pair_views(old(pairs)@) + secret_pair(key@, opt_view(*value)),
{
    if secret_from_env(value) {
        match value {
            Some(v) => push_pair(pairs, key, v),
            None => {},
        }
    } else {
        assert(pair_views(final(pairs)@) =~= pair_views(old(pairs)@) + secret_pair(
            key@,
            opt_view(*value),
        ));
    }
}

fn push_imap_smtp(pairs: &mut Vec<(String, String)>, payload: &ConfigDto)
    ensures
        pair_views(final(pairs)@) == pair_views(old(pairs)@) + imap_pairs(payload@) + smtp_pairs(
            payload@,
        ),
{
    let ghost start = pair_views(pairs@);
    push_opt_pair(pairs, "IMAP_HOST", &payload.imap_host);
    push_port_pair(pairs, "IMAP_PORT", payload.imap_port);
    push_opt_pair(pairs, "IMAP_USER", &payload.imap_user);
    push_secret_pair(pairs, "IMAP_PASS", &payload.imap_pass);
    assert(pair_views(pairs@) =~= start + imap_pairs(payload@));
    let ghost mid = pair_views(pairs@);
    push_opt_pair(pairs, "SMTP_HOST", &payload.smtp_host);
    push_port_pair(pairs, "SMTP_PORT", payload.smtp_port);
    push_opt_pair(pairs, "SMTP_USER", &payload.smtp_user);
    push_secret_pair(pairs, "SMTP_PASS", &payload.smtp_pass);
    assert(pair_views(pairs@) =~= mid + smtp_pairs(payload@));
}

/// The variables of the `.env` file for `payload`, in order.
pub fn saved_config_pairs(payload: &ConfigDto) -> (r: Vec<(String, String)>)
    ensures
        pair_views(r@) == saved_pairs(payload@),
{
    let mut pairs: Vec<(String, String)> = Vec::new();
    push_pair(&mut pairs, "DOMAIN", &payload.domain);
    push_pair(&mut pairs, "PRIMARY_EMAIL", &payload.primary_email);
    push_opt_pair(&mut pairs, "AGENT_NAME", &payload.agent_name);
    let ghost head = pair_views(pairs@);
    push_pair(&mut pairs, "PORT", &owned("3000"));
    push_pair(&mut pairs, "SMTP_INBOUND_PORT", &owned("2525"));
    push_pair(&mut pairs, "DATABASE_URL", &owned("sqlite://agentbox.db?mode=rwc"));
    assert(pair_views(pairs@) =~= head + local_pairs());
    push_imap_smtp(&mut pairs, payload);
    assert(pair_views(pairs@) =~= saved_pairs(payload@));
    pairs
}

/// The variables that saving `payload` sets in the running process, in
/// order.
pub fn activated_config_pairs(payload: &ConfigDto) -> (r: Vec<(String, String)>)
    ensures
        pair_views(r@) == activated_pairs(payload@),
{
    let mut pairs: Vec<(String, String)> = Vec::new();
    push_pair(&mut pairs, "DOMAIN", &payload.domain);
    push_pair(&mut pairs, "PRIMARY_EMAIL", &payload.primary_email);
    push_imap_smtp(&mut pairs, payload);
    assert(pair_views(pairs@) =~= activated_pairs(payload@));
    pairs
}

/// The text of the `.env` file for `payload`.
pub fn saved_config_text(payload: &ConfigDto) -> (r: String)
    ensures
        r@ == saved_text(payload@),
{
    let pairs = saved_config_pairs(payload);
    let mut lines: Vec<String> = Vec::new();
    let mut i: usize = 0;
    while i < pairs.len()
        invariant
            i <= pairs.len(),
            pair_views(pairs@) == saved_pairs(payload@),
            string_views(lines@) == saved_pairs(payload@).take(i as int).map_values(
                |kv: (Seq<char>, Seq<char>)| assignment(kv.0, kv.1),
            ),
        decreases pairs.len() - i,
    {
        let line = concat3(pairs[i].0.as_str(), "=", pairs[i].1.as_str());
        let ghost before = string_views(lines@);
        lines.push(line);
        proof {
            let sp = saved_pairs(payload@);
            assert(pair_views(pairs@)[i as int] == (pairs@[i as int].0@, pairs@[i as int].1@));
            assert(line@ == assignment(sp[i as int].0, sp[i as int].1));
            assert(string_views(lines@) =~= before.push(line@));
            assert(sp.take(i + 1).map_values(|kv: (Seq<char>, Seq<char>)| assignment(kv.0, kv.1))
                =~= sp.take(i as int).map_values(
                |kv: (Seq<char>, Seq<char>)| assignment(kv.0, kv.1),
            ).push(assignment(sp[i as int].0, sp[i as int].1)));
        }
        i = i + 1;
    }
    assert(saved_pairs(payload@).take(i as int) =~= saved_pairs(payload@));
    let text = join_strings(&lines, "\n");
    assert(lines@.map_values(|p: String| p@) =~= saved_lines(payload@));
    text
}

// ---------------------------------------------------------------------------
// Loading the `.env` file
// ---------------------------------------------------------------------------

/// The variable a line of the `.env` file sets: none for a blank line or a
/// `#` comment or a line without `=`; else the trimmed text before the
/// first `=` and the trimmed text after it.
pub open spec fn env_entry(line: Seq<char>) -> Option<(Seq<char>, Seq<char>)> {
    let t = trim_ws(line);
    if t.len() > 0 && t[0] != '#' {
        match split_once_spec(t, '=') {
            Some((k, v)) => Some((trim_ws(k), trim_ws(v))),
            None => None,
        }
    } else {
        None
    }
}

/// The variables that a sequence of lines sets, in order.
pub open spec fn entries_of(lines: Seq<Seq<char>>) -> Seq<(Seq<char>, Seq<char>)>
    decreases lines.len(),
{
    if lines.len() == 0 {
        Seq::empty()
    } else {
        (match env_entry(lines[0]) {
            Some(e) => seq![e],
            None => Seq::empty(),
        }) + entries_of(lines.drop_first())
    }
}

/// The variables that the `.env` text sets, in order.
pub open spec fn env_file_entries_spec(text: Seq<char>) -> Seq<(Seq<char>, Seq<char>)> {
    entries_of(lines_spec(text))
}

/// The variables that the `.env` text sets, in order.
pub fn env_file_entries(text: &str) -> (r: Vec<(String, String)>)
    ensures
        pair_views(r@) == env_file_entries_spec(text@),
{
    let chars = chars_of(text);
    let lines = lines_chars(&chars);
    let ghost ls = lines_spec(chars@);
    let mut r: Vec<(String, String)> = Vec::new();
    let mut i: usize = lines.len();
    proof {
        assert(ls.skip(i as int) =~= Seq::<Seq<char>>::empty());
    }
    while i > 0
        invariant
            i <= lines.len(),
            lines@.len() == ls.len(),
            ls == lines_spec(chars@),
            forall|k: int| 0 <= k < lines@.len() ==> #[trigger] lines@[k]@ == ls[k],
            pair_views(r@) == entries_of(ls.skip(i as int)),
        decreases i,
    {
        i = i - 1;
        let ghost rest = ls.skip(i as int);
        assert(rest.drop_first() =~= ls.skip(i + 1));
        assert(rest[0] == lines@[i as int]@);
        let t = trim_chars(&lines[i]);
        let mut entry: Option<(String, String)> = None;
        if t.len() > 0 && t[0] != '#' {
            match split_once_chars(&t, '=') {
                Some((k, v)) => {
                    let kt = trim_chars(&k);
                    let vt = trim_chars(&v);
                    entry = Some((string_of(&kt), string_of(&vt)));
                },
                None => {},
            }
        }
        match entry {
            Some(e) => {
                let mut front: Vec<(String, String)> = Vec::new();
                front.push(e);
                let ghost old_r = pair_views(r@);
                front.append(&mut r);
                r = front;
                assert(pair_views(r@) =~= seq![(e.0@, e.1@)] + old_r);
            },
            None => {},
        }
        assert(pair_views(r@) =~= entries_of(rest));
    }
    assert(ls.skip(0) =~= ls);
    r
}

/// The value that a sequence of variable settings leaves for `key`: the
/// last one set.
pub open spec fn env_value(entries: Seq<(Seq<char>, Seq<char>)>, key: Seq<char>) -> Option<
    Seq<char>,
>
    decreases entries.len(),
{
    if entries.len() == 0 {
        None
    } else {
        match env_value(entries.drop_first(), key) {
            Some(v) => Some(v),
            None => if entries[0].0 == key {
                Some(entries[0].1)
            } else {
                None
            },
        }
    }
}

/// The configuration variables of an environment made of `entries` alone.
pub open spec fn env_of(entries: Seq<(Seq<char>, Seq<char>)>) -> ConfigEnvView {
    ConfigEnvView {
        domain: env_value(entries, "DOMAIN"@),
        primary_email: env_value(entries, "PRIMARY_EMAIL"@),
        agent_name: env_value(entries, "AGENT_NAME"@),
        imap_host: env_value(entries, "IMAP_HOST"@),
        imap_port: env_value(entries, "IMAP_PORT"@),
        imap_user: env_value(entries, "IMAP_USER"@),
        imap_pass: env_value(entries, "IMAP_PASS"@),
        smtp_host: env_value(entries, "SMTP_HOST"@),
        smtp_port: env_value(entries, "SMTP_PORT"@),
        smtp_user: env_value(entries, "SMTP_USER"@),
        smtp_pass: env_value(entries, "SMTP_PASS"@),
    }
}

// ---------------------------------------------------------------------------
// Saving and loading back
// ---------------------------------------------------------------------------

/// A variable name that the `.env` loader reads back as written: not
/// empty, no white space, `=` or line feed in it, and not a comment.
pub open spec fn key_ok(k: Seq<char>) -> bool {
    &&& k.len() > 0
    &&& k[0] != '#'
    &&& forall|i: int|
        0 <= i < k.len() ==> !is_white_space(#[trigger] k[i]) && k[i] != '=' && k[i] != '\n'
}

/// Text without white space at either end.
pub open spec fn no_edge_space(v: Seq<char>) -> bool {
    v.len() > 0 ==> !is_white_space(v[0]) && !is_white_space(v.last())
}

/// A value that a line of the `.env` file holds and gives back unchanged:
/// no line feed in it and no white space at either end.
pub open spec fn plain_value(v: Seq<char>) -> bool {
    !v.contains('\n') && no_edge_space(v)
}

/// An optional value that the `.env` file gives back unchanged.
pub open spec fn plain_opt(v: Option<Seq<char>>) -> bool {
    match v {
        Some(x) => plain_value(x),
        None => true,
    }
}

/// An optional value without a line feed in it.
pub open spec fn single_line_opt(v: Option<Seq<char>>) -> bool {
    match v {
        Some(x) => !x.contains('\n'),
        None => true,
    }
}

/// A configuration whose text values each fit on one line of the `.env`
/// file, and, but for the passwords, have no white space at either end.
pub open spec fn storable_config(c: ConfigView) -> bool {
    &&& plain_value(c.domain)
    &&& plain_value(c.primary_email)
    &&& plain_opt(c.agent_name)
    &&& plain_opt(c.imap_host)
    &&& plain_opt(c.imap_user)
    &&& single_line_opt(c.imap_pass)
    &&& plain_opt(c.smtp_host)
    &&& plain_opt(c.smtp_user)
    &&& single_line_opt(c.smtp_pass)
}

/// How a saved configuration `c` is shown once its `.env` file has been
/// loaded: the same domain, address, name, hosts and users, the saved
/// ports (else the default ones), no password but whether a non-blank one
/// was saved, and whether a mail server is configured.
pub open spec fn reloaded_config(c: ConfigView) -> ConfigView {
    ConfigView {
        domain: c.domain,
        primary_email: c.primary_email,
        agent_name: c.agent_name,
        imap_host: c.imap_host,
        imap_port: Some(
            match c.imap_port {
                Some(p) => p,
                None => 993,
            },
        ),
        imap_user: c.imap_user,
        imap_pass: None,
        has_imap_pass: Some(secret_present(c.imap_pass)),
        smtp_host: c.smtp_host,
        smtp_port: Some(
            match c.smtp_port {
                Some(p) => p,
                None => 587,
            },
        ),
        smtp_user: c.smtp_user,
        smtp_pass: None,
        has_smtp_pass: Some(secret_present(c.smtp_pass)),
        configured: Some(c.imap_host is Some || c.smtp_host is Some),
    }
}

/// A line as `str::lines` gives it back when a line feed followed it: a
/// carriage return at its end is dropped.
pub open spec fn strip_cr(l: Seq<char>) -> Seq<char> {
    if l.len() > 0 && l.last() == '\r' {
        l.drop_last()
    } else {
        l
    }
}

/// The lines `ls`, as reading their join back gives them.
pub open spec fn lines_read_back(ls: Seq<Seq<char>>) -> Seq<Seq<char>>
    decreases ls.len(),
{
    if ls.len() <= 1 {
        ls
    } else {
        seq![strip_cr(ls[0])] + lines_read_back(ls.drop_first())
    }
}

proof fn lemma_join_front(ls: Seq<Seq<char>>, sep: Seq<char>)
    requires
        ls.len() >= 2,
    ensures
        join_spec(ls, sep) == ls[0] + sep + join_spec(ls.drop_first(), sep),
    decreases ls.len(),
{
    if ls.len() == 2 {
        assert(ls.drop_last().len() == 1);
        assert(ls.drop_first().len() == 1);
        assert(join_spec(ls.drop_first(), sep) == ls.drop_first()[0]);
        assert(join_spec(ls.drop_last(), sep) == ls.drop_last()[0]);
        assert(ls.drop_last()[0] == ls[0]);
        assert(ls.drop_first()[0] == ls.last());
    } else {
        lemma_join_front(ls.drop_last(), sep);
        assert(ls.drop_last().drop_first() =~= ls.drop_first().drop_last());
        assert(ls.drop_first().last() == ls.last());
        assert(join_spec(ls.drop_first(), sep) == join_spec(ls.drop_first().drop_last(), sep) + sep
            + ls.drop_first().last());
        assert(join_spec(ls, sep) =~= ls[0] + sep + join_spec(ls.drop_first(), sep));
    }
}

/// Lines without line feeds, joined by line feeds and split again by
/// `str::lines`, come back as they were (but a carriage return ending a
/// line that a line feed followed), provided the last one is not empty.
proof fn lemma_lines_of_join(ls: Seq<Seq<char>>)
    requires
        ls.len() > 0,
        forall|i: int| 0 <= i < ls.len() ==> !(#[trigger] ls[i]).contains('\n'),
        ls.last().len() > 0,
    ensures
        lines_spec(join_spec(ls, "\n"@)) == lines_read_back(ls),
    decreases ls.len(),
{
    reveal_strlit("\n");
    if ls.len() == 1 {
        assert(!ls[0].contains('\n'));
        lemma_first_index(ls[0], '\n');
    } else {
        lemma_join_front(ls, "\n"@);
        let a = ls[0];
        assert(!a.contains('\n'));
        let rest = join_spec(ls.drop_first(), "\n"@);
        let s = a + "\n"@ + rest;
        assert(s[a.len() as int] == '\n');
        assert forall|j: int| 0 <= j < a.len() implies s[j] != '\n' by {
            assert(s[j] == a[j]);
        }
        lemma_first_index_at(s, '\n', a.len() as int);
        assert(s.take(a.len() as int) =~= a);
        assert(s.skip(a.len() as int + 1) =~= rest);
        assert(ls.drop_first().last() == ls.last());
        assert forall|i: int| 0 <= i < ls.drop_first().len() implies !(
        #[trigger] ls.drop_first()[i]).contains('\n') by {
            assert(ls.drop_first()[i] == ls[i + 1]);
        }
        lemma_lines_of_join(ls.drop_first());
        assert(lines_spec(s) == seq![strip_cr(a)] + lines_spec(rest));
    }
}

proof fn lemma_trim_strip_cr(l: Seq<char>)
    requires
        l.len() > 0,
        !is_white_space(l[0]),
    ensures
        trim_ws(strip_cr(l)) == trim_ws(l),
{
    if l.last() == '\r' {
        let m = l.drop_last();
        assert(is_white_space('\r'));
        assert(m.len() > 0);
        assert(m[0] == l[0]);
        assert(trim_start_ws(l) == l);
        assert(trim_start_ws(m) == m);
        assert(trim_end_ws(l) == trim_end_ws(m));
    }
}

/// Dropping carriage returns at line ends changes no variable that lines
/// starting with a visible character set.
proof fn lemma_read_back_entries(ls: Seq<Seq<char>>)
    requires
        forall|i: int|
            0 <= i < ls.len() ==> (#[trigger] ls[i]).len() > 0 && !is_white_space(ls[i][0]),
    ensures
        entries_of(lines_read_back(ls)) == entries_of(ls),
    decreases ls.len(),
{
    if ls.len() > 1 {
        assert(ls[0].len() > 0 && !is_white_space(ls[0][0]));
        lemma_trim_strip_cr(ls[0]);
        assert(env_entry(strip_cr(ls[0])) == env_entry(ls[0]));
        assert forall|i: int| 0 <= i < ls.drop_first().len() implies (
        #[trigger] ls.drop_first()[i]).len() > 0 && !is_white_space(ls.drop_first()[i][0]) by {
            assert(ls.drop_first()[i] == ls[i + 1]);
        }
        lemma_read_back_entries(ls.drop_first());
        let r = lines_read_back(ls);
        assert(r[0] == strip_cr(ls[0]));
        assert(r.drop_first() =~= lines_read_back(ls.drop_first()));
    }
}

proof fn lemma_trim_end_append(a: Seq<char>, b: Seq<char>)
    requires
        a.len() > 0,
        !is_white_space(a.last()),
    ensures
        trim_end_ws(a + b) == a + trim_end_ws(b),
    decreases b.len(),
{
    if b.len() == 0 {
        assert(a + b =~= a);
        assert(a + trim_end_ws(b) =~= a);
    } else if is_white_space(b.last()) {
        assert((a + b).drop_last() =~= a + b.drop_last());
        lemma_trim_end_append(a, b.drop_last());
    } else {
        assert((a + b).last() == b.last());
    }
}

/// The value a line `key=value` gives back: the value trimmed.
pub open spec fn value_read_back(v: Seq<char>) -> Seq<char> {
    trim_ws(trim_end_ws(v))
}

/// A line `key=value` with a well-formed key sets `key` to the trimmed
/// value, has no line feed when the value has none, and starts with a
/// visible character.
proof fn lemma_assignment_line(k: Seq<char>, v: Seq<char>)
    requires
        key_ok(k),
    ensures
        env_entry(assignment(k, v)) == Some((k, value_read_back(v))),
        assignment(k, v).len() > 0,
        !is_white_space(assignment(k, v)[0]),
        !v.contains('\n') ==> !assignment(k, v).contains('\n'),
{
    reveal_strlit("=");
    let l = assignment(k, v);
    let a = k + "="@;
    assert(l =~= a + v);
    assert(a.last() == '=');
    assert(!is_white_space('='));
    assert(l[0] == k[0]);
    assert(trim_start_ws(l) == l);
    lemma_trim_end_append(a, v);
    let w = trim_end_ws(v);
    let t = a + w;
    assert(trim_ws(l) == t);
    assert(t[0] == k[0]);
    assert(t[k.len() as int] == '=');
    assert forall|j: int| 0 <= j < k.len() implies t[j] != '=' by {
        assert(t[j] == k[j]);
    }
    lemma_first_index_at(t, '=', k.len() as int);
    assert(t.take(k.len() as int) =~= k);
    assert(t.skip(k.len() as int + 1) =~= w);
    lemma_trim_no_edge_ws(k);
    if !v.contains('\n') {
        assert forall|j: int| 0 <= j < l.len() implies l[j] != '\n' by {
            if j < k.len() {
                assert(l[j] == k[j]);
            } else if j > k.len() {
                assert(l[j] == v[j - k.len() - 1]);
            }
        }
    }
}

/// A value without white space at either end is given back unchanged.
proof fn lemma_plain_read_back(v: Seq<char>)
    requires
        no_edge_space(v),
    ensures
        value_read_back(v) == v,
{
    assert(trim_end_ws(v) == v);
    lemma_trim_no_edge_ws(v);
}

/// Whether text holds a character that is not white space.
pub open spec fn has_visible(s: Seq<char>) -> bool {
    exists|i: int| 0 <= i < s.len() && !is_white_space(#[trigger] s[i])
}

proof fn lemma_visible_trim_start(s: Seq<char>)
    ensures
        has_visible(trim_start_ws(s)) == has_visible(s),
    decreases s.len(),
{
    if s.len() > 0 && is_white_space(s[0]) {
        lemma_visible_trim_start(s.drop_first());
        let d = s.drop_first();
        if has_visible(s) {
            let i = choose|i: int| 0 <= i < s.len() && !is_white_space(#[trigger] s[i]);
            assert(d[i - 1] == s[i]);
        }
        if has_visible(d) {
            let i = choose|i: int| 0 <= i < d.len() && !is_white_space(#[trigger] d[i]);
            assert(s[i + 1] == d[i]);
        }
    }
}

proof fn lemma_visible_trim_end(s: Seq<char>)
    ensures
        has_visible(trim_end_ws(s)) == has_visible(s),
        trim_end_ws(s).len() > 0 ==> !is_white_space(trim_end_ws(s).last()),
    decreases s.len(),
{
    if s.len() > 0 && is_white_space(s.last()) {
        lemma_visible_trim_end(s.drop_last());
        let d = s.drop_last();
        if has_visible(s) {
            let i = choose|i: int| 0 <= i < s.len() && !is_white_space(#[trigger] s[i]);
            assert(d[i] == s[i]);
        }
        if has_visible(d) {
            let i = choose|i: int| 0 <= i < d.len() && !is_white_space(#[trigger] d[i]);
            assert(s[i] == d[i]);
        }
    } else if s.len() > 0 {
        assert(!is_white_space(s[s.len() - 1]));
    }
}

proof fn lemma_visible_trim(s: Seq<char>)
    ensures
        has_visible(trim_ws(s)) == has_visible(s),
        (trim_ws(s).len() > 0) == has_visible(s),
{
    lemma_visible_trim_start(s);
    lemma_visible_trim_end(trim_start_ws(s));
    let t = trim_ws(s);
    if t.len() > 0 {
        assert(!is_white_space(t[t.len() - 1]));
    }
}

/// A password is still found set after it is written and read back.
proof fn lemma_secret_read_back(v: Seq<char>)
    ensures
        secret_present(Some(value_read_back(v))) == secret_present(Some(v)),
{
    lemma_visible_trim_end(v);
    lemma_visible_trim(trim_end_ws(v));
    lemma_visible_trim(value_read_back(v));
    lemma_visible_trim(v);
}

proof fn lemma_entries_append(a: Seq<Seq<char>>, b: Seq<Seq<char>>)
    ensures
        entries_of(a + b) == entries_of(a) + entries_of(b),
    decreases a.len(),
{
    if a.len() == 0 {
        assert(a + b =~= b);
    } else {
        assert((a + b)[0] == a[0]);
        assert((a + b).drop_first() =~= a.drop_first() + b);
        lemma_entries_append(a.drop_first(), b);
    }
}

/// A pair whose line the `.env` loader reads back: a well-formed key and a
/// value without a line feed.
pub open spec fn pair_ok(kv: (Seq<char>, Seq<char>)) -> bool {
    key_ok(kv.0) && !kv.1.contains('\n')
}

/// Each variable of the lines written for `ps` is read back with its value
/// trimmed.
proof fn lemma_entries_of_pairs(ps: Seq<(Seq<char>, Seq<char>)>)
    requires
        forall|i: int| 0 <= i < ps.len() ==> pair_ok(#[trigger] ps[i]),
    ensures
        entries_of(ps.map_values(|kv: (Seq<char>, Seq<char>)| assignment(kv.0, kv.1)))
            == ps.map_values(|kv: (Seq<char>, Seq<char>)| (kv.0, value_read_back(kv.1))),
    decreases ps.len(),
{
    let ls = ps.map_values(|kv: (Seq<char>, Seq<char>)| assignment(kv.0, kv.1));
    let rs = ps.map_values(|kv: (Seq<char>, Seq<char>)| (kv.0, value_read_back(kv.1)));
    if ps.len() > 0 {
        assert(pair_ok(ps[0]));
        lemma_assignment_line(ps[0].0, ps[0].1);
        assert forall|i: int| 0 <= i < ps.drop_first().len() implies pair_ok(
            #[trigger] ps.drop_first()[i],
        ) by {
            assert(ps.drop_first()[i] == ps[i + 1]);
        }
        lemma_entries_of_pairs(ps.drop_first());
        assert(ls.drop_first() =~= ps.drop_first().map_values(
            |kv: (Seq<char>, Seq<char>)| assignment(kv.0, kv.1),
        ));
        assert(rs =~= seq![(ps[0].0, value_read_back(ps[0].1))] + ps.drop_first().map_values(
            |kv: (Seq<char>, Seq<char>)| (kv.0, value_read_back(kv.1)),
        ));
    } else {
        assert(rs =~= Seq::<(Seq<char>, Seq<char>)>::empty());
    }
}

/// The value of a variable after its values are trimmed is the trimmed
/// value.
proof fn lemma_env_value_read_back(ps: Seq<(Seq<char>, Seq<char>)>, key: Seq<char>)
    ensures
        env_value(ps.map_values(|kv: (Seq<char>, Seq<char>)| (kv.0, value_read_back(kv.1))), key)
            == (match env_value(ps, key) {
            Some(v) => Some(value_read_back(v)),
            None => None,
        }),
    decreases ps.len(),
{
    let rs = ps.map_values(|kv: (Seq<char>, Seq<char>)| (kv.0, value_read_back(kv.1)));
    if ps.len() > 0 {
        lemma_env_value_read_back(ps.drop_first(), key);
        assert(rs.drop_first() =~= ps.drop_first().map_values(
            |kv: (Seq<char>, Seq<char>)| (kv.0, value_read_back(kv.1)),
        ));
    }
}

/// Settings made after others override them.
proof fn lemma_env_value_append(a: Seq<(Seq<char>, Seq<char>)>, b: Seq<(Seq<char>, Seq<char>)>)
    ensures
        forall|key: Seq<char>|
            #[trigger] env_value(a + b, key) == (match env_value(b, key) {
                Some(v) => Some(v),
                None => env_value(a, key),
            }),
    decreases a.len(),
{
    if a.len() == 0 {
        assert(a + b =~= b);
    } else {
        lemma_env_value_append(a.drop_first(), b);
        assert((a + b).drop_first() =~= a.drop_first() + b);
        assert((a + b)[0] == a[0]);
        assert forall|key: Seq<char>| #[trigger]
            env_value(a + b, key) == (match env_value(b, key) {
                Some(v) => Some(v),
                None => env_value(a, key),
            }) by {
            assert(env_value(a.drop_first() + b, key) == (match env_value(b, key) {
                Some(v) => Some(v),
                None => env_value(a.drop_first(), key),
            }));
        }
    }
}

/// Every pair of `ps` can be written as a line and read back.
pub open spec fn all_pairs_ok(ps: Seq<(Seq<char>, Seq<char>)>) -> bool {
    forall|i: int| 0 <= i < ps.len() ==> pair_ok(#[trigger] ps[i])
}

proof fn lemma_pairs_ok_append(a: Seq<(Seq<char>, Seq<char>)>, b: Seq<(Seq<char>, Seq<char>)>)
    requires
        all_pairs_ok(a),
        all_pairs_ok(b),
    ensures
        all_pairs_ok(a + b),
{
    assert forall|i: int| 0 <= i < (a + b).len() implies pair_ok(#[trigger] (a + b)[i]) by {
        if i < a.len() {
            assert((a + b)[i] == a[i]);
        } else {
            assert((a + b)[i] == b[i - a.len()]);
        }
    }
}

/// The names of the configuration variables are well formed, and tell
/// apart by the characters named here.
proof fn lemma_config_keys()
    ensures
        key_ok("DOMAIN"@),
        key_ok("PRIMARY_EMAIL"@),
        key_ok("AGENT_NAME"@),
        key_ok("PORT"@),
        key_ok("SMTP_INBOUND_PORT"@),
        key_ok("DATABASE_URL"@),
        key_ok("IMAP_HOST"@),
        key_ok("IMAP_PORT"@),
        key_ok("IMAP_USER"@),
        key_ok("IMAP_PASS"@),
        key_ok("SMTP_HOST"@),
        key_ok("SMTP_PORT"@),
        key_ok("SMTP_USER"@),
        key_ok("SMTP_PASS"@),
        "DOMAIN"@.len() == 6,
        "PRIMARY_EMAIL"@.len() == 13,
        "AGENT_NAME"@.len() == 10,
        "PORT"@.len() == 4,
        "SMTP_INBOUND_PORT"@.len() == 17,
        "DATABASE_URL"@.len() == 12,
        "IMAP_HOST"@.len() == 9 && "IMAP_HOST"@[0] == 'I' && "IMAP_HOST"@[5] == 'H',
        "IMAP_PORT"@.len() == 9 && "IMAP_PORT"@[0] == 'I' && "IMAP_PORT"@[5] == 'P'
            && "IMAP_PORT"@[6] == 'O',
        "IMAP_USER"@.len() == 9 && "IMAP_USER"@[0] == 'I' && "IMAP_USER"@[5] == 'U',
        "IMAP_PASS"@.len() == 9 && "IMAP_PASS"@[0] == 'I' && "IMAP_PASS"@[5] == 'P'
            && "IMAP_PASS"@[6] == 'A',
        "SMTP_HOST"@.len() == 9 && "SMTP_HOST"@[0] == 'S' && "SMTP_HOST"@[5] == 'H',
        "SMTP_PORT"@.len() == 9 && "SMTP_PORT"@[0] == 'S' && "SMTP_PORT"@[5] == 'P'
            && "SMTP_PORT"@[6] == 'O',
        "SMTP_USER"@.len() == 9 && "SMTP_USER"@[0] == 'S' && "SMTP_USER"@[5] == 'U',
        "SMTP_PASS"@.len() == 9 && "SMTP_PASS"@[0] == 'S' && "SMTP_PASS"@[5] == 'P'
            && "SMTP_PASS"@[6] == 'A',
{
    reveal_strlit("DOMAIN");
    reveal_strlit("PRIMARY_EMAIL");
    reveal_strlit("AGENT_NAME");
    reveal_strlit("PORT");
    reveal_strlit("SMTP_INBOUND_PORT");
    reveal_strlit("DATABASE_URL");
    reveal_strlit("IMAP_HOST");
    reveal_strlit("IMAP_PORT");
    reveal_strlit("IMAP_USER");
    reveal_strlit("IMAP_PASS");
    reveal_strlit("SMTP_HOST");
    reveal_strlit("SMTP_PORT");
    reveal_strlit("SMTP_USER");
    reveal_strlit("SMTP_PASS");
}

/// The decimal text of a number has no white space and no line feed.
proof fn lemma_decimal_plain(n: nat)
    ensures
        plain_value(decimal_text(n)),
{
    lemma_decimal_text(n);
    let t = decimal_text(n);
    assert(is_digit(t[0]));
    assert(is_digit(t[t.len() - 1]));
    assert forall|i: int| 0 <= i < t.len() implies t[i] != '\n' by {
        assert(is_digit(t[i]));
    }
}

proof fn lemma_saved_pairs_ok(c: ConfigView)
    requires
        storable_config(c),
    ensures
        all_pairs_ok(saved_pairs(c)),
{
    lemma_config_keys();
    reveal_strlit("3000");
    reveal_strlit("2525");
    reveal_strlit("sqlite://agentbox.db?mode=rwc");
    let head = seq![("DOMAIN"@, c.domain), ("PRIMARY_EMAIL"@, c.primary_email)];
    assert(pair_ok(head[0]) && pair_ok(head[1]));
    let agent = opt_pair("AGENT_NAME"@, c.agent_name);
    assert(all_pairs_ok(agent));
    let local = local_pairs();
    assert(pair_ok(local[0]) && pair_ok(local[1]) && pair_ok(local[2]));
    if let Some(n) = c.imap_port {
        lemma_decimal_plain(n as nat);
    }
    if let Some(n) = c.smtp_port {
        lemma_decimal_plain(n as nat);
    }
    let i1 = opt_pair("IMAP_HOST"@, c.imap_host);
    let i2 = port_pair("IMAP_PORT"@, c.imap_port);
    let i3 = opt_pair("IMAP_USER"@, c.imap_user);
    let i4 = secret_pair("IMAP_PASS"@, c.imap_pass);
    let s1 = opt_pair("SMTP_HOST"@, c.smtp_host);
    let s2 = port_pair("SMTP_PORT"@, c.smtp_port);
    let s3 = opt_pair("SMTP_USER"@, c.smtp_user);
    let s4 = secret_pair("SMTP_PASS"@, c.smtp_pass);
    assert(all_pairs_ok(i1) && all_pairs_ok(i2) && all_pairs_ok(i3) && all_pairs_ok(i4));
    assert(all_pairs_ok(s1) && all_pairs_ok(s2) && all_pairs_ok(s3) && all_pairs_ok(s4));
    lemma_pairs_ok_append(i1, i2);
    lemma_pairs_ok_append(i1 + i2, i3);
    lemma_pairs_ok_append(i1 + i2 + i3, i4);
    lemma_pairs_ok_append(s1, s2);
    lemma_pairs_ok_append(s1 + s2, s3);
    lemma_pairs_ok_append(s1 + s2 + s3, s4);
    lemma_pairs_ok_append(head, agent);
    lemma_pairs_ok_append(head + agent, local);
    lemma_pairs_ok_append(head + agent + local, imap_pairs(c));
    lemma_pairs_ok_append(head + agent + local + imap_pairs(c), smtp_pairs(c));
}

/// What a lookup finds in the parts the `.env` file is made of.
proof fn lemma_part_values()
    ensures
        forall|k: Seq<char>, key: Seq<char>, v: Option<Seq<char>>|
            #[trigger] env_value(opt_pair(k, v), key) == (if k == key {
                v
            } else {
                None
            }),
        forall|k: Seq<char>, key: Seq<char>, p: Option<u16>|
            #[trigger] env_value(port_pair(k, p), key) == (if k == key {
                match p {
                    Some(n) => Some(decimal_text(n as nat)),
                    None => None,
                }
            } else {
                None
            }),
        forall|k: Seq<char>, key: Seq<char>, v: Option<Seq<char>>|
            #[trigger] env_value(secret_pair(k, v), key) == (if k == key && secret_present(v) {
                v
            } else {
                None
            }),
{
    reveal_with_fuel(env_value, 2);
    assert forall|k: Seq<char>, key: Seq<char>, v: Option<Seq<char>>|
        #[trigger] env_value(opt_pair(k, v), key) == (if k == key {
            v
        } else {
            None
        }) by {
        assert(opt_pair(k, v).len() > 0 ==> opt_pair(k, v).drop_first().len() == 0);
    }
    assert forall|k: Seq<char>, key: Seq<char>, p: Option<u16>|
        #[trigger] env_value(port_pair(k, p), key) == (if k == key {
            match p {
                Some(n) => Some(decimal_text(n as nat)),
                None => None,
            }
        } else {
            None
        }) by {
        assert(port_pair(k, p).len() > 0 ==> port_pair(k, p).drop_first().len() == 0);
    }
    assert forall|k: Seq<char>, key: Seq<char>, v: Option<Seq<char>>|
        #[trigger] env_value(secret_pair(k, v), key) == (if k == key && secret_present(v) {
            v
        } else {
            None
        }) by {
        assert(secret_pair(k, v).len() > 0 ==> secret_pair(k, v).drop_first().len() == 0);
    }
}

/// What the saved variables of configuration `c` leave for each key.
proof fn lemma_saved_values(c: ConfigView)
    ensures
        env_value(saved_pairs(c), "DOMAIN"@) == Some(c.domain),
        env_value(saved_pairs(c), "PRIMARY_EMAIL"@) == Some(c.primary_email),
        env_value(saved_pairs(c), "AGENT_NAME"@) == c.agent_name,
        env_value(saved_pairs(c), "IMAP_HOST"@) == c.imap_host,
        env_value(saved_pairs(c), "IMAP_PORT"@) == (match c.imap_port {
            Some(n) => Some(decimal_text(n as nat)),
            None => None,
        }),
        env_value(saved_pairs(c), "IMAP_USER"@) == c.imap_user,
        env_value(saved_pairs(c), "IMAP_PASS"@) == (if secret_present(c.imap_pass) {
            c.imap_pass
        } else {
            None
        }),
        env_value(saved_pairs(c), "SMTP_HOST"@) == c.smtp_host,
        env_value(saved_pairs(c), "SMTP_PORT"@) == (match c.smtp_port {
            Some(n) => Some(decimal_text(n as nat)),
            None => None,
        }),
        env_value(saved_pairs(c), "SMTP_USER"@) == c.smtp_user,
        env_value(saved_pairs(c), "SMTP_PASS"@) == (if secret_present(c.smtp_pass) {
            c.smtp_pass
        } else {
            None
        }),
{
    lemma_config_keys();
    let head = seq![("DOMAIN"@, c.domain), ("PRIMARY_EMAIL"@, c.primary_email)];
    let agent = opt_pair("AGENT_NAME"@, c.agent_name);
    let local = local_pairs();
    let i1 = opt_pair("IMAP_HOST"@, c.imap_host);
    let i2 = port_pair("IMAP_PORT"@, c.imap_port);
    let i3 = opt_pair("IMAP_USER"@, c.imap_user);
    let i4 = secret_pair("IMAP_PASS"@, c.imap_pass);
    let s1 = opt_pair("SMTP_HOST"@, c.smtp_host);
    let s2 = port_pair("SMTP_PORT"@, c.smtp_port);
    let s3 = opt_pair("SMTP_USER"@, c.smtp_user);
    let s4 = secret_pair("SMTP_PASS"@, c.smtp_pass);
    lemma_env_value_append(i1, i2);
    lemma_env_value_append(i1 + i2, i3);
    lemma_env_value_append(i1 + i2 + i3, i4);
    lemma_env_value_append(s1, s2);
    lemma_env_value_append(s1 + s2, s3);
    lemma_env_value_append(s1 + s2 + s3, s4);
    lemma_env_value_append(head, agent);
    lemma_env_value_append(head + agent, local);
    lemma_env_value_append(head + agent + local, imap_pairs(c));
    lemma_env_value_append(head + agent + local + imap_pairs(c), smtp_pairs(c));
    reveal_with_fuel(env_value, 4);
    assert(head.drop_first().drop_first().len() == 0);
    assert(local.drop_first().drop_first().drop_first().len() == 0);
    assert(head[0].0 == "DOMAIN"@ && head[1].0 == "PRIMARY_EMAIL"@);
    assert(local[0].0 == "PORT"@ && local[1].0 == "SMTP_INBOUND_PORT"@ && local[2].0
        == "DATABASE_URL"@);
    lemma_part_values();
}

/// Saving then loading back: a configuration saved by the setup wizard,
/// whose `.env` file is then loaded into an environment that sets none of
/// its variables, is shown as it was saved (ports defaulted where none was
/// saved, passwords hidden behind whether a non-blank one was saved).
pub proof fn law_saved_config_reloads(payload: ConfigDto, fallback_domain: Seq<char>)
    requires
        storable_config(payload@),
    ensures
        shown_config(env_of(env_file_entries_spec(saved_text(payload@))), fallback_domain)
            == reloaded_config(payload@),
{
    let c = payload@;
    let ps = saved_pairs(c);
    let ls = saved_lines(c);
    lemma_saved_pairs_ok(c);
    assert forall|i: int| 0 <= i < ls.len() implies !(#[trigger] ls[i]).contains('\n')
        && ls[i].len() > 0 && !is_white_space(ls[i][0]) by {
        assert(pair_ok(ps[i]));
        lemma_assignment_line(ps[i].0, ps[i].1);
    }
    assert(ls.len() > 0);
    lemma_lines_of_join(ls);
    lemma_read_back_entries(ls);
    lemma_entries_of_pairs(ps);
    let es = env_file_entries_spec(saved_text(c));
    assert(es == ps.map_values(|kv: (Seq<char>, Seq<char>)| (kv.0, value_read_back(kv.1))));
    let keys = seq![
        "DOMAIN"@,
        "PRIMARY_EMAIL"@,
        "AGENT_NAME"@,
        "IMAP_HOST"@,
        "IMAP_PORT"@,
        "IMAP_USER"@,
        "IMAP_PASS"@,
        "SMTP_HOST"@,
        "SMTP_PORT"@,
        "SMTP_USER"@,
        "SMTP_PASS"@,
    ];
    assert forall|j: int| 0 <= j < keys.len() implies #[trigger] env_value(es, keys[j]) == (
    match env_value(ps, keys[j]) {
        Some(v) => Some(value_read_back(v)),
        None => None,
    }) by {
        lemma_env_value_read_back(ps, keys[j]);
    }
    lemma_saved_values(c);
    lemma_plain_read_back(c.domain);
    lemma_plain_read_back(c.primary_email);
    if let Some(v) = c.agent_name {
        lemma_plain_read_back(v);
    }
    if let Some(v) = c.imap_host {
        lemma_plain_read_back(v);
    }
    if let Some(v) = c.imap_user {
        lemma_plain_read_back(v);
    }
    if let Some(v) = c.smtp_host {
        lemma_plain_read_back(v);
    }
    if let Some(v) = c.smtp_user {
        lemma_plain_read_back(v);
    }
    if let Some(n) = c.imap_port {
        lemma_decimal_plain(n as nat);
        lemma_plain_read_back(decimal_text(n as nat));
        lemma_parse_decimal_text(n as nat, 65535);
    }
    if let Some(n) = c.smtp_port {
        lemma_decimal_plain(n as nat);
        lemma_plain_read_back(decimal_text(n as nat));
        lemma_parse_decimal_text(n as nat, 65535);
    }
    if let Some(v) = c.imap_pass {
        lemma_secret_read_back(v);
    }
    if let Some(v) = c.smtp_pass {
        lemma_secret_read_back(v);
    }
    assert(env_value(es, keys[0]) == Some(c.domain));
    assert(env_value(es, keys[1]) == Some(c.primary_email));
    assert(env_value(es, keys[2]) == c.agent_name);
    assert(env_value(es, keys[3]) == c.imap_host);
    assert(env_value(es, keys[5]) == c.imap_user);
    assert(env_value(es, keys[7]) == c.smtp_host);
    assert(env_value(es, keys[9]) == c.smtp_user);
    assert(env_port(env_value(es, keys[4]), 993) == match c.imap_port {
        Some(p) => p,
        None => 993u16,
    });
    assert(env_port(env_value(es, keys[8]), 587) == match c.smtp_port {
        Some(p) => p,
        None => 587u16,
    });
    assert(secret_present(env_value(es, keys[6])) == secret_present(c.imap_pass));
    assert(secret_present(env_value(es, keys[10])) == secret_present(c.smtp_pass));
}

} // verus!
