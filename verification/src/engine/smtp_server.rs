//! The inbound SMTP dialogue as a state machine: each received line moves
//! the session to its next state and yields the action the server performs
//! (a reply, a delivery of a finished message, closing or dropping the
//! connection).
use vstd::prelude::*;
use vstd::utf8::encode_utf8;
use crate::db::{InboundEmail, InboundEmailView};
use crate::engine::parser::{parsed_email, EmailParser};
use crate::text::{concat2, opt_view,
    ascii_upper, ascii_upper_seq, is_white_space, lemma_trim_no_edge_ws, trim_end_ws, trim_start_ws, chars_of, concat3, has_prefix, is_ascii_seq, owned, slice_chars,
    str_eq, string_of, string_views, to_uppercase, trim_chars, trim_str, trim_ws,
    unicode_uppercase, vec_eq,
};

verus! {

/// The number of bytes that UTF-8 uses for `c` (`char::len_utf8`).
pub open spec fn utf8_width(c: char) -> int {
    let u = c as u32;
    if u < 0x80 {
        1
    } else if u < 0x800 {
        2
    } else if u < 0x10000 {
        3
    } else {
        4
    }
}

/// The number of characters of `s` that fill exactly its first `b` bytes,
/// or `None` where byte `b` falls inside a character or past the end.
pub open spec fn char_index_of_byte(s: Seq<char>, b: int) -> Option<int>
    decreases s.len(),
{
    if b == 0 {
        Some(0)
    } else if s.len() == 0 || utf8_width(s[0]) > b {
        None
    } else {
        match char_index_of_byte(s.drop_first(), b - utf8_width(s[0])) {
            Some(k) => Some(k + 1),
            None => None,
        }
    }
}

/// Whether `c` is an angle bracket.
pub open spec fn is_angle(c: char) -> bool {
    c == '<' || c == '>'
}

/// `s` without leading angle brackets.
pub open spec fn trim_start_angles(s: Seq<char>) -> Seq<char>
    decreases s.len(),
{
    if s.len() > 0 && is_angle(s[0]) {
        trim_start_angles(s.drop_first())
    } else {
        s
    }
}

/// `s` without trailing angle brackets.
pub open spec fn trim_end_angles(s: Seq<char>) -> Seq<char>
    decreases s.len(),
{
    if s.len() > 0 && is_angle(s.last()) {
        trim_end_angles(s.drop_last())
    } else {
        s
    }
}

/// `s` without angle brackets at either end (`trim_matches` on `<`, `>`).
pub open spec fn trim_angles(s: Seq<char>) -> Seq<char> {
    trim_end_angles(trim_start_angles(s))
}

/// The address given after a `MAIL FROM:` or `RCPT TO:` command word whose
/// byte length is `b`, or `None` where that byte position is not a
/// character boundary of the line.
pub open spec fn command_argument(t: Seq<char>, b: int) -> Option<Seq<char>> {
    match char_index_of_byte(t, b) {
        Some(k) => Some(trim_angles(trim_ws(t.skip(k)))),
        None => None,
    }
}

/// The state of an SMTP session: the envelope sender, the recipients,
/// whether message data is being received, and the data so far.
pub struct SmtpStateView {
    pub from: Seq<char>,
    pub to: Seq<Seq<char>>,
    pub in_data: bool,
    pub data: Seq<char>,
}

/// What the server does after a line.
pub enum SmtpActionView {
    /// Send this reply.
    Reply(Seq<char>),
    /// Nothing to send (a line of message data).
    Silent,
    /// Store the finished message (sender, recipients, data), then send
    /// the queued reply.
    Deliver(Seq<char>, Seq<Seq<char>>, Seq<char>),
    /// Send this reply and end the session.
    Close(Seq<char>),
    /// End the session without a reply.
    Abort,
}

/// The state of a session that has seen no envelope yet.
pub open spec fn fresh_state() -> SmtpStateView {
    SmtpStateView { from: Seq::empty(), to: Seq::empty(), in_data: false, data: Seq::empty() }
}

/// The reply to `EHLO` and `HELO`.
pub open spec fn ehlo_reply(domain: Seq<char>) -> Seq<char> {
    "250-"@ + domain + "\r\n250-8BITMIME\r\n250-SMTPUTF8\r\n250 OK\r\n"@
}

/// The greeting sent when a client connects.
pub open spec fn greeting_text(domain: Seq<char>) -> Seq<char> {
    "220 "@ + domain + " ESMTP AgentBox Mail Ready\r\n"@
}

/// The reply after a delivered message was stored under `msg_id`.
pub open spec fn queued_text(msg_id: Seq<char>) -> Seq<char> {
    "250 2.0.0 Ok: queued as "@ + msg_id + "\r\n"@
}

/// The next state and action of a session in state `st` after the line
/// `line`, where `upper` is the uppercase of the trimmed line.
pub open spec fn smtp_step_spec(
    st: SmtpStateView,
    line: Seq<char>,
    upper: Seq<char>,
    domain: Seq<char>,
) -> (SmtpStateView, SmtpActionView) {
    let t = trim_ws(line);
    if st.in_data {
        if t == "."@ {
            (fresh_state(), SmtpActionView::Deliver(st.from, st.to, st.data))
        } else {
            (SmtpStateView { data: st.data + line, ..st }, SmtpActionView::Silent)
        }
    } else if "EHLO"@.is_prefix_of(upper) || "HELO"@.is_prefix_of(upper) {
        (st, SmtpActionView::Reply(ehlo_reply(domain)))
    } else if "MAIL FROM:"@.is_prefix_of(upper) {
        match command_argument(t, 10) {
            Some(a) => (SmtpStateView { from: a, ..st }, SmtpActionView::Reply("250 2.1.0 Ok\r\n"@)),
            None => (st, SmtpActionView::Abort),
        }
    } else if "RCPT TO:"@.is_prefix_of(upper) {
        match command_argument(t, 8) {
            Some(a) => (
                SmtpStateView { to: st.to.push(a), ..st },
                SmtpActionView::Reply("250 2.1.5 Ok\r\n"@),
            ),
            None => (st, SmtpActionView::Abort),
        }
    } else if upper == "DATA"@ {
        if st.to.len() == 0 {
            (st, SmtpActionView::Reply("503 5.5.1 Error: need RCPT command\r\n"@))
        } else {
            (
                SmtpStateView { in_data: true, data: Seq::empty(), ..st },
                SmtpActionView::Reply("354 End data with <CR><LF>.<CR><LF>\r\n"@),
            )
        }
    } else if upper == "RSET"@ {
        (fresh_state(), SmtpActionView::Reply("250 2.0.0 Ok\r\n"@))
    } else if upper == "NOOP"@ {
        (st, SmtpActionView::Reply("250 2.0.0 Ok\r\n"@))
    } else if upper == "QUIT"@ {
        (st, SmtpActionView::Close("221 2.0.0 Bye\r\n"@))
    } else {
        (st, SmtpActionView::Reply("502 5.5.2 Error: command not recognized\r\n"@))
    }
}

/// The action that the server performs after a line.
pub enum SmtpAction {
    Reply(String),
    Silent,
    Deliver { from: String, to: Vec<String>, data: String },
    Close(String),
    Abort,
}

impl View for SmtpAction {
    type V = SmtpActionView;

    open spec fn view(&self) -> SmtpActionView {
        match self {
            SmtpAction::Reply(r) => SmtpActionView::Reply(r@),
            SmtpAction::Silent => SmtpActionView::Silent,
            SmtpAction::Deliver { from, to, data } => SmtpActionView::Deliver(
                from@,
                string_views(to@),
                data@,
            ),
            SmtpAction::Close(r) => SmtpActionView::Close(r@),
            SmtpAction::Abort => SmtpActionView::Abort,
        }
    }
}

/// One inbound SMTP session.
pub struct SmtpSession {
    pub from_address: String,
    pub to_addresses: Vec<String>,
    pub in_data_mode: bool,
    pub data_buffer: String,
}

impl View for SmtpSession {
    type V = SmtpStateView;

    open spec fn view(&self) -> SmtpStateView {
        SmtpStateView {
            from: self.from_address@,
            to: string_views(self.to_addresses@),
            in_data: self.in_data_mode,
            data: self.data_buffer@,
        }
    }
}

/// Width in bytes of the UTF-8 encoding of `c`.
pub fn utf8_len(c: char) -> (r: usize)
    ensures
        r == utf8_width(c),
{
    let u = c as u32;
    if u < 0x80 {
        1
    } else if u < 0x800 {
        2
    } else if u < 0x10000 {
        3
    } else {
        4
    }
}

/// The position in `v` where its first `b` bytes end, if that is a
/// character boundary.
pub fn char_index_at_byte(v: &Vec<char>, b: usize) -> (r: Option<usize>)
    ensures
        r matches Some(k) ==> k <= v.len() && char_index_of_byte(v@, b as int) == Some(k as int),
        r is None ==> char_index_of_byte(v@, b as int) is None,
{
    let mut k: usize = 0;
    let mut left: usize = b;
    assert(v@.skip(0) =~= v@);
    while left > 0
        invariant
            k <= v.len(),
            left <= b,
            char_index_of_byte(v@, b as int) == (match char_index_of_byte(
                v@.skip(k as int),
                left as int,
            ) {
                Some(j) => Some(j + k),
                None => None,
            }),
        decreases left,
    {
        if k >= v.len() {
            return None;
        }
        let w = utf8_len(v[k]);
        if w > left {
            return None;
        }
        assert(v@.skip(k as int).drop_first() =~= v@.skip(k + 1));
        left = left - w;
        k = k + 1;
    }
    Some(k)
}

/// `v` without angle brackets at either end.
pub fn trim_angle_chars(v: &Vec<char>) -> (r: Vec<char>)
    ensures
        r@ == trim_angles(v@),
{
    let n = v.len();
    let mut i: usize = 0;
    assert(v@.skip(0) =~= v@);
    while i < n && (v[i] == '<' || v[i] == '>')
        invariant
            n == v.len(),
            i <= n,
            trim_start_angles(v@) == trim_start_angles(v@.skip(i as int)),
        decreases n - i,
    {
        assert(v@.skip(i as int).drop_first() =~= v@.skip(i + 1));
        i = i + 1;
    }
    let ghost front = v@.skip(i as int);
    assert(trim_start_angles(v@) == front);
    let mut j: usize = n;
    while j > i && (v[j - 1] == '<' || v[j - 1] == '>')
        invariant
            n == v.len(),
            i <= j <= n,
            front == v@.skip(i as int),
            trim_end_angles(front) == trim_end_angles(v@.subrange(i as int, j as int)),
        decreases j,
    {
        assert(v@.subrange(i as int, j as int).drop_last() =~= v@.subrange(i as int, j - 1));
        j = j - 1;
    }
    assert(front =~= v@.subrange(i as int, n as int));
    slice_chars(v, i, j)
}

/// The greeting sent when a client connects.
pub fn greeting(domain: &str) -> (r: String)
    ensures
        r@ == greeting_text(domain@),
{
    concat3("220 ", domain, " ESMTP AgentBox Mail Ready\r\n")
}

/// The reply after a delivered message was stored under `msg_id`.
pub fn queued_reply(msg_id: &str) -> (r: String)
    ensures
        r@ == queued_text(msg_id@),
{
    concat3("250 2.0.0 Ok: queued as ", msg_id, "\r\n")
}

impl SmtpSession {
    /// A session that has seen no envelope yet.
    pub fn new() -> (s: SmtpSession)
        ensures
            s@ == fresh_state(),
    {
        let s = SmtpSession {
            from_address: String::new(),
            to_addresses: Vec::new(),
            in_data_mode: false,
            data_buffer: String::new(),
        };
        assert(s@.to =~= Seq::<Seq<char>>::empty());
        s
    }

    /// Handles one received line (with its line ending) and says what to do.
    /// The command word is compared in uppercase; the addresses of
    /// `MAIL FROM:` and `RCPT TO:` are taken from the line after the
    /// command's bytes, trimmed and without angle brackets.
    pub fn step(&mut self, line: &str, domain: &str) -> (r: SmtpAction)
        ensures
            (final(self)@, r@) == smtp_step_spec(
                old(self)@,
                line@,
                unicode_uppercase(trim_ws(line@)),
                domain@,
            ),
            is_ascii_seq(trim_ws(line@)) ==> (final(self)@, r@) == smtp_step_spec(
                old(self)@,
                line@,
                ascii_upper_seq(trim_ws(line@)),
                domain@,
            ),
    {
        let lv = chars_of(line);
        let tv = trim_chars(&lv);
        let ts = string_of(&tv);
        if self.in_data_mode {
            if str_eq(ts.as_str(), ".") {
                let mut from = String::new();
                let mut to: Vec<String> = Vec::new();
                let mut data = String::new();
                core::mem::swap(&mut from, &mut self.from_address);
                core::mem::swap(&mut to, &mut self.to_addresses);
                core::mem::swap(&mut data, &mut self.data_buffer);
                self.in_data_mode = false;
                assert(string_views(self.to_addresses@) =~= Seq::<Seq<char>>::empty());
                return SmtpAction::Deliver { from, to, data };
            } else {
                self.data_buffer.append(line);
                return SmtpAction::Silent;
            }
        }
        let upper_s = to_uppercase(ts.as_str());
        let upper = chars_of(upper_s.as_str());
        let ehlo = chars_of("EHLO");
        let helo = chars_of("HELO");
        let mail = chars_of("MAIL FROM:");
        let rcpt = chars_of("RCPT TO:");
        if has_prefix(&upper, &ehlo) || has_prefix(&upper, &helo) {
            let a = concat3("250-", domain, "\r\n250-8BITMIME\r\n250-SMTPUTF8\r\n250 OK\r\n");
            SmtpAction::Reply(a)
        } else if has_prefix(&upper, &mail) {
            match char_index_at_byte(&tv, 10) {
                Some(k) => {
                    let rest = slice_chars(&tv, k, tv.len());
                    assert(rest@ =~= tv@.skip(k as int));
                    let rt = trim_chars(&rest);
                    let addr = trim_angle_chars(&rt);
                    self.from_address = string_of(&addr);
                    SmtpAction::Reply(owned("250 2.1.0 Ok\r\n"))
                },
                None => SmtpAction::Abort,
            }
        } else if has_prefix(&upper, &rcpt) {
            match char_index_at_byte(&tv, 8) {
                Some(k) => {
                    let rest = slice_chars(&tv, k, tv.len());
                    assert(rest@ =~= tv@.skip(k as int));
                    let rt = trim_chars(&rest);
                    let addr = trim_angle_chars(&rt);
                    self.to_addresses.push(string_of(&addr));
                    assert(string_views(self.to_addresses@) =~= string_views(
                        old(self).to_addresses@,
                    ).push(addr@));
                    SmtpAction::Reply(owned("250 2.1.5 Ok\r\n"))
                },
                None => SmtpAction::Abort,
            }
        } else if str_eq(upper_s.as_str(), "DATA") {
            if self.to_addresses.len() == 0 {
                SmtpAction::Reply(owned("503 5.5.1 Error: need RCPT command\r\n"))
            } else {
                self.in_data_mode = true;
                self.data_buffer = String::new();
                SmtpAction::Reply(owned("354 End data with <CR><LF>.<CR><LF>\r\n"))
            }
        } else if str_eq(upper_s.as_str(), "RSET") {
            self.from_address = String::new();
            self.to_addresses = Vec::new();
            self.data_buffer = String::new();
            self.in_data_mode = false;
            assert(string_views(self.to_addresses@) =~= Seq::<Seq<char>>::empty());
            SmtpAction::Reply(owned("250 2.0.0 Ok\r\n"))
        } else if str_eq(upper_s.as_str(), "NOOP") {
            SmtpAction::Reply(owned("250 2.0.0 Ok\r\n"))
        } else if str_eq(upper_s.as_str(), "QUIT") {
            SmtpAction::Close(owned("221 2.0.0 Bye\r\n"))
        } else {
            SmtpAction::Reply(owned("502 5.5.2 Error: command not recognized\r\n"))
        }
    }
}

// ---------------------------------------------------------------------------
// Laws of the dialogue
// ---------------------------------------------------------------------------

/// One step where the command word is uppercased as ASCII (what `step` does
/// for lines whose trimmed text is ASCII).
pub open spec fn step_ascii(st: SmtpStateView, line: Seq<char>, domain: Seq<char>) -> (
    SmtpStateView,
    SmtpActionView,
) {
    smtp_step_spec(st, line, ascii_upper_seq(trim_ws(line)), domain)
}

/// The state after the lines `lines`, and the action of each line.
pub open spec fn run_lines(st: SmtpStateView, lines: Seq<Seq<char>>, domain: Seq<char>) -> (
    SmtpStateView,
    Seq<SmtpActionView>,
)
    decreases lines.len(),
{
    if lines.len() == 0 {
        (st, Seq::empty())
    } else {
        let first = step_ascii(st, lines[0], domain);
        let rest = run_lines(first.0, lines.drop_first(), domain);
        (rest.0, seq![first.1] + rest.1)
    }
}

/// The concatenation of data lines.
pub open spec fn concat_lines(lines: Seq<Seq<char>>) -> Seq<char>
    decreases lines.len(),
{
    if lines.len() == 0 {
        Seq::empty()
    } else {
        lines[0] + concat_lines(lines.drop_first())
    }
}

/// An address that the angle brackets of a command can enclose: it neither
/// starts nor ends with an angle bracket.
pub open spec fn enclosable(a: Seq<char>) -> bool {
    a.len() > 0 ==> !is_angle(a[0]) && !is_angle(a.last())
}

/// The line `MAIL FROM:<a>` with its line ending.
pub open spec fn mail_line(a: Seq<char>) -> Seq<char> {
    "MAIL FROM:<"@ + a + ">\r\n"@
}

/// The line `RCPT TO:<a>` with its line ending.
pub open spec fn rcpt_line(a: Seq<char>) -> Seq<char> {
    "RCPT TO:<"@ + a + ">\r\n"@
}

/// One `RCPT TO:` line per recipient.
pub open spec fn rcpt_lines(rs: Seq<Seq<char>>) -> Seq<Seq<char>> {
    rs.map_values(|r: Seq<char>| rcpt_line(r))
}

/// A whole mail transaction: sender, recipients, `DATA`, the message lines
/// and the final `.` line.
pub open spec fn transaction_lines(a: Seq<char>, rs: Seq<Seq<char>>, body: Seq<Seq<char>>) -> Seq<
    Seq<char>,
> {
    seq![mail_line(a)] + rcpt_lines(rs) + seq!["DATA\r\n"@] + body + seq![".\r\n"@]
}

proof fn lemma_run_concat(st: SmtpStateView, x: Seq<Seq<char>>, y: Seq<Seq<char>>, d: Seq<char>)
    ensures
        run_lines(st, x + y, d).0 == run_lines(run_lines(st, x, d).0, y, d).0,
        run_lines(st, x + y, d).1 == run_lines(st, x, d).1 + run_lines(
            run_lines(st, x, d).0,
            y,
            d,
        ).1,
    decreases x.len(),
{
    if x.len() == 0 {
        assert(x + y =~= y);
    } else {
        assert((x + y)[0] == x[0]);
        assert((x + y).drop_first() =~= x.drop_first() + y);
        let s1 = step_ascii(st, x[0], d).0;
        lemma_run_concat(s1, x.drop_first(), y, d);
        let a = step_ascii(st, x[0], d).1;
        assert(seq![a] + run_lines(s1, x.drop_first(), d).1 + run_lines(
            run_lines(s1, x.drop_first(), d).0,
            y,
            d,
        ).1 =~= seq![a] + (run_lines(s1, x.drop_first(), d).1 + run_lines(
            run_lines(s1, x.drop_first(), d).0,
            y,
            d,
        ).1));
    }
}

/// A text that starts and ends with non-space characters, followed by CR LF,
/// trims to itself.
proof fn lemma_trim_crlf(s: Seq<char>)
    requires
        s.len() > 0,
        !is_white_space(s[0]),
        !is_white_space(s.last()),
    ensures
        trim_ws(s + "\r\n"@) == s,
{
    reveal_strlit("\r\n");
    let w = s + "\r\n"@;
    assert(w[0] == s[0]);
    assert(trim_start_ws(w) == w);
    assert("\r\n"@ =~= seq!['\r', '\n']);
    assert(w.last() == '\n');
    assert(is_white_space('\n'));
    assert(w.drop_last() =~= s + seq!['\r']);
    assert(trim_end_ws(w) == trim_end_ws(s + seq!['\r']));
    assert((s + seq!['\r']).last() == '\r');
    assert(is_white_space('\r'));
    assert((s + seq!['\r']).drop_last() =~= s);
    assert(trim_end_ws(s + seq!['\r']) == trim_end_ws(s));
    assert(trim_end_ws(s) == s);
}

/// In a text whose first `b` characters are ASCII, byte `b` ends character
/// `b`.
proof fn lemma_ascii_byte_index(s: Seq<char>, b: int)
    requires
        0 <= b <= s.len(),
        forall|i: int| 0 <= i < b ==> (#[trigger] s[i] as u32) < 128,
    ensures
        char_index_of_byte(s, b) == Some(b),
    decreases b,
{
    if b > 0 {
        assert(utf8_width(s[0]) == 1);
        assert forall|i: int| 0 <= i < b - 1 implies (#[trigger] s.drop_first()[i] as u32) < 128 by {
            assert(s.drop_first()[i] == s[i + 1]);
        }
        lemma_ascii_byte_index(s.drop_first(), b - 1);
    }
}

/// An enclosable address inside angle brackets comes out unchanged.
proof fn lemma_trim_angles_enclosed(a: Seq<char>)
    requires
        enclosable(a),
    ensures
        trim_angles("<"@ + a + ">"@) == a,
{
    reveal_strlit("<");
    reveal_strlit(">");
    let w = "<"@ + a + ">"@;
    assert(w[0] == '<');
    assert(w.drop_first() =~= a + ">"@);
    let v = a + ">"@;
    if a.len() > 0 {
        assert(v[0] == a[0]);
        assert(trim_start_angles(v) == v);
    } else {
        assert(v.drop_first() =~= Seq::<char>::empty());
    }
    assert(trim_start_angles(w) == trim_start_angles(v));
    assert(v.drop_last() =~= a);
    if a.len() > 0 {
        assert(trim_end_angles(a) == a);
        assert(trim_end_angles(v) == a);
    } else {
        assert(v[0] == '>');
        assert(v.drop_first() =~= Seq::<char>::empty());
        assert(trim_start_angles(v.drop_first()) == v.drop_first());
        assert(trim_start_angles(v) =~= Seq::<char>::empty());
    }
}

/// The state after a `MAIL FROM:` line outside message data.
proof fn lemma_mail_step(st: SmtpStateView, a: Seq<char>, d: Seq<char>)
    requires
        !st.in_data,
        enclosable(a),
    ensures
        step_ascii(st, mail_line(a), d) == (
            SmtpStateView { from: a, ..st },
            SmtpActionView::Reply("250 2.1.0 Ok\r\n"@),
        ),
{
    reveal_strlit("MAIL FROM:<");
    reveal_strlit("\r\n");
    reveal_strlit("<");
    reveal_strlit("MAIL FROM:");
    reveal_strlit("EHLO");
    reveal_strlit("HELO");
    reveal_strlit(">");
    reveal_strlit(">\r\n");
    let t = "MAIL FROM:<"@ + a + ">"@;
    assert(mail_line(a) =~= t + "\r\n"@);
    assert(t[0] == 'M');
    assert(t.last() == '>');
    lemma_trim_crlf(t);
    let u = ascii_upper_seq(t);
    assert forall|i: int| 0 <= i < 10 implies u[i] == "MAIL FROM:"@[i] by {
        assert(t[i] == "MAIL FROM:"@[i]);
    }
    assert("MAIL FROM:"@.is_prefix_of(u)) by {
        assert(u.subrange(0, 10) =~= "MAIL FROM:"@);
    }
    assert(!"EHLO"@.is_prefix_of(u)) by {
        if "EHLO"@.is_prefix_of(u) {
            assert(u[0] == "EHLO"@[0]);
        }
    }
    assert(!"HELO"@.is_prefix_of(u)) by {
        if "HELO"@.is_prefix_of(u) {
            assert(u[0] == "HELO"@[0]);
        }
    }
    assert forall|i: int| 0 <= i < 10 implies (#[trigger] t[i] as u32) < 128 by {
        assert(t[i] == "MAIL FROM:<"@[i]);
    }
    lemma_ascii_byte_index(t, 10);
    let rest = t.skip(10);
    assert(rest =~= "<"@ + a + ">"@);
    assert(rest[0] == '<' && rest.last() == '>');
    lemma_trim_no_edge_ws(rest);
    lemma_trim_angles_enclosed(a);
}

/// The state after a `RCPT TO:` line outside message data.
proof fn lemma_rcpt_step(st: SmtpStateView, a: Seq<char>, d: Seq<char>)
    requires
        !st.in_data,
        enclosable(a),
    ensures
        step_ascii(st, rcpt_line(a), d) == (
            SmtpStateView { to: st.to.push(a), ..st },
            SmtpActionView::Reply("250 2.1.5 Ok\r\n"@),
        ),
{
    reveal_strlit("RCPT TO:<");
    reveal_strlit("\r\n");
    reveal_strlit("<");
    reveal_strlit("RCPT TO:");
    reveal_strlit("MAIL FROM:");
    reveal_strlit("EHLO");
    reveal_strlit("HELO");
    reveal_strlit(">");
    reveal_strlit(">\r\n");
    let t = "RCPT TO:<"@ + a + ">"@;
    assert(rcpt_line(a) =~= t + "\r\n"@);
    assert(t[0] == 'R');
    assert(t.last() == '>');
    lemma_trim_crlf(t);
    let u = ascii_upper_seq(t);
    assert forall|i: int| 0 <= i < 8 implies u[i] == "RCPT TO:"@[i] by {
        assert(t[i] == "RCPT TO:"@[i]);
    }
    assert("RCPT TO:"@.is_prefix_of(u)) by {
        assert(u.subrange(0, 8) =~= "RCPT TO:"@);
    }
    assert(!"EHLO"@.is_prefix_of(u)) by {
        if "EHLO"@.is_prefix_of(u) {
            assert(u[0] == "EHLO"@[0]);
        }
    }
    assert(!"HELO"@.is_prefix_of(u)) by {
        if "HELO"@.is_prefix_of(u) {
            assert(u[0] == "HELO"@[0]);
        }
    }
    assert(!"MAIL FROM:"@.is_prefix_of(u)) by {
        if "MAIL FROM:"@.is_prefix_of(u) {
            assert(u[0] == "MAIL FROM:"@[0]);
        }
    }
    assert forall|i: int| 0 <= i < 8 implies (#[trigger] t[i] as u32) < 128 by {
        assert(t[i] == "RCPT TO:<"@[i]);
    }
    lemma_ascii_byte_index(t, 8);
    let rest = t.skip(8);
    assert(rest =~= "<"@ + a + ">"@);
    assert(rest[0] == '<' && rest.last() == '>');
    lemma_trim_no_edge_ws(rest);
    lemma_trim_angles_enclosed(a);
}

proof fn lemma_run_rcpts(st: SmtpStateView, rs: Seq<Seq<char>>, d: Seq<char>)
    requires
        !st.in_data,
        forall|i: int| 0 <= i < rs.len() ==> enclosable(#[trigger] rs[i]),
    ensures
        run_lines(st, rcpt_lines(rs), d).0 == (SmtpStateView { to: st.to + rs, ..st }),
    decreases rs.len(),
{
    if rs.len() == 0 {
        assert(st.to + rs =~= st.to);
        assert(rcpt_lines(rs) =~= Seq::<Seq<char>>::empty());
    } else {
        assert(rcpt_lines(rs)[0] == rcpt_line(rs[0]));
        assert(rcpt_lines(rs).drop_first() =~= rcpt_lines(rs.drop_first()));
        lemma_rcpt_step(st, rs[0], d);
        let s1 = SmtpStateView { to: st.to.push(rs[0]), ..st };
        assert forall|i: int| 0 <= i < rs.drop_first().len() implies enclosable(
            #[trigger] rs.drop_first()[i],
        ) by {
            assert(rs.drop_first()[i] == rs[i + 1]);
        }
        lemma_run_rcpts(s1, rs.drop_first(), d);
        assert(st.to.push(rs[0]) + rs.drop_first() =~= st.to + rs);
    }
}

proof fn lemma_run_body(st: SmtpStateView, body: Seq<Seq<char>>, d: Seq<char>)
    requires
        st.in_data,
        forall|i: int| 0 <= i < body.len() ==> trim_ws(#[trigger] body[i]) != "."@,
    ensures
        run_lines(st, body, d).0 == (SmtpStateView { data: st.data + concat_lines(body), ..st }),
    decreases body.len(),
{
    if body.len() == 0 {
        assert(st.data + concat_lines(body) =~= st.data);
    } else {
        let s1 = SmtpStateView { data: st.data + body[0], ..st };
        assert(step_ascii(st, body[0], d).0 == s1);
        assert forall|i: int| 0 <= i < body.drop_first().len() implies trim_ws(
            #[trigger] body.drop_first()[i],
        ) != "."@ by {
            assert(body.drop_first()[i] == body[i + 1]);
        }
        lemma_run_body(s1, body.drop_first(), d);
        assert(st.data + body[0] + concat_lines(body.drop_first()) =~= st.data + concat_lines(
            body,
        ));
    }
}

/// A complete transaction delivers exactly what it carried: after
/// `MAIL FROM:<a>`, one `RCPT TO:<r>` per recipient (at least one), `DATA`,
/// the message lines (none of which trims to `.`) and `.`, the last action
/// delivers sender `a`, the recipients in order and the message lines
/// concatenated, and the session is back in its fresh state.
pub proof fn law_transaction_delivers(
    a: Seq<char>,
    rs: Seq<Seq<char>>,
    body: Seq<Seq<char>>,
    domain: Seq<char>,
)
    requires
        enclosable(a),
        rs.len() > 0,
        forall|i: int| 0 <= i < rs.len() ==> enclosable(#[trigger] rs[i]),
        forall|i: int| 0 <= i < body.len() ==> trim_ws(#[trigger] body[i]) != "."@,
    ensures
        run_lines(fresh_state(), transaction_lines(a, rs, body), domain).0 == fresh_state(),
        run_lines(fresh_state(), transaction_lines(a, rs, body), domain).1.last()
            == SmtpActionView::Deliver(a, rs, concat_lines(body)),
{
    let d = domain;
    let st0 = fresh_state();
    let m = seq![mail_line(a)];
    let rl = rcpt_lines(rs);
    let dl = seq!["DATA\r\n"@];
    let fl = seq![".\r\n"@];
    assert(transaction_lines(a, rs, body) == (((m + rl) + dl) + body) + fl);
    // MAIL FROM
    lemma_mail_step(st0, a, d);
    let st1 = SmtpStateView { from: a, ..st0 };
    assert(run_lines(st0, m, d).0 == st1) by {
        assert(m[0] == mail_line(a));
        assert(m.drop_first() =~= Seq::<Seq<char>>::empty());
        assert(run_lines(st1, m.drop_first(), d).0 == st1);
    }
    // RCPT TO
    lemma_run_rcpts(st1, rs, d);
    let st2 = SmtpStateView { to: st1.to + rs, ..st1 };
    assert(st1.to + rs =~= rs);
    lemma_run_concat(st0, m, rl, d);
    assert(run_lines(st0, m + rl, d).0 == st2);
    // DATA
    reveal_strlit("DATA\r\n");
    reveal_strlit("DATA");
    reveal_strlit("EHLO");
    reveal_strlit("HELO");
    reveal_strlit("MAIL FROM:");
    reveal_strlit("RCPT TO:");
    reveal_strlit("\r\n");
    let dt = "DATA"@;
    assert("DATA\r\n"@ =~= dt + "\r\n"@);
    lemma_trim_crlf(dt);
    assert(ascii_upper_seq(dt) =~= dt);
    assert(!"EHLO"@.is_prefix_of(dt)) by {
        if "EHLO"@.is_prefix_of(dt) {
            assert(dt[0] == "EHLO"@[0]);
        }
    }
    assert(!"HELO"@.is_prefix_of(dt)) by {
        if "HELO"@.is_prefix_of(dt) {
            assert(dt[0] == "HELO"@[0]);
        }
    }
    let st3 = SmtpStateView { in_data: true, data: Seq::empty(), ..st2 };
    assert(step_ascii(st2, "DATA\r\n"@, d).0 == st3);
    assert(run_lines(st2, dl, d).0 == st3) by {
        assert(dl[0] == "DATA\r\n"@);
        assert(dl.drop_first() =~= Seq::<Seq<char>>::empty());
        assert(run_lines(st3, dl.drop_first(), d).0 == st3);
    }
    lemma_run_concat(st0, m + rl, dl, d);
    assert(run_lines(st0, (m + rl) + dl, d).0 == st3);
    // message lines
    lemma_run_body(st3, body, d);
    let st4 = SmtpStateView { data: st3.data + concat_lines(body), ..st3 };
    assert(st3.data + concat_lines(body) =~= concat_lines(body));
    lemma_run_concat(st0, (m + rl) + dl, body, d);
    assert(run_lines(st0, ((m + rl) + dl) + body, d).0 == st4);
    // the final dot
    reveal_strlit(".\r\n");
    reveal_strlit(".");
    assert(".\r\n"@ =~= "."@ + "\r\n"@);
    lemma_trim_crlf("."@);
    assert(step_ascii(st4, ".\r\n"@, d) == (
        fresh_state(),
        SmtpActionView::Deliver(a, rs, concat_lines(body)),
    ));
    assert(fl[0] == ".\r\n"@);
    assert(fl.drop_first() =~= Seq::<Seq<char>>::empty());
    assert(run_lines(fresh_state(), fl.drop_first(), d) == (fresh_state(), Seq::<SmtpActionView>::empty()));
    let last = run_lines(st4, fl, d);
    assert(last.0 == fresh_state());
    assert(last.1 =~= seq![SmtpActionView::Deliver(a, rs, concat_lines(body))]);
    lemma_run_concat(st0, ((m + rl) + dl) + body, fl, d);
    let whole = run_lines(st0, ((m + rl) + dl) + body + fl, d);
    assert(whole.1.last() == last.1.last());
}

/// Message data is never read as a command: in data mode every line that
/// does not trim to `.` is appended to the data verbatim and answered with
/// nothing, whatever command it spells.
pub proof fn law_data_lines_are_not_commands(
    st: SmtpStateView,
    line: Seq<char>,
    upper: Seq<char>,
    domain: Seq<char>,
)
    requires
        st.in_data,
        trim_ws(line) != "."@,
    ensures
        smtp_step_spec(st, line, upper, domain) == (
            SmtpStateView { data: st.data + line, ..st },
            SmtpActionView::Silent,
        ),
{
}

/// `DATA` before any recipient is refused and changes nothing.
pub proof fn law_data_needs_recipient(st: SmtpStateView, line: Seq<char>, domain: Seq<char>)
    requires
        !st.in_data,
        st.to.len() == 0,
        ascii_upper_seq(trim_ws(line)) == "DATA"@,
    ensures
        step_ascii(st, line, domain) == (
            st,
            SmtpActionView::Reply("503 5.5.1 Error: need RCPT command\r\n"@),
        ),
{
    reveal_strlit("DATA");
    reveal_strlit("EHLO");
    reveal_strlit("HELO");
    reveal_strlit("MAIL FROM:");
    reveal_strlit("RCPT TO:");
    let u = ascii_upper_seq(trim_ws(line));
    assert(!"EHLO"@.is_prefix_of(u)) by {
        if "EHLO"@.is_prefix_of(u) {
            assert(u[0] == "EHLO"@[0]);
        }
    }
    assert(!"HELO"@.is_prefix_of(u)) by {
        if "HELO"@.is_prefix_of(u) {
            assert(u[0] == "HELO"@[0]);
        }
    }
}

/// `RSET` outside message data forgets the whole envelope.
pub proof fn law_rset_forgets_envelope(st: SmtpStateView, line: Seq<char>, domain: Seq<char>)
    requires
        !st.in_data,
        ascii_upper_seq(trim_ws(line)) == "RSET"@,
    ensures
        step_ascii(st, line, domain) == (fresh_state(), SmtpActionView::Reply("250 2.0.0 Ok\r\n"@)),
{
    reveal_strlit("RSET");
    reveal_strlit("DATA");
    reveal_strlit("EHLO");
    reveal_strlit("HELO");
    reveal_strlit("MAIL FROM:");
    reveal_strlit("RCPT TO:");
    let u = ascii_upper_seq(trim_ws(line));
    assert(!"EHLO"@.is_prefix_of(u)) by {
        if "EHLO"@.is_prefix_of(u) {
            assert(u[0] == "EHLO"@[0]);
        }
    }
    assert(!"HELO"@.is_prefix_of(u)) by {
        if "HELO"@.is_prefix_of(u) {
            assert(u[0] == "HELO"@[0]);
        }
    }
    assert(u != "DATA"@) by {
        assert(u[0] != "DATA"@[0]);
    }
}

// ---------------------------------------------------------------------------
// The stored form of a delivered message
// ---------------------------------------------------------------------------

/// The inbound email of a message delivered over SMTP with envelope sender
/// `from`, recipients `to` and data `raw`: the fields of the parsed MIME
/// message where it parses (its first recipient, else the first envelope
/// recipient, else `agent@<domain>`), or else the envelope with the data as
/// plain text under the subject `Inbound SMTP Email`.
pub open spec fn smtp_email(
    from: Seq<char>,
    to: Seq<Seq<char>>,
    raw: Seq<char>,
    domain: Seq<char>,
) -> InboundEmailView {
    let fallback = if to.len() > 0 {
        to[0]
    } else {
        "agent@"@ + domain
    };
    match parsed_email(encode_utf8(raw)) {
        Some(p) => InboundEmailView {
            from: p.from,
            to: if p.to.len() > 0 {
                p.to[0]
            } else {
                fallback
            },
            subject: p.subject,
            body_text: p.body_text,
            body_html: p.body_html,
            raw_mime: Some(raw),
        },
        None => InboundEmailView {
            from: from,
            to: fallback,
            subject: Some("Inbound SMTP Email"@),
            body_text: Some(raw),
            body_html: None,
            raw_mime: Some(raw),
        },
    }
}

/// The inbound email of an SMTP delivery.
pub fn resolve_smtp_email(
    from_address: &str,
    to_addresses: &Vec<String>,
    raw_mime: &str,
    domain: &str,
) -> (r: InboundEmail)
    ensures
        r@ == smtp_email(from_address@, string_views(to_addresses@), raw_mime@, domain@),
{
    let fallback = if to_addresses.len() > 0 {
        owned(to_addresses[0].as_str())
    } else {
        concat2("agent@", domain)
    };
    match EmailParser::parse_mime(raw_mime.as_bytes()) {
        Some(parsed) => {
            let to = if parsed.to.len() > 0 {
                owned(parsed.to[0].as_str())
            } else {
                fallback
            };
            InboundEmail {
                from: parsed.from,
                to,
                subject: parsed.subject,
                body_text: parsed.body_text,
                body_html: parsed.body_html,
                raw_mime: Some(owned(raw_mime)),
            }
        },
        None => InboundEmail {
            from: owned(from_address),
            to: fallback,
            subject: Some(owned("Inbound SMTP Email")),
            body_text: Some(owned(raw_mime)),
            body_html: None,
            raw_mime: Some(owned(raw_mime)),
        },
    }
}

/// The display name of an inbox made for mail received over SMTP.
pub fn smtp_inbox_display_name() -> (r: String)
    ensures
        r@ == "Auto-Provisioned SMTP Inbox"@,
{
    owned("Auto-Provisioned SMTP Inbox")
}

} // verus!
