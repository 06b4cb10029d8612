//! The fields of an email read from its raw MIME bytes, and the Base64 form
//! of its attachments.
use vstd::prelude::*;
use crate::bindings::{
    mime_attachments, mime_body_html, mime_body_text, mime_from, mime_parses, mime_subject,
    mime_to, opt_views, MimeAddressList, MimeAddressListView, MimeAttachment,
    MimeAttachmentView, MimeMessage,
};
use crate::text::{
    concat2, concat3, opt_view, owned, push_char, string_views, text_or_empty, utf8_lossy,
    utf8_lossy_text,
};

verus! {

/// An attachment of a parsed email.
pub struct ParsedAttachment {
    pub filename: String,
    pub content_type: String,
    pub size_bytes: usize,
    pub data_base64: Option<String>,
}

/// The content of a `ParsedAttachment`.
pub struct ParsedAttachmentView {
    pub filename: Seq<char>,
    pub content_type: Seq<char>,
    pub size_bytes: int,
    pub data_base64: Option<Seq<char>>,
}

impl View for ParsedAttachment {
    type V = ParsedAttachmentView;

    open spec fn view(&self) -> ParsedAttachmentView {
        ParsedAttachmentView {
            filename: self.filename@,
            content_type: self.content_type@,
            size_bytes: self.size_bytes as int,
            data_base64: opt_view(self.data_base64),
        }
    }
}

/// The fields of a parsed email.
pub struct ParsedEmailData {
    pub from: String,
    pub to: Vec<String>,
    pub subject: Option<String>,
    pub body_text: Option<String>,
    pub body_html: Option<String>,
    pub raw_mime: String,
    pub attachments: Vec<ParsedAttachment>,
}

/// The content of a `ParsedEmailData`.
pub struct ParsedEmailView {
    pub from: Seq<char>,
    pub to: Seq<Seq<char>>,
    pub subject: Option<Seq<char>>,
    pub body_text: Option<Seq<char>>,
    pub body_html: Option<Seq<char>>,
    pub raw_mime: Seq<char>,
    pub attachments: Seq<ParsedAttachmentView>,
}

impl View for ParsedEmailData {
    type V = ParsedEmailView;

    open spec fn view(&self) -> ParsedEmailView {
        ParsedEmailView {
            from: self.from@,
            to: string_views(self.to@),
            subject: opt_view(self.subject),
            body_text: opt_view(self.body_text),
            body_html: opt_view(self.body_html),
            raw_mime: self.raw_mime@,
            attachments: self.attachments@.map_values(|a: ParsedAttachment| a@),
        }
    }
}

// ---------------------------------------------------------------------------
// Base64
// ---------------------------------------------------------------------------

/// The Base64 digit of a 6-bit value (RFC 4648 standard alphabet).
pub open spec fn base64_digit(i: int) -> char {
    if i < 26 {
        ((65 + i) as u8) as char
    } else if i < 52 {
        ((97 + i - 26) as u8) as char
    } else if i < 62 {
        ((48 + i - 52) as u8) as char
    } else if i == 62 {
        '+'
    } else {
        '/'
    }
}

/// The standard padded Base64 encoding of `data`: each group of three bytes
/// read as a 24-bit number and written as four 6-bit digits, a short last
/// group padded with `=`.
pub open spec fn base64_spec(data: Seq<u8>) -> Seq<char>
    decreases data.len(),
{
    if data.len() == 0 {
        Seq::empty()
    } else {
        let b1: int = if data.len() > 1 {
            data[1] as int
        } else {
            0
        };
        let b2: int = if data.len() > 2 {
            data[2] as int
        } else {
            0
        };
        let n = data[0] as int * 65536 + b1 * 256 + b2;
        let group = seq![
            base64_digit(n / 262144),
            base64_digit((n / 4096) % 64),
            if data.len() > 1 {
                base64_digit((n / 64) % 64)
            } else {
                '='
            },
            if data.len() > 2 {
                base64_digit(n % 64)
            } else {
                '='
            },
        ];
        if data.len() <= 3 {
            group
        } else {
            group + base64_spec(data.skip(3))
        }
    }
}

/// The 6-bit value of a Base64 digit (0 for any other character, the
/// padding `=` included).
pub open spec fn base64_value(c: char) -> int {
    let u = c as int;
    if 65 <= u <= 90 {
        u - 65
    } else if 97 <= u <= 122 {
        u - 71
    } else if 48 <= u <= 57 {
        u + 4
    } else if c == '+' {
        62
    } else if c == '/' {
        63
    } else {
        0
    }
}

/// The bytes a padded Base64 text stands for: each group of four digits
/// read as a 24-bit number and written as three bytes, one or two where the
/// group ends in padding.
pub open spec fn base64_decode_spec(s: Seq<char>) -> Seq<u8>
    decreases s.len(),
{
    if s.len() < 4 {
        Seq::empty()
    } else {
        let n = base64_value(s[0]) * 262144 + base64_value(s[1]) * 4096 + base64_value(s[2]) * 64
            + base64_value(s[3]);
        let bytes = if s[2] == '=' {
            seq![(n / 65536) as u8]
        } else if s[3] == '=' {
            seq![(n / 65536) as u8, ((n / 256) % 256) as u8]
        } else {
            seq![(n / 65536) as u8, ((n / 256) % 256) as u8, (n % 256) as u8]
        };
        bytes + base64_decode_spec(s.skip(4))
    }
}

/// The Base64 digit of a 6-bit value.
fn base64_char(i: u32) -> (c: char)
    requires
        i < 64,
    ensures
        c == base64_digit(i as int),
{
    if i < 26 {
        ((65 + i) as u8) as char
    } else if i < 52 {
        ((97 + i - 26) as u8) as char
    } else if i < 62 {
        ((48 + i - 52) as u8) as char
    } else if i == 62 {
        '+'
    } else {
        '/'
    }
}

/// The standard padded Base64 encoding of `data`.
pub fn base64_encode(data: &[u8]) -> (r: String)
    ensures
        r@ == base64_spec(data@),
{
    let mut out = String::new();
    let n = data.len();
    let mut i: usize = 0;
    assert(data@.skip(0) =~= data@);
    while i < n
        invariant
            i <= n,
            n == data@.len(),
            base64_spec(data@) == out@ + base64_spec(data@.skip(i as int)),
        decreases n - i,
    {
        let ghost rest = data@.skip(i as int);
        let left = n - i;
        let b0 = data[i] as u32;
        let b1: u32 = if left > 1 {
            data[i + 1] as u32
        } else {
            0
        };
        let b2: u32 = if left > 2 {
            data[i + 2] as u32
        } else {
            0
        };
        let v: u32 = b0 * 65536 + b1 * 256 + b2;
        let ghost before = out@;
        push_char(&mut out, base64_char(v / 262144));
        push_char(&mut out, base64_char((v / 4096) % 64));
        if left > 1 {
            push_char(&mut out, base64_char((v / 64) % 64));
        } else {
            push_char(&mut out, '=');
        }
        if left > 2 {
            push_char(&mut out, base64_char(v % 64));
        } else {
            push_char(&mut out, '=');
        }
        proof {
            assert(rest[0] == data@[i as int]);
            if left > 1 {
                assert(rest[1] == data@[i + 1]);
            }
            if left > 2 {
                assert(rest[2] == data@[i + 2]);
            }
        }
        if left <= 3 {
            assert(out@ =~= before + base64_spec(rest));
            i = n;
            assert(data@.skip(i as int) =~= Seq::<u8>::empty());
            assert(out@ + base64_spec(data@.skip(i as int)) =~= out@);
        } else {
            assert(rest.skip(3) =~= data@.skip(i + 3));
            assert(before + base64_spec(rest) =~= out@ + base64_spec(data@.skip(i + 3)));
            i = i + 3;
        }
    }
    out
}

/// The Base64 text is four characters per started group of three bytes.
pub proof fn law_base64_length(data: Seq<u8>)
    ensures
        base64_spec(data).len() == (data.len() + 2) / 3 * 4,
    decreases data.len(),
{
    if data.len() > 3 {
        law_base64_length(data.skip(3));
    }
}

/// Every character of a Base64 text is a digit of the standard alphabet or
/// the padding `=`, and padding comes only at the end.
pub proof fn law_base64_alphabet(data: Seq<u8>)
    ensures
        forall|i: int|
            0 <= i < base64_spec(data).len() ==> (#[trigger] base64_spec(data)[i] == '='
                || exists|d: int| 0 <= d < 64 && base64_spec(data)[i] == base64_digit(d)),
        forall|i: int|
            0 <= i < base64_spec(data).len() && base64_spec(data)[i] == '=' ==> i
                >= base64_spec(data).len() - 2,
    decreases data.len(),
{
    law_base64_length(data);
    if data.len() > 0 {
        let b1: int = if data.len() > 1 {
            data[1] as int
        } else {
            0
        };
        let b2: int = if data.len() > 2 {
            data[2] as int
        } else {
            0
        };
        let n = data[0] as int * 65536 + b1 * 256 + b2;
        let s = base64_spec(data);
        assert(0 <= n / 262144 < 64);
        assert(s[0] == base64_digit(n / 262144));
        assert(s[1] == base64_digit((n / 4096) % 64));
        if data.len() > 3 {
            law_base64_alphabet(data.skip(3));
            law_base64_length(data.skip(3));
            let t = base64_spec(data.skip(3));
            assert forall|i: int| 0 <= i < s.len() implies (#[trigger] s[i] == '=' || exists|d: int|
                0 <= d < 64 && s[i] == base64_digit(d)) by {
                if i >= 4 {
                    assert(s[i] == t[i - 4]);
                } else if i == 2 {
                    assert(s[2] == base64_digit((n / 64) % 64));
                } else if i == 3 {
                    assert(s[3] == base64_digit(n % 64));
                }
            }
            assert forall|i: int| 0 <= i < s.len() && s[i] == '=' implies i >= s.len() - 2 by {
                if i >= 4 {
                    assert(s[i] == t[i - 4]);
                } else {
                    assert(s[2] == base64_digit((n / 64) % 64));
                    assert(s[3] == base64_digit(n % 64));
                    assert(base64_digit((n / 64) % 64) != '=');
                    assert(base64_digit(n % 64) != '=');
                    assert(base64_digit(n / 262144) != '=');
                    assert(base64_digit((n / 4096) % 64) != '=');
                }
            }
        } else {
            assert forall|i: int| 0 <= i < s.len() implies (#[trigger] s[i] == '=' || exists|d: int|
                0 <= d < 64 && s[i] == base64_digit(d)) by {
                if i == 2 && data.len() > 1 {
                    assert(s[2] == base64_digit((n / 64) % 64));
                } else if i == 3 && data.len() > 2 {
                    assert(s[3] == base64_digit(n % 64));
                }
            }
            assert forall|i: int| 0 <= i < s.len() && s[i] == '=' implies i >= s.len() - 2 by {
                assert(base64_digit(n / 262144) != '=');
                assert(base64_digit((n / 4096) % 64) != '=');
            }
        }
    }
}

// ---------------------------------------------------------------------------
// Reading a MIME message
// ---------------------------------------------------------------------------

/// How the sender is shown: `Name <address>`, or the name alone, or the
/// address alone, or `unknown@sender`.
pub open spec fn sender_text(f: Option<(Option<Seq<char>>, Option<Seq<char>>)>) -> Seq<char> {
    match f {
        Some(p) => match p.0 {
            Some(n) => match p.1 {
                Some(e) => n + " <"@ + e + ">"@,
                None => n,
            },
            None => match p.1 {
                Some(e) => e,
                None => "unknown@sender"@,
            },
        },
        None => "unknown@sender"@,
    }
}

/// The addresses that are present, in order.
pub open spec fn present(s: Seq<Option<Seq<char>>>) -> Seq<Seq<char>> {
    s.filter_map(|o: Option<Seq<char>>| o)
}

/// The recipient addresses of a `To` header: those of a plain list, or
/// those of each group in turn.
pub open spec fn recipient_list(t: Option<MimeAddressListView>) -> Seq<Seq<char>> {
    match t {
        Some(MimeAddressListView::List(l)) => present(l),
        Some(MimeAddressListView::Group(g)) => g.map_values(
            |v: Seq<Option<Seq<char>>>| present(v),
        ).flatten_alt(),
        None => Seq::empty(),
    }
}

/// An attachment as the email record keeps it: a name (`attachment.bin` if
/// none), a content type (`application/octet-stream` if none), the size of
/// its contents and their Base64 text.
pub open spec fn attachment_summary(a: MimeAttachmentView) -> ParsedAttachmentView {
    ParsedAttachmentView {
        filename: match a.name {
            Some(n) => n,
            None => "attachment.bin"@,
        },
        content_type: match a.content_type {
            Some(c) => c,
            None => "application/octet-stream"@,
        },
        size_bytes: a.contents.len() as int,
        data_base64: Some(base64_spec(a.contents)),
    }
}

/// What `EmailParser::parse_mime` gives for the bytes `raw`.
pub open spec fn parsed_email(raw: Seq<u8>) -> Option<ParsedEmailView> {
    if mime_parses(raw) {
        Some(
            ParsedEmailView {
                from: sender_text(mime_from(raw)),
                to: recipient_list(mime_to(raw)),
                subject: mime_subject(raw),
                body_text: mime_body_text(raw),
                body_html: mime_body_html(raw),
                raw_mime: utf8_lossy_text(raw),
                attachments: mime_attachments(raw).map_values(
                    |a: MimeAttachmentView| attachment_summary(a),
                ),
            },
        )
    } else {
        None
    }
}

/// Appends the present addresses of `addrs` to `out`.
fn push_present(out: &mut Vec<String>, addrs: &Vec<Option<String>>)
    ensures
        string_views(final(out)@) == string_views(old(out)@) + present(opt_views(addrs@)),
{
    let ghost start = string_views(out@);
    let ghost av = opt_views(addrs@);
    let mut i: usize = 0;
    while i < addrs.len()
        invariant
            i <= addrs.len(),
            av == opt_views(addrs@),
            string_views(out@) == start + present(av.take(i as int)),
        decreases addrs.len() - i,
    {
        assert(av.take(i + 1).drop_last() =~= av.take(i as int));
        assert(av.take(i + 1).last() == opt_view(addrs@[i as int]));
        match &addrs[i] {
            Some(a) => {
                let ghost before = string_views(out@);
                out.push(owned(a.as_str()));
                assert(string_views(out@) =~= before.push(a@));
                assert(start + present(av.take(i + 1)) =~= (start + present(av.take(i as int))).push(a@));
            },
            None => {},
        }
        i = i + 1;
    }
    assert(av.take(addrs.len() as int) =~= av);
}

/// Email parsing.
pub struct EmailParser;

impl EmailParser {
    /// How the sender is shown, from the first `From` address's name and
    /// address.
    pub fn sender_display(first_from: Option<(Option<String>, Option<String>)>) -> (r: String)
        ensures
            r@ == sender_text(match first_from {
                Some(p) => Some((opt_view(p.0), opt_view(p.1))),
                None => None,
            }),
    {
        match first_from {
            Some((name, addr)) => match name {
                Some(n) => match addr {
                    Some(e) => {
                        let first = concat3(n.as_str(), " <", e.as_str());
                        concat2(first.as_str(), ">")
                    },
                    None => n,
                },
                None => match addr {
                    Some(e) => e,
                    None => owned("unknown@sender"),
                },
            },
            None => owned("unknown@sender"),
        }
    }

    /// The recipient addresses of a `To` header, in order.
    pub fn recipients(to: Option<MimeAddressList>) -> (r: Vec<String>)
        ensures
            string_views(r@) == recipient_list(match to {
                Some(l) => Some(l@),
                None => None,
            }),
    {
        let mut out: Vec<String> = Vec::new();
        match to {
            Some(MimeAddressList::List(l)) => {
                push_present(&mut out, &l);
                assert(string_views(out@) =~= present(opt_views(l@)));
            },
            Some(MimeAddressList::Group(g)) => {
                let ghost gv = g@.map_values(|v: Vec<Option<String>>| opt_views(v@)).map_values(
                    |v: Seq<Option<Seq<char>>>| present(v),
                );
                let mut i: usize = 0;
                assert(string_views(out@) =~= gv.take(0).flatten_alt());
                while i < g.len()
                    invariant
                        i <= g.len(),
                        gv == g@.map_values(|v: Vec<Option<String>>| opt_views(v@)).map_values(
                            |v: Seq<Option<Seq<char>>>| present(v),
                        ),
                        string_views(out@) == gv.take(i as int).flatten_alt(),
                    decreases g.len() - i,
                {
                    assert(gv.take(i + 1).drop_last() =~= gv.take(i as int));
                    assert(gv.take(i + 1).last() == present(opt_views(g@[i as int]@)));
                    push_present(&mut out, &g[i]);
                    i = i + 1;
                }
                assert(gv.take(g.len() as int) =~= gv);
            },
            None => {
                assert(string_views(out@) =~= Seq::<Seq<char>>::empty());
            },
        }
        out
    }

    /// An attachment as the email record keeps it.
    pub fn summarize_attachment(a: &MimeAttachment) -> (r: ParsedAttachment)
        ensures
            r@ == attachment_summary(a@),
    {
        let filename = match &a.name {
            Some(n) => owned(n.as_str()),
            None => owned("attachment.bin"),
        };
        let content_type = match &a.content_type {
            Some(c) => owned(c.as_str()),
            None => owned("application/octet-stream"),
        };
        ParsedAttachment {
            filename,
            content_type,
            size_bytes: a.contents.len(),
            data_base64: Some(base64_encode(a.contents.as_slice())),
        }
    }

    /// Reads the sender, recipients, subject, bodies and attachments of a
    /// raw MIME message; `None` when the bytes are not a message.
    pub fn parse_mime(raw_bytes: &[u8]) -> (r: Option<ParsedEmailData>)
        ensures
            match r {
                Some(d) => parsed_email(raw_bytes@) == Some(d@),
                None => parsed_email(raw_bytes@) is None,
            },
    {
        let raw_mime = utf8_lossy(raw_bytes);
        let parsed = match MimeMessage::parse(raw_bytes) {
            Some(m) => m,
            None => return None,
        };
        let from = Self::sender_display(parsed.first_from());
        let to = Self::recipients(parsed.to_field());
        let subject = parsed.subject();
        let body_text = parsed.body_text();
        let body_html = parsed.body_html();
        let parts = parsed.attachments();
        let mut attachments: Vec<ParsedAttachment> = Vec::new();
        let mut i: usize = 0;
        while i < parts.len()
            invariant
                i <= parts.len(),
                attachments@.len() == i,
                forall|k: int| 0 <= k < i ==> #[trigger] attachments@[k]@ == attachment_summary(
                    parts@[k]@,
                ),
            decreases parts.len() - i,
        {
            attachments.push(Self::summarize_attachment(&parts[i]));
            i = i + 1;
        }
        let d = ParsedEmailData { from, to, subject, body_text, body_html, raw_mime, attachments };
        assert(d@.attachments =~= mime_attachments(raw_bytes@).map_values(
            |a: MimeAttachmentView| attachment_summary(a),
        ));
        Some(d)
    }
}

proof fn lemma_digit_value(i: int)
    requires
        0 <= i < 64,
    ensures
        base64_value(base64_digit(i)) == i,
        base64_digit(i) != '=',
{
}

proof fn lemma_group_digits(b0: u32, b1: u32, b2: u32)
    by (bit_vector)
    requires
        b0 < 256,
        b1 < 256,
        b2 < 256,
    ensures
        (b0 * 65536 + b1 * 256 + b2) / 262144 < 64,
        ((b0 * 65536 + b1 * 256 + b2) / 262144) * 262144 + (((b0 * 65536 + b1 * 256 + b2) / 4096)
            % 64) * 4096 + (((b0 * 65536 + b1 * 256 + b2) / 64) % 64) * 64 + (b0 * 65536 + b1 * 256
            + b2) % 64 == b0 * 65536 + b1 * 256 + b2,
        (b0 * 65536 + b1 * 256 + b2) / 65536 == b0,
        ((b0 * 65536 + b1 * 256 + b2) / 256) % 256 == b1,
        (b0 * 65536 + b1 * 256 + b2) % 256 == b2,
        b2 == 0 ==> (b0 * 65536 + b1 * 256 + b2) % 64 == 0,
        b1 == 0 && b2 == 0 ==> ((b0 * 65536 + b1 * 256 + b2) / 64) % 64 == 0,
{
}

/// Decoding undoes encoding: the Base64 text of any bytes reads back as
/// those bytes.
pub proof fn law_base64_round_trip(data: Seq<u8>)
    ensures
        base64_decode_spec(base64_spec(data)) == data,
    decreases data.len(),
{
    if data.len() > 0 {
        law_base64_length(data);
        let b1: int = if data.len() > 1 {
            data[1] as int
        } else {
            0
        };
        let b2: int = if data.len() > 2 {
            data[2] as int
        } else {
            0
        };
        let n = data[0] as int * 65536 + b1 * 256 + b2;
        lemma_group_digits(data[0] as u32, b1 as u32, b2 as u32);
        let d0 = n / 262144;
        let d1 = (n / 4096) % 64;
        let d2 = (n / 64) % 64;
        let d3 = n % 64;
        lemma_digit_value(d0);
        lemma_digit_value(d1);
        lemma_digit_value(d2);
        lemma_digit_value(d3);
        let s = base64_spec(data);
        assert(s[0] == base64_digit(d0));
        assert(s[1] == base64_digit(d1));
        let m = base64_value(s[0]) * 262144 + base64_value(s[1]) * 4096 + base64_value(s[2]) * 64
            + base64_value(s[3]);
        if data.len() == 1 {
            assert(s[2] == '=' && s[3] == '=');
            assert(m == n);
            assert(base64_decode_spec(s.skip(4)) =~= Seq::<u8>::empty());
            assert(base64_decode_spec(s) =~= data);
        } else if data.len() == 2 {
            assert(s[2] == base64_digit(d2));
            assert(s[3] == '=');
            assert(m == n);
            assert(base64_decode_spec(s.skip(4)) =~= Seq::<u8>::empty());
            assert(base64_decode_spec(s) =~= data);
        } else {
            assert(s[2] == base64_digit(d2));
            assert(s[3] == base64_digit(d3));
            assert(m == n);
            if data.len() == 3 {
                assert(base64_decode_spec(s.skip(4)) =~= Seq::<u8>::empty());
                assert(base64_decode_spec(s) =~= data);
            } else {
                law_base64_round_trip(data.skip(3));
                assert(s.skip(4) =~= base64_spec(data.skip(3)));
                assert(base64_decode_spec(s) =~= data);
            }
        }
    }
}

} // verus!
