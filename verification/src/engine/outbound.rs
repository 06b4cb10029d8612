//! Outbound mail: the request an agent makes, the relay settings, and the
//! plan of the message that is dispatched.
use vstd::prelude::*;
use crate::bindings::{mailbox_parses, parses_as_mailbox};
use crate::text::{copy, opt_view, owned, string_views};

verus! {

/// A request to send an email.
pub struct SendEmailRequest {
    pub from: Option<String>,
    pub to: Vec<String>,
    pub cc: Option<Vec<String>>,
    pub bcc: Option<Vec<String>>,
    pub subject: String,
    pub text: Option<String>,
    pub html: Option<String>,
    pub in_reply_to: Option<String>,
}

/// The SMTP relay settings for outbound mail; without a host, mail is only
/// simulated.
pub struct OutboundMailer {
    pub smtp_host: Option<String>,
    pub smtp_port: u16,
    pub smtp_user: Option<String>,
    pub smtp_pass: Option<String>,
}

/// Where and how a message is relayed.
pub struct RelayPlan {
    pub host: String,
    pub port: u16,
    pub credentials: Option<(String, String)>,
}

/// The message to dispatch and how.
pub struct OutboundPlan {
    pub from: String,
    pub to: Vec<String>,
    pub cc: Vec<String>,
    pub subject: String,
    pub body_is_html: bool,
    pub body: String,
    pub relay: Option<RelayPlan>,
}

/// The sender used when a request names none.
pub open spec fn default_sender() -> Seq<char> {
    "agent@agentbox.io"@
}

/// The plan of a request under the relay settings `m`: the sender (or the
/// default one), the recipients and carbon copies, an HTML body when one is
/// given else the plain text (or nothing), and a relay when a host is set,
/// with credentials when both user and password are set. Blind copies and
/// `in_reply_to` are not used.
pub open spec fn plan_matches(m: OutboundMailer, req: SendEmailRequest, p: OutboundPlan) -> bool {
    &&& p.from@ == (match req.from {
        Some(f) => f@,
        None => default_sender(),
    })
    &&& string_views(p.to@) == string_views(req.to@)
    &&& string_views(p.cc@) == (match req.cc {
        Some(c) => string_views(c@),
        None => Seq::empty(),
    })
    &&& p.subject@ == req.subject@
    &&& p.body_is_html == (req.html is Some)
    &&& p.body@ == (match req.html {
        Some(h) => h@,
        None => match req.text {
            Some(t) => t@,
            None => Seq::empty(),
        },
    })
    &&& (p.relay is Some <==> m.smtp_host is Some)
    &&& (p.relay matches Some(r) ==> {
        &&& opt_view(m.smtp_host) == Some(r.host@)
        &&& r.port == m.smtp_port
        &&& (r.credentials is Some <==> (m.smtp_user is Some && m.smtp_pass is Some))
        &&& (r.credentials matches Some(c) ==> opt_view(m.smtp_user) == Some(c.0@) && opt_view(
            m.smtp_pass,
        ) == Some(c.1@))
    })
}

/// The status text of a dispatch.
pub open spec fn dispatch_text(relayed: bool) -> Seq<char> {
    if relayed {
        "Dispatched via SMTP"@
    } else {
        "Dispatched (Mock/Dev Mode)"@
    }
}

fn clone_string(s: &String) -> (r: String)
    ensures
        r@ == s@,
{
    owned(s.as_str())
}

impl OutboundMailer {
    /// Relay settings from their parts.
    pub fn new(
        smtp_host: Option<String>,
        smtp_port: u16,
        smtp_user: Option<String>,
        smtp_pass: Option<String>,
    ) -> (r: OutboundMailer)
        ensures
            r.smtp_host == smtp_host,
            r.smtp_port == smtp_port,
            r.smtp_user == smtp_user,
            r.smtp_pass == smtp_pass,
    {
        OutboundMailer { smtp_host, smtp_port, smtp_user, smtp_pass }
    }

    /// How a request is dispatched under these settings.
    pub fn plan(&self, req: SendEmailRequest) -> (p: OutboundPlan)
        ensures
            plan_matches(*self, req, p),
    {
        let ghost r0 = req;
        let from = match req.from {
            Some(f) => f,
            None => owned("agent@agentbox.io"),
        };
        let cc = match req.cc {
            Some(c) => c,
            None => Vec::new(),
        };
        let (body_is_html, body) = match req.html {
            Some(h) => (true, h),
            None => match req.text {
                Some(t) => (false, t),
                None => (false, String::new()),
            },
        };
        let relay = match &self.smtp_host {
            Some(host) => {
                let credentials = match (&self.smtp_user, &self.smtp_pass) {
                    (Some(u), Some(p)) => Some((clone_string(u), clone_string(p))),
                    _ => None,
                };
                Some(RelayPlan { host: clone_string(host), port: self.smtp_port, credentials })
            },
            None => None,
        };
        let p = OutboundPlan {
            from,
            to: req.to,
            cc,
            subject: req.subject,
            body_is_html,
            body,
            relay,
        };
        assert(string_views(p.cc@) =~= (match r0.cc {
            Some(c) => string_views(c@),
            None => Seq::empty(),
        }));
        p
    }

    /// The status text after a dispatch, relayed or simulated.
    pub fn dispatch_status(relayed: bool) -> (r: String)
        ensures
            r@ == dispatch_text(relayed),
    {
        if relayed {
            owned("Dispatched via SMTP")
        } else {
            owned("Dispatched (Mock/Dev Mode)")
        }
    }
}

/// The addresses of a plan in the order they are read: the sender, the
/// recipients, the copies.
pub open spec fn plan_addresses(p: OutboundPlan) -> Seq<Seq<char>> {
    seq![p.from@] + string_views(p.to@) + string_views(p.cc@)
}

/// The first address of a plan that does not read as a mailbox; `None`
/// when all do (only then is the message built and sent).
pub fn first_invalid_address(plan: &OutboundPlan) -> (r: Option<String>)
    ensures
        match r {
            None => forall|i: int|
                0 <= i < plan_addresses(*plan).len() ==> mailbox_parses(
                    #[trigger] plan_addresses(*plan)[i],
                ),
            Some(a) => exists|i: int|
                0 <= i < plan_addresses(*plan).len() && #[trigger] plan_addresses(*plan)[i] == a@
                    && !mailbox_parses(a@) && forall|j: int|
                    0 <= j < i ==> mailbox_parses(#[trigger] plan_addresses(*plan)[j]),
        },
{
    let ghost all = plan_addresses(*plan);
    let ghost tv = string_views(plan.to@);
    let ghost cv = string_views(plan.cc@);
    assert(all[0] == plan.from@);
    if !parses_as_mailbox(plan.from.as_str()) {
        return Some(copy(&plan.from));
    }
    let mut i: usize = 0;
    while i < plan.to.len()
        invariant
            i <= plan.to@.len(),
            all == plan_addresses(*plan),
            tv == string_views(plan.to@),
            all.len() == 1 + plan.to@.len() + plan.cc@.len(),
            forall|j: int| 0 <= j < 1 + i ==> mailbox_parses(#[trigger] all[j]),
        decreases plan.to@.len() - i,
    {
        assert(all[1 + i] == plan.to@[i as int]@);
        if !parses_as_mailbox(plan.to[i].as_str()) {
            return Some(copy(&plan.to[i]));
        }
        i = i + 1;
    }
    let mut k: usize = 0;
    while k < plan.cc.len()
        invariant
            k <= plan.cc@.len(),
            all == plan_addresses(*plan),
            all.len() == 1 + plan.to@.len() + plan.cc@.len(),
            forall|j: int| 0 <= j < 1 + plan.to@.len() + k ==> mailbox_parses(#[trigger] all[j]),
        decreases plan.cc@.len() - k,
    {
        assert(all[1 + plan.to@.len() + k] == plan.cc@[k as int]@);
        if !parses_as_mailbox(plan.cc[k].as_str()) {
            return Some(copy(&plan.cc[k]));
        }
        k = k + 1;
    }
    None
}

} // verus!
