//! The configuration of the notification channels, read from the values of
//! the environment.

use vstd::prelude::*;
use vstd::string::*;
use crate::text::{trim, trimmed};

verus! {

/// The port used where the configured one is no port number.
pub const DEFAULT_SMTP_PORT: u16 = 587;

/// How mail is sent.
#[derive(Debug)]
pub struct SmtpConfig {
    pub server: String,
    pub port: u16,
    pub username: String,
    pub password: String,
    pub from: String,
    pub recipients: Vec<String>,
}

/// Which notification channels are configured.
#[derive(Debug)]
pub struct NotificationConfig {
    pub feishu_webhook_url: Option<String>,
    pub smtp_config: Option<SmtpConfig>,
}

/// The values of the environment that configure mail, each as it was found.
#[derive(Debug)]
pub struct SmtpValues {
    pub server: Option<String>,
    pub port: Option<String>,
    pub username: Option<String>,
    pub password: Option<String>,
    pub from: Option<String>,
    pub recipients: Option<String>,
}

/// An ASCII digit.
pub open spec fn is_digit(c: char) -> bool {
    '0' <= c && c <= '9'
}

/// Every character of `s` is an ASCII digit.
pub open spec fn all_digits(s: Seq<char>) -> bool {
    forall|i: int| 0 <= i < s.len() ==> is_digit(#[trigger] s[i])
}

/// The number that a text of ASCII digits writes in base ten.
pub open spec fn decimal_value(s: Seq<char>) -> nat
    decreases s.len(),
{
    if s.len() == 0 {
        0
    } else {
        decimal_value(s.drop_last()) * 10 + ((s.last() as u32 - '0' as u32) as nat)
    }
}

/// The number that a text stands for as a `u16`: an optional `+`, then one
/// or more ASCII digits and nothing else, writing a number of at most 65535.
pub open spec fn parsed_u16(s: Seq<char>) -> Option<u16> {
    let digits = if s.len() > 0 && s[0] == '+' {
        s.subrange(1, s.len() as int)
    } else {
        s
    };
    if digits.len() > 0 && all_digits(digits) && decimal_value(digits) <= 0xFFFF {
        Some(decimal_value(digits) as u16)
    } else {
        None
    }
}

/// Calls `str::parse::<u16>`. Trusted: as the standard library documents
/// it, the text is read as an optional `+` and ASCII digits, and a text that
/// is anything else, or that writes a number above 65535, is refused.
#[verifier::external_body]
fn parse_u16(s: &str) -> (r: Option<u16>)
    ensures
        r == parsed_u16(s@),
{
    s.parse::<u16>().ok()
}

/// The port that a configured text stands for: the number it holds, or the
/// default.
pub open spec fn port_of(s: Seq<char>) -> u16 {
    match parsed_u16(s) {
        Some(p) => p,
        None => DEFAULT_SMTP_PORT,
    }
}

/// Where the first comma of a text stands, or its length if it has none.
pub open spec fn first_comma(s: Seq<char>) -> int
    decreases s.len(),
{
    if s.len() == 0 || s[0] == ',' {
        0
    } else {
        1 + first_comma(s.drop_first())
    }
}

/// The first comma stands within the text or at its end, and no comma
/// stands before it.
pub proof fn lemma_first_comma(s: Seq<char>)
    ensures
        0 <= first_comma(s) <= s.len(),
        first_comma(s) < s.len() ==> s[first_comma(s)] == ',',
        forall|j: int| 0 <= j < first_comma(s) ==> s[j] != ',',
    decreases s.len(),
{
    if s.len() > 0 && s[0] != ',' {
        let rest = s.drop_first();
        lemma_first_comma(rest);
        assert forall|j: int| 0 <= j < first_comma(s) implies s[j] != ',' by {
            if j > 0 {
                assert(rest[j - 1] == s[j]);
            }
        }
    }
}

/// The pieces of a text between its commas, in their order.
pub open spec fn pieces(s: Seq<char>) -> Seq<Seq<char>>
    decreases s.len(),
{
    let i = first_comma(s);
    if 0 <= i < s.len() {
        seq![s.subrange(0, i)] + pieces(s.subrange(i + 1, s.len() as int))
    } else {
        seq![s]
    }
}

/// The recipients that a configured text names: its pieces between commas,
/// trimmed, without those that are empty.
pub open spec fn recipients_of(s: Seq<char>) -> Seq<Seq<char>> {
    named(pieces(s))
}

/// The pieces of a list, trimmed, without those that are empty.
pub open spec fn named(parts: Seq<Seq<char>>) -> Seq<Seq<char>>
    decreases parts.len(),
{
    if parts.len() == 0 {
        Seq::empty()
    } else if trimmed(parts.last()).len() == 0 {
        named(parts.drop_last())
    } else {
        named(parts.drop_last()).push(trimmed(parts.last()))
    }
}

/// The views of a sequence of texts.
pub open spec fn text_views(s: Seq<String>) -> Seq<Seq<char>> {
    Seq::new(s.len(), |i: int| s[i]@)
}

/// Finds the first comma of a text.
fn find_comma(s: &str) -> (r: usize)
    ensures
        r == first_comma(s@),
        r <= s@.len(),
{
    let n = s.unicode_len();
    let mut i: usize = 0;
    proof {
        lemma_first_comma(s@);
    }
    while i < n
        invariant
            n == s@.len(),
            i <= n,
            i <= first_comma(s@),
            forall|j: int| 0 <= j < i ==> s@[j] != ',',
            first_comma(s@) <= s@.len(),
            first_comma(s@) < s@.len() ==> s@[first_comma(s@)] == ',',
            forall|j: int| 0 <= j < first_comma(s@) ==> s@[j] != ',',
        decreases n - i,
    {
        if s.get_char(i) == ',' {
            return i;
        }
        i = i + 1;
    }
    i
}

/// Cuts a text at its commas.
pub fn split_commas(s: &str) -> (r: Vec<String>)
    ensures
        text_views(r@) == pieces(s@),
    decreases s@.len(),
{
    let n = s.unicode_len();
    let i = find_comma(s);
    if i < n {
        let head = s.substring_char(0, i);
        let rest = s.substring_char(i + 1, n);
        let mut out: Vec<String> = Vec::new();
        out.push(head.to_owned());
        let mut tail = split_commas(rest);
        let ghost tail_views = text_views(tail@);
        out.append(&mut tail);
        assert(text_views(out@) =~= seq![head@] + tail_views);
        out
    } else {
        let mut out: Vec<String> = Vec::new();
        out.push(s.to_owned());
        assert(text_views(out@) =~= seq![s@]);
        out
    }
}

/// Reads the recipients that a configured text names.
pub fn parse_recipients(s: &str) -> (r: Vec<String>)
    ensures
        text_views(r@) == recipients_of(s@),
{
    let parts = split_commas(s);
    let ghost all = text_views(parts@);
    let n = parts.len();
    let mut out: Vec<String> = Vec::new();
    let mut i: usize = 0;
    assert(all.take(0) =~= Seq::empty());
    assert(text_views(out@) =~= Seq::empty());
    while i < n
        invariant
            n == parts.len(),
            i <= n,
            all == text_views(parts@),
            text_views(out@) == named(all.take(i as int)),
        decreases n - i,
    {
        proof {
            assert(all.take(i + 1).drop_last() =~= all.take(i as int));
            assert(all.take(i + 1).last() == parts[i as int]@);
        }
        let name = trim(parts[i].as_str());
        if !name.is_empty() {
            let ghost prior = text_views(out@);
            out.push(name.to_owned());
            assert(text_views(out@) =~= prior.push(name@));
        }
        i = i + 1;
    }
    assert(all.take(n as int) =~= all);
    out
}

/// Reads the port that a configured text stands for.
pub fn parse_port(s: &str) -> (r: u16)
    ensures
        r == port_of(s@),
{
    match parse_u16(s) {
        Some(p) => p,
        None => DEFAULT_SMTP_PORT,
    }
}

impl SmtpValues {
    /// All six values were found.
    pub open spec fn complete(self) -> bool {
        &&& self.server is Some
        &&& self.port is Some
        &&& self.username is Some
        &&& self.password is Some
        &&& self.from is Some
        &&& self.recipients is Some
    }
}

impl SmtpConfig {
    /// Makes the configuration of mail from the values that were found. Mail
    /// is configured only if all six were found and at least one recipient
    /// is named.
    pub fn from_values(values: SmtpValues) -> (r: Option<SmtpConfig>)
        ensures
            r is Some <==> values.complete() && recipients_of((values.recipients->0)@).len() > 0,
            r matches Some(c) ==> {
                &&& c.server == values.server->0
                &&& c.port == port_of((values.port->0)@)
                &&& c.username == values.username->0
                &&& c.password == values.password->0
                &&& c.from == values.from->0
                &&& text_views(c.recipients@) == recipients_of((values.recipients->0)@)
            },
    {
        match (
            values.server,
            values.port,
            values.username,
            values.password,
            values.from,
            values.recipients,
        ) {
            (
                Some(server),
                Some(port_text),
                Some(username),
                Some(password),
                Some(from),
                Some(recipients_text),
            ) => {
                let port = parse_port(port_text.as_str());
                let recipients = parse_recipients(recipients_text.as_str());
                if recipients.len() == 0 {
                    None
                } else {
                    Some(SmtpConfig { server, port, username, password, from, recipients })
                }
            },
            _ => None,
        }
    }
}

impl NotificationConfig {
    /// Makes the configuration of the channels from the values that were
    /// found.
    pub fn from_values(feishu_webhook_url: Option<String>, smtp: SmtpValues) -> (r:
        NotificationConfig)
        ensures
            r.feishu_webhook_url == feishu_webhook_url,
            r.smtp_config is Some <==> smtp.complete() && recipients_of((smtp.recipients->0)@).len()
                > 0,
            r.smtp_config matches Some(c) ==> {
                &&& c.server == smtp.server->0
                &&& c.port == port_of((smtp.port->0)@)
                &&& c.username == smtp.username->0
                &&& c.password == smtp.password->0
                &&& c.from == smtp.from->0
                &&& text_views(c.recipients@) == recipients_of((smtp.recipients->0)@)
            },
    {
        NotificationConfig { feishu_webhook_url, smtp_config: SmtpConfig::from_values(smtp) }
    }
}

} // verus!
