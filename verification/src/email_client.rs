//! The transactional email client: request construction (target URL,
//! authorization header, JSON body) and classification of what came back
//! from the wire.
//!
//! The network call itself is I/O and is left to the binary around this
//! library: it sends the request built here and hands the raw outcome (a
//! status code, or a transport fault) to [`delivery_outcome`].

use vstd::prelude::*;
use crate::domain::SubscriberEmail;
use crate::text::{push_char, push_str};

verus! {

/// A reusable, stateless handle holding everything one send needs: the
/// sender identity, the provider's base URL, the API credential and the
/// per-call timeout budget in milliseconds.
#[derive(Clone, Debug)]
pub struct EmailClient {
    pub sender: SubscriberEmail,
    pub base_url: String,
    pub api_key: String,
    pub timeout_milliseconds: u64,
}

/// The character for one hexadecimal digit.
pub open spec fn hex_digit(d: nat) -> char {
    if d < 10 {
        ((48 + d) as u8) as char
    } else {
        ((87 + d) as u8) as char
    }
}

/// How one character is written inside a JSON string literal: quote and
/// backslash get a backslash escape, the three common control characters get
/// their short escapes, any other control character a `\u00..` escape, and
/// everything else stands as itself.
pub open spec fn escape_char(c: char) -> Seq<char> {
    if c == '"' {
        seq!['\\', '"']
    } else if c == '\\' {
        seq!['\\', '\\']
    } else if c == '\n' {
        seq!['\\', 'n']
    } else if c == '\r' {
        seq!['\\', 'r']
    } else if c == '\t' {
        seq!['\\', 't']
    } else if (c as u32) < 32 {
        seq!['\\', 'u', '0', '0', hex_digit((c as u32 / 16) as nat), hex_digit(
            (c as u32 % 16) as nat,
        )]
    } else {
        seq![c]
    }
}

pub open spec fn json_escaped(s: Seq<char>) -> Seq<char>
    decreases s.len(),
{
    if s.len() == 0 {
        Seq::empty()
    } else {
        json_escaped(s.drop_last()) + escape_char(s.last())
    }
}

/// A JSON string literal: the escaped text between double quotes.
pub open spec fn json_string(s: Seq<char>) -> Seq<char> {
    seq!['"'] + json_escaped(s) + seq!['"']
}

/// The JSON object sent for one message: exactly the five fields `from`,
/// `to`, `subject`, `text` and `html`, in that order.
pub open spec fn email_request_body(
    from: Seq<char>,
    to: Seq<char>,
    subject: Seq<char>,
    text: Seq<char>,
    html: Seq<char>,
) -> Seq<char> {
    "{\"from\":"@ + json_string(from) + ",\"to\":"@ + json_string(to) + ",\"subject\":"@
        + json_string(subject) + ",\"text\":"@ + json_string(text) + ",\"html\":"@ + json_string(
        html,
    ) + "}"@
}

fn hex_digit_char(d: u32) -> (c: char)
    requires
        d < 16,
    ensures
        c == hex_digit(d as nat),
{
    if d < 10 {
        ((48 + d) as u8) as char
    } else {
        ((87 + d) as u8) as char
    }
}

/// Appends one JSON string literal holding `s`.
fn append_json_string(r: &mut String, s: &str)
    ensures
        final(r)@ == old(r)@ + json_string(s@),
{
    push_char(r, '"');
    let n = s.unicode_len();
    let mut i: usize = 0;
    while i < n
        invariant
            i <= n,
            n == s@.len(),
            r@ == old(r)@ + seq!['"'] + json_escaped(s@.subrange(0, i as int)),
        decreases n - i,
    {
        let c = s.get_char(i);
        let u = c as u32;
        if c == '"' {
            push_char(r, '\\');
            push_char(r, '"');
        } else if c == '\\' {
            push_char(r, '\\');
            push_char(r, '\\');
        } else if c == '\n' {
            push_char(r, '\\');
            push_char(r, 'n');
        } else if c == '\r' {
            push_char(r, '\\');
            push_char(r, 'r');
        } else if c == '\t' {
            push_char(r, '\\');
            push_char(r, 't');
        } else if u < 32 {
            push_char(r, '\\');
            push_char(r, 'u');
            push_char(r, '0');
            push_char(r, '0');
            push_char(r, hex_digit_char(u / 16));
            push_char(r, hex_digit_char(u % 16));
        } else {
            push_char(r, c);
        }
        proof {
            assert(s@.subrange(0, (i + 1) as int).drop_last() =~= s@.subrange(0, i as int));
            assert(r@ =~= old(r)@ + seq!['"'] + json_escaped(s@.subrange(0, (i + 1) as int)));
        }
        i = i + 1;
    }
    push_char(r, '"');
    proof {
        assert(s@.subrange(0, n as int) =~= s@);
        assert(r@ =~= old(r)@ + json_string(s@));
    }
}

/// A status in the HTTP error range: a client or server error.
pub open spec fn error_status(status: u16) -> bool {
    400 <= status < 600
}

/// What the transport reported for one attempt, once the binary has reduced
/// it to plain values: the response's status code, or a fault with no
/// response at all.
#[derive(Clone, Debug)]
pub enum TransportFault {
    /// No response arrived within the client's timeout budget.
    TimedOut,
    /// The request could not be completed (connection refusal, resolution
    /// failure, and the like); holds the transport's description.
    Failed(String),
}

/// The single failure kind one send surfaces: remote rejection, timeout and
/// transport failure, distinguishable only by inspecting the details.
#[derive(Clone, Debug)]
pub enum DeliveryError {
    /// The remote answered with a status in the error range.
    RejectedStatus(u16),
    /// The attempt ran out of its timeout budget.
    TimedOut,
    /// The transport failed outright; holds its description.
    Transport(String),
}

/// Classifies what came back from the wire: any response outside the HTTP
/// error range is success, an error-range status and every transport fault
/// are the one delivery failure kind.
pub fn delivery_outcome(transport: Result<u16, TransportFault>) -> (r: Result<(), DeliveryError>)
    ensures
        (match transport {
            Ok(status) => if error_status(status) {
                r == Result::<(), DeliveryError>::Err(DeliveryError::RejectedStatus(status))
            } else {
                r is Ok
            },
            Err(fault) => match fault {
                TransportFault::TimedOut => r == Result::<(), DeliveryError>::Err(
                    DeliveryError::TimedOut,
                ),
                TransportFault::Failed(m) => r matches Err(e) && (e matches
                    DeliveryError::Transport(d) && d@ == m@),
            },
        }),
{
    match transport {
        Ok(status) => if 400 <= status && status < 600 {
            Err(DeliveryError::RejectedStatus(status))
        } else {
            Ok(())
        },
        Err(TransportFault::TimedOut) => Err(DeliveryError::TimedOut),
        Err(TransportFault::Failed(m)) => Err(DeliveryError::Transport(m)),
    }
}

impl EmailClient {
    /// Builds a client from resolved settings; nothing here can fail.
    pub fn new(
        base_url: String,
        sender: SubscriberEmail,
        api_key: String,
        timeout_milliseconds: u64,
    ) -> (r: EmailClient)
        ensures
            r.base_url@ == base_url@,
            r.sender@ == sender@,
            r.api_key@ == api_key@,
            r.timeout_milliseconds == timeout_milliseconds,
    {
        EmailClient { sender, base_url, api_key, timeout_milliseconds }
    }

    /// The target of every send: the messages endpoint under the base URL.
    pub fn request_url(&self) -> (r: String)
        ensures
            r@ == self.base_url@ + "/messages"@,
    {
        let mut r = self.base_url.clone();
        push_str(&mut r, "/messages");
        r
    }

    /// The `Authorization` header value: the `Basic` scheme with the API
    /// credential used verbatim as its parameter. The credential is not
    /// base64-encoded here; a caller whose provider expects standard Basic
    /// encoding must hand in a pre-encoded credential.
    pub fn authorization_value(&self) -> (r: String)
        ensures
            r@ == "Basic "@ + self.api_key@,
            r@.len() > 0,
    {
        proof {
            reveal_strlit("Basic ");
        }
        let mut r = "Basic ".to_owned();
        push_str(&mut r, self.api_key.as_str());
        r
    }

    /// The JSON body for one message, with the client's sender as `from`.
    pub fn request_body(
        &self,
        recipient: &SubscriberEmail,
        subject: &str,
        html: &str,
        text: &str,
    ) -> (r: String)
        ensures
            r@ == email_request_body(self.sender@, recipient@, subject@, text@, html@),
    {
        let mut r = "{\"from\":".to_owned();
        append_json_string(&mut r, self.sender.as_str());
        push_str(&mut r, ",\"to\":");
        append_json_string(&mut r, recipient.as_str());
        push_str(&mut r, ",\"subject\":");
        append_json_string(&mut r, subject);
        push_str(&mut r, ",\"text\":");
        append_json_string(&mut r, text);
        push_str(&mut r, ",\"html\":");
        append_json_string(&mut r, html);
        push_str(&mut r, "}");
        r
    }
}

} // verus!
