//! The provider-specific email payload and its JSON encoding, specified to
//! the character.

use vstd::prelude::*;

use crate::text::chars_to_string;
use crate::text::push_chars;

verus! {

/// Mathematical image of a sender or recipient entry.
#[verifier::ext_equal]
pub ghost struct AddressModel {
    pub email: Seq<char>,
    pub name: Seq<char>,
}

/// Mathematical image of one message of the payload.
#[verifier::ext_equal]
pub ghost struct MessageModel {
    pub from: AddressModel,
    pub to: Seq<AddressModel>,
    pub subject: Seq<char>,
    pub text_part: Seq<char>,
    pub html_part: Seq<char>,
    pub custom_id: Seq<char>,
}

/// Mathematical image of the whole payload.
#[verifier::ext_equal]
pub ghost struct EmailRequestModel {
    pub messages: Seq<MessageModel>,
}

/// The sender entry of a message.
pub struct From {
    pub email: String,
    pub name: String,
}

/// A recipient entry of a message.
pub struct To {
    pub email: String,
    pub name: String,
}

/// One message of the payload.
pub struct Message {
    pub from: From,
    pub to: Vec<To>,
    pub subject: String,
    pub text_part: String,
    pub html_part: String,
    pub custom_id: String,
}

/// The payload of one provider call.
pub struct EmailRequest {
    pub messages: Vec<Message>,
}

impl View for From {
    type V = AddressModel;

    open spec fn view(&self) -> AddressModel {
        AddressModel { email: self.email@, name: self.name@ }
    }
}

impl View for To {
    type V = AddressModel;

    open spec fn view(&self) -> AddressModel {
        AddressModel { email: self.email@, name: self.name@ }
    }
}

impl View for Message {
    type V = MessageModel;

    open spec fn view(&self) -> MessageModel {
        MessageModel {
            from: self.from@,
            to: self.to@.map_values(|t: To| t@),
            subject: self.subject@,
            text_part: self.text_part@,
            html_part: self.html_part@,
            custom_id: self.custom_id@,
        }
    }
}

impl View for EmailRequest {
    type V = EmailRequestModel;

    open spec fn view(&self) -> EmailRequestModel {
        EmailRequestModel { messages: self.messages@.map_values(|m: Message| m@) }
    }
}

/// The payload `new` builds: a single message from `sender` to `recipient`,
/// with the fixed display name on both ends.
pub open spec fn spec_new_request(
    sender: Seq<char>,
    recipient: Seq<char>,
    subject: Seq<char>,
    html_part: Seq<char>,
    text_part: Seq<char>,
) -> EmailRequestModel {
    EmailRequestModel {
        messages: seq![
            MessageModel {
                from: AddressModel { email: sender, name: "Newsletter"@ },
                to: seq![AddressModel { email: recipient, name: "Newsletter"@ }],
                subject,
                text_part,
                html_part,
                custom_id: "Newsletter"@,
            },
        ],
    }
}

impl EmailRequest {
    /// Builds the single-message payload for one outgoing email.
    pub fn new(
        sender: &str,
        recipient: &str,
        subject: &str,
        html_part: &str,
        text_part: &str,
    ) -> (r: EmailRequest)
        ensures
            r@ == spec_new_request(sender@, recipient@, subject@, html_part@, text_part@),
    {
        let message = Message {
            from: From { email: sender.to_owned(), name: "Newsletter".to_owned() },
            to: vec![To { email: recipient.to_owned(), name: "Newsletter".to_owned() }],
            subject: subject.to_owned(),
            text_part: text_part.to_owned(),
            html_part: html_part.to_owned(),
            custom_id: "Newsletter".to_owned(),
        };
        let mut messages: Vec<Message> = Vec::new();
        messages.push(message);
        let r = EmailRequest { messages };
        proof {
            assert(r@ =~~= spec_new_request(sender@, recipient@, subject@, html_part@, text_part@));
        }
        r
    }

    /// Renders the payload as the exact JSON text the provider receives.
    pub fn body_json(&self) -> (r: String)
        ensures
            r@ == json_request(self@),
    {
        let mut out: Vec<char> = Vec::new();
        push_chars(&mut out, "{\"Messages\":[");
        let n = self.messages.len();
        let mut k: usize = 0;
        while k < n
            invariant
                k <= n,
                n == self.messages.len(),
                out@ == "{\"Messages\":["@ + json_messages(self@.messages.take(k as int)),
            decreases n - k,
        {
            let ghost done = self@.messages.take(k as int);
            if k > 0 {
                out.push(',');
            }
            push_message(&mut out, &self.messages[k]);
            proof {
                let next = self@.messages.take(k + 1 as int);
                assert(next.drop_last() =~= done);
                assert(next.last() == self@.messages[k as int]);
                if k == 0 {
                    assert(out@ =~= "{\"Messages\":["@ + json_messages(next));
                } else {
                    assert(out@ =~= "{\"Messages\":["@ + json_messages(next));
                }
            }
            k = k + 1;
        }
        push_chars(&mut out, "]}");
        proof {
            assert(self@.messages.take(n as int) =~= self@.messages);
            assert(out@ =~= json_request(self@));
        }
        chars_to_string(out)
    }
}

/// A hexadecimal digit, lower case.
pub open spec fn hex_digit(d: int) -> char {
    if d == 0 {
        '0'
    } else if d == 1 {
        '1'
    } else if d == 2 {
        '2'
    } else if d == 3 {
        '3'
    } else if d == 4 {
        '4'
    } else if d == 5 {
        '5'
    } else if d == 6 {
        '6'
    } else if d == 7 {
        '7'
    } else if d == 8 {
        '8'
    } else if d == 9 {
        '9'
    } else if d == 10 {
        'a'
    } else if d == 11 {
        'b'
    } else if d == 12 {
        'c'
    } else if d == 13 {
        'd'
    } else if d == 14 {
        'e'
    } else {
        'f'
    }
}

fn hex_digit_char(d: u32) -> (c: char)
    requires
        d < 16,
    ensures
        c == hex_digit(d as int),
{
    if d == 0 {
        '0'
    } else if d == 1 {
        '1'
    } else if d == 2 {
        '2'
    } else if d == 3 {
        '3'
    } else if d == 4 {
        '4'
    } else if d == 5 {
        '5'
    } else if d == 6 {
        '6'
    } else if d == 7 {
        '7'
    } else if d == 8 {
        '8'
    } else if d == 9 {
        '9'
    } else if d == 10 {
        'a'
    } else if d == 11 {
        'b'
    } else if d == 12 {
        'c'
    } else if d == 13 {
        'd'
    } else if d == 14 {
        'e'
    } else {
        'f'
    }
}

/// How one character appears inside a JSON string literal: quote and
/// backslash are escaped, the control characters get their short escapes or
/// the `\u00..` form, everything else stands as itself.
pub open spec fn json_escape_char(c: char) -> Seq<char> {
    if c == '"' {
        seq!['\\', '"']
    } else if c == '\\' {
        seq!['\\', '\\']
    } else if c == '\u{8}' {
        seq!['\\', 'b']
    } else if c == '\t' {
        seq!['\\', 't']
    } else if c == '\n' {
        seq!['\\', 'n']
    } else if c == '\u{c}' {
        seq!['\\', 'f']
    } else if c == '\r' {
        seq!['\\', 'r']
    } else if (c as u32) < 0x20 {
        seq!['\\', 'u', '0', '0', hex_digit((c as u32 / 16) as int), hex_digit((c as u32 % 16) as int)]
    } else {
        seq![c]
    }
}

/// A whole string, escaped.
pub open spec fn json_escape(s: Seq<char>) -> Seq<char>
    decreases s.len(),
{
    if s.len() == 0 {
        Seq::empty()
    } else {
        json_escape(s.drop_last()) + json_escape_char(s.last())
    }
}

/// A JSON string literal: the escaped text between double quotes.
pub open spec fn json_string(s: Seq<char>) -> Seq<char> {
    seq!['"'] + json_escape(s) + seq!['"']
}

/// A sender or recipient entry as JSON.
pub open spec fn json_address(a: AddressModel) -> Seq<char> {
    "{\"Email\":"@ + json_string(a.email) + ",\"Name\":"@ + json_string(a.name) + "}"@
}

/// A list of entries as JSON, comma separated.
pub open spec fn json_addresses(list: Seq<AddressModel>) -> Seq<char>
    decreases list.len(),
{
    if list.len() == 0 {
        Seq::empty()
    } else if list.len() == 1 {
        json_address(list[0])
    } else {
        json_addresses(list.drop_last()) + seq![','] + json_address(list.last())
    }
}

/// One message as JSON.
pub open spec fn json_message(m: MessageModel) -> Seq<char> {
    "{\"From\":"@ + json_address(m.from) + ",\"To\":["@ + json_addresses(m.to) + "],\"Subject\":"@
        + json_string(m.subject) + ",\"TextPart\":"@ + json_string(m.text_part) + ",\"HTMLPart\":"@
        + json_string(m.html_part) + ",\"CustomID\":"@ + json_string(m.custom_id) + "}"@
}

/// A list of messages as JSON, comma separated.
pub open spec fn json_messages(list: Seq<MessageModel>) -> Seq<char>
    decreases list.len(),
{
    if list.len() == 0 {
        Seq::empty()
    } else if list.len() == 1 {
        json_message(list[0])
    } else {
        json_messages(list.drop_last()) + seq![','] + json_message(list.last())
    }
}

/// The whole payload as JSON.
pub open spec fn json_request(r: EmailRequestModel) -> Seq<char> {
    "{\"Messages\":["@ + json_messages(r.messages) + "]}"@
}

/// Appends the escaped form of every character of `s`.
fn push_json_escaped(out: &mut Vec<char>, s: &str)
    ensures
        final(out)@ == old(out)@ + json_escape(s@),
{
    let n = s.unicode_len();
    let mut i: usize = 0;
    while i < n
        invariant
            i <= n,
            n == s@.len(),
            out@ == old(out)@ + json_escape(s@.take(i as int)),
        decreases n - i,
    {
        let c = s.get_char(i);
        let u = c as u32;
        if c == '"' {
            out.push('\\');
            out.push('"');
        } else if c == '\\' {
            out.push('\\');
            out.push('\\');
        } else if u == 0x8 {
            out.push('\\');
            out.push('b');
        } else if c == '\t' {
            out.push('\\');
            out.push('t');
        } else if c == '\n' {
            out.push('\\');
            out.push('n');
        } else if u == 0xc {
            out.push('\\');
            out.push('f');
        } else if c == '\r' {
            out.push('\\');
            out.push('r');
        } else if u < 0x20 {
            out.push('\\');
            out.push('u');
            out.push('0');
            out.push('0');
            out.push(hex_digit_char(u / 16));
            out.push(hex_digit_char(u % 16));
        } else {
            out.push(c);
        }
        proof {
            assert(s@.take(i + 1 as int).drop_last() =~= s@.take(i as int));
            assert(s@.take(i + 1 as int).last() == s@[i as int]);
            assert(out@ =~= old(out)@ + json_escape(s@.take(i + 1 as int)));
        }
        i = i + 1;
    }
    proof {
        assert(s@.take(n as int) =~= s@);
    }
}

/// Appends a JSON string literal holding `s`.
pub(crate) fn push_json_string(out: &mut Vec<char>, s: &str)
    ensures
        final(out)@ == old(out)@ + json_string(s@),
{
    out.push('"');
    push_json_escaped(out, s);
    out.push('"');
    proof {
        assert(out@ =~= old(out)@ + json_string(s@));
    }
}

/// Appends a sender or recipient entry.
fn push_address(out: &mut Vec<char>, email: &str, name: &str)
    ensures
        final(out)@ == old(out)@ + json_address((AddressModel { email: email@, name: name@ })),
{
    push_chars(out, "{\"Email\":");
    push_json_string(out, email);
    push_chars(out, ",\"Name\":");
    push_json_string(out, name);
    push_chars(out, "}");
    proof {
        assert(out@ =~= old(out)@ + json_address((AddressModel { email: email@, name: name@ })));
    }
}

/// Appends one message.
fn push_message(out: &mut Vec<char>, m: &Message)
    ensures
        final(out)@ == old(out)@ + json_message(m@),
{
    push_chars(out, "{\"From\":");
    push_address(out, m.from.email.as_str(), m.from.name.as_str());
    push_chars(out, ",\"To\":[");
    let n = m.to.len();
    let mut k: usize = 0;
    while k < n
        invariant
            k <= n,
            n == m.to@.len(),
            out@ == old(out)@ + "{\"From\":"@ + json_address(m.from@) + ",\"To\":["@
                + json_addresses(m@.to.take(k as int)),
        decreases n - k,
    {
        let ghost done = m@.to.take(k as int);
        if k > 0 {
            out.push(',');
        }
        push_address(out, m.to[k].email.as_str(), m.to[k].name.as_str());
        proof {
            let next = m@.to.take(k + 1 as int);
            assert(next.drop_last() =~= done);
            assert(next.last() == m@.to[k as int]);
            assert(out@ =~= old(out)@ + "{\"From\":"@ + json_address(m.from@) + ",\"To\":["@
                + json_addresses(next));
        }
        k = k + 1;
    }
    push_chars(out, "],\"Subject\":");
    push_json_string(out, m.subject.as_str());
    push_chars(out, ",\"TextPart\":");
    push_json_string(out, m.text_part.as_str());
    push_chars(out, ",\"HTMLPart\":");
    push_json_string(out, m.html_part.as_str());
    push_chars(out, ",\"CustomID\":");
    push_json_string(out, m.custom_id.as_str());
    push_chars(out, "}");
    proof {
        assert(m@.to.take(n as int) =~= m@.to);
        assert(out@ =~= old(out)@ + json_message(m@));
    }
}

} // verus!
