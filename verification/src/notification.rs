//! The notification service's e-mail about a newly created product.
use crate::instant::{utc_plain_text, Instant};
use crate::order_service::status_view;
use crate::rpc::{RpcCode, RpcStatus};
use lettre::message::Mailbox;
use lettre::Message;
use vstd::prelude::*;

verus! {

broadcast use vstd::string::group_string_axioms;

#[verifier::external_type_specification]
#[verifier::external_body]
pub struct ExMailbox(Mailbox);

#[verifier::external_type_specification]
#[verifier::external_body]
pub struct ExMessage(Message);

/// Whether `str::parse::<lettre::message::Mailbox>` rejects a text, and the
/// text of its error if so.
pub uninterp spec fn mailbox_parse_error(s: Seq<char>) -> Option<Seq<char>>;

/// An e-mail address as lettre's `Mailbox` parser read it, with the text it
/// was read from.
struct ParsedMailbox {
    mailbox: Mailbox,
    source: Ghost<Seq<char>>,
}

impl ParsedMailbox {
    /// The text the mailbox was read from.
    closed spec fn source(&self) -> Seq<char> {
        self.source@
    }
}

/// Parses an e-mail address with lettre's `Mailbox` parser.
/// Trusted: it fails exactly when lettre rejects the text, with lettre's
/// error as text; the mailbox it gives is the one read from `s`.
#[verifier::external_body]
fn parse_mailbox(s: &str) -> (r: Result<ParsedMailbox, String>)
    ensures
        match r {
            Ok(m) => mailbox_parse_error(s@) is None && m.source() == s@,
            Err(e) => mailbox_parse_error(s@) == Some(e@),
        },
{
    match s.parse::<Mailbox>() {
        Ok(m) => Ok(ParsedMailbox { mailbox: m, source: Ghost(s@) }),
        Err(e) => Err(e.to_string()),
    }
}

/// What an e-mail says: its sender and its recipient, each as the text its
/// mailbox was read from, its subject, and the text of its body.
pub struct EmailView {
    pub from: Seq<char>,
    pub to: Seq<char>,
    pub subject: Seq<char>,
    pub body: Seq<char>,
}

/// An e-mail built by lettre, ready to send.
pub struct Email {
    message: Message,
    parts: Ghost<EmailView>,
}

impl View for Email {
    type V = EmailView;

    closed spec fn view(&self) -> EmailView {
        self.parts@
    }
}

impl Email {
    /// The lettre message, to hand to a transport.
    pub fn into_message(self) -> Message {
        self.message
    }
}

/// Builds a message with lettre's `MessageBuilder`: sender, recipient,
/// subject and plain-text body.
/// Trusted: building succeeds, and the message has `from` as its `From`
/// mailbox, `to` as its `To` mailbox, `subject` as its `Subject` and `body`
/// as the text of its body (`MessageBuilder::from`, `to`, `subject` and
/// `body` set exactly these).  `MessageBuilder::build` fails only where the
/// `From` header is missing, where it holds several mailboxes and no
/// `Sender` is set, or where the envelope gets no recipient; here `From`
/// holds the one sender and `To` the one recipient.  Not stated: the `Date`
/// header, which lettre stamps with the current time, and how the body is
/// encoded on the wire.
#[verifier::external_body]
fn build_message(from: ParsedMailbox, to: ParsedMailbox, subject: String, body: String) -> (r: Result<Email, String>)
    ensures
        match r {
            Ok(m) => m@ == (EmailView { from: from.source(), to: to.source(), subject: subject@, body: body@ }),
            Err(_) => false,
        },
{
    let parts = Ghost(EmailView { from: from.source@, to: to.source@, subject: subject@, body: body@ });
    match Message::builder().from(from.mailbox).to(to.mailbox).subject(subject).body(body) {
        Ok(m) => Ok(Email { message: m, parts }),
        Err(e) => Err(e.to_string()),
    }
}

/// `New Product Created: <name>`
pub open spec fn subject_text(name: Seq<char>) -> Seq<char> {
    "New Product Created: "@ + name
}

/// The body of the e-mail: the product's name and the time of creation.
pub open spec fn body_text(name: Seq<char>, created_at: Seq<char>) -> Seq<char> {
    "Your company has created a new product.\n\nProduct Name: "@ + name + "\nCreated At: "@ + created_at
        + "\n\nThis is an automated notification."@
}

/// `Notification received for product: <name>`
pub open spec fn reply_text(name: Seq<char>) -> Seq<char> {
    "Notification received for product: "@ + name
}

/// The subject keeps the whole product name, whatever its length: it is
/// `New Product Created: ` followed by every character of the name, so the
/// name can be read back from it and different names give different
/// subjects.
pub proof fn lemma_subject_keeps_name(a: Seq<char>, b: Seq<char>)
    ensures
        subject_text(a).len() == "New Product Created: "@.len() + a.len(),
        subject_text(a).take("New Product Created: "@.len() as int) == "New Product Created: "@,
        subject_text(a).skip("New Product Created: "@.len() as int) == a,
        subject_text(a) == subject_text(b) ==> a == b,
{
    let p = "New Product Created: "@;
    assert(subject_text(a).take(p.len() as int) =~= p);
    assert(subject_text(a).skip(p.len() as int) =~= a);
    assert(subject_text(b).skip(p.len() as int) =~= b);
}

/// The body keeps the whole product name and the whole time text: each can
/// be read back from it at its place, so different names or times give
/// different bodies.
pub proof fn lemma_body_keeps_name_and_time(a: Seq<char>, t: Seq<char>, b: Seq<char>, u: Seq<char>)
    ensures
        ({
            let pl = "Your company has created a new product.\n\nProduct Name: "@.len() as int;
            let ml = "\nCreated At: "@.len() as int;
            let el = "\n\nThis is an automated notification."@.len() as int;
            let x = body_text(a, t);
            &&& x.len() == pl + a.len() + ml + t.len() + el
            &&& x.subrange(pl, pl + a.len()) == a
            &&& x.subrange(pl + a.len() + ml, pl + a.len() + ml + t.len()) == t
        }),
        body_text(a, t) == body_text(b, u) && a.len() == b.len() ==> a == b && t == u,
{
    let pl = "Your company has created a new product.\n\nProduct Name: "@.len() as int;
    let ml = "\nCreated At: "@.len() as int;
    let x = body_text(a, t);
    let y = body_text(b, u);
    assert(x.subrange(pl, pl + a.len()) =~= a);
    assert(x.subrange(pl + a.len() + ml, pl + a.len() + ml + t.len()) =~= t);
    assert(y.subrange(pl, pl + b.len()) =~= b);
    assert(y.subrange(pl + b.len() + ml, pl + b.len() + ml + u.len()) =~= u);
}

/// The subject of the e-mail about a new product.
pub fn email_subject(product_name: &str) -> (r: String)
    ensures
        r@ == subject_text(product_name@),
        r@ == "New Product Created: "@ + product_name@,
{
    let mut s = "New Product Created: ".to_string();
    s.append(product_name);
    s
}

/// The body of the e-mail about a new product created at `now`.
pub fn email_body(product_name: &str, now: &Instant) -> (r: String)
    ensures
        r@ == body_text(product_name@, utc_plain_text(now.spec_secs(), now.spec_nanos())),
{
    let mut s = "Your company has created a new product.\n\nProduct Name: ".to_string();
    s.append(product_name);
    s.append("\nCreated At: ");
    let t = now.to_plain_text();
    s.append(t.as_str());
    s.append("\n\nThis is an automated notification.");
    s
}

/// The service's answer to a product notification: success, with a message
/// naming the product.
pub fn notification_reply(product_name: &str) -> (r: (bool, String))
    ensures
        r.0,
        r.1@ == reply_text(product_name@),
{
    let mut s = "Notification received for product: ".to_string();
    s.append(product_name);
    (true, s)
}

fn internal_with(prefix: &str, detail: String) -> (r: RpcStatus)
    ensures
        status_view(r) == (RpcCode::Internal, prefix@ + detail@),
{
    let mut m = prefix.to_string();
    m.append(detail.as_str());
    RpcStatus::internal(m)
}

/// The e-mail telling `recipient` about the new product: from the service's
/// sender address, with the subject and body above.  An unreadable sender
/// or recipient address is an internal error saying which; with both
/// readable, the message is built.
pub fn product_email(from_email: &str, recipient: &str, product_name: &str, now: &Instant) -> (r: Result<
    Email,
    RpcStatus,
>)
    ensures
        match mailbox_parse_error(from_email@) {
            Some(e) => r matches Err(s) && status_view(s) == (RpcCode::Internal, "invalid from address: "@ + e),
            None => match mailbox_parse_error(recipient@) {
                Some(e) => r matches Err(s) && status_view(s) == (
                    RpcCode::Internal,
                    "invalid recipient address: "@ + e,
                ),
                None => r matches Ok(m) && m@ == (EmailView {
                    from: from_email@,
                    to: recipient@,
                    subject: subject_text(product_name@),
                    body: body_text(product_name@, utc_plain_text(now.spec_secs(), now.spec_nanos())),
                }),
            },
        },
{
    let from = match parse_mailbox(from_email) {
        Ok(m) => m,
        Err(e) => {
            return Err(internal_with("invalid from address: ", e));
        },
    };
    let to = match parse_mailbox(recipient) {
        Ok(m) => m,
        Err(e) => {
            return Err(internal_with("invalid recipient address: ", e));
        },
    };
    let subject = email_subject(product_name);
    let body = email_body(product_name, now);
    match build_message(from, to, subject, body) {
        Ok(m) => Ok(m),
        Err(e) => Err(internal_with("failed to build email: ", e)),
    }
}

} // verus!
