//! Body composition: a request body is split into a plain part and an HTML
//! part at the first occurrence of the sentinel line, or kept whole as a
//! plain body when the sentinel is absent.

use vstd::prelude::*;

use crate::mailbox::Mailbox;
use crate::mailbox::MailboxModel;
use crate::strutil::find_sub;
use crate::strutil::find_sub_spec;

verus! {

/// The body of a composed message: a single plain part, or a plain and an
/// HTML alternative.
#[derive(Debug)]
pub enum MessageBody {
    Plain(String),
    Alternative { plain: String, html: String },
}

/// Mathematical model of a `MessageBody`.
pub enum BodyModel {
    Plain(Seq<char>),
    Alternative { plain: Seq<char>, html: Seq<char> },
}

impl View for MessageBody {
    type V = BodyModel;

    open spec fn view(&self) -> BodyModel {
        match self {
            MessageBody::Plain(b) => BodyModel::Plain(b@),
            MessageBody::Alternative { plain, html } => BodyModel::Alternative {
                plain: plain@,
                html: html@,
            },
        }
    }
}

/// The sentinel line that separates the plain part from the HTML part.
pub open spec fn spec_sentinel() -> Seq<char> {
    "\n-----END-TEXT-BEGIN-HTML-----\n"@
}

/// The sentinel as a string.
pub fn sentinel_str() -> (r: &'static str)
    ensures
        r@ == spec_sentinel(),
{
    "\n-----END-TEXT-BEGIN-HTML-----\n"
}

pub proof fn lemma_sentinel_len()
    ensures
        spec_sentinel().len() == 31,
{
    reveal_strlit("\n-----END-TEXT-BEGIN-HTML-----\n");
}

/// How a raw body is represented: split at the first sentinel occurrence
/// into the part before it and the part after it, or kept whole.
pub open spec fn compose_model(body: Seq<char>) -> BodyModel {
    match find_sub_spec(body, spec_sentinel()) {
        Some(i) => BodyModel::Alternative {
            plain: body.subrange(0, i),
            html: body.subrange(i + spec_sentinel().len(), body.len() as int),
        },
        None => BodyModel::Plain(body),
    }
}

/// Decide the representation of a raw body.
pub fn compose_body(body: &str) -> (r: MessageBody)
    ensures
        r@ == compose_model(body@),
{
    let sent = sentinel_str();
    match find_sub(body, sent) {
        Some(i) => {
            let len = body.unicode_len();
            let sent_len = sent.unicode_len();
            proof {
                crate::strutil::lemma_find_sub_contains(body@, spec_sentinel());
            }
            let plain = body.substring_char(0, i).to_owned();
            let html = body.substring_char(i + sent_len, len).to_owned();
            MessageBody::Alternative { plain, html }
        },
        None => MessageBody::Plain(body.to_owned()),
    }
}

/// A fully composed message, ready for dispatch.
#[derive(Debug)]
pub struct ComposedMessage {
    pub from: Mailbox,
    pub to: Mailbox,
    pub subject: String,
    pub reply_to: Option<Mailbox>,
    pub body: MessageBody,
}

/// Every address of a composed message is well-formed.
pub open spec fn wf_message(m: MessageModel) -> bool {
    &&& crate::mailbox::wf_mailbox(m.from)
    &&& crate::mailbox::wf_mailbox(m.to)
    &&& (m.reply_to matches Some(r) ==> crate::mailbox::wf_mailbox(r))
}

/// Mathematical model of a `ComposedMessage`.
pub struct MessageModel {
    pub from: MailboxModel,
    pub to: MailboxModel,
    pub subject: Seq<char>,
    pub reply_to: Option<MailboxModel>,
    pub body: BodyModel,
}

impl View for ComposedMessage {
    type V = MessageModel;

    open spec fn view(&self) -> MessageModel {
        MessageModel {
            from: self.from@,
            to: self.to@,
            subject: self.subject@,
            reply_to: match self.reply_to {
                Some(r) => Some(r@),
                None => None,
            },
            body: self.body@,
        }
    }
}

} // verus!
