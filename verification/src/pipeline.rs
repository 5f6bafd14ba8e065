//! The request orchestrator: extract, authenticate, validate, compose — in
//! that order, stopping at the first failure — and the mapping of a dispatch
//! attempt's result to the caller-visible outcome.

use vstd::prelude::*;

use crate::auth::auth_model;
use crate::auth::authenticate;
use crate::compose::compose_body;
use crate::compose::compose_model;
use crate::compose::ComposedMessage;
use crate::compose::MessageModel;
use crate::error::ErrorModel;
use crate::error::MailError;
use crate::extract::extract_fields;
use crate::extract::extract_model;
use crate::extract::FieldsModel;
use crate::mailbox::mailbox_parse;
use crate::mailbox::parse_mailbox;
use crate::mailbox::MailboxModel;

verus! {

/// The validated skeleton of a message: both addresses parsed, the optional
/// reply-to parsed, the subject present.
pub struct ValidatedModel {
    pub from: MailboxModel,
    pub to: MailboxModel,
    pub reply_to: Option<MailboxModel>,
    pub subject: Seq<char>,
}

/// The validation decision over extracted fields, in the order the pipeline
/// checks them: `to` (absent, then malformed), `from` (absent, then
/// malformed), `reply-to` (malformed only), `subject` (absent).
pub open spec fn validate_model(f: FieldsModel) -> Result<ValidatedModel, ErrorModel> {
    match f.to {
        None => Err(ErrorModel::MissingTo),
        Some(ts) => match mailbox_parse(ts) {
            None => Err(ErrorModel::MailboxParseError),
            Some(to_m) => match f.from {
                None => Err(ErrorModel::MissingFrom),
                Some(fs) => match mailbox_parse(fs) {
                    None => Err(ErrorModel::MailboxParseError),
                    Some(from_m) => {
                        let reply_to = match f.reply_to {
                            None => Ok(None),
                            Some(rs) => match mailbox_parse(rs) {
                                None => Err(ErrorModel::MailboxParseError),
                                Some(r_m) => Ok(
                                    Some(MailboxModel { name: r_m.0, address: r_m.1 }),
                                ),
                            },
                        };
                        match reply_to {
                            Err(e) => Err(e),
                            Ok(r) => match f.subject {
                                None => Err(ErrorModel::MissingSubject),
                                Some(subj) => Ok(
                                    ValidatedModel {
                                        from: MailboxModel { name: from_m.0, address: from_m.1 },
                                        to: MailboxModel { name: to_m.0, address: to_m.1 },
                                        reply_to: r,
                                        subject: subj,
                                    },
                                ),
                            },
                        }
                    },
                },
            },
        },
    }
}

/// The outcome of one whole request: the composed message on success, the
/// first failure otherwise.
pub open spec fn handle_model(
    headers: Seq<(Seq<char>, Seq<char>)>,
    body: Seq<char>,
    registry: Seq<(Seq<char>, Seq<char>)>,
) -> Result<MessageModel, ErrorModel> {
    let f = extract_model(headers);
    match auth_model(f.api_key, f.from, registry) {
        Err(e) => Err(e),
        Ok(()) => match validate_model(f) {
            Err(e) => Err(e),
            Ok(v) => Ok(
                MessageModel {
                    from: v.from,
                    to: v.to,
                    subject: v.subject,
                    reply_to: v.reply_to,
                    body: compose_model(body),
                },
            ),
        },
    }
}

/// Handle one request: extract the recognized headers, authenticate the
/// claimed sender against the registry, validate the address fields, and
/// compose the message to dispatch.
pub fn handle_request(
    headers: &Vec<(String, String)>,
    body: &str,
    registry: &Vec<(String, String)>,
) -> (r: Result<ComposedMessage, MailError>)
    ensures
        match r {
            Ok(m) => handle_model(headers.deep_view(), body@, registry.deep_view())
                == Ok::<MessageModel, ErrorModel>(m@),
            Err(e) => handle_model(headers.deep_view(), body@, registry.deep_view())
                == Err::<MessageModel, ErrorModel>(e@),
        },
        r matches Ok(m) ==> crate::compose::wf_message(m@),
{
    let fields = extract_fields(headers);

    match authenticate(&fields.api_key, &fields.from, registry) {
        Ok(()) => (),
        Err(e) => {
            return Err(e);
        },
    }

    let to = match &fields.to {
        Some(t) => match parse_mailbox(t.as_str()) {
            Ok(m) => m,
            Err(e) => {
                return Err(e);
            },
        },
        None => {
            return Err(MailError::MissingTo);
        },
    };
    let from = match &fields.from {
        Some(fs) => match parse_mailbox(fs.as_str()) {
            Ok(m) => m,
            Err(e) => {
                return Err(e);
            },
        },
        None => {
            return Err(MailError::MissingFrom);
        },
    };
    let reply_to = match &fields.reply_to {
        Some(rs) => match parse_mailbox(rs.as_str()) {
            Ok(m) => Some(m),
            Err(e) => {
                return Err(e);
            },
        },
        None => None,
    };
    let subject = match &fields.subject {
        Some(s) => s.clone(),
        None => {
            return Err(MailError::MissingSubject);
        },
    };

    let composed = compose_body(body);

    Ok(ComposedMessage { from, to, subject, reply_to, body: composed })
}

/// Map a dispatch attempt to the caller-visible outcome: a transport failure
/// becomes `DispatchFailed` carrying the transport's description.
pub fn dispatch_outcome(sent: Result<(), String>) -> (r: Result<(), MailError>)
    ensures
        match sent {
            Ok(()) => r is Ok,
            Err(m) => r matches Err(e) && e@ == ErrorModel::DispatchFailed(m@),
        },
{
    match sent {
        Ok(()) => Ok(()),
        Err(m) => Err(MailError::DispatchFailed(m)),
    }
}

} // verus!
