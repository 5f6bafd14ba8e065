//! The laws the pipeline obeys, stated over its mathematical model and
//! proved once and for all.

use vstd::prelude::*;

use crate::auth::claimed_identity;
use crate::auth::lookup_hash;
use crate::compose::compose_model;
use crate::compose::spec_sentinel;
use crate::compose::BodyModel;
use crate::compose::MessageModel;
use crate::error::ErrorModel;
use crate::extract::extract_model;
use crate::hashing::digest_model;
use crate::mailbox::mailbox_parse;
use crate::mailbox::MailboxModel;
use crate::pipeline::handle_model;
use crate::strutil::contains_seq;
use crate::strutil::find_sub_spec;
use crate::strutil::lemma_find_sub_contains;

verus! {

/// A request is valid when its `api-key` digest contains the credential hash
/// stored for the claimed sender, its `to` and `from` fields are present and
/// parse, its `reply-to` parses if present, and its `subject` is present.
pub open spec fn request_valid(
    headers: Seq<(Seq<char>, Seq<char>)>,
    registry: Seq<(Seq<char>, Seq<char>)>,
) -> bool {
    let f = extract_model(headers);
    &&& f.api_key matches Some(k) && (lookup_hash(registry, claimed_identity(f.from))
        matches Some(h) && contains_seq(digest_model(k), h))
    &&& f.to matches Some(t) && mailbox_parse(t) is Some
    &&& f.from matches Some(fr) && mailbox_parse(fr) is Some
    &&& (f.reply_to matches Some(r) ==> mailbox_parse(r) is Some)
    &&& f.subject is Some
}

/// Law: a valid request succeeds, and the message handed to the transport
/// carries exactly the request's fields — the parsed `to`, `from` and
/// `reply-to`, the subject as given, and the composed body.
pub proof fn lemma_valid_request_succeeds(
    headers: Seq<(Seq<char>, Seq<char>)>,
    body: Seq<char>,
    registry: Seq<(Seq<char>, Seq<char>)>,
)
    requires
        request_valid(headers, registry),
    ensures
        ({
            let f = extract_model(headers);
            let to_m = mailbox_parse(f.to->Some_0)->Some_0;
            let from_m = mailbox_parse(f.from->Some_0)->Some_0;
            handle_model(headers, body, registry) == Ok::<MessageModel, ErrorModel>(
                MessageModel {
                    from: MailboxModel { name: from_m.0, address: from_m.1 },
                    to: MailboxModel { name: to_m.0, address: to_m.1 },
                    subject: f.subject->Some_0,
                    reply_to: match f.reply_to {
                        Some(rs) => Some(
                            MailboxModel {
                                name: mailbox_parse(rs)->Some_0.0,
                                address: mailbox_parse(rs)->Some_0.1,
                            },
                        ),
                        None => None,
                    },
                    body: compose_model(body),
                },
            )
        }),
{
}

/// Law: a request without an `api-key` header fails with `MissingApiKey`;
/// since the outcome is a failure, nothing is ever handed to the transport.
pub proof fn lemma_missing_api_key(
    headers: Seq<(Seq<char>, Seq<char>)>,
    body: Seq<char>,
    registry: Seq<(Seq<char>, Seq<char>)>,
)
    requires
        extract_model(headers).api_key is None,
    ensures
        handle_model(headers, body, registry) == Err::<MessageModel, ErrorModel>(
            ErrorModel::MissingApiKey,
        ),
{
}

/// Law: when the computed digest of the presented secret does not contain
/// the credential hash stored for the claimed sender — or no credential is
/// stored for it at all — the request fails with `Unauthorized` carrying
/// that digest, and nothing is handed to the transport.
pub proof fn lemma_unauthorized(
    headers: Seq<(Seq<char>, Seq<char>)>,
    body: Seq<char>,
    registry: Seq<(Seq<char>, Seq<char>)>,
)
    requires
        extract_model(headers).api_key is Some,
        match lookup_hash(registry, claimed_identity(extract_model(headers).from)) {
            Some(h) => !contains_seq(
                digest_model(extract_model(headers).api_key->Some_0),
                h,
            ),
            None => true,
        },
    ensures
        handle_model(headers, body, registry) == Err::<MessageModel, ErrorModel>(
            ErrorModel::Unauthorized(digest_model(extract_model(headers).api_key->Some_0)),
        ),
{
}

/// Law: when the sentinel first occurs at position `i`, the composed body is
/// the split into exactly the characters before `i` and the characters after
/// the sentinel's 31 characters: no character is duplicated or dropped, and
/// only the sentinel itself is lost by the split.
pub proof fn lemma_body_split(body: Seq<char>, i: int)
    requires
        find_sub_spec(body, spec_sentinel()) == Some(i),
    ensures
        ({
            let r = compose_model(body);
            &&& r matches BodyModel::Alternative { plain, html }
            &&& plain == body.subrange(0, i)
            &&& html == body.subrange(i + 31, body.len() as int)
            &&& plain.len() + 31 + html.len() == body.len()
            &&& body.subrange(i, i + 31) == spec_sentinel()
            &&& body == plain + spec_sentinel() + html
        }),
{
    crate::compose::lemma_sentinel_len();
    lemma_find_sub_contains(body, spec_sentinel());
    assert(body.subrange(i, i + 31) == spec_sentinel());
    assert(body =~= body.subrange(0, i) + body.subrange(i, i + 31) + body.subrange(
        i + 31,
        body.len() as int,
    ));
}

/// Law: a body without the sentinel is composed as a plain body equal to the
/// raw body, unchanged.
pub proof fn lemma_body_identity(body: Seq<char>)
    requires
        !contains_seq(body, spec_sentinel()),
    ensures
        compose_model(body) == BodyModel::Plain(body),
{
    lemma_find_sub_contains(body, spec_sentinel());
}

/// Law: the outcome is a function of the request and the registry alone, so
/// handling the same request twice against an unchanged registry yields the
/// same outcome — the same failure, or the same composed message — both
/// times.
pub proof fn lemma_handle_idempotent(
    headers: Seq<(Seq<char>, Seq<char>)>,
    body: Seq<char>,
    registry: Seq<(Seq<char>, Seq<char>)>,
    r1: Result<MessageModel, ErrorModel>,
    r2: Result<MessageModel, ErrorModel>,
)
    requires
        r1 == handle_model(headers, body, registry),
        r2 == handle_model(headers, body, registry),
    ensures
        r1 == r2,
{
}

} // verus!

