//! Validated mail addresses. Parsing is done by the `lettre` crate, which
//! accepts the conventional `Display Name <local@domain>` and bare
//! `local@domain` forms; this module keeps only its plain result: the
//! optional display name and the `local@domain` address string.

use vstd::prelude::*;

use crate::error::ErrorModel;
use crate::error::MailError;
use crate::strutil::contains_char;

verus! {

/// A validated address with an optional display name.
#[derive(Debug)]
pub struct Mailbox {
    pub name: Option<String>,
    pub address: String,
}

/// Mathematical model of a `Mailbox`.
pub struct MailboxModel {
    pub name: Option<Seq<char>>,
    pub address: Seq<char>,
}

impl View for Mailbox {
    type V = MailboxModel;

    open spec fn view(&self) -> MailboxModel {
        MailboxModel { name: self.name.deep_view(), address: self.address@ }
    }
}

/// A parsed address always has the `local@domain` shape, so it holds a `@`.
pub open spec fn wf_mailbox(m: MailboxModel) -> bool {
    contains_char(m.address, '@')
}

/// What `lettre`'s mailbox parser returns on a given string: `None` when the
/// string is rejected, otherwise the display name (if any) and the address.
/// The result depends on the string alone.
pub uninterp spec fn mailbox_parse(s: Seq<char>) -> Option<(Option<Seq<char>>, Seq<char>)>;

#[verifier::external_type_specification]
#[verifier::external_body]
pub struct ExAddressError(lettre::address::AddressError);

/// Relies on `str::parse::<lettre::message::Mailbox>`: parses the
/// conventional mailbox forms, depending on the string alone, and builds the
/// address as `user@domain`, so the address always holds an '@'.
#[verifier::external_body]
fn parse_mailbox_raw(s: &str) -> (r: Result<
    (Option<String>, String),
    lettre::address::AddressError,
>)
    ensures
        (r matches Ok(m)) == (mailbox_parse(s@) is Some),
        r matches Ok(m) ==> mailbox_parse(s@) == Some((m.0.deep_view(), m.1@)) && contains_char(
            m.1@,
            '@',
        ),
{
    match s.parse::<lettre::message::Mailbox>() {
        Ok(mb) => Ok((mb.name, mb.email.to_string())),
        Err(e) => Err(e),
    }
}

/// Parse one address field into a `Mailbox`, mapping a rejected string to
/// the pipeline's own parse failure.
pub fn parse_mailbox(s: &str) -> (r: Result<Mailbox, MailError>)
    ensures
        match r {
            Ok(m) => mailbox_parse(s@) == Some((m@.name, m@.address)) && wf_mailbox(m@),
            Err(e) => mailbox_parse(s@) is None && e@ == ErrorModel::MailboxParseError,
        },
{
    match parse_mailbox_raw(s) {
        Ok((name, address)) => Ok(Mailbox { name, address }),
        Err(_) => Err(MailError::MailboxParseError),
    }
}

} // verus!
