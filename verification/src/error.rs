//! The failure taxonomy of the pipeline, its severity mapping and the short
//! caller-facing descriptions.

use vstd::prelude::*;

verus! {

/// Mathematical model of a pipeline failure.
pub enum ErrorModel {
    MissingApiKey,
    Unauthorized(Seq<char>),
    MissingTo,
    MissingFrom,
    MissingSubject,
    MailboxParseError,
    DispatchFailed(Seq<char>),
}

/// A pipeline failure. `Unauthorized` carries the computed digest for
/// caller-side diagnostics; `DispatchFailed` carries the transport's own
/// description.
#[derive(Debug)]
pub enum MailError {
    MissingApiKey,
    Unauthorized(String),
    MissingTo,
    MissingFrom,
    MissingSubject,
    MailboxParseError,
    DispatchFailed(String),
}

impl View for MailError {
    type V = ErrorModel;

    open spec fn view(&self) -> ErrorModel {
        match self {
            MailError::MissingApiKey => ErrorModel::MissingApiKey,
            MailError::Unauthorized(d) => ErrorModel::Unauthorized(d@),
            MailError::MissingTo => ErrorModel::MissingTo,
            MailError::MissingFrom => ErrorModel::MissingFrom,
            MailError::MissingSubject => ErrorModel::MissingSubject,
            MailError::MailboxParseError => ErrorModel::MailboxParseError,
            MailError::DispatchFailed(m) => ErrorModel::DispatchFailed(m@),
        }
    }
}

/// The kind of a failure, without its payload.
#[derive(Clone, Copy, PartialEq, Eq, Structural, Debug)]
pub enum ErrorKind {
    MissingApiKey,
    Unauthorized,
    MissingTo,
    MissingFrom,
    MissingSubject,
    MailboxParseError,
    DispatchFailed,
}

/// Caller-facing severity of a failure kind.
#[derive(Clone, Copy, PartialEq, Eq, Structural, Debug)]
pub enum Severity {
    /// The request itself is wrong (missing or malformed fields).
    Client,
    /// The caller is not allowed to send as the claimed sender.
    Authentication,
    /// The mail transport failed; nothing was wrong with the request.
    Transport,
}

pub open spec fn kind_model(e: ErrorModel) -> ErrorKind {
    match e {
        ErrorModel::MissingApiKey => ErrorKind::MissingApiKey,
        ErrorModel::Unauthorized(_) => ErrorKind::Unauthorized,
        ErrorModel::MissingTo => ErrorKind::MissingTo,
        ErrorModel::MissingFrom => ErrorKind::MissingFrom,
        ErrorModel::MissingSubject => ErrorKind::MissingSubject,
        ErrorModel::MailboxParseError => ErrorKind::MailboxParseError,
        ErrorModel::DispatchFailed(_) => ErrorKind::DispatchFailed,
    }
}

pub open spec fn severity_model(k: ErrorKind) -> Severity {
    match k {
        ErrorKind::Unauthorized => Severity::Authentication,
        ErrorKind::DispatchFailed => Severity::Transport,
        _ => Severity::Client,
    }
}

pub open spec fn description_model(e: ErrorModel) -> Seq<char> {
    match e {
        ErrorModel::MissingApiKey => "missing api-key header"@,
        ErrorModel::Unauthorized(_) => "unauthorized"@,
        ErrorModel::MissingTo => "missing to header"@,
        ErrorModel::MissingFrom => "missing from header"@,
        ErrorModel::MissingSubject => "missing subject header"@,
        ErrorModel::MailboxParseError => "malformed mailbox address"@,
        ErrorModel::DispatchFailed(m) => "failed to send the email: "@ + m,
    }
}

impl MailError {
    /// The kind of this failure.
    pub fn kind(&self) -> (k: ErrorKind)
        ensures
            k == kind_model(self@),
    {
        match self {
            MailError::MissingApiKey => ErrorKind::MissingApiKey,
            MailError::Unauthorized(_) => ErrorKind::Unauthorized,
            MailError::MissingTo => ErrorKind::MissingTo,
            MailError::MissingFrom => ErrorKind::MissingFrom,
            MailError::MissingSubject => ErrorKind::MissingSubject,
            MailError::MailboxParseError => ErrorKind::MailboxParseError,
            MailError::DispatchFailed(_) => ErrorKind::DispatchFailed,
        }
    }

    /// The caller-facing severity of this failure. Authentication failures
    /// are the ones a server must not echo into its operational log.
    pub fn severity(&self) -> (s: Severity)
        ensures
            s == severity_model(kind_model(self@)),
    {
        match self {
            MailError::Unauthorized(_) => Severity::Authentication,
            MailError::DispatchFailed(_) => Severity::Transport,
            _ => Severity::Client,
        }
    }

    /// A short human-readable description of this failure.
    pub fn description(&self) -> (d: String)
        ensures
            d@ == description_model(self@),
    {
        match self {
            MailError::MissingApiKey => String::from_str("missing api-key header"),
            MailError::Unauthorized(_) => String::from_str("unauthorized"),
            MailError::MissingTo => String::from_str("missing to header"),
            MailError::MissingFrom => String::from_str("missing from header"),
            MailError::MissingSubject => String::from_str("missing subject header"),
            MailError::MailboxParseError => String::from_str("malformed mailbox address"),
            MailError::DispatchFailed(m) => String::from_str("failed to send the email: ").concat(
                m.as_str(),
            ),
        }
    }
}

} // verus!
