//! The ways in which a request can fail.

use vstd::prelude::*;
use vstd::string::StringExecFns;
use crate::store::StoreFault;
use crate::template::{TemplateError, TemplateFault};
use crate::text::{decimal, push_decimal};

verus! {

/// A failed request. No variant holds a login, an account, a password or a
/// rendered token.
#[derive(Debug, PartialEq, Eq)]
pub enum CredentialError {
    /// The invocation's arguments were rejected; `message` is the argument
    /// parser's account of it.
    ConfigError { message: String },
    /// The registry's index URL is not a URL; `reason` is the URL parser's
    /// account of it.
    UrlParseError { reason: String },
    /// The registry's index URL has no host.
    UrlNotSupported,
    /// The login database could not be read or parsed.
    StoreUnavailable { fault: StoreFault },
    /// The login database has no entry for `host`.
    NotFound { host: String },
    /// The output template cannot be rendered.
    InvalidTemplate { error: TemplateError },
    /// The action is not one that this provider performs.
    OperationNotSupported,
}

/// Why no login database could be had, as plain values.
pub enum StoreFailure {
    Unreadable { reason: Seq<char> },
    Oversized,
    Malformed,
}

impl View for StoreFault {
    type V = StoreFailure;

    open spec fn view(&self) -> StoreFailure {
        match self {
            StoreFault::Unreadable { reason } => StoreFailure::Unreadable { reason: reason@ },
            StoreFault::Oversized => StoreFailure::Oversized,
            StoreFault::Malformed => StoreFailure::Malformed,
        }
    }
}

/// A [`CredentialError`] as plain values. The URL parser's wording of its
/// reason is not part of it.
pub enum Failure {
    ConfigError { message: Seq<char> },
    UrlParseError,
    UrlNotSupported,
    StoreUnavailable { fault: StoreFailure },
    NotFound { host: Seq<char> },
    InvalidTemplate { cause: TemplateFault },
    OperationNotSupported,
}

impl View for CredentialError {
    type V = Failure;

    open spec fn view(&self) -> Failure {
        match self {
            CredentialError::ConfigError { message } => Failure::ConfigError { message: message@ },
            CredentialError::UrlParseError { .. } => Failure::UrlParseError,
            CredentialError::UrlNotSupported => Failure::UrlNotSupported,
            CredentialError::StoreUnavailable { fault } => Failure::StoreUnavailable {
                fault: fault@,
            },
            CredentialError::NotFound { host } => Failure::NotFound { host: host@ },
            CredentialError::InvalidTemplate { error } => Failure::InvalidTemplate {
                cause: error@,
            },
            CredentialError::OperationNotSupported => Failure::OperationNotSupported,
        }
    }
}

impl TemplateError {
    /// The text of [`TemplateError::describe`].
    pub open spec fn description(&self) -> Seq<char> {
        match self {
            TemplateError::Empty => "template is empty"@,
            TemplateError::UnclosedTag { position } => "tag at position "@ + decimal(
                *position as nat,
            ) + " is not closed"@,
            TemplateError::UnknownVariable { position, name } => "unknown variable '"@ + name@
                + "' at position "@ + decimal(*position as nat),
        }
    }

    /// Which construct of the template failed, and where.
    pub fn describe(&self) -> (text: String)
        ensures
            text@ == self.description(),
    {
        match self {
            TemplateError::Empty => String::from_str("template is empty"),
            TemplateError::UnclosedTag { position } => {
                let mut text = String::from_str("tag at position ");
                push_decimal(&mut text, *position);
                text.append(" is not closed");
                text
            },
            TemplateError::UnknownVariable { position, name } => {
                let mut text = String::from_str("unknown variable '");
                text.append(name.as_str());
                text.append("' at position ");
                push_decimal(&mut text, *position);
                text
            },
        }
    }
}

impl StoreFault {
    /// The text of [`StoreFault::describe`].
    pub open spec fn description(&self) -> Seq<char> {
        match self {
            StoreFault::Unreadable { reason } => reason@,
            StoreFault::Oversized => "file is too large"@,
            StoreFault::Malformed => "file is malformed"@,
        }
    }

    /// What went wrong with the login file. Nothing of the file's contents is
    /// in the text.
    pub fn describe(&self) -> (text: String)
        ensures
            text@ == self.description(),
    {
        match self {
            StoreFault::Unreadable { reason } => reason.clone(),
            StoreFault::Oversized => String::from_str("file is too large"),
            StoreFault::Malformed => String::from_str("file is malformed"),
        }
    }
}

impl CredentialError {
    /// The text of [`CredentialError::message`].
    pub open spec fn message_text(&self) -> Seq<char> {
        match self {
            CredentialError::ConfigError { message } => "invalid arguments: "@ + message@,
            CredentialError::UrlParseError { reason } => "invalid registry URL: "@ + reason@,
            CredentialError::UrlNotSupported => "registry URL has no host"@,
            CredentialError::StoreUnavailable { fault } => "login database unavailable: "@
                + fault.description(),
            CredentialError::NotFound { host } => "no entry for host "@ + host@,
            CredentialError::InvalidTemplate { error } => "invalid template: "@
                + error.description(),
            CredentialError::OperationNotSupported => "operation not supported"@,
        }
    }

    /// A line for the user: the kind of failure and what it was about.
    pub fn message(&self) -> (text: String)
        ensures
            text@ == self.message_text(),
    {
        match self {
            CredentialError::ConfigError { message } => {
                let mut text = String::from_str("invalid arguments: ");
                text.append(message.as_str());
                text
            },
            CredentialError::UrlParseError { reason } => {
                let mut text = String::from_str("invalid registry URL: ");
                text.append(reason.as_str());
                text
            },
            CredentialError::UrlNotSupported => String::from_str("registry URL has no host"),
            CredentialError::StoreUnavailable { fault } => {
                let mut text = String::from_str("login database unavailable: ");
                text.append(fault.describe().as_str());
                text
            },
            CredentialError::NotFound { host } => {
                let mut text = String::from_str("no entry for host ");
                text.append(host.as_str());
                text
            },
            CredentialError::InvalidTemplate { error } => {
                let mut text = String::from_str("invalid template: ");
                text.append(error.describe().as_str());
                text
            },
            CredentialError::OperationNotSupported => String::from_str("operation not supported"),
        }
    }
}

} // verus!
