//! The provider itself: one request in, one response or one error out.
//!
//! A request is answered in a fixed order. The arguments are looked at
//! first, then the action, then the registry's URL, then the login file, then
//! the entry for the host, then the template. The first of these that fails
//! decides the error, and nothing is returned beside it.

use vstd::prelude::*;
use crate::entry::LoginFields;
use crate::error::{CredentialError, Failure, StoreFailure};
use crate::host::{resolution, resolve_host, url_host};
use crate::secret::Secret;
use crate::store::{lookup_in, netrc_hosts, LoginDatabase, StoreFault, MAX_TEXT_LENGTH};
use crate::template::{render, rendering};

verus! {

/// The registry that credentials are asked for.
pub struct RegistryInfo {
    /// The URL of the registry's index.
    pub index_url: String,
}

/// What the caller wants done.
#[derive(Clone, Copy, PartialEq, Eq, Structural, Debug)]
pub enum Action {
    /// Hand out the credentials of a registry.
    Get,
    /// Keep new credentials.
    Store,
    /// Forget stored credentials.
    Erase,
    /// Anything else.
    Other,
}

/// How long the caller may keep a token.
#[derive(Clone, Copy, PartialEq, Eq, Structural, Debug)]
pub enum CacheControl {
    /// Not at all.
    Never,
    /// While its process runs.
    Session,
    /// Until the moment given, in seconds since the Unix epoch.
    Expires { expiration: i64 },
}

/// A successful answer to a `Get`.
pub struct CredentialResponse {
    /// The rendered token.
    pub token: Secret,
    /// How long the token may be kept.
    pub cache: CacheControl,
    /// Whether the token serves every operation on the registry.
    pub operation_independent: bool,
}

/// A [`CredentialResponse`] as plain values.
pub struct Reply {
    pub token: Seq<char>,
    pub cache: CacheControl,
    pub operation_independent: bool,
}

impl View for CredentialResponse {
    type V = Reply;

    open spec fn view(&self) -> Reply {
        Reply {
            token: self.token@,
            cache: self.cache,
            operation_independent: self.operation_independent,
        }
    }
}

/// What the argument parser made of the invocation's arguments.
pub enum Arguments {
    /// The arguments hold an output template.
    Accepted { format: String },
    /// The arguments were rejected, for the reason in `message`.
    Rejected { message: String },
}

/// What reading the login file gave.
pub enum LoginFile {
    /// The file's text.
    Text(String),
    /// The file could not be read, for the reason in `reason`.
    Unreadable { reason: String },
}

/// The answer to a `Get` for `host`, given the template and the database:
/// the token rendered from the host's entry, to be kept for the session and
/// good for every operation.
pub open spec fn answer_for(
    host: Seq<char>,
    format: Seq<char>,
    database: Map<Seq<char>, LoginFields>,
) -> Result<Reply, Failure> {
    match lookup_in(database, host) {
        None => Err(Failure::NotFound { host }),
        Some(fields) => match rendering(format, fields) {
            Ok(token) => Ok(
                Reply { token, cache: CacheControl::Session, operation_independent: true },
            ),
            Err(cause) => Err(Failure::InvalidTemplate { cause }),
        },
    }
}

/// The database that a login file holds, or why there is none.
pub open spec fn database_in(login_file: LoginFile) -> Result<Map<Seq<char>, LoginFields>, Failure> {
    match login_file {
        LoginFile::Unreadable { reason } => Err(
            Failure::StoreUnavailable { fault: StoreFailure::Unreadable { reason: reason@ } },
        ),
        LoginFile::Text(text) => if text@.len() > MAX_TEXT_LENGTH {
            Err(Failure::StoreUnavailable { fault: StoreFailure::Oversized })
        } else {
            match netrc_hosts(text@) {
                Some(database) => Ok(database),
                None => Err(Failure::StoreUnavailable { fault: StoreFailure::Malformed }),
            }
        },
    }
}

/// The outcome of a request.
pub open spec fn outcome_of(
    registry: RegistryInfo,
    action: Action,
    arguments: Arguments,
    login_file: LoginFile,
) -> Result<Reply, Failure> {
    match arguments {
        Arguments::Rejected { message } => Err(Failure::ConfigError { message: message@ }),
        Arguments::Accepted { format } => match action {
            Action::Get => match resolution(url_host(registry.index_url@)) {
                Err(failure) => Err(failure),
                Ok(host) => match database_in(login_file) {
                    Err(failure) => Err(failure),
                    Ok(database) => answer_for(host, format@, database),
                },
            },
            _ => Err(Failure::OperationNotSupported),
        },
    }
}

/// Whether `outcome` holds the reply or the failure that `expected` holds.
pub open spec fn same_reply(
    outcome: Result<CredentialResponse, CredentialError>,
    expected: Result<Reply, Failure>,
) -> bool {
    match expected {
        Ok(reply) => outcome matches Ok(response) && response@ == reply,
        Err(failure) => outcome matches Err(error) && error@ == failure,
    }
}

/// Answers a `Get` for `host` from `database`.
///
/// The host is looked up by its exact name. Where there is no entry, the
/// error is `NotFound`; where the template cannot be rendered,
/// `InvalidTemplate`. Otherwise the response holds the rendered token, to be
/// kept for the session and good for every operation.
pub fn answer(host: String, format: &str, database: &LoginDatabase) -> (outcome: Result<
    CredentialResponse,
    CredentialError,
>)
    ensures
        same_reply(outcome, answer_for(host@, format@, database@)),
{
    match database.lookup(host.as_str()) {
        None => Err(CredentialError::NotFound { host }),
        Some(entry) => match render(format, entry) {
            Ok(token) => Ok(
                CredentialResponse {
                    token,
                    cache: CacheControl::Session,
                    operation_independent: true,
                },
            ),
            Err(error) => Err(CredentialError::InvalidTemplate { error }),
        },
    }
}

/// The database in a login file.
pub fn open_database(login_file: &LoginFile) -> (outcome: Result<LoginDatabase, CredentialError>)
    ensures
        match database_in(*login_file) {
            Ok(database) => outcome matches Ok(opened) && opened@ == database,
            Err(failure) => outcome matches Err(error) && error@ == failure,
        },
{
    match login_file {
        LoginFile::Unreadable { reason } => Err(
            CredentialError::StoreUnavailable {
                fault: StoreFault::Unreadable { reason: reason.clone() },
            },
        ),
        LoginFile::Text(text) => match LoginDatabase::parse(text.as_str()) {
            Ok(database) => Ok(database),
            Err(fault) => Err(CredentialError::StoreUnavailable { fault }),
        },
    }
}

/// Performs one request.
///
/// Rejected arguments fail with `ConfigError`. Any action but `Get` fails
/// with `OperationNotSupported`. A `Get` resolves the registry's URL to a
/// host, opens the login file, and answers from the host's entry; each of
/// these steps may fail with its own error, and the first failure is the
/// one returned.
pub fn perform(
    registry: &RegistryInfo,
    action: Action,
    arguments: &Arguments,
    login_file: &LoginFile,
) -> (outcome: Result<CredentialResponse, CredentialError>)
    ensures
        same_reply(outcome, outcome_of(*registry, action, *arguments, *login_file)),
{
    let format = match arguments {
        Arguments::Rejected { message } => {
            return Err(CredentialError::ConfigError { message: message.clone() });
        },
        Arguments::Accepted { format } => format,
    };
    match action {
        Action::Get => {
            let host = match resolve_host(registry.index_url.as_str()) {
                Ok(host) => host,
                Err(error) => {
                    return Err(error);
                },
            };
            let database = match open_database(login_file) {
                Ok(database) => database,
                Err(error) => {
                    return Err(error);
                },
            };
            answer(host, format.as_str(), &database)
        },
        _ => Err(CredentialError::OperationNotSupported),
    }
}

/// Rejected arguments fail the request with `ConfigError`, whatever the
/// action, the registry and the login file.
pub proof fn lemma_rejected_arguments_come_first(
    registry: RegistryInfo,
    action: Action,
    message: String,
    login_file: LoginFile,
)
    ensures
        outcome_of(registry, action, Arguments::Rejected { message }, login_file) == Err::<
            Reply,
            Failure,
        >(Failure::ConfigError { message: message@ }),
{
}

/// With accepted arguments, every action but `Get` fails with
/// `OperationNotSupported`, whatever the registry and the login file.
pub proof fn lemma_only_get_is_supported(
    registry: RegistryInfo,
    action: Action,
    format: String,
    login_file: LoginFile,
)
    requires
        action != Action::Get,
    ensures
        outcome_of(registry, action, Arguments::Accepted { format }, login_file) == Err::<
            Reply,
            Failure,
        >(Failure::OperationNotSupported),
{
}

/// A URL that the parser rejects makes a `Get` fail with `UrlParseError`,
/// whatever the login file holds.
pub proof fn lemma_malformed_url(registry: RegistryInfo, format: String, login_file: LoginFile)
    requires
        url_host(registry.index_url@) is None,
    ensures
        outcome_of(registry, Action::Get, Arguments::Accepted { format }, login_file) == Err::<
            Reply,
            Failure,
        >(Failure::UrlParseError),
{
}

/// A `Get` for a host that the database does not hold fails with `NotFound`,
/// whatever the template: there is no response, and so no empty token.
pub proof fn lemma_absent_host_not_found(
    registry: RegistryInfo,
    format: String,
    login_file: LoginFile,
    host: Seq<char>,
    database: Map<Seq<char>, LoginFields>,
)
    requires
        resolution(url_host(registry.index_url@)) == Ok::<Seq<char>, Failure>(host),
        database_in(login_file) == Ok::<Map<Seq<char>, LoginFields>, Failure>(database),
        !database.contains_key(host),
    ensures
        answer_for(host, format@, database) == Err::<Reply, Failure>(Failure::NotFound { host }),
        outcome_of(registry, Action::Get, Arguments::Accepted { format }, login_file) == Err::<
            Reply,
            Failure,
        >(Failure::NotFound { host }),
{
}

/// Every response is to be kept for the session and serves every operation.
pub proof fn lemma_reply_is_kept_for_the_session(
    registry: RegistryInfo,
    action: Action,
    arguments: Arguments,
    login_file: LoginFile,
)
    ensures
        outcome_of(registry, action, arguments, login_file) matches Ok(reply) ==> reply.cache
            == CacheControl::Session && reply.operation_independent,
{
}

} // verus!
