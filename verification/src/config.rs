//! The bot's configuration: which server, which account, where the state is
//! kept.
//!
//! The values come from a configuration document that is read elsewhere. Here
//! they are plain text, checked once with the parsers that the client itself
//! uses, and handed on explicitly to whatever needs them.

use matrix_sdk::ruma::UserId;
use std::path::Path;
use url::Url;
use vstd::prelude::*;

verus! {

/// Name of the file, below the store's location, that holds the session.
pub const SESSION_FILE_NAME: &'static str = "session.json";

/// Whether `UserId::parse` of ruma accepts `text` as a Matrix user
/// identifier.
pub uninterp spec fn is_user_id(text: Seq<char>) -> bool;

/// Whether `Url::parse` of the url crate accepts `text` as an absolute URL.
pub uninterp spec fn is_url(text: Seq<char>) -> bool;

/// What `Path::join` of std makes of `base` and `name`, as text, with the
/// separator of the platform that the crate is built for.
pub uninterp spec fn joined_path(base: Seq<char>, name: Seq<char>) -> Seq<char>;

/// Calls `UserId::parse` of ruma. Trusted: the answer is `is_user_id` of the
/// text, that is, whether the parser accepted it.
#[verifier::external_body]
fn parses_as_user_id(text: &str) -> (accepted: bool)
    ensures
        accepted == is_user_id(text@),
{
    UserId::parse(text).is_ok()
}

/// Calls `Url::parse` of the url crate. Trusted: the answer is `is_url` of
/// the text, that is, whether the parser accepted it.
#[verifier::external_body]
fn parses_as_url(text: &str) -> (accepted: bool)
    ensures
        accepted == is_url(text@),
{
    Url::parse(text).is_ok()
}

/// Calls `Path::join` of std on two pieces of text. Trusted: the result is
/// `joined_path` of the two, that is, the joined path written as text.
#[verifier::external_body]
fn join_path(base: &str, name: &str) -> (path: String)
    ensures
        path@ == joined_path(base@, name@),
{
    Path::new(base).join(name).to_string_lossy().into_owned()
}

/// The account on the homeserver.
#[derive(Clone, Debug)]
pub struct Synapse {
    /// Url of the homeserver
    pub url: String,
    /// UserId of the bot user
    pub user: String,
    /// Password of the bot user
    pub password: String,
}

/// Where the bot keeps its state between runs.
#[derive(Clone, Debug)]
pub struct Store {
    /// on disk location where the state store will be located
    pub location: String,
    /// Optional password used to encrypt the state store
    pub password: Option<String>,
}

/// The whole configuration.
#[derive(Clone, Debug)]
pub struct Config {
    pub synapse: Synapse,
    pub store: Store,
}

/// Why a configuration is refused.
#[derive(Clone, Copy, Debug, PartialEq, Eq, Structural)]
pub enum ConfigError {
    /// The homeserver's address is no absolute URL.
    InvalidUrl,
    /// The bot's user is no Matrix user identifier.
    InvalidUserId,
}

/// The finding on an account whose address parsed or not, and whose user
/// parsed or not. The address is looked at first.
pub open spec fn finding(url_accepted: bool, user_accepted: bool) -> Result<(), ConfigError> {
    if !url_accepted {
        Err(ConfigError::InvalidUrl)
    } else if !user_accepted {
        Err(ConfigError::InvalidUserId)
    } else {
        Ok(())
    }
}

/// Turns what the two parsers said into the finding on the account.
pub fn judge(url_accepted: bool, user_accepted: bool) -> (r: Result<(), ConfigError>)
    ensures
        r == finding(url_accepted, user_accepted),
{
    if !url_accepted {
        Err(ConfigError::InvalidUrl)
    } else if !user_accepted {
        Err(ConfigError::InvalidUserId)
    } else {
        Ok(())
    }
}

impl Synapse {
    /// The address is a URL and the user is a user identifier.
    pub open spec fn well_formed(&self) -> bool {
        is_url(self.url@) && is_user_id(self.user@)
    }

    /// Checks the address and the user with the parsers that the client uses.
    pub fn validate(&self) -> (r: Result<(), ConfigError>)
        ensures
            r == finding(is_url(self.url@), is_user_id(self.user@)),
            r is Ok <==> self.well_formed(),
    {
        let url_accepted = parses_as_url(self.url.as_str());
        let user_accepted = parses_as_user_id(self.user.as_str());
        judge(url_accepted, user_accepted)
    }
}

impl Store {
    /// The file that holds the session: `session.json` below the store's
    /// location.
    pub fn session_file(&self) -> (path: String)
        ensures
            path@ == joined_path(self.location@, SESSION_FILE_NAME@),
    {
        join_path(self.location.as_str(), SESSION_FILE_NAME)
    }
}

impl Config {
    /// The account is well formed. The store takes any location.
    pub open spec fn well_formed(&self) -> bool {
        self.synapse.well_formed()
    }

    /// Checks the configuration; see `Synapse::validate`.
    pub fn validate(&self) -> (r: Result<(), ConfigError>)
        ensures
            r == finding(is_url(self.synapse.url@), is_user_id(self.synapse.user@)),
            r is Ok <==> self.well_formed(),
    {
        self.synapse.validate()
    }
}

/// Builds the configuration from the values of a configuration document and
/// checks it. The values are kept as they are; a document whose address or
/// user does not parse is refused.
pub fn load(synapse: Synapse, store: Store) -> (r: Result<Config, ConfigError>)
    ensures
        match r {
            Ok(config) => config.synapse == synapse && config.store == store
                && config.well_formed(),
            Err(e) => Err::<(), ConfigError>(e) == finding(
                is_url(synapse.url@),
                is_user_id(synapse.user@),
            ),
        },
        r is Ok <==> synapse.well_formed(),
{
    let config = Config { synapse, store };
    match config.validate() {
        Ok(()) => Ok(config),
        Err(e) => Err(e),
    }
}

} // verus!
