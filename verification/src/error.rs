//! The errors of the client: those the remote API defines and those of the
//! transport around it.

use crate::text::{decimal, push_decimal};
use vstd::prelude::*;
use vstd::string::StringExecFns;

verus! {

/// The transport error of `reqwest`, carried through unread.
#[verifier::external_type_specification]
#[verifier::external_body]
pub struct ExTransportError(reqwest::Error);

/// The error of `serde_json`, carried through unread.
#[verifier::external_type_specification]
#[verifier::external_body]
pub struct ExJsonError(serde_json::Error);

/// The standard reason phrase of a status code, as
/// `http::StatusCode::canonical_reason` gives it, or nothing where the code
/// has none or is no status code.
pub uninterp spec fn canonical_reason(code: u16) -> Option<Seq<char>>;

/// `reqwest::StatusCode::canonical_reason`, from the number of the code:
/// the reason phrase is the same for the same code.
#[verifier::external_body]
fn reason_phrase(code: u16) -> (reason: Option<String>)
    ensures
        reason is Some <==> canonical_reason(code) is Some,
        reason matches Some(text) ==> canonical_reason(code) == Some(text@),
{
    match reqwest::StatusCode::from_u16(code) {
        Ok(status) => status.canonical_reason().map(str::to_owned),
        Err(_) => None,
    }
}

/// What the transport says of its error, through the `Display` of
/// `reqwest::Error`.
#[verifier::external_body]
fn transport_text(e: &reqwest::Error) -> (text: String) {
    format!("{}", e)
}

/// What `serde_json` says of its error, through the `Display` of
/// `serde_json::Error`.
#[verifier::external_body]
fn json_text(e: &serde_json::Error) -> (text: String) {
    format!("{}", e)
}

/// A status code as it is shown: its number, a space and its reason
/// phrase.
pub open spec fn status_text(code: u16) -> Seq<char> {
    decimal(code as nat) + seq![' '] + match canonical_reason(code) {
        Some(reason) => reason,
        None => "<unknown status code>"@,
    }
}

/// Errors defined and returned by the API.
#[derive(Debug, Clone, Copy, PartialEq, Eq, Structural)]
pub enum ApiError {
    /// User's IP is banned for too many failed login attempts.
    IpBanned,
    /// API routes requires login, try again.
    NotLoggedIn,
    /// Torrent not found.
    TorrentNotFound,
    /// Torrent name is empty.
    TorrentNameEmpty,
    /// `newUrl` is not a valid URL.
    InvalidTrackerUrl,
    /// `newUrl` already exists for the torrent or `origUrl` was not found.
    ConflictTrackerUrl,
    /// None of the given peers are valid.
    InvalidPeers,
    /// Torrent queueing is not enabled.
    QueueingDisabled,
    /// Torrent metadata hasn't downloaded yet or at least one file id was
    /// not found.
    MetaNotDownloadedOrIdNotFound,
    /// Save path is empty.
    SavePathEmpty,
    /// User does not have write access to directory.
    NoWriteAccess,
    /// Unable to create save path directory.
    UnableToCreateDir,
    /// Category name does not exist.
    CategoryNotFound,
    /// Category editing failed.
    CategoryEditingFailed,
    /// Invalid `newPath` or `oldPath`, or `newPath` already in use.
    InvalidPath,
}

/// Everything a call of the client can fail with.
#[derive(Debug)]
pub enum QbitError {
    /// The transport failed: connection, TLS, timeout, malformed HTTP.
    HttpError(reqwest::Error),
    /// The response arrived but lacked something that was expected of it.
    BadResponse { explain: &'static str },
    /// A status outside the success class that no rule maps to an error.
    UnknownHttpCode(u16),
    /// A header held bytes outside visible ASCII.
    NonAsciiHeader,
    /// The API rejected the call.
    ApiError(ApiError),
    /// A JSON body could not be written or read.
    SerdeJsonError(serde_json::Error),
}

impl ApiError {
    /// What the error says.
    pub open spec fn message(self) -> Seq<char> {
        match self {
            ApiError::IpBanned => "User's IP is banned for too many failed login attempts"@,
            ApiError::NotLoggedIn => "API routes requires login, try again"@,
            ApiError::TorrentNotFound => "Torrent not found"@,
            ApiError::TorrentNameEmpty => "Torrent name is empty"@,
            ApiError::InvalidTrackerUrl => "`newUrl` is not a valid URL"@,
            ApiError::ConflictTrackerUrl => {
                "`newUrl` already exists for the torrent or `origUrl` was not found"@
            },
            ApiError::InvalidPeers => "None of the given peers are valid"@,
            ApiError::QueueingDisabled => "Torrent queueing is not enabled"@,
            ApiError::MetaNotDownloadedOrIdNotFound => {
                "Torrent metadata hasn't downloaded yet or At least one file id was not found"@
            },
            ApiError::SavePathEmpty => "Save path is empty"@,
            ApiError::NoWriteAccess => "User does not have write access to directory"@,
            ApiError::UnableToCreateDir => "Unable to create save path directory"@,
            ApiError::CategoryNotFound => "Category name does not exist"@,
            ApiError::CategoryEditingFailed => "Category editing failed"@,
            ApiError::InvalidPath => "Invalid `newPath` or `oldPath`, or `newPath` already in use"@,
        }
    }

    /// What the error says.
    pub fn to_string(&self) -> (s: String)
        ensures
            s@ == self.message(),
    {
        let text = match self {
            ApiError::IpBanned => "User's IP is banned for too many failed login attempts",
            ApiError::NotLoggedIn => "API routes requires login, try again",
            ApiError::TorrentNotFound => "Torrent not found",
            ApiError::TorrentNameEmpty => "Torrent name is empty",
            ApiError::InvalidTrackerUrl => "`newUrl` is not a valid URL",
            ApiError::ConflictTrackerUrl => {
                "`newUrl` already exists for the torrent or `origUrl` was not found"
            },
            ApiError::InvalidPeers => "None of the given peers are valid",
            ApiError::QueueingDisabled => "Torrent queueing is not enabled",
            ApiError::MetaNotDownloadedOrIdNotFound => {
                "Torrent metadata hasn't downloaded yet or At least one file id was not found"
            },
            ApiError::SavePathEmpty => "Save path is empty",
            ApiError::NoWriteAccess => "User does not have write access to directory",
            ApiError::UnableToCreateDir => "Unable to create save path directory",
            ApiError::CategoryNotFound => "Category name does not exist",
            ApiError::CategoryEditingFailed => "Category editing failed",
            ApiError::InvalidPath => "Invalid `newPath` or `oldPath`, or `newPath` already in use",
        };
        text.to_owned()
    }
}

/// A status code as it is shown.
pub fn status_to_text(code: u16) -> (s: String)
    ensures
        s@ == status_text(code),
{
    let mut out = String::new();
    push_decimal(&mut out, code as u64);
    out.push(' ');
    match reason_phrase(code) {
        Some(reason) => out.append(reason.as_str()),
        None => out.append("<unknown status code>"),
    }
    out
}

impl QbitError {
    /// What the error says before what it carries.
    pub open spec fn prefix(self) -> Seq<char> {
        match self {
            QbitError::HttpError(_) => "Http error: "@,
            QbitError::BadResponse { .. } => "API Returned bad response: "@,
            QbitError::UnknownHttpCode(_) => "API returned unknown status code: "@,
            QbitError::NonAsciiHeader => "Non ASCII header"@,
            QbitError::ApiError(_) => Seq::empty(),
            QbitError::SerdeJsonError(_) => "serde_json error: "@,
        }
    }

    /// What the error says: its prefix and then what it carries. Of an
    /// error of the transport or of `serde_json` only the prefix is fixed.
    pub fn to_string(&self) -> (s: String)
        ensures
            s@.len() >= self.prefix().len(),
            s@.take(self.prefix().len() as int) == self.prefix(),
            match self {
                QbitError::HttpError(_) => true,
                QbitError::BadResponse { explain } => s@ == self.prefix() + explain@,
                QbitError::UnknownHttpCode(code) => s@ == self.prefix() + status_text(*code),
                QbitError::NonAsciiHeader => s@ == self.prefix(),
                QbitError::ApiError(err) => s@ == err.message(),
                QbitError::SerdeJsonError(_) => true,
            },
    {
        let (prefix, rest) = match self {
            QbitError::HttpError(e) => ("Http error: ", transport_text(e)),
            QbitError::BadResponse { explain } => (
                "API Returned bad response: ",
                (*explain).to_owned(),
            ),
            QbitError::UnknownHttpCode(code) => (
                "API returned unknown status code: ",
                status_to_text(*code),
            ),
            QbitError::NonAsciiHeader => ("Non ASCII header", String::new()),
            QbitError::ApiError(err) => ("", err.to_string()),
            QbitError::SerdeJsonError(e) => ("serde_json error: ", json_text(e)),
        };
        let mut out = prefix.to_owned();
        out.append(rest.as_str());
        proof {
            reveal_strlit("");
            assert(out@ == prefix@ + rest@);
            assert(out@.take(prefix@.len() as int) =~= prefix@);
            assert(prefix@ + Seq::<char>::empty() =~= prefix@);
            assert(Seq::<char>::empty() + rest@ =~= rest@);
        }
        out
    }

    /// Whether this is the API error `which`.
    pub open spec fn is_api(self, which: ApiError) -> bool {
        self == QbitError::ApiError(which)
    }

    /// Whether this error says that the session is not authenticated.
    pub fn is_not_logged_in(&self) -> (b: bool)
        ensures
            b == self.is_api(ApiError::NotLoggedIn),
    {
        match self {
            QbitError::ApiError(ApiError::NotLoggedIn) => true,
            _ => false,
        }
    }
}

impl From<ApiError> for QbitError {
    fn from(e: ApiError) -> (r: QbitError) {
        QbitError::ApiError(e)
    }
}

impl vstd::std_specs::convert::FromSpecImpl<ApiError> for QbitError {
    open spec fn obeys_from_spec() -> bool {
        true
    }

    open spec fn from_spec(e: ApiError) -> QbitError {
        QbitError::ApiError(e)
    }
}

impl From<reqwest::Error> for QbitError {
    fn from(e: reqwest::Error) -> (r: QbitError) {
        QbitError::HttpError(e)
    }
}

impl vstd::std_specs::convert::FromSpecImpl<reqwest::Error> for QbitError {
    open spec fn obeys_from_spec() -> bool {
        true
    }

    open spec fn from_spec(e: reqwest::Error) -> QbitError {
        QbitError::HttpError(e)
    }
}

impl From<serde_json::Error> for QbitError {
    fn from(e: serde_json::Error) -> (r: QbitError) {
        QbitError::SerdeJsonError(e)
    }
}

impl vstd::std_specs::convert::FromSpecImpl<serde_json::Error> for QbitError {
    open spec fn obeys_from_spec() -> bool {
        true
    }

    open spec fn from_spec(e: serde_json::Error) -> QbitError {
        QbitError::SerdeJsonError(e)
    }
}

} // verus!
