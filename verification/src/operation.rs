//! What one operation of the API is: its verb, its path, the form it
//! sends, the errors that its statuses stand for and how its response is
//! read.

use crate::error::{ApiError, QbitError};
use crate::ext::{
    classify, is_success, spec_is_success, spec_map_status_with, ResponseHead, BAD_REQUEST,
    CONFLICT, FORBIDDEN, NOT_FOUND,
};
use crate::form::Fields;
use vstd::prelude::*;

verus! {

/// The HTTP verb of an operation.
#[derive(Debug, Clone, Copy, PartialEq, Eq, Structural)]
pub enum Method {
    Get,
    Post,
}

/// How the response of an operation is read once its status has been
/// judged.
#[derive(Debug, Clone, Copy, PartialEq, Eq, Structural)]
pub enum Reading {
    /// Nothing is read, and every status outside the success class that
    /// no rule has mapped is an unknown status.
    End,
    /// The body is read as plain text.
    Text,
    /// The body is read as JSON.
    Json,
    /// Nothing is read and nothing further is checked.
    Ignored,
}

/// The errors that the statuses of an operation stand for.
#[derive(Debug, Clone, Copy, PartialEq, Eq, Structural)]
pub enum StatusRule {
    /// No status has a meaning of its own.
    Plain,
    /// 404: the torrent was not found.
    TorrentNotFound,
    /// 400: the new URL is not valid; 404: the torrent was not found; 409:
    /// the new URL exists already or the old one was not found.
    EditTracker,
    /// 400: none of the peers is valid.
    InvalidPeers,
    /// 409: torrent queueing is not enabled.
    QueueingDisabled,
    /// 404: the torrent was not found; 409: the metadata is not there yet
    /// or a file was not found. 400 would mean that the client sent a
    /// priority or an index that is none, which it never does.
    FilePriority,
    /// 400: the save path is empty; 403: no write access; 409: the
    /// directory cannot be made.
    Location,
    /// 404: the torrent was not found. 409 would mean that the client sent
    /// an empty name, which it never does.
    Rename,
    /// 409: the category does not exist.
    CategoryNotFound,
    /// 409: the category could not be edited.
    CategoryEditingFailed,
    /// 409: a path is not valid or the new one is taken.
    InvalidPath,
}

impl StatusRule {
    /// Whether the status can only answer a call that this client never
    /// makes.
    pub open spec fn spec_is_bug(self, status: u16) -> bool {
        match self {
            StatusRule::FilePriority => status == BAD_REQUEST,
            StatusRule::Rename => status == CONFLICT,
            _ => false,
        }
    }

    /// The error that the status stands for under this rule, if any.
    pub open spec fn spec_apply(self, status: u16) -> Option<QbitError> {
        match self {
            StatusRule::Plain => None,
            StatusRule::TorrentNotFound => if status == NOT_FOUND {
                Some(QbitError::ApiError(ApiError::TorrentNotFound))
            } else {
                None
            },
            StatusRule::EditTracker => if status == BAD_REQUEST {
                Some(QbitError::ApiError(ApiError::InvalidTrackerUrl))
            } else if status == NOT_FOUND {
                Some(QbitError::ApiError(ApiError::TorrentNotFound))
            } else if status == CONFLICT {
                Some(QbitError::ApiError(ApiError::ConflictTrackerUrl))
            } else {
                None
            },
            StatusRule::InvalidPeers => if status == BAD_REQUEST {
                Some(QbitError::ApiError(ApiError::InvalidPeers))
            } else {
                None
            },
            StatusRule::QueueingDisabled => if status == CONFLICT {
                Some(QbitError::ApiError(ApiError::QueueingDisabled))
            } else {
                None
            },
            StatusRule::FilePriority => if status == NOT_FOUND {
                Some(QbitError::ApiError(ApiError::TorrentNotFound))
            } else if status == CONFLICT {
                Some(QbitError::ApiError(ApiError::MetaNotDownloadedOrIdNotFound))
            } else {
                None
            },
            StatusRule::Location => if status == BAD_REQUEST {
                Some(QbitError::ApiError(ApiError::SavePathEmpty))
            } else if status == FORBIDDEN {
                Some(QbitError::ApiError(ApiError::NoWriteAccess))
            } else if status == CONFLICT {
                Some(QbitError::ApiError(ApiError::UnableToCreateDir))
            } else {
                None
            },
            StatusRule::Rename => if status == NOT_FOUND {
                Some(QbitError::ApiError(ApiError::TorrentNotFound))
            } else {
                None
            },
            StatusRule::CategoryNotFound => if status == CONFLICT {
                Some(QbitError::ApiError(ApiError::CategoryNotFound))
            } else {
                None
            },
            StatusRule::CategoryEditingFailed => if status == CONFLICT {
                Some(QbitError::ApiError(ApiError::CategoryEditingFailed))
            } else {
                None
            },
            StatusRule::InvalidPath => if status == CONFLICT {
                Some(QbitError::ApiError(ApiError::InvalidPath))
            } else {
                None
            },
        }
    }

    /// Whether the status can only answer a call that this client never
    /// makes.
    pub fn is_bug(&self, status: u16) -> (bug: bool)
        ensures
            bug == self.spec_is_bug(status),
    {
        match self {
            StatusRule::FilePriority => status == BAD_REQUEST,
            StatusRule::Rename => status == CONFLICT,
            _ => false,
        }
    }

    /// What to say of a status that `is_bug` holds of.
    pub fn bug_message(&self) -> (message: &'static str)
        ensures
            message@ == match self {
                StatusRule::FilePriority => "Invalid priority or id. This is a bug."@,
                StatusRule::Rename => "Name should not be empty. This is a bug."@,
                _ => ""@,
            },
    {
        match self {
            StatusRule::FilePriority => "Invalid priority or id. This is a bug.",
            StatusRule::Rename => "Name should not be empty. This is a bug.",
            _ => "",
        }
    }

    /// The error that the status stands for under this rule, if any.
    pub fn apply(&self, status: u16) -> (mapped: Option<QbitError>)
        requires
            !self.spec_is_bug(status),
        ensures
            mapped == self.spec_apply(status),
    {
        let api = match self {
            StatusRule::Plain => None,
            StatusRule::TorrentNotFound => if status == NOT_FOUND {
                Some(ApiError::TorrentNotFound)
            } else {
                None
            },
            StatusRule::EditTracker => if status == BAD_REQUEST {
                Some(ApiError::InvalidTrackerUrl)
            } else if status == NOT_FOUND {
                Some(ApiError::TorrentNotFound)
            } else if status == CONFLICT {
                Some(ApiError::ConflictTrackerUrl)
            } else {
                None
            },
            StatusRule::InvalidPeers => if status == BAD_REQUEST {
                Some(ApiError::InvalidPeers)
            } else {
                None
            },
            StatusRule::QueueingDisabled => if status == CONFLICT {
                Some(ApiError::QueueingDisabled)
            } else {
                None
            },
            StatusRule::FilePriority => if status == NOT_FOUND {
                Some(ApiError::TorrentNotFound)
            } else if status == CONFLICT {
                Some(ApiError::MetaNotDownloadedOrIdNotFound)
            } else {
                None
            },
            StatusRule::Location => if status == BAD_REQUEST {
                Some(ApiError::SavePathEmpty)
            } else if status == FORBIDDEN {
                Some(ApiError::NoWriteAccess)
            } else if status == CONFLICT {
                Some(ApiError::UnableToCreateDir)
            } else {
                None
            },
            StatusRule::Rename => if status == NOT_FOUND {
                Some(ApiError::TorrentNotFound)
            } else {
                None
            },
            StatusRule::CategoryNotFound => if status == CONFLICT {
                Some(ApiError::CategoryNotFound)
            } else {
                None
            },
            StatusRule::CategoryEditingFailed => if status == CONFLICT {
                Some(ApiError::CategoryEditingFailed)
            } else {
                None
            },
            StatusRule::InvalidPath => if status == CONFLICT {
                Some(ApiError::InvalidPath)
            } else {
                None
            },
        };
        match api {
            Some(err) => Some(QbitError::ApiError(err)),
            None => None,
        }
    }
}

/// One operation, as sequences of characters.
pub struct OperationView {
    pub method: Method,
    pub path: Seq<char>,
    pub body: Option<Fields>,
    pub rule: StatusRule,
    pub reading: Reading,
}

/// An operation that sends no form.
pub open spec fn spec_get(path: Seq<char>, reading: Reading) -> OperationView {
    OperationView { method: Method::Get, path, body: None, rule: StatusRule::Plain, reading }
}

/// An operation that sends a form.
pub open spec fn spec_post(
    path: Seq<char>,
    fields: Fields,
    rule: StatusRule,
    reading: Reading,
) -> OperationView {
    OperationView { method: Method::Post, path, body: Some(fields), rule, reading }
}

/// One operation of the API.
#[derive(Debug)]
pub struct Operation {
    /// The HTTP verb.
    pub method: Method,
    /// The path below the API prefix.
    pub path: &'static str,
    /// The form that is sent, if any.
    pub body: Option<Vec<(String, String)>>,
    /// The errors that the statuses stand for.
    pub rule: StatusRule,
    /// How the response is read.
    pub reading: Reading,
}

impl View for Operation {
    type V = OperationView;

    open spec fn view(&self) -> OperationView {
        OperationView {
            method: self.method,
            path: self.path@,
            body: match self.body {
                Some(fields) => Some(fields.deep_view()),
                None => None,
            },
            rule: self.rule,
            reading: self.reading,
        }
    }
}

/// One HTTP call, as sequences of characters.
pub struct CallView {
    pub method: Method,
    pub url: Seq<char>,
    pub cookie: Option<Seq<char>>,
    pub form: Option<Fields>,
}

/// One HTTP call, ready to be made: the verb, the URL, the value of the
/// `Cookie` header if one is sent, and the form if one is sent.
#[derive(Debug)]
pub struct Call {
    pub method: Method,
    pub url: String,
    pub cookie: Option<String>,
    pub form: Option<Vec<(String, String)>>,
}

impl View for Call {
    type V = CallView;

    open spec fn view(&self) -> CallView {
        CallView {
            method: self.method,
            url: self.url@,
            cookie: match self.cookie {
                Some(cookie) => Some(cookie@),
                None => None,
            },
            form: match self.form {
                Some(fields) => Some(fields.deep_view()),
                None => None,
            },
        }
    }
}

/// How a response of an operation is judged by its status: the rule of
/// the operation comes first, then 403 as "not authenticated"; where the
/// response is closed with `End`, every other status outside the success
/// class is an unknown status.
pub open spec fn spec_judge(op: OperationView, head: ResponseHead) -> Result<
    ResponseHead,
    QbitError,
> {
    if op.reading == Reading::End {
        match classify(head.status, op.rule.spec_apply(head.status)) {
            Some(err) => Err(err),
            None => Ok(head),
        }
    } else {
        spec_map_status_with(head.status, head, op.rule.spec_apply(head.status))
    }
}

impl Operation {
    /// An operation that sends no form.
    pub fn get(path: &'static str, reading: Reading) -> (op: Self)
        ensures
            op@ == spec_get(path@, reading),
    {
        Operation { method: Method::Get, path, body: None, rule: StatusRule::Plain, reading }
    }

    /// An operation that sends a form.
    pub fn post(
        path: &'static str,
        fields: Vec<(String, String)>,
        rule: StatusRule,
        reading: Reading,
    ) -> (op: Self)
        ensures
            op@ == spec_post(path@, fields.deep_view(), rule, reading),
    {
        Operation { method: Method::Post, path, body: Some(fields), rule, reading }
    }

    /// Judges a response by its status.
    pub fn judge(&self, head: ResponseHead) -> (r: Result<ResponseHead, QbitError>)
        requires
            !spec_is_success(head.status) ==> !self.rule.spec_is_bug(head.status),
        ensures
            r == spec_judge(self@, head),
    {
        let status = head.status;
        let mapped = if is_success(status) {
            None
        } else {
            self.rule.apply(status)
        };
        match head.map_status_with(mapped) {
            Err(err) => Err(err),
            Ok(passed) => match self.reading {
                Reading::End => if is_success(status) {
                    Ok(passed)
                } else {
                    Err(QbitError::UnknownHttpCode(status))
                },
                _ => Ok(passed),
            },
        }
    }
}

} // verus!
