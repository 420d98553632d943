//! The head of an HTTP response and the rules that turn it into a value or
//! a typed error.

use crate::error::{ApiError, QbitError};
use vstd::prelude::*;

verus! {

/// The status that tells that the session is not authenticated.
pub const FORBIDDEN: u16 = 403;

/// The status of a missing resource.
pub const NOT_FOUND: u16 = 404;

/// The status of a malformed call.
pub const BAD_REQUEST: u16 = 400;

/// The status of a call that conflicts with the state of the service.
pub const CONFLICT: u16 = 409;

/// Whether a status is in the success class, 200 to 299.
pub open spec fn spec_is_success(status: u16) -> bool {
    200 <= status < 300
}

/// Whether a status is in the success class, 200 to 299.
pub fn is_success(status: u16) -> (ok: bool)
    ensures
        ok == spec_is_success(status),
{
    200 <= status && status < 300
}

/// Whether a header byte is visible ASCII: a printable character or a tab.
pub open spec fn spec_is_visible_ascii(b: u8) -> bool {
    (32 <= b < 127) || b == 9
}

/// The text of a header value: its bytes read as characters where all of
/// them are visible ASCII, and nothing otherwise.
pub open spec fn header_text(bytes: Seq<u8>) -> Option<Seq<char>> {
    if forall|i: int| 0 <= i < bytes.len() ==> spec_is_visible_ascii(#[trigger] bytes[i]) {
        Some(Seq::new(bytes.len(), |i: int| bytes[i] as char))
    } else {
        None
    }
}

/// Whether a header byte is visible ASCII.
pub fn is_visible_ascii(b: u8) -> (ok: bool)
    ensures
        ok == spec_is_visible_ascii(b),
{
    (b >= 32 && b < 127) || b == 9
}

/// Reads a header value as text.
pub fn header_to_str(bytes: &Vec<u8>) -> (text: Option<String>)
    ensures
        text is Some <==> header_text(bytes@) is Some,
        text matches Some(s) ==> header_text(bytes@) == Some(s@),
{
    let mut out = String::new();
    let mut i: usize = 0;
    while i < bytes.len()
        invariant
            i <= bytes.len(),
            out@.len() == i,
            forall|j: int| 0 <= j < i ==> spec_is_visible_ascii(#[trigger] bytes@[j]),
            forall|j: int| 0 <= j < i ==> out@[j] == bytes@[j] as char,
        decreases bytes.len() - i,
    {
        let b = bytes[i];
        if !is_visible_ascii(b) {
            return None;
        }
        out.push(b as char);
        i += 1;
    }
    assert(out@ =~= Seq::new(bytes@.len(), |j: int| bytes@[j] as char));
    Some(out)
}

/// What the head of a response holds, as sequences.
pub struct ResponseHeadView {
    pub status: u16,
    pub set_cookie: Option<Seq<u8>>,
}

/// The part of an HTTP response that the client's rules read: the status
/// code and the value of the `Set-Cookie` header, if there is one.
#[derive(Debug)]
pub struct ResponseHead {
    pub status: u16,
    pub set_cookie: Option<Vec<u8>>,
}

impl View for ResponseHead {
    type V = ResponseHeadView;

    open spec fn view(&self) -> ResponseHeadView {
        ResponseHeadView {
            status: self.status,
            set_cookie: match self.set_cookie {
                Some(bytes) => Some(bytes@),
                None => None,
            },
        }
    }
}

/// The session cookie of a login response, or the error that stands for
/// its absence.
pub open spec fn cookie_of(head: ResponseHeadView) -> Result<Seq<char>, QbitError> {
    match head.set_cookie {
        None => Err(QbitError::BadResponse { explain: "Failed to extract cookie from response" }),
        Some(bytes) => match header_text(bytes) {
            None => Err(QbitError::NonAsciiHeader),
            Some(text) => Ok(text),
        },
    }
}

/// What `map_status` returns for a response `value` with the status
/// `status`, once the caller's rule has given `mapped` for that status: a
/// success passes; otherwise the rule's error wins; without one, 403 means
/// that the session is not authenticated and every other status passes.
pub open spec fn spec_map_status_with<R>(
    status: u16,
    value: R,
    mapped: Option<QbitError>,
) -> Result<R, QbitError> {
    if spec_is_success(status) {
        Ok(value)
    } else {
        match mapped {
            Some(err) => Err(err),
            None => if status == FORBIDDEN {
                Err(QbitError::ApiError(ApiError::NotLoggedIn))
            } else {
                Ok(value)
            },
        }
    }
}

/// The error, if any, that a response ends in when the caller's rule has
/// given `mapped` for its status and the response is then closed with
/// `end`: the rule's error first, then 403 as "not authenticated", then the
/// unknown status with its code.
pub open spec fn classify(status: u16, mapped: Option<QbitError>) -> Option<QbitError> {
    if spec_is_success(status) {
        None
    } else {
        match mapped {
            Some(err) => Some(err),
            None => if status == FORBIDDEN {
                Some(QbitError::ApiError(ApiError::NotLoggedIn))
            } else {
                Some(QbitError::UnknownHttpCode(status))
            },
        }
    }
}

/// The error, if any, that `end` gives for a status: what `classify` gives
/// where no rule has spoken. So a success has none, 403 means that the
/// session is not authenticated, and every other status is an unknown
/// status with its code.
pub open spec fn end_error(status: u16) -> Option<QbitError> {
    classify(status, None)
}

/// A value that can be read off the head of a response.
pub trait FromResponse: Sized {
    /// Whether `r` is what the head `head` gives.
    spec fn extracted(head: ResponseHeadView, r: Result<Self, QbitError>) -> bool;

    fn from_response(response: &ResponseHead) -> (r: Result<Self, QbitError>)
        ensures
            Self::extracted(response@, r),
    ;
}

/// The session cookie that a login response sets.
#[derive(Debug)]
pub struct Cookie(pub String);

impl View for Cookie {
    type V = Seq<char>;

    open spec fn view(&self) -> Seq<char> {
        self.0@
    }
}

impl FromResponse for Cookie {
    open spec fn extracted(head: ResponseHeadView, r: Result<Self, QbitError>) -> bool {
        match cookie_of(head) {
            Ok(text) => r matches Ok(cookie) && cookie@ == text,
            Err(err) => r matches Err(e) && e == err,
        }
    }

    fn from_response(response: &ResponseHead) -> (r: Result<Self, QbitError>) {
        match &response.set_cookie {
            None => Err(
                QbitError::BadResponse { explain: "Failed to extract cookie from response" },
            ),
            Some(bytes) => match header_to_str(bytes) {
                None => Err(QbitError::NonAsciiHeader),
                Some(text) => Ok(Cookie(text)),
            },
        }
    }
}

impl FromResponse for () {
    open spec fn extracted(head: ResponseHeadView, r: Result<Self, QbitError>) -> bool {
        r is Ok
    }

    fn from_response(response: &ResponseHead) -> (r: Result<Self, QbitError>) {
        Ok(())
    }
}

/// The rules that every operation applies to a response.
pub trait ResponseExt: Sized {
    /// The head of the response.
    spec fn head(&self) -> ResponseHeadView;

    /// Reads a value off the head.
    fn extract<T: FromResponse>(&self) -> (r: Result<T, QbitError>)
        ensures
            T::extracted(self.head(), r),
    ;

    /// Passes a success through. For every other status the rule `f` is
    /// asked, and `spec_map_status_with` decides on its answer.
    fn map_status<F: FnOnce(u16) -> Option<QbitError>>(self, f: F) -> (r: Result<Self, QbitError>)
        requires
            !spec_is_success(self.head().status) ==> call_requires(f, (self.head().status,)),
        ensures
            spec_is_success(self.head().status) ==> r == Ok::<Self, QbitError>(self),
            !spec_is_success(self.head().status) ==> exists|mapped: Option<QbitError>|
                call_ensures(f, (self.head().status,), mapped) && r == spec_map_status_with(
                    self.head().status,
                    self,
                    mapped,
                ),
    ;

    /// Closes a response: a success gives the value read off the head, 403
    /// means that the session is not authenticated, and every other status
    /// is an unknown status.
    fn end<T: FromResponse>(self) -> (r: Result<T, QbitError>)
        ensures
            match end_error(self.head().status) {
                Some(err) => r matches Err(e) && e == err,
                None => T::extracted(self.head(), r),
            },
    ;
}

impl ResponseHead {
    pub fn new(status: u16, set_cookie: Option<Vec<u8>>) -> (head: Self)
        ensures
            head.status == status,
            head.set_cookie == set_cookie,
    {
        ResponseHead { status, set_cookie }
    }

    /// The second half of `map_status`: what is returned once the caller's
    /// rule has given `mapped` for the status.
    pub fn map_status_with(self, mapped: Option<QbitError>) -> (r: Result<Self, QbitError>)
        ensures
            r == spec_map_status_with(self.status, self, mapped),
    {
        if is_success(self.status) {
            Ok(self)
        } else {
            match mapped {
                Some(err) => Err(err),
                None => if self.status == FORBIDDEN {
                    Err(QbitError::ApiError(ApiError::NotLoggedIn))
                } else {
                    Ok(self)
                },
            }
        }
    }
}

impl ResponseExt for ResponseHead {
    open spec fn head(&self) -> ResponseHeadView {
        self@
    }

    fn extract<T: FromResponse>(&self) -> (r: Result<T, QbitError>) {
        T::from_response(self)
    }

    fn map_status<F: FnOnce(u16) -> Option<QbitError>>(self, f: F) -> (r: Result<Self, QbitError>) {
        if is_success(self.status) {
            Ok(self)
        } else {
            let mapped = f(self.status);
            self.map_status_with(mapped)
        }
    }

    fn end<T: FromResponse>(self) -> (r: Result<T, QbitError>) {
        if is_success(self.status) {
            T::from_response(&self)
        } else if self.status == FORBIDDEN {
            Err(QbitError::ApiError(ApiError::NotLoggedIn))
        } else {
            Err(QbitError::UnknownHttpCode(self.status))
        }
    }
}

/// Handle 404 returned by APIs with torrent hash as a parameter.
pub fn torrent_not_found(status: u16) -> (mapped: Option<QbitError>)
    ensures
        mapped == if status == NOT_FOUND {
            Some(QbitError::ApiError(ApiError::TorrentNotFound))
        } else {
            None::<QbitError>
        },
{
    if status == NOT_FOUND {
        Some(QbitError::ApiError(ApiError::TorrentNotFound))
    } else {
        None
    }
}

/// The operation's own rule comes first, then 403 as "not authenticated",
/// then the unknown status: a response that `map_status` rejects carries
/// the error of `classify`, and one that it passes ends, through `end`, in
/// the error of `classify` too. So an error that the rule gives for a
/// status outside the success class is the one that comes out; without
/// one, 403 comes out as "not authenticated", from `map_status` and from
/// `end` alike, and every other status as the unknown status with its code.
pub proof fn lemma_classification_precedence(head: ResponseHead, mapped: Option<QbitError>)
    ensures
        match spec_map_status_with(head.status, head, mapped) {
            Err(err) => classify(head.status, mapped) == Some(err),
            Ok(passed) => passed == head && end_error(passed.status) == classify(
                head.status,
                mapped,
            ),
        },
        !spec_is_success(head.status) && mapped is Some ==> classify(head.status, mapped)
            == mapped,
        !spec_is_success(head.status) && mapped is None && head.status != FORBIDDEN ==> classify(
            head.status,
            mapped,
        ) == Some(QbitError::UnknownHttpCode(head.status)),
        mapped is None && head.status == FORBIDDEN ==> classify(head.status, mapped) == Some(
            QbitError::ApiError(ApiError::NotLoggedIn),
        ),
        end_error(FORBIDDEN) == Some(QbitError::ApiError(ApiError::NotLoggedIn)),
{
}

} // verus!
