//! Model types used in the API.

use crate::text::{
    chars_of, decimal, i64_to_text, parse_i64, parse_u64, signed_decimal, spec_parse_i64,
    spec_parse_u64, u64_to_text,
};
use vstd::prelude::*;
use vstd::string::StringExecFns;

mod app;
mod log;
mod torrent;
mod transfer;

pub use app::{BuildInfo, ScanDirValue, ScanDirWire};
pub use log::{GetLogsArg, Log, LogLevel};
pub use torrent::{
    GetTorrentListArg, HashArg, Hashes, HashesArg, PieceState, Priority, SeedingTimeLimit, State,
    TorrentFilter, TorrentSource, WebSeed,
};
pub use transfer::{ConnectionStatus, TransferInfo};

verus! {

/// What a credential holds, as sequences of characters.
pub struct CredentialView {
    pub username: Seq<char>,
    pub password: Seq<char>,
}

impl CredentialView {
    /// The credential that stands in when only a cookie was given: both
    /// parts empty.
    pub open spec fn dummy() -> CredentialView {
        CredentialView { username: Seq::empty(), password: Seq::empty() }
    }

    /// Whether both parts are empty.
    pub open spec fn is_dummy(self) -> bool {
        self.username.len() == 0 && self.password.len() == 0
    }
}

/// Username and password used to authenticate with qBittorrent.
#[derive(Debug, PartialEq, Eq)]
pub struct Credential {
    username: String,
    password: String,
}

impl View for Credential {
    type V = CredentialView;

    closed spec fn view(&self) -> CredentialView {
        CredentialView { username: self.username@, password: self.password@ }
    }
}

impl Clone for Credential {
    fn clone(&self) -> (c: Self)
        ensures
            c@ == self@,
    {
        Credential { username: self.username.clone(), password: self.password.clone() }
    }
}

impl Credential {
    /// A credential of a user name and a password.
    pub fn new(username: &str, password: &str) -> (c: Self)
        ensures
            c@.username == username@,
            c@.password == password@,
    {
        Credential { username: username.to_owned(), password: password.to_owned() }
    }

    /// Return a dummy credential when you passed in the cookie instead of
    /// actual credential.
    pub fn dummy() -> (c: Self)
        ensures
            c@ == CredentialView::dummy(),
    {
        Credential { username: String::new(), password: String::new() }
    }

    /// Whether this is the dummy credential: both parts empty.
    pub fn is_dummy(&self) -> (b: bool)
        ensures
            b == self@.is_dummy(),
    {
        self.username.as_str().is_empty() && self.password.as_str().is_empty()
    }

    /// The fields that a login sends: the user name and the password.
    pub open spec fn spec_fields(self) -> Seq<(Seq<char>, Seq<char>)> {
        seq![("username"@, self@.username), ("password"@, self@.password)]
    }

    /// The fields that a login sends.
    pub fn fields(&self) -> (out: Vec<(String, String)>)
        ensures
            out.deep_view() == self.spec_fields(),
    {
        let mut out: Vec<(String, String)> = Vec::new();
        out.push(("username".to_owned(), self.username.clone()));
        out.push(("password".to_owned(), self.password.clone()));
        assert(out.deep_view() =~= self.spec_fields());
        out
    }

    /// The user name.
    pub fn username(&self) -> (s: &str)
        ensures
            s@ == self@.username,
    {
        self.username.as_str()
    }

    /// The password.
    pub fn password(&self) -> (s: &str)
        ensures
            s@ == self@.password,
    {
        self.password.as_str()
    }
}

#[derive(Debug, Clone, PartialEq, Eq)]
pub struct Category {
    pub name: String,
    pub save_path: String,
}

#[derive(Debug, Clone, PartialEq, Eq)]
pub struct Tracker {
    /// Tracker url
    pub url: String,
    /// Tracker status. See the table below for possible values
    pub status: TrackerStatus,
    /// Tracker priority tier. Lower tier trackers are tried before higher
    /// tiers. Tier numbers are valid when `>= 0`; `< 0` stands in when `tier`
    /// does not exist for special entries (such as DHT).
    pub tier: i64,
    /// Number of peers for current torrent, as reported by the tracker
    pub num_peers: i64,
    /// Number of seeds for current torrent, as reported by the tracker
    pub num_seeds: i64,
    /// Number of leeches for current torrent, as reported by the tracker
    pub num_leeches: i64,
    /// Number of completed downloads for current torrent, as reported by the
    /// tracker
    pub num_downloaded: i64,
    /// Tracker message (there is no way of knowing what this message is - it's
    /// up to tracker admins)
    pub msg: String,
}

/// The status of a tracker.
#[derive(Debug, Clone, Copy, PartialEq, Eq, PartialOrd, Ord, Structural)]
pub enum TrackerStatus {
    /// Tracker is disabled (used for DHT, PeX, and LSD)
    Disabled,
    /// Tracker has not been contacted yet
    NotContacted,
    /// Tracker has been contacted and is working
    Working,
    /// Tracker is updating
    Updating,
    /// Tracker has been contacted, but it is not working (or doesn't send proper replies)
    NotWorking,
}

impl TrackerStatus {
    /// The number of the value on the wire.
    pub open spec fn spec_code(self) -> i8 {
        match self {
            TrackerStatus::Disabled => 0,
            TrackerStatus::NotContacted => 1,
            TrackerStatus::Working => 2,
            TrackerStatus::Updating => 3,
            TrackerStatus::NotWorking => 4,
        }
    }

    /// The value that a number on the wire stands for.
    pub open spec fn spec_from_code(code: i8) -> Option<TrackerStatus> {
        if code == 0 {
            Some(TrackerStatus::Disabled)
        } else if code == 1 {
            Some(TrackerStatus::NotContacted)
        } else if code == 2 {
            Some(TrackerStatus::Working)
        } else if code == 3 {
            Some(TrackerStatus::Updating)
        } else if code == 4 {
            Some(TrackerStatus::NotWorking)
        } else {
            None
        }
    }

    /// The number of the value on the wire.
    pub fn code(&self) -> (c: i8)
        ensures
            c == self.spec_code(),
    {
        match self {
            TrackerStatus::Disabled => 0,
            TrackerStatus::NotContacted => 1,
            TrackerStatus::Working => 2,
            TrackerStatus::Updating => 3,
            TrackerStatus::NotWorking => 4,
        }
    }

    /// Reads a number on the wire.
    pub fn from_code(code: i8) -> (r: Option<TrackerStatus>)
        ensures
            r == Self::spec_from_code(code),
    {
        if code == 0 {
            Some(TrackerStatus::Disabled)
        } else if code == 1 {
            Some(TrackerStatus::NotContacted)
        } else if code == 2 {
            Some(TrackerStatus::Working)
        } else if code == 3 {
            Some(TrackerStatus::Updating)
        } else if code == 4 {
            Some(TrackerStatus::NotWorking)
        } else {
            None
        }
    }

    /// A number that is read gives back the value that wrote it, and a
    /// value that is read from a number writes that number again.
    pub proof fn lemma_code_round_trip(value: TrackerStatus, code: i8)
        ensures
            Self::spec_from_code(value.spec_code()) == Some(value),
            Self::spec_from_code(code) matches Some(read) ==> read.spec_code() == code,
    {
    }
}

/// A value that is written as text.
pub trait ToText {
    /// The text of the value.
    spec fn text(&self) -> Seq<char>;

    /// Writes the value as text.
    fn to_text(&self) -> (s: String)
        ensures
            s@ == self.text(),
    ;
}

impl ToText for String {
    open spec fn text(&self) -> Seq<char> {
        self@
    }

    fn to_text(&self) -> (s: String) {
        self.clone()
    }
}

impl ToText for u8 {
    open spec fn text(&self) -> Seq<char> {
        decimal(*self as nat)
    }

    fn to_text(&self) -> (s: String) {
        u64_to_text(*self as u64)
    }
}

impl ToText for u64 {
    open spec fn text(&self) -> Seq<char> {
        decimal(*self as nat)
    }

    fn to_text(&self) -> (s: String) {
        u64_to_text(*self)
    }
}

impl ToText for i64 {
    open spec fn text(&self) -> Seq<char> {
        signed_decimal(*self as int)
    }

    fn to_text(&self) -> (s: String) {
        i64_to_text(*self)
    }
}

impl ToText for bool {
    open spec fn text(&self) -> Seq<char> {
        if *self {
            "true"@
        } else {
            "false"@
        }
    }

    fn to_text(&self) -> (s: String) {
        if *self {
            "true".to_owned()
        } else {
            "false".to_owned()
        }
    }
}

/// A value that holds a text.
pub trait AsText {
    /// The text that the value holds.
    spec fn held(&self) -> Seq<char>;

    /// The text that the value holds.
    fn as_text(&self) -> (s: &str)
        ensures
            s@ == self.held(),
    ;
}

impl AsText for String {
    open spec fn held(&self) -> Seq<char> {
        self@
    }

    fn as_text(&self) -> (s: &str) {
        self.as_str()
    }
}

impl<'a> AsText for &'a str {
    open spec fn held(&self) -> Seq<char> {
        self@
    }

    fn as_text(&self) -> (s: &str) {
        *self
    }
}

/// The texts of `items`, written one after the other with `sep` between
/// each two of them.
pub open spec fn joined(items: Seq<Seq<char>>, sep: char) -> Seq<char>
    decreases items.len(),
{
    if items.len() == 0 {
        Seq::empty()
    } else if items.len() == 1 {
        items[0]
    } else {
        joined(items.drop_last(), sep) + seq![sep] + items.last()
    }
}

/// The texts of the items of a sequence.
pub open spec fn texts<T: ToText>(items: Seq<T>) -> Seq<Seq<char>> {
    Seq::new(items.len(), |i: int| items[i].text())
}

/// A wrapper around `Vec<T>` that is written and read as a text in which
/// the character with the code `C` separates the items.
#[derive(Debug, PartialEq, Eq)]
pub struct Sep<T, const C: u8>(pub Vec<T>);

impl<T, const C: u8> View for Sep<T, C> {
    type V = Seq<T>;

    open spec fn view(&self) -> Seq<T> {
        self.0@
    }
}

impl<T, const C: u8> Sep<T, C> {
    /// The separator.
    pub open spec fn separator() -> char {
        C as char
    }

    /// The items.
    pub fn items(&self) -> (v: &Vec<T>)
        ensures
            v@ == self@,
    {
        &self.0
    }
}

impl<T: Clone, const C: u8> Clone for Sep<T, C> {
    fn clone(&self) -> (s: Self)
        ensures
            s@.len() == self@.len(),
            forall|i: int| 0 <= i < self@.len() ==> cloned(self@[i], #[trigger] s@[i]),
    {
        Sep(self.0.clone())
    }
}

impl<T, const C: u8> From<Vec<T>> for Sep<T, C> {
    fn from(inner: Vec<T>) -> (s: Self)
        ensures
            s@ == inner@,
    {
        Sep(inner)
    }
}

impl<T, const C: u8> vstd::std_specs::convert::FromSpecImpl<Vec<T>> for Sep<T, C> {
    open spec fn obeys_from_spec() -> bool {
        true
    }

    open spec fn from_spec(inner: Vec<T>) -> Self {
        Sep(inner)
    }
}

impl<T: ToText, const C: u8> Sep<T, C> {
    /// The items as one text: each written as text, with the separator
    /// between each two of them, and the empty text for no item.
    pub fn to_string(&self) -> (s: String)
        ensures
            s@ == joined(texts(self@), Self::separator()),
    {
        let mut out = String::new();
        let ghost all = texts(self@);
        let mut i: usize = 0;
        while i < self.0.len()
            invariant
                i <= self.0.len(),
                all == texts(self@),
                self@ == self.0@,
                out@ == joined(all.take(i as int), C as char),
            decreases self.0.len() - i,
        {
            if i > 0 {
                out.push(C as char);
            }
            let item = self.0[i].to_text();
            out.append(item.as_str());
            proof {
                let now = all.take(i + 1);
                assert(now.drop_last() =~= all.take(i as int));
                assert(now.last() == item@);
            }
            i += 1;
        }
        assert(all.take(i as int) =~= all);
        out
    }
}

impl<T: ToText, const C: u8> ToText for Sep<T, C> {
    open spec fn text(&self) -> Seq<char> {
        joined(texts(self@), C as char)
    }

    fn to_text(&self) -> (s: String) {
        self.to_string()
    }
}

/// A value that is read from a text.
pub trait FromText: Sized {
    /// What a text that cannot be read gives.
    type Err;

    /// Whether a text can be read.
    spec fn readable(text: Seq<char>) -> bool;

    /// Whether `value` is what `text` is read as.
    spec fn reads_as(text: Seq<char>, value: Self) -> bool;

    /// Reads a value from a text.
    fn from_text(s: &str) -> (r: Result<Self, Self::Err>)
        ensures
            r is Ok <==> Self::readable(s@),
            r matches Ok(value) ==> Self::reads_as(s@, value),
    ;
}

/// The error of reading a text that is no number in range.
#[derive(Debug, Clone, Copy, PartialEq, Eq, Structural)]
pub struct NotANumber;

impl FromText for String {
    type Err = core::convert::Infallible;

    open spec fn readable(text: Seq<char>) -> bool {
        true
    }

    open spec fn reads_as(text: Seq<char>, value: Self) -> bool {
        value@ == text
    }

    fn from_text(s: &str) -> (r: Result<Self, Self::Err>) {
        Ok(s.to_owned())
    }
}

impl FromText for u64 {
    type Err = NotANumber;

    open spec fn readable(text: Seq<char>) -> bool {
        spec_parse_u64(text) is Some
    }

    open spec fn reads_as(text: Seq<char>, value: Self) -> bool {
        spec_parse_u64(text) == Some(value)
    }

    fn from_text(s: &str) -> (r: Result<Self, Self::Err>) {
        match parse_u64(s) {
            Some(value) => Ok(value),
            None => Err(NotANumber),
        }
    }
}

impl FromText for u8 {
    type Err = NotANumber;

    open spec fn readable(text: Seq<char>) -> bool {
        spec_parse_u64(text) matches Some(value) && value <= u8::MAX
    }

    open spec fn reads_as(text: Seq<char>, value: Self) -> bool {
        spec_parse_u64(text) == Some(value as u64)
    }

    fn from_text(s: &str) -> (r: Result<Self, Self::Err>) {
        match parse_u64(s) {
            Some(value) => if value <= 255 {
                Ok(value as u8)
            } else {
                Err(NotANumber)
            },
            None => Err(NotANumber),
        }
    }
}

impl FromText for i64 {
    type Err = NotANumber;

    open spec fn readable(text: Seq<char>) -> bool {
        spec_parse_i64(text) is Some
    }

    open spec fn reads_as(text: Seq<char>, value: Self) -> bool {
        spec_parse_i64(text) == Some(value)
    }

    fn from_text(s: &str) -> (r: Result<Self, Self::Err>) {
        match parse_i64(s) {
            Some(value) => Ok(value),
            None => Err(NotANumber),
        }
    }
}

/// The pieces of a text between the separators: one more than there are
/// separators in it, so that the empty text has one empty piece.
pub open spec fn split(text: Seq<char>, sep: char) -> Seq<Seq<char>>
    decreases text.len(),
{
    if text.len() == 0 {
        seq![Seq::empty()]
    } else {
        let before = split(text.drop_last(), sep);
        if text.last() == sep {
            before.push(Seq::empty())
        } else {
            before.update(before.len() - 1, before.last().push(text.last()))
        }
    }
}

/// A text has at least one piece.
pub proof fn lemma_split_is_not_empty(text: Seq<char>, sep: char)
    ensures
        split(text, sep).len() >= 1,
    decreases text.len(),
{
    if text.len() > 0 {
        lemma_split_is_not_empty(text.drop_last(), sep);
    }
}

/// The pieces of a text, joined again with the separator, give the text
/// back.
pub proof fn lemma_join_of_split(text: Seq<char>, sep: char)
    ensures
        joined(split(text, sep), sep) == text,
    decreases text.len(),
{
    if text.len() == 0 {
        assert(joined(split(text, sep), sep) =~= text);
    } else {
        let before = split(text.drop_last(), sep);
        lemma_split_is_not_empty(text.drop_last(), sep);
        lemma_join_of_split(text.drop_last(), sep);
        let now = split(text, sep);
        if text.last() == sep {
            assert(now.drop_last() =~= before);
            assert(joined(now, sep) =~= text.drop_last() + seq![sep] + Seq::<char>::empty());
            assert(joined(now, sep) =~= text);
        } else {
            if before.len() == 1 {
                assert(joined(now, sep) =~= before[0].push(text.last()));
            } else {
                assert(now.drop_last() =~= before.drop_last());
                assert(joined(now, sep) =~= joined(before, sep).push(text.last()));
            }
            assert(joined(now, sep) =~= text);
        }
    }
}

/// Cuts a text into its pieces between the separators.
pub fn split_text(s: &str, sep: char) -> (pieces: Vec<String>)
    ensures
        pieces.deep_view() == split(s@, sep),
{
    let chars = chars_of(s);
    let mut pieces: Vec<String> = Vec::new();
    let mut current = String::new();
    let mut i: usize = 0;
    assert(chars@.take(0) =~= Seq::<char>::empty());
    assert(pieces.deep_view().push(current@) =~= split(chars@.take(0), sep));
    while i < chars.len()
        invariant
            i <= chars.len(),
            chars@ == s@,
            split(chars@.take(i as int), sep) == pieces.deep_view().push(current@),
        decreases chars.len() - i,
    {
        let c = chars[i];
        let ghost before = pieces.deep_view().push(current@);
        proof {
            assert(chars@.take(i + 1).drop_last() =~= chars@.take(i as int));
            assert(chars@.take(i + 1).last() == c);
        }
        if c == sep {
            let ghost done = pieces.deep_view();
            pieces.push(current);
            current = String::new();
            assert(pieces.deep_view() =~= before);
            assert(split(chars@.take(i + 1), sep) =~= pieces.deep_view().push(current@));
        } else {
            current.push(c);
            assert(split(chars@.take(i + 1), sep) =~= pieces.deep_view().push(current@));
        }
        i += 1;
    }
    assert(chars@.take(i as int) =~= chars@);
    let ghost before = pieces.deep_view().push(current@);
    pieces.push(current);
    assert(pieces.deep_view() =~= before);
    pieces
}

impl<T: FromText, const C: u8> Sep<T, C> {
    /// Reads the items from a text in which the separator stands between
    /// each two of them. The text is cut at every separator and each piece
    /// is read as one item; the first piece that cannot be read gives its
    /// error.
    pub fn from_str(s: &str) -> (r: Result<Self, T::Err>)
        ensures
            r is Ok <==> forall|i: int|
                0 <= i < split(s@, C as char).len() ==> T::readable(
                    #[trigger] split(s@, C as char)[i],
                ),
            r matches Ok(sep) ==> sep@.len() == split(s@, C as char).len() && forall|i: int|
                0 <= i < sep@.len() ==> T::reads_as(split(s@, C as char)[i], #[trigger] sep@[i]),
    {
        let pieces = split_text(s, C as char);
        let ghost all = split(s@, C as char);
        let mut items: Vec<T> = Vec::new();
        let mut i: usize = 0;
        while i < pieces.len()
            invariant
                i <= pieces.len(),
                all == pieces.deep_view(),
                all == split(s@, C as char),
                items@.len() == i,
                forall|j: int| 0 <= j < i ==> T::readable(#[trigger] all[j]),
                forall|j: int| 0 <= j < i ==> T::reads_as(all[j], #[trigger] items@[j]),
            decreases pieces.len() - i,
        {
            assert(all[i as int] == pieces@[i as int]@);
            match T::from_text(pieces[i].as_str()) {
                Ok(item) => {
                    items.push(item);
                },
                Err(err) => {
                    assert(!T::readable(all[i as int]));
                    return Err(err);
                },
            }
            i += 1;
        }
        Ok(Sep(items))
    }
}

impl<T: FromText, const C: u8> core::str::FromStr for Sep<T, C> {
    type Err = T::Err;

    /// Reads the items from a text as `Sep::from_str` does: the text is cut
    /// at every separator, each piece is read as one item, and the reading
    /// succeeds exactly where every piece can be read.
    fn from_str(s: &str) -> (r: Result<Self, Self::Err>)
        ensures
            r is Ok <==> forall|i: int|
                0 <= i < split(s@, C as char).len() ==> T::readable(
                    #[trigger] split(s@, C as char)[i],
                ),
            r matches Ok(sep) ==> sep@.len() == split(s@, C as char).len() && forall|i: int|
                0 <= i < sep@.len() ==> T::reads_as(split(s@, C as char)[i], #[trigger] sep@[i]),
    {
        Sep::<T, C>::from_str(s)
    }
}

/// A wrapper around a text that ensures the text is non-empty.
#[derive(Debug)]
pub struct NonEmptyStr<T: AsText>(T);

impl<T: AsText> NonEmptyStr<T> {
    /// The text that is held is never empty.
    #[verifier::type_invariant]
    spec fn holds_a_text(&self) -> bool {
        self.0.held().len() > 0
    }

    /// The text that is held.
    pub closed spec fn text(&self) -> Seq<char> {
        self.0.held()
    }

    /// Whether the text that is held is non-empty, as it is of every
    /// value.
    pub open spec fn wf(&self) -> bool {
        self.text().len() > 0
    }

    /// The text that is held, which is not empty.
    pub fn as_str(&self) -> (s: &str)
        ensures
            s@ == self.text(),
            s@.len() > 0,
            self.wf(),
    {
        proof {
            use_type_invariant(self);
        }
        self.0.as_text()
    }

    /// Wraps a text, if it is not empty.
    pub fn new(s: T) -> (r: Option<Self>)
        ensures
            r is Some <==> s.held().len() > 0,
            r matches Some(held) ==> held.text() == s.held() && held.wf(),
    {
        if s.as_text().is_empty() {
            None
        } else {
            Some(NonEmptyStr(s))
        }
    }
}

} // verus!
