//! Torrents: their states, the arguments that select and add them.

use crate::form::{field, push_field, push_text, text_field, Fields};
use crate::model::{joined, texts, Sep, ToText};
use crate::text::{decimal, same_text, u64_to_text};
use vstd::prelude::*;

verus! {

/// The states that a torrent list can be filtered by.
#[derive(Debug, Clone, Copy, PartialEq, Eq, Structural)]
pub enum TorrentFilter {
    /// Every torrent.
    All,
    /// Torrents that are downloading.
    Downloading,
    /// Torrents that are complete.
    Completed,
    /// Torrents that are paused.
    Paused,
    /// Torrents with traffic.
    Active,
    /// Torrents without traffic.
    Inactive,
    /// Torrents that were resumed.
    Resumed,
    /// Torrents that are stalled.
    Stalled,
    /// Torrents whose upload is stalled.
    StalledUploading,
    /// Torrents whose download is stalled.
    StalledDownloading,
    /// Torrents with an error.
    Errored,
}

impl TorrentFilter {
    /// The name of the value on the wire.
    pub open spec fn spec_name(self) -> Seq<char> {
        match self {
            TorrentFilter::All => "all"@,
            TorrentFilter::Downloading => "downloading"@,
            TorrentFilter::Completed => "completed"@,
            TorrentFilter::Paused => "paused"@,
            TorrentFilter::Active => "active"@,
            TorrentFilter::Inactive => "inactive"@,
            TorrentFilter::Resumed => "resumed"@,
            TorrentFilter::Stalled => "stalled"@,
            TorrentFilter::StalledUploading => "stalledUploading"@,
            TorrentFilter::StalledDownloading => "stalledDownloading"@,
            TorrentFilter::Errored => "errored"@,
        }
    }

    /// The value that a name on the wire stands for.
    pub open spec fn spec_from_name(name: Seq<char>) -> Option<TorrentFilter> {
        if name == "all"@ {
            Some(TorrentFilter::All)
        } else if name == "downloading"@ {
            Some(TorrentFilter::Downloading)
        } else if name == "completed"@ {
            Some(TorrentFilter::Completed)
        } else if name == "paused"@ {
            Some(TorrentFilter::Paused)
        } else if name == "active"@ {
            Some(TorrentFilter::Active)
        } else if name == "inactive"@ {
            Some(TorrentFilter::Inactive)
        } else if name == "resumed"@ {
            Some(TorrentFilter::Resumed)
        } else if name == "stalled"@ {
            Some(TorrentFilter::Stalled)
        } else if name == "stalledUploading"@ {
            Some(TorrentFilter::StalledUploading)
        } else if name == "stalledDownloading"@ {
            Some(TorrentFilter::StalledDownloading)
        } else if name == "errored"@ {
            Some(TorrentFilter::Errored)
        } else {
            None
        }
    }

    /// The name of the value on the wire.
    pub fn name(&self) -> (s: &'static str)
        ensures
            s@ == self.spec_name(),
    {
        match self {
            TorrentFilter::All => "all",
            TorrentFilter::Downloading => "downloading",
            TorrentFilter::Completed => "completed",
            TorrentFilter::Paused => "paused",
            TorrentFilter::Active => "active",
            TorrentFilter::Inactive => "inactive",
            TorrentFilter::Resumed => "resumed",
            TorrentFilter::Stalled => "stalled",
            TorrentFilter::StalledUploading => "stalledUploading",
            TorrentFilter::StalledDownloading => "stalledDownloading",
            TorrentFilter::Errored => "errored",
        }
    }

    /// Reads a name on the wire.
    pub fn from_name(name: &str) -> (r: Option<TorrentFilter>)
        ensures
            r == Self::spec_from_name(name@),
    {
        if same_text(name, "all") {
            Some(TorrentFilter::All)
        } else if same_text(name, "downloading") {
            Some(TorrentFilter::Downloading)
        } else if same_text(name, "completed") {
            Some(TorrentFilter::Completed)
        } else if same_text(name, "paused") {
            Some(TorrentFilter::Paused)
        } else if same_text(name, "active") {
            Some(TorrentFilter::Active)
        } else if same_text(name, "inactive") {
            Some(TorrentFilter::Inactive)
        } else if same_text(name, "resumed") {
            Some(TorrentFilter::Resumed)
        } else if same_text(name, "stalled") {
            Some(TorrentFilter::Stalled)
        } else if same_text(name, "stalledUploading") {
            Some(TorrentFilter::StalledUploading)
        } else if same_text(name, "stalledDownloading") {
            Some(TorrentFilter::StalledDownloading)
        } else if same_text(name, "errored") {
            Some(TorrentFilter::Errored)
        } else {
            None
        }
    }

    /// A name that is read gives back the value that wrote it, and a value
    /// that is read from a name writes that name again.
    pub proof fn lemma_name_round_trip(value: TorrentFilter, name: Seq<char>)
        ensures
            Self::spec_from_name(value.spec_name()) == Some(value),
            Self::spec_from_name(name) matches Some(read) ==> read.spec_name() == name,
    {
        // Two names differ in their length or in one of these characters.
        reveal_strlit("all");
        assert("all"@.len() == 3);
        reveal_strlit("downloading");
        assert("downloading"@.len() == 11);
        reveal_strlit("completed");
        assert("completed"@.len() == 9);
        reveal_strlit("paused");
        assert("paused"@.len() == 6);
        assert("paused"@[0] == 'p');
        reveal_strlit("active");
        assert("active"@.len() == 6);
        assert("active"@[0] == 'a');
        reveal_strlit("inactive");
        assert("inactive"@.len() == 8);
        reveal_strlit("resumed");
        assert("resumed"@.len() == 7);
        assert("resumed"@[0] == 'r');
        reveal_strlit("stalled");
        assert("stalled"@.len() == 7);
        assert("stalled"@[0] == 's');
        reveal_strlit("stalledUploading");
        assert("stalledUploading"@.len() == 16);
        reveal_strlit("stalledDownloading");
        assert("stalledDownloading"@.len() == 18);
        reveal_strlit("errored");
        assert("errored"@.len() == 7);
        assert("errored"@[0] == 'e');
    }
}

impl ToText for TorrentFilter {
    open spec fn text(&self) -> Seq<char> {
        self.spec_name()
    }

    fn to_text(&self) -> (s: String) {
        self.name().to_owned()
    }
}

/// The state of a torrent.
#[derive(Debug, Clone, Copy, PartialEq, Eq, Structural)]
pub enum State {
    /// Some error occurred, applies to paused torrents
    Error,
    /// Torrent data files is missing
    MissingFiles,
    /// Torrent is being seeded and data is being transferred
    Uploading,
    /// Torrent is paused and has finished downloading
    PausedUP,
    /// Queuing is enabled and torrent is queued for upload
    QueuedUP,
    /// Torrent is being seeded, but no connection were made
    StalledUP,
    /// Torrent has finished downloading and is being checked
    CheckingUP,
    /// Torrent is forced to uploading and ignore queue limit
    ForcedUP,
    /// Torrent is allocating disk space for download
    Allocating,
    /// Torrent is being downloaded and data is being transferred
    Downloading,
    /// Torrent has just started downloading and is fetching metadata
    MetaDL,
    /// Torrent is paused and has NOT finished downloading
    PausedDL,
    /// Queuing is enabled and torrent is queued for download
    QueuedDL,
    /// Torrent is being downloaded, but no connection were made
    StalledDL,
    /// Same as checkingUP, but torrent has NOT finished downloading
    CheckingDL,
    /// Torrent is forced to downloading to ignore queue limit
    ForcedDL,
    /// Checking resume data on qBt startup
    CheckingResumeData,
    /// Torrent is moving to another location
    Moving,
    /// Unknown status
    Unknown,
}

impl State {
    /// The name of the value on the wire.
    pub open spec fn spec_name(self) -> Seq<char> {
        match self {
            State::Error => "error"@,
            State::MissingFiles => "missingFiles"@,
            State::Uploading => "uploading"@,
            State::PausedUP => "pausedUP"@,
            State::QueuedUP => "queuedUP"@,
            State::StalledUP => "stalledUP"@,
            State::CheckingUP => "checkingUP"@,
            State::ForcedUP => "forcedUP"@,
            State::Allocating => "allocating"@,
            State::Downloading => "downloading"@,
            State::MetaDL => "metaDL"@,
            State::PausedDL => "pausedDL"@,
            State::QueuedDL => "queuedDL"@,
            State::StalledDL => "stalledDL"@,
            State::CheckingDL => "checkingDL"@,
            State::ForcedDL => "forcedDL"@,
            State::CheckingResumeData => "checkingResumeData"@,
            State::Moving => "moving"@,
            State::Unknown => "unknown"@,
        }
    }

    /// The value that a name on the wire stands for.
    pub open spec fn spec_from_name(name: Seq<char>) -> Option<State> {
        if name == "error"@ {
            Some(State::Error)
        } else if name == "missingFiles"@ {
            Some(State::MissingFiles)
        } else if name == "uploading"@ {
            Some(State::Uploading)
        } else if name == "pausedUP"@ {
            Some(State::PausedUP)
        } else if name == "queuedUP"@ {
            Some(State::QueuedUP)
        } else if name == "stalledUP"@ {
            Some(State::StalledUP)
        } else if name == "checkingUP"@ {
            Some(State::CheckingUP)
        } else if name == "forcedUP"@ {
            Some(State::ForcedUP)
        } else if name == "allocating"@ {
            Some(State::Allocating)
        } else if name == "downloading"@ {
            Some(State::Downloading)
        } else if name == "metaDL"@ {
            Some(State::MetaDL)
        } else if name == "pausedDL"@ {
            Some(State::PausedDL)
        } else if name == "queuedDL"@ {
            Some(State::QueuedDL)
        } else if name == "stalledDL"@ {
            Some(State::StalledDL)
        } else if name == "checkingDL"@ {
            Some(State::CheckingDL)
        } else if name == "forcedDL"@ {
            Some(State::ForcedDL)
        } else if name == "checkingResumeData"@ {
            Some(State::CheckingResumeData)
        } else if name == "moving"@ {
            Some(State::Moving)
        } else if name == "unknown"@ {
            Some(State::Unknown)
        } else {
            None
        }
    }

    /// The name of the value on the wire.
    pub fn name(&self) -> (s: &'static str)
        ensures
            s@ == self.spec_name(),
    {
        match self {
            State::Error => "error",
            State::MissingFiles => "missingFiles",
            State::Uploading => "uploading",
            State::PausedUP => "pausedUP",
            State::QueuedUP => "queuedUP",
            State::StalledUP => "stalledUP",
            State::CheckingUP => "checkingUP",
            State::ForcedUP => "forcedUP",
            State::Allocating => "allocating",
            State::Downloading => "downloading",
            State::MetaDL => "metaDL",
            State::PausedDL => "pausedDL",
            State::QueuedDL => "queuedDL",
            State::StalledDL => "stalledDL",
            State::CheckingDL => "checkingDL",
            State::ForcedDL => "forcedDL",
            State::CheckingResumeData => "checkingResumeData",
            State::Moving => "moving",
            State::Unknown => "unknown",
        }
    }

    /// Reads a name on the wire.
    pub fn from_name(name: &str) -> (r: Option<State>)
        ensures
            r == Self::spec_from_name(name@),
    {
        if same_text(name, "error") {
            Some(State::Error)
        } else if same_text(name, "missingFiles") {
            Some(State::MissingFiles)
        } else if same_text(name, "uploading") {
            Some(State::Uploading)
        } else if same_text(name, "pausedUP") {
            Some(State::PausedUP)
        } else if same_text(name, "queuedUP") {
            Some(State::QueuedUP)
        } else if same_text(name, "stalledUP") {
            Some(State::StalledUP)
        } else if same_text(name, "checkingUP") {
            Some(State::CheckingUP)
        } else if same_text(name, "forcedUP") {
            Some(State::ForcedUP)
        } else if same_text(name, "allocating") {
            Some(State::Allocating)
        } else if same_text(name, "downloading") {
            Some(State::Downloading)
        } else if same_text(name, "metaDL") {
            Some(State::MetaDL)
        } else if same_text(name, "pausedDL") {
            Some(State::PausedDL)
        } else if same_text(name, "queuedDL") {
            Some(State::QueuedDL)
        } else if same_text(name, "stalledDL") {
            Some(State::StalledDL)
        } else if same_text(name, "checkingDL") {
            Some(State::CheckingDL)
        } else if same_text(name, "forcedDL") {
            Some(State::ForcedDL)
        } else if same_text(name, "checkingResumeData") {
            Some(State::CheckingResumeData)
        } else if same_text(name, "moving") {
            Some(State::Moving)
        } else if same_text(name, "unknown") {
            Some(State::Unknown)
        } else {
            None
        }
    }

    /// A name that is read gives back the value that wrote it, and a value
    /// that is read from a name writes that name again.
    pub proof fn lemma_name_round_trip(value: State, name: Seq<char>)
        ensures
            Self::spec_from_name(value.spec_name()) == Some(value),
            Self::spec_from_name(name) matches Some(read) ==> read.spec_name() == name,
    {
        // Two names differ in their length or in one of these characters.
        reveal_strlit("error");
        assert("error"@.len() == 5);
        reveal_strlit("missingFiles");
        assert("missingFiles"@.len() == 12);
        reveal_strlit("uploading");
        assert("uploading"@.len() == 9);
        assert("uploading"@[0] == 'u');
        reveal_strlit("pausedUP");
        assert("pausedUP"@.len() == 8);
        assert("pausedUP"@[0] == 'p');
        assert("pausedUP"@[6] == 'U');
        reveal_strlit("queuedUP");
        assert("queuedUP"@.len() == 8);
        assert("queuedUP"@[0] == 'q');
        assert("queuedUP"@[6] == 'U');
        reveal_strlit("stalledUP");
        assert("stalledUP"@.len() == 9);
        assert("stalledUP"@[0] == 's');
        assert("stalledUP"@[7] == 'U');
        reveal_strlit("checkingUP");
        assert("checkingUP"@.len() == 10);
        assert("checkingUP"@[0] == 'c');
        assert("checkingUP"@[8] == 'U');
        reveal_strlit("forcedUP");
        assert("forcedUP"@.len() == 8);
        assert("forcedUP"@[0] == 'f');
        assert("forcedUP"@[6] == 'U');
        reveal_strlit("allocating");
        assert("allocating"@.len() == 10);
        assert("allocating"@[0] == 'a');
        reveal_strlit("downloading");
        assert("downloading"@.len() == 11);
        reveal_strlit("metaDL");
        assert("metaDL"@.len() == 6);
        assert("metaDL"@[1] == 'e');
        reveal_strlit("pausedDL");
        assert("pausedDL"@.len() == 8);
        assert("pausedDL"@[0] == 'p');
        assert("pausedDL"@[6] == 'D');
        reveal_strlit("queuedDL");
        assert("queuedDL"@.len() == 8);
        assert("queuedDL"@[0] == 'q');
        assert("queuedDL"@[6] == 'D');
        reveal_strlit("stalledDL");
        assert("stalledDL"@.len() == 9);
        assert("stalledDL"@[0] == 's');
        assert("stalledDL"@[7] == 'D');
        reveal_strlit("checkingDL");
        assert("checkingDL"@.len() == 10);
        assert("checkingDL"@[0] == 'c');
        assert("checkingDL"@[8] == 'D');
        reveal_strlit("forcedDL");
        assert("forcedDL"@.len() == 8);
        assert("forcedDL"@[0] == 'f');
        assert("forcedDL"@[6] == 'D');
        reveal_strlit("checkingResumeData");
        assert("checkingResumeData"@.len() == 18);
        reveal_strlit("moving");
        assert("moving"@.len() == 6);
        assert("moving"@[1] == 'o');
        reveal_strlit("unknown");
        assert("unknown"@.len() == 7);
    }
}

#[derive(Debug, Clone, PartialEq, Eq)]
pub struct WebSeed {
    /// Web seed URL
    pub url: String,
}

/// The priority of a file of a torrent.
#[derive(Debug, Clone, Copy, PartialEq, Eq, PartialOrd, Ord, Structural)]
pub enum Priority {
    /// Do not download
    DoNotDownload,
    /// Normal priority
    Normal,
    /// High priority
    High,
    /// Maximal priority
    Maximal,
}

impl Priority {
    /// The number of the value on the wire.
    pub open spec fn spec_code(self) -> u8 {
        match self {
            Priority::DoNotDownload => 0,
            Priority::Normal => 1,
            Priority::High => 6,
            Priority::Maximal => 7,
        }
    }

    /// The value that a number on the wire stands for.
    pub open spec fn spec_from_code(code: u8) -> Option<Priority> {
        if code == 0 {
            Some(Priority::DoNotDownload)
        } else if code == 1 {
            Some(Priority::Normal)
        } else if code == 6 {
            Some(Priority::High)
        } else if code == 7 {
            Some(Priority::Maximal)
        } else {
            None
        }
    }

    /// The number of the value on the wire.
    pub fn code(&self) -> (c: u8)
        ensures
            c == self.spec_code(),
    {
        match self {
            Priority::DoNotDownload => 0,
            Priority::Normal => 1,
            Priority::High => 6,
            Priority::Maximal => 7,
        }
    }

    /// Reads a number on the wire.
    pub fn from_code(code: u8) -> (r: Option<Priority>)
        ensures
            r == Self::spec_from_code(code),
    {
        if code == 0 {
            Some(Priority::DoNotDownload)
        } else if code == 1 {
            Some(Priority::Normal)
        } else if code == 6 {
            Some(Priority::High)
        } else if code == 7 {
            Some(Priority::Maximal)
        } else {
            None
        }
    }

    /// A number that is read gives back the value that wrote it, and a
    /// value that is read from a number writes that number again.
    pub proof fn lemma_code_round_trip(value: Priority, code: u8)
        ensures
            Self::spec_from_code(value.spec_code()) == Some(value),
            Self::spec_from_code(code) matches Some(read) ==> read.spec_code() == code,
    {
    }
}

impl ToText for Priority {
    open spec fn text(&self) -> Seq<char> {
        decimal(self.spec_code() as nat)
    }

    fn to_text(&self) -> (s: String) {
        u64_to_text(self.code() as u64)
    }
}

/// The state of a piece of a torrent.
#[derive(Debug, Clone, Copy, PartialEq, Eq, PartialOrd, Ord, Structural)]
pub enum PieceState {
    /// Not downloaded yet
    NotDownloaded,
    /// Now downloading
    Downloading,
    /// Already downloaded
    Downloaded,
}

impl PieceState {
    /// The number of the value on the wire.
    pub open spec fn spec_code(self) -> u8 {
        match self {
            PieceState::NotDownloaded => 0,
            PieceState::Downloading => 1,
            PieceState::Downloaded => 2,
        }
    }

    /// The value that a number on the wire stands for.
    pub open spec fn spec_from_code(code: u8) -> Option<PieceState> {
        if code == 0 {
            Some(PieceState::NotDownloaded)
        } else if code == 1 {
            Some(PieceState::Downloading)
        } else if code == 2 {
            Some(PieceState::Downloaded)
        } else {
            None
        }
    }

    /// The number of the value on the wire.
    pub fn code(&self) -> (c: u8)
        ensures
            c == self.spec_code(),
    {
        match self {
            PieceState::NotDownloaded => 0,
            PieceState::Downloading => 1,
            PieceState::Downloaded => 2,
        }
    }

    /// Reads a number on the wire.
    pub fn from_code(code: u8) -> (r: Option<PieceState>)
        ensures
            r == Self::spec_from_code(code),
    {
        if code == 0 {
            Some(PieceState::NotDownloaded)
        } else if code == 1 {
            Some(PieceState::Downloading)
        } else if code == 2 {
            Some(PieceState::Downloaded)
        } else {
            None
        }
    }

    /// A number that is read gives back the value that wrote it, and a
    /// value that is read from a number writes that number again.
    pub proof fn lemma_code_round_trip(value: PieceState, code: u8)
        ensures
            Self::spec_from_code(value.spec_code()) == Some(value),
            Self::spec_from_code(code) matches Some(read) ==> read.spec_code() == code,
    {
    }
}

/// `|` separeated list of hash values or `all`
#[derive(Debug, PartialEq, Eq)]
pub enum Hashes {
    /// A list of torrent hashes separated by `|`
    Hashes(Sep<String, 124>),
    /// All torrents
    All,
}

impl Hashes {
    /// The text that selects the torrents: the hashes with `|` between
    /// them, or the word `all`.
    pub open spec fn spec_text(self) -> Seq<char> {
        match self {
            Hashes::Hashes(hashes) => joined(texts(hashes@), '|'),
            Hashes::All => "all"@,
        }
    }

    /// The text that selects the torrents.
    pub fn to_string(&self) -> (s: String)
        ensures
            s@ == self.spec_text(),
    {
        match self {
            Hashes::Hashes(hashes) => hashes.to_string(),
            Hashes::All => "all".to_owned(),
        }
    }
}

impl Clone for Hashes {
    fn clone(&self) -> (h: Self)
        ensures
            h.spec_text() == self.spec_text(),
            h is All <==> self is All,
    {
        match self {
            Hashes::Hashes(hashes) => {
                let copy = hashes.clone();
                assert(copy@ =~= hashes@);
                Hashes::Hashes(copy)
            },
            Hashes::All => Hashes::All,
        }
    }
}

impl ToText for Hashes {
    open spec fn text(&self) -> Seq<char> {
        self.spec_text()
    }

    fn to_text(&self) -> (s: String) {
        self.to_string()
    }
}

impl From<Vec<String>> for Hashes {
    fn from(hashes: Vec<String>) -> (h: Self)
        ensures
            h matches Hashes::Hashes(list) && list@ == hashes@,
    {
        Hashes::Hashes(Sep::from(hashes))
    }
}

impl vstd::std_specs::convert::FromSpecImpl<Vec<String>> for Hashes {
    open spec fn obeys_from_spec() -> bool {
        true
    }

    open spec fn from_spec(hashes: Vec<String>) -> Self {
        Hashes::Hashes(Sep(hashes))
    }
}

#[derive(Debug, Clone, PartialEq, Eq)]
pub struct GetTorrentListArg {
    /// Filter torrent list by state. Allowed state filters: `all`,
    /// `downloading`, `seeding`, `completed`, `paused`, `active`, `inactive`,
    /// `resumed`, `stalled`, `stalled_uploading`, `stalled_downloading`,
    /// `errored`
    pub filter: Option<TorrentFilter>,
    /// Get torrents with the given category (empty string means "without
    /// category"; no "category" parameter means "any category").
    pub category: Option<String>,
    /// Get torrents with the given tag (empty string means "without tag"; no
    /// "tag" parameter means "any tag".
    pub tag: Option<String>,
    /// Sort torrents by given key. They can be sorted using any field of the
    /// response's JSON array (which are documented below) as the sort key.
    pub sort: Option<String>,
    /// Enable reverse sorting. Defaults to `false`
    pub reverse: Option<bool>,
    /// Limit the number of torrents returned
    pub limit: Option<u64>,
    /// Set offset (if less than 0, offset from end)
    pub offset: Option<i64>,
    /// Filter by hashes. Can contain multiple hashes separated by `\|`
    pub hashes: Option<String>,
}

impl Default for GetTorrentListArg {
    fn default() -> (arg: Self)
        ensures
            arg.spec_fields() == Fields::empty(),
    {
        let arg = GetTorrentListArg {
            filter: None,
            category: None,
            tag: None,
            sort: None,
            reverse: None,
            limit: None,
            offset: None,
            hashes: None,
        };
        assert(arg.spec_fields() =~= Fields::empty());
        arg
    }
}

impl GetTorrentListArg {
    /// The fields that are sent: each one that is set, under its own name.
    pub open spec fn spec_fields(self) -> Fields {
        field("filter"@, self.filter) + field("category"@, self.category) + field(
            "tag"@,
            self.tag,
        ) + field("sort"@, self.sort) + field("reverse"@, self.reverse) + field(
            "limit"@,
            self.limit,
        ) + field("offset"@, self.offset) + field("hashes"@, self.hashes)
    }

    /// The fields that are sent.
    pub fn fields(&self) -> (out: Vec<(String, String)>)
        ensures
            out.deep_view() == self.spec_fields(),
    {
        let mut out: Vec<(String, String)> = Vec::new();
        push_field(&mut out, "filter", &self.filter);
        push_field(&mut out, "category", &self.category);
        push_field(&mut out, "tag", &self.tag);
        push_field(&mut out, "sort", &self.sort);
        push_field(&mut out, "reverse", &self.reverse);
        push_field(&mut out, "limit", &self.limit);
        push_field(&mut out, "offset", &self.offset);
        push_field(&mut out, "hashes", &self.hashes);
        out
    }
}

#[derive(Debug, Clone, PartialEq, Eq)]
pub enum TorrentSource {
    /// URLs
    Urls { urls: Sep<String, 10> },
    /// Raw data of torrent file.
    TorrentFiles { torrents: Vec<u8> },
}

/// How long a torrent is seeded.
#[derive(Debug, Clone, Copy, PartialEq, Eq, Structural)]
pub enum SeedingTimeLimit {
    /// The limit of the global settings.
    Global,
    /// No limit.
    NoLimit,
    /// Number of minutes
    Limited(u64),
}

impl SeedingTimeLimit {
    /// The number that the limit is written as: `-2` for the global limit,
    /// `-1` for none, and the minutes otherwise.
    pub open spec fn wire(self) -> int {
        match self {
            SeedingTimeLimit::Global => -2,
            SeedingTimeLimit::NoLimit => -1,
            SeedingTimeLimit::Limited(minutes) => minutes as int,
        }
    }
}

impl ToText for SeedingTimeLimit {
    open spec fn text(&self) -> Seq<char> {
        crate::text::signed_decimal(self.wire())
    }

    fn to_text(&self) -> (s: String) {
        match self {
            SeedingTimeLimit::Global => crate::text::i64_to_text(-2),
            SeedingTimeLimit::NoLimit => crate::text::i64_to_text(-1),
            SeedingTimeLimit::Limited(minutes) => u64_to_text(*minutes),
        }
    }
}

/// The argument of the calls that take one torrent hash.
#[derive(Debug, PartialEq, Eq)]
pub struct HashArg<'a> {
    hash: &'a str,
}

impl<'a> HashArg<'a> {
    /// The hash.
    pub closed spec fn hash(self) -> Seq<char> {
        self.hash@
    }

    pub fn new(hash: &'a str) -> (arg: Self)
        ensures
            arg.hash() == hash@,
    {
        Self { hash }
    }

    /// The one field that is sent.
    pub fn fields(&self) -> (out: Vec<(String, String)>)
        ensures
            out.deep_view() == text_field("hash"@, self.hash()),
    {
        let mut out: Vec<(String, String)> = Vec::new();
        push_text(&mut out, "hash", self.hash.to_owned());
        assert(out.deep_view() =~= text_field("hash"@, self.hash()));
        out
    }
}

/// The argument of the calls that take a selection of torrents.
#[derive(Debug, PartialEq, Eq)]
pub struct HashesArg {
    hashes: Hashes,
}

impl HashesArg {
    /// The selection.
    pub closed spec fn hashes(self) -> Hashes {
        self.hashes
    }

    pub fn new(hashes: Hashes) -> (arg: Self)
        ensures
            arg.hashes() == hashes,
    {
        Self { hashes }
    }

    /// The one field that is sent.
    pub fn fields(&self) -> (out: Vec<(String, String)>)
        ensures
            out.deep_view() == text_field("hashes"@, self.hashes().spec_text()),
    {
        let mut out: Vec<(String, String)> = Vec::new();
        push_text(&mut out, "hashes", self.hashes.to_string());
        assert(out.deep_view() =~= text_field("hashes"@, self.hashes().spec_text()));
        out
    }
}

} // verus!
