//! The operations of the API, one function each: what is called, with
//! which fields, and how the response is judged and read.

use crate::client::Qbit;
use crate::error::QbitError;
use crate::form::{field, push_field, push_text, push_value, text_field};
use crate::model::{
    AsText, GetLogsArg, GetTorrentListArg, Hashes, NonEmptyStr, Priority, SeedingTimeLimit, Sep,
    ToText,
};
use crate::operation::{spec_get, spec_post, Operation, Reading, StatusRule};
use crate::text::{parse_u64, same_text, spec_parse_u64};
use vstd::prelude::*;

verus! {

/// What is said of a speed limits mode that is neither `0` nor `1`.
pub const BAD_SPEED_LIMITS_MODE: &'static str =
    "Received non-number response body on `transfer/speedLimitsMode`";

/// What is said of a download limit that is no number.
pub const BAD_DOWNLOAD_LIMIT: &'static str =
    "Received non-number response body on `transfer/downloadLimit`";

/// What is said of an upload limit that is no number.
pub const BAD_UPLOAD_LIMIT: &'static str =
    "Received non-number response body on `transfer/uploadLimit`";

/// The speed limits mode that a response body stands for: `0` is off, `1`
/// is on, and every other text is a bad response.
pub open spec fn spec_speed_limits_mode(text: Seq<char>) -> Result<bool, QbitError> {
    if text == "0"@ {
        Ok(false)
    } else if text == "1"@ {
        Ok(true)
    } else {
        Err(QbitError::BadResponse { explain: BAD_SPEED_LIMITS_MODE })
    }
}

/// The limit that a response body stands for: the number that it is read
/// as, and a bad response with `explain` where it is none.
pub open spec fn spec_limit(text: Seq<char>, explain: &'static str) -> Result<u64, QbitError> {
    match spec_parse_u64(text) {
        Some(limit) => Ok(limit),
        None => Err(QbitError::BadResponse { explain }),
    }
}

/// Reads a limit from a response body.
pub fn read_limit(text: &str, explain: &'static str) -> (r: Result<u64, QbitError>)
    ensures
        r == spec_limit(text@, explain),
{
    match parse_u64(text) {
        Some(limit) => Ok(limit),
        None => Err(QbitError::BadResponse { explain }),
    }
}

impl Qbit {
    /// Reads the body of the response to `get_speed_limits_mode`.
    pub fn read_speed_limits_mode(&self, text: &str) -> (r: Result<bool, QbitError>)
        ensures
            r == spec_speed_limits_mode(text@),
    {
        if same_text(text, "0") {
            Ok(false)
        } else if same_text(text, "1") {
            Ok(true)
        } else {
            Err(QbitError::BadResponse { explain: BAD_SPEED_LIMITS_MODE })
        }
    }

    /// Reads the body of the response to `get_download_limit`.
    pub fn read_download_limit(&self, text: &str) -> (r: Result<u64, QbitError>)
        ensures
            r == spec_limit(text@, BAD_DOWNLOAD_LIMIT),
    {
        read_limit(text, BAD_DOWNLOAD_LIMIT)
    }

    /// Reads the body of the response to `get_upload_limit`.
    pub fn read_upload_limit(&self, text: &str) -> (r: Result<u64, QbitError>)
        ensures
            r == spec_limit(text@, BAD_UPLOAD_LIMIT),
    {
        read_limit(text, BAD_UPLOAD_LIMIT)
    }


    /// Ends the session.
    pub fn logout(&self) -> (op: Operation)
        ensures
            op@ == spec_get("auth/logout"@, Reading::End),
    {
        Operation::get("auth/logout", Reading::End)
    }

    /// The version of the application.
    pub fn get_version(&self) -> (op: Operation)
        ensures
            op@ == spec_get("app/version"@, Reading::Text),
    {
        Operation::get("app/version", Reading::Text)
    }

    /// The version of the API.
    pub fn get_webapi_version(&self) -> (op: Operation)
        ensures
            op@ == spec_get("app/webapiVersion"@, Reading::Text),
    {
        Operation::get("app/webapiVersion", Reading::Text)
    }

    /// The versions that the application was built with.
    pub fn get_build_info(&self) -> (op: Operation)
        ensures
            op@ == spec_get("app/buildInfo"@, Reading::Json),
    {
        Operation::get("app/buildInfo", Reading::Json)
    }

    /// Shuts the application down.
    pub fn shutdown(&self) -> (op: Operation)
        ensures
            op@ == spec_get("app/shutdown"@, Reading::End),
    {
        Operation::get("app/shutdown", Reading::End)
    }

    /// The preferences of the application.
    pub fn get_preferences(&self) -> (op: Operation)
        ensures
            op@ == spec_get("app/preferences"@, Reading::Json),
    {
        Operation::get("app/preferences", Reading::Json)
    }

    /// Sets preferences, which are given as the JSON text of the ones to change.
    pub fn set_preferences(&self, json: &str) -> (op: Operation)
        ensures
            op@ == spec_post(
                "app/setPreferences"@,
                text_field("json"@, json@),
                StatusRule::Plain,
                Reading::End,
            ),
    {
        let mut fields: Vec<(String, String)> = Vec::new();
        push_text(&mut fields, "json", json.to_owned());
        Operation::post("app/setPreferences", fields, StatusRule::Plain, Reading::End)
    }

    /// The default save path.
    pub fn get_default_save_path(&self) -> (op: Operation)
        ensures
            op@ == spec_get("app/defaultSavePath"@, Reading::Text),
    {
        Operation::get("app/defaultSavePath", Reading::Text)
    }

    /// The log of the application.
    pub fn get_logs(&self, arg: &GetLogsArg) -> (op: Operation)
        ensures
            op@ == spec_post(
                "log/main"@,
                arg.spec_fields(),
                StatusRule::Plain,
                Reading::Json,
            ),
    {
        let fields = arg.fields();
        Operation::post("log/main", fields, StatusRule::Plain, Reading::Json)
    }

    /// The log of the peers.
    pub fn get_peer_logs(&self, last_known_id: Option<i64>) -> (op: Operation)
        ensures
            op@ == spec_post(
                "log/peers"@,
                field("last_known_id"@, last_known_id),
                StatusRule::Plain,
                Reading::Json,
            ),
    {
        let mut fields: Vec<(String, String)> = Vec::new();
        push_field(&mut fields, "last_known_id", &last_known_id);
        Operation::post("log/peers", fields, StatusRule::Plain, Reading::Json)
    }

    /// What changed since the response with the ID `rid`.
    pub fn sync(&self, rid: Option<i64>) -> (op: Operation)
        ensures
            op@ == spec_post(
                "sync/maindata"@,
                field("rid"@, rid),
                StatusRule::Plain,
                Reading::Json,
            ),
    {
        let mut fields: Vec<(String, String)> = Vec::new();
        push_field(&mut fields, "rid", &rid);
        Operation::post("sync/maindata", fields, StatusRule::Plain, Reading::Json)
    }

    /// The peers of a torrent, as they changed since the response with the ID
    /// `rid`.
    pub fn get_torrent_peers(&self, hash: &str, rid: Option<i64>) -> (op: Operation)
        ensures
            op@ == spec_post(
                "sync/torrentPeers"@,
                text_field("hash"@, hash@) + field("rid"@, rid),
                StatusRule::TorrentNotFound,
                Reading::Json,
            ),
    {
        let mut fields: Vec<(String, String)> = Vec::new();
        push_text(&mut fields, "hash", hash.to_owned());
        push_field(&mut fields, "rid", &rid);
        Operation::post("sync/torrentPeers", fields, StatusRule::TorrentNotFound, Reading::Json)
    }

    /// The global transfer figures.
    pub fn get_transfer_info(&self) -> (op: Operation)
        ensures
            op@ == spec_get("transfer/info"@, Reading::Json),
    {
        Operation::get("transfer/info", Reading::Json)
    }

    /// Whether the alternative speed limits are on; the text that comes back
    /// is read by `read_speed_limits_mode`.
    pub fn get_speed_limits_mode(&self) -> (op: Operation)
        ensures
            op@ == spec_get("transfer/speedLimitsMode"@, Reading::Text),
    {
        Operation::get("transfer/speedLimitsMode", Reading::Text)
    }

    /// Switches the alternative speed limits.
    pub fn toggle_speed_limits_mode(&self) -> (op: Operation)
        ensures
            op@ == spec_get("transfer/toggleSpeedLimitsMode"@, Reading::End),
    {
        Operation::get("transfer/toggleSpeedLimitsMode", Reading::End)
    }

    /// The global download limit; the text that comes back is read by
    /// `read_download_limit`.
    pub fn get_download_limit(&self) -> (op: Operation)
        ensures
            op@ == spec_get("transfer/downloadLimit"@, Reading::Text),
    {
        Operation::get("transfer/downloadLimit", Reading::Text)
    }

    /// Sets the global download limit.
    pub fn set_download_limit(&self, limit: u64) -> (op: Operation)
        ensures
            op@ == spec_post(
                "transfer/setDownloadLimit"@,
                text_field("limit"@, limit.text()),
                StatusRule::Plain,
                Reading::End,
            ),
    {
        let mut fields: Vec<(String, String)> = Vec::new();
        push_value(&mut fields, "limit", &limit);
        Operation::post("transfer/setDownloadLimit", fields, StatusRule::Plain, Reading::End)
    }

    /// The global upload limit; the text that comes back is read by
    /// `read_upload_limit`.
    pub fn get_upload_limit(&self) -> (op: Operation)
        ensures
            op@ == spec_get("transfer/uploadLimit"@, Reading::Text),
    {
        Operation::get("transfer/uploadLimit", Reading::Text)
    }

    /// Sets the global upload limit.
    pub fn set_upload_limit(&self, limit: u64) -> (op: Operation)
        ensures
            op@ == spec_post(
                "transfer/setUploadLimit"@,
                text_field("limit"@, limit.text()),
                StatusRule::Plain,
                Reading::End,
            ),
    {
        let mut fields: Vec<(String, String)> = Vec::new();
        push_value(&mut fields, "limit", &limit);
        Operation::post("transfer/setUploadLimit", fields, StatusRule::Plain, Reading::End)
    }

    /// Bans peers.
    pub fn ban_peers(&self, peers: &Sep<String, 124>) -> (op: Operation)
        ensures
            op@ == spec_post(
                "transfer/banPeers"@,
                text_field("peers"@, peers.text()),
                StatusRule::Plain,
                Reading::End,
            ),
    {
        let mut fields: Vec<(String, String)> = Vec::new();
        push_value(&mut fields, "peers", peers);
        Operation::post("transfer/banPeers", fields, StatusRule::Plain, Reading::End)
    }

    /// The torrents that the argument selects.
    pub fn get_torrent_list(&self, arg: &GetTorrentListArg) -> (op: Operation)
        ensures
            op@ == spec_post(
                "torrents/info"@,
                arg.spec_fields(),
                StatusRule::Plain,
                Reading::Json,
            ),
    {
        let fields = arg.fields();
        Operation::post("torrents/info", fields, StatusRule::Plain, Reading::Json)
    }

    /// The properties of a torrent.
    pub fn get_torrent_properties(&self, hash: &str) -> (op: Operation)
        ensures
            op@ == spec_post(
                "torrents/properties"@,
                text_field("hash"@, hash@),
                StatusRule::TorrentNotFound,
                Reading::Json,
            ),
    {
        let mut fields: Vec<(String, String)> = Vec::new();
        push_text(&mut fields, "hash", hash.to_owned());
        Operation::post("torrents/properties", fields, StatusRule::TorrentNotFound, Reading::Json)
    }

    /// The trackers of a torrent.
    pub fn get_torrent_trackers(&self, hash: &str) -> (op: Operation)
        ensures
            op@ == spec_post(
                "torrents/trackers"@,
                text_field("hash"@, hash@),
                StatusRule::TorrentNotFound,
                Reading::Json,
            ),
    {
        let mut fields: Vec<(String, String)> = Vec::new();
        push_text(&mut fields, "hash", hash.to_owned());
        Operation::post("torrents/trackers", fields, StatusRule::TorrentNotFound, Reading::Json)
    }

    /// The web seeds of a torrent.
    pub fn get_torrent_web_seeds(&self, hash: &str) -> (op: Operation)
        ensures
            op@ == spec_post(
                "torrents/webseeds"@,
                text_field("hash"@, hash@),
                StatusRule::TorrentNotFound,
                Reading::Json,
            ),
    {
        let mut fields: Vec<(String, String)> = Vec::new();
        push_text(&mut fields, "hash", hash.to_owned());
        Operation::post("torrents/webseeds", fields, StatusRule::TorrentNotFound, Reading::Json)
    }

    /// The files of a torrent, or those with the given indexes.
    pub fn get_torrent_contents(
        &self,
        hash: &str,
        indexes: Option<Sep<String, 124>>,
    ) -> (op: Operation)
        ensures
            op@ == spec_post(
                "torrents/files"@,
                text_field("hash"@, hash@) + field("indexes"@, indexes),
                StatusRule::TorrentNotFound,
                Reading::Json,
            ),
    {
        let mut fields: Vec<(String, String)> = Vec::new();
        push_text(&mut fields, "hash", hash.to_owned());
        push_field(&mut fields, "indexes", &indexes);
        Operation::post("torrents/files", fields, StatusRule::TorrentNotFound, Reading::Json)
    }

    /// The states of the pieces of a torrent.
    pub fn get_torrent_pieces_states(&self, hash: &str) -> (op: Operation)
        ensures
            op@ == spec_post(
                "torrents/pieceStates"@,
                text_field("hash"@, hash@),
                StatusRule::TorrentNotFound,
                Reading::Json,
            ),
    {
        let mut fields: Vec<(String, String)> = Vec::new();
        push_text(&mut fields, "hash", hash.to_owned());
        Operation::post("torrents/pieceStates", fields, StatusRule::TorrentNotFound, Reading::Json)
    }

    /// The hashes of the pieces of a torrent.
    pub fn get_torrent_pieces_hashes(&self, hash: &str) -> (op: Operation)
        ensures
            op@ == spec_post(
                "torrents/pieceHashes"@,
                text_field("hash"@, hash@),
                StatusRule::TorrentNotFound,
                Reading::Json,
            ),
    {
        let mut fields: Vec<(String, String)> = Vec::new();
        push_text(&mut fields, "hash", hash.to_owned());
        Operation::post("torrents/pieceHashes", fields, StatusRule::TorrentNotFound, Reading::Json)
    }

    /// Pauses torrents.
    pub fn pause_torrents(&self, hashes: &Hashes) -> (op: Operation)
        ensures
            op@ == spec_post(
                "torrents/pause"@,
                text_field("hashes"@, hashes.text()),
                StatusRule::Plain,
                Reading::End,
            ),
    {
        let mut fields: Vec<(String, String)> = Vec::new();
        push_value(&mut fields, "hashes", hashes);
        Operation::post("torrents/pause", fields, StatusRule::Plain, Reading::End)
    }

    /// Resumes torrents.
    pub fn resume_torrents(&self, hashes: &Hashes) -> (op: Operation)
        ensures
            op@ == spec_post(
                "torrents/resume"@,
                text_field("hashes"@, hashes.text()),
                StatusRule::Plain,
                Reading::End,
            ),
    {
        let mut fields: Vec<(String, String)> = Vec::new();
        push_value(&mut fields, "hashes", hashes);
        Operation::post("torrents/resume", fields, StatusRule::Plain, Reading::End)
    }

    /// Deletes torrents, and their files where `delete_files` says so.
    pub fn delete_torrents(&self, hashes: &Hashes, delete_files: Option<bool>) -> (op: Operation)
        ensures
            op@ == spec_post(
                "torrents/delete"@,
                text_field("hashes"@, hashes.text()) + field("delete_files"@, delete_files),
                StatusRule::Plain,
                Reading::End,
            ),
    {
        let mut fields: Vec<(String, String)> = Vec::new();
        push_value(&mut fields, "hashes", hashes);
        push_field(&mut fields, "delete_files", &delete_files);
        Operation::post("torrents/delete", fields, StatusRule::Plain, Reading::End)
    }

    /// Checks torrents again.
    pub fn recheck_torrents(&self, hashes: &Hashes) -> (op: Operation)
        ensures
            op@ == spec_post(
                "torrents/recheck"@,
                text_field("hashes"@, hashes.text()),
                StatusRule::Plain,
                Reading::End,
            ),
    {
        let mut fields: Vec<(String, String)> = Vec::new();
        push_value(&mut fields, "hashes", hashes);
        Operation::post("torrents/recheck", fields, StatusRule::Plain, Reading::End)
    }

    /// Announces torrents again.
    pub fn reannounce_torrents(&self, hashes: &Hashes) -> (op: Operation)
        ensures
            op@ == spec_post(
                "torrents/reannounce"@,
                text_field("hashes"@, hashes.text()),
                StatusRule::Plain,
                Reading::End,
            ),
    {
        let mut fields: Vec<(String, String)> = Vec::new();
        push_value(&mut fields, "hashes", hashes);
        Operation::post("torrents/reannounce", fields, StatusRule::Plain, Reading::End)
    }

    /// Adds torrents. The fields are those of the argument as the caller has
    /// written them.
    pub fn add_torrent(&self, fields: Vec<(String, String)>) -> (op: Operation)
        ensures
            op@ == spec_post(
                "torrents/add"@,
                fields.deep_view(),
                StatusRule::Plain,
                Reading::End,
            ),
    {
        Operation::post("torrents/add", fields, StatusRule::Plain, Reading::End)
    }

    /// Adds trackers to a torrent.
    pub fn add_trackers(&self, hash: &str, urls: &Sep<String, 10>) -> (op: Operation)
        ensures
            op@ == spec_post(
                "torrents/addTrackers"@,
                text_field("hash"@, hash@) + text_field("urls"@, urls.text()),
                StatusRule::TorrentNotFound,
                Reading::Json,
            ),
    {
        let mut fields: Vec<(String, String)> = Vec::new();
        push_text(&mut fields, "hash", hash.to_owned());
        push_value(&mut fields, "urls", urls);
        Operation::post("torrents/addTrackers", fields, StatusRule::TorrentNotFound, Reading::Json)
    }

    /// Replaces the URL of a tracker of a torrent.
    pub fn edit_trackers(&self, hash: &str, orig_url: &str, new_url: &str) -> (op: Operation)
        ensures
            op@ == spec_post(
                "torrents/editTracker"@,
                text_field("hash"@, hash@)
                    + text_field("orig_url"@, orig_url@)
                    + text_field("new_url"@, new_url@),
                StatusRule::EditTracker,
                Reading::Json,
            ),
    {
        let mut fields: Vec<(String, String)> = Vec::new();
        push_text(&mut fields, "hash", hash.to_owned());
        push_text(&mut fields, "orig_url", orig_url.to_owned());
        push_text(&mut fields, "new_url", new_url.to_owned());
        Operation::post("torrents/editTracker", fields, StatusRule::EditTracker, Reading::Json)
    }

    /// Removes trackers from a torrent.
    pub fn remove_trackers(&self, hash: &str, urls: &Sep<String, 124>) -> (op: Operation)
        ensures
            op@ == spec_post(
                "torrents/removeTrackers"@,
                text_field("hash"@, hash@) + text_field("urls"@, urls.text()),
                StatusRule::TorrentNotFound,
                Reading::End,
            ),
    {
        let mut fields: Vec<(String, String)> = Vec::new();
        push_text(&mut fields, "hash", hash.to_owned());
        push_value(&mut fields, "urls", urls);
        Operation::post(
            "torrents/removeTrackers",
            fields,
            StatusRule::TorrentNotFound,
            Reading::End,
        )
    }

    /// Adds peers to torrents.
    pub fn add_peers(&self, hashes: &Hashes, peers: &Sep<String, 124>) -> (op: Operation)
        ensures
            op@ == spec_post(
                "torrents/addPeers"@,
                text_field("hash"@, hashes.text()) + text_field("peers"@, peers.text()),
                StatusRule::InvalidPeers,
                Reading::End,
            ),
    {
        let mut fields: Vec<(String, String)> = Vec::new();
        push_value(&mut fields, "hash", hashes);
        push_value(&mut fields, "peers", peers);
        Operation::post("torrents/addPeers", fields, StatusRule::InvalidPeers, Reading::End)
    }

    /// Moves torrents up in the queue.
    pub fn increase_priority(&self, hashes: &Hashes) -> (op: Operation)
        ensures
            op@ == spec_post(
                "torrents/increasePrio"@,
                text_field("hashes"@, hashes.text()),
                StatusRule::QueueingDisabled,
                Reading::Ignored,
            ),
    {
        let mut fields: Vec<(String, String)> = Vec::new();
        push_value(&mut fields, "hashes", hashes);
        Operation::post(
            "torrents/increasePrio",
            fields,
            StatusRule::QueueingDisabled,
            Reading::Ignored,
        )
    }

    /// Moves torrents down in the queue.
    pub fn decrease_priority(&self, hashes: &Hashes) -> (op: Operation)
        ensures
            op@ == spec_post(
                "torrents/decreasePrio"@,
                text_field("hashes"@, hashes.text()),
                StatusRule::QueueingDisabled,
                Reading::Ignored,
            ),
    {
        let mut fields: Vec<(String, String)> = Vec::new();
        push_value(&mut fields, "hashes", hashes);
        Operation::post(
            "torrents/decreasePrio",
            fields,
            StatusRule::QueueingDisabled,
            Reading::Ignored,
        )
    }

    /// Moves torrents to the top of the queue.
    pub fn maximal_priority(&self, hashes: &Hashes) -> (op: Operation)
        ensures
            op@ == spec_post(
                "torrents/topPrio"@,
                text_field("hashes"@, hashes.text()),
                StatusRule::QueueingDisabled,
                Reading::Ignored,
            ),
    {
        let mut fields: Vec<(String, String)> = Vec::new();
        push_value(&mut fields, "hashes", hashes);
        Operation::post("torrents/topPrio", fields, StatusRule::QueueingDisabled, Reading::Ignored)
    }

    /// Moves torrents to the bottom of the queue.
    pub fn minimal_priority(&self, hashes: &Hashes) -> (op: Operation)
        ensures
            op@ == spec_post(
                "torrents/bottomPrio"@,
                text_field("hashes"@, hashes.text()),
                StatusRule::QueueingDisabled,
                Reading::Ignored,
            ),
    {
        let mut fields: Vec<(String, String)> = Vec::new();
        push_value(&mut fields, "hashes", hashes);
        Operation::post(
            "torrents/bottomPrio",
            fields,
            StatusRule::QueueingDisabled,
            Reading::Ignored,
        )
    }

    /// Sets the priority of files of a torrent.
    pub fn set_file_priority(
        &self,
        hash: &str,
        indexes: &Sep<i64, 124>,
        priority: Priority,
    ) -> (op: Operation)
        ensures
            op@ == spec_post(
                "torrents/filePrio"@,
                text_field("hash"@, hash@)
                    + text_field("id"@, indexes.text())
                    + text_field("priority"@, priority.text()),
                StatusRule::FilePriority,
                Reading::Ignored,
            ),
    {
        let mut fields: Vec<(String, String)> = Vec::new();
        push_text(&mut fields, "hash", hash.to_owned());
        push_value(&mut fields, "id", indexes);
        push_value(&mut fields, "priority", &priority);
        Operation::post("torrents/filePrio", fields, StatusRule::FilePriority, Reading::Ignored)
    }

    /// The download limits of torrents.
    pub fn get_torrent_download_limit(&self, hashes: &Hashes) -> (op: Operation)
        ensures
            op@ == spec_post(
                "torrents/downloadLimit"@,
                text_field("hashes"@, hashes.text()),
                StatusRule::Plain,
                Reading::Json,
            ),
    {
        let mut fields: Vec<(String, String)> = Vec::new();
        push_value(&mut fields, "hashes", hashes);
        Operation::post("torrents/downloadLimit", fields, StatusRule::Plain, Reading::Json)
    }

    /// Sets the download limit of torrents.
    pub fn set_torrent_download_limit(&self, hashes: &Hashes, limit: u64) -> (op: Operation)
        ensures
            op@ == spec_post(
                "torrents/downloadLimit"@,
                text_field("hashes"@, hashes.text()) + text_field("limit"@, limit.text()),
                StatusRule::Plain,
                Reading::End,
            ),
    {
        let mut fields: Vec<(String, String)> = Vec::new();
        push_value(&mut fields, "hashes", hashes);
        push_value(&mut fields, "limit", &limit);
        Operation::post("torrents/downloadLimit", fields, StatusRule::Plain, Reading::End)
    }

    /// Sets the share limits of torrents. The ratio limit is given as the text
    /// that is sent for it.
    pub fn set_torrent_shared_limit(
        &self,
        hashes: &Hashes,
        ratio_limit: Option<String>,
        seeding_time_limit: Option<SeedingTimeLimit>,
    ) -> (op: Operation)
        ensures
            op@ == spec_post(
                "torrents/setShareLimits"@,
                text_field("hashes"@, hashes.text())
                    + field("ratioLimit"@, ratio_limit)
                    + field("seedingTimeLimit"@, seeding_time_limit),
                StatusRule::Plain,
                Reading::End,
            ),
    {
        let mut fields: Vec<(String, String)> = Vec::new();
        push_value(&mut fields, "hashes", hashes);
        push_field(&mut fields, "ratioLimit", &ratio_limit);
        push_field(&mut fields, "seedingTimeLimit", &seeding_time_limit);
        Operation::post("torrents/setShareLimits", fields, StatusRule::Plain, Reading::End)
    }

    /// The upload limits of torrents.
    pub fn get_torrent_upload_limit(&self, hashes: &Hashes) -> (op: Operation)
        ensures
            op@ == spec_post(
                "torrents/uploadLimit"@,
                text_field("hashes"@, hashes.text()),
                StatusRule::Plain,
                Reading::Json,
            ),
    {
        let mut fields: Vec<(String, String)> = Vec::new();
        push_value(&mut fields, "hashes", hashes);
        Operation::post("torrents/uploadLimit", fields, StatusRule::Plain, Reading::Json)
    }

    /// Sets the upload limit of torrents.
    pub fn set_torrent_upload_limit(&self, hashes: &Hashes, limit: u64) -> (op: Operation)
        ensures
            op@ == spec_post(
                "torrents/uploadLimit"@,
                text_field("hashes"@, hashes.text()) + text_field("limit"@, limit.text()),
                StatusRule::Plain,
                Reading::End,
            ),
    {
        let mut fields: Vec<(String, String)> = Vec::new();
        push_value(&mut fields, "hashes", hashes);
        push_value(&mut fields, "limit", &limit);
        Operation::post("torrents/uploadLimit", fields, StatusRule::Plain, Reading::End)
    }

    /// Moves torrents to another directory.
    pub fn set_torrent_location(&self, hashes: &Hashes, location: &str) -> (op: Operation)
        ensures
            op@ == spec_post(
                "torrents/setLocation"@,
                text_field("hashes"@, hashes.text()) + text_field("location"@, location@),
                StatusRule::Location,
                Reading::End,
            ),
    {
        let mut fields: Vec<(String, String)> = Vec::new();
        push_value(&mut fields, "hashes", hashes);
        push_text(&mut fields, "location", location.to_owned());
        Operation::post("torrents/setLocation", fields, StatusRule::Location, Reading::End)
    }

    /// Renames a torrent.
    pub fn set_torrent_name<T: AsText>(&self, hash: &str, name: &NonEmptyStr<T>) -> (op: Operation)
        ensures
            op@ == spec_post(
                "torrents/rename"@,
                text_field("hash"@, hash@) + text_field("name"@, name.text()),
                StatusRule::Rename,
                Reading::End,
            ),
    {
        let mut fields: Vec<(String, String)> = Vec::new();
        push_text(&mut fields, "hash", hash.to_owned());
        push_text(&mut fields, "name", name.as_str().to_owned());
        Operation::post("torrents/rename", fields, StatusRule::Rename, Reading::End)
    }

    /// Puts torrents into a category.
    pub fn set_torrent_category(&self, hashes: &Hashes, category: &str) -> (op: Operation)
        ensures
            op@ == spec_post(
                "torrents/setCategory"@,
                text_field("hashes"@, hashes.text()) + text_field("category"@, category@),
                StatusRule::CategoryNotFound,
                Reading::End,
            ),
    {
        let mut fields: Vec<(String, String)> = Vec::new();
        push_value(&mut fields, "hashes", hashes);
        push_text(&mut fields, "category", category.to_owned());
        Operation::post("torrents/setCategory", fields, StatusRule::CategoryNotFound, Reading::End)
    }

    /// The categories.
    pub fn get_categories(&self) -> (op: Operation)
        ensures
            op@ == spec_get("torrents/categories"@, Reading::Json),
    {
        Operation::get("torrents/categories", Reading::Json)
    }

    /// Adds a category.
    pub fn add_category<T: AsText>(
        &self,
        category: &NonEmptyStr<T>,
        save_path: &str,
    ) -> (op: Operation)
        ensures
            op@ == spec_post(
                "torrents/createCategory"@,
                text_field("category"@, category.text()) + text_field("save_path"@, save_path@),
                StatusRule::Plain,
                Reading::End,
            ),
    {
        let mut fields: Vec<(String, String)> = Vec::new();
        push_text(&mut fields, "category", category.as_str().to_owned());
        push_text(&mut fields, "save_path", save_path.to_owned());
        Operation::post("torrents/createCategory", fields, StatusRule::Plain, Reading::End)
    }

    /// Changes the save path of a category.
    pub fn edit_category<T: AsText>(
        &self,
        category: &NonEmptyStr<T>,
        save_path: &str,
    ) -> (op: Operation)
        ensures
            op@ == spec_post(
                "torrents/createCategory"@,
                text_field("category"@, category.text()) + text_field("save_path"@, save_path@),
                StatusRule::CategoryEditingFailed,
                Reading::End,
            ),
    {
        let mut fields: Vec<(String, String)> = Vec::new();
        push_text(&mut fields, "category", category.as_str().to_owned());
        push_text(&mut fields, "save_path", save_path.to_owned());
        Operation::post(
            "torrents/createCategory",
            fields,
            StatusRule::CategoryEditingFailed,
            Reading::End,
        )
    }

    /// Removes categories.
    pub fn remove_categories(&self, categories: &Sep<String, 10>) -> (op: Operation)
        ensures
            op@ == spec_post(
                "torrents/removeCategories"@,
                text_field("categories"@, categories.text()),
                StatusRule::Plain,
                Reading::End,
            ),
    {
        let mut fields: Vec<(String, String)> = Vec::new();
        push_value(&mut fields, "categories", categories);
        Operation::post("torrents/removeCategories", fields, StatusRule::Plain, Reading::End)
    }

    /// Adds tags to torrents.
    pub fn add_torrent_tags(&self, hashes: &Hashes, tags: &Sep<String, 10>) -> (op: Operation)
        ensures
            op@ == spec_post(
                "torrents/addTags"@,
                text_field("hashes"@, hashes.text()) + text_field("tags"@, tags.text()),
                StatusRule::Plain,
                Reading::End,
            ),
    {
        let mut fields: Vec<(String, String)> = Vec::new();
        push_value(&mut fields, "hashes", hashes);
        push_value(&mut fields, "tags", tags);
        Operation::post("torrents/addTags", fields, StatusRule::Plain, Reading::End)
    }

    /// Removes tags from torrents, or all of them where none is given.
    pub fn remove_torrent_tags(
        &self,
        hashes: &Hashes,
        tags: Option<Sep<String, 44>>,
    ) -> (op: Operation)
        ensures
            op@ == spec_post(
                "torrents/removeTags"@,
                text_field("hashes"@, hashes.text()) + field("tags"@, tags),
                StatusRule::Plain,
                Reading::End,
            ),
    {
        let mut fields: Vec<(String, String)> = Vec::new();
        push_value(&mut fields, "hashes", hashes);
        push_field(&mut fields, "tags", &tags);
        Operation::post("torrents/removeTags", fields, StatusRule::Plain, Reading::End)
    }

    /// All tags.
    pub fn get_all_tags(&self) -> (op: Operation)
        ensures
            op@ == spec_get("torrents/tags"@, Reading::Json),
    {
        Operation::get("torrents/tags", Reading::Json)
    }

    /// Creates tags.
    pub fn create_tags(&self, tags: &Sep<String, 44>) -> (op: Operation)
        ensures
            op@ == spec_post(
                "torrents/createTags"@,
                text_field("tags"@, tags.text()),
                StatusRule::Plain,
                Reading::End,
            ),
    {
        let mut fields: Vec<(String, String)> = Vec::new();
        push_value(&mut fields, "tags", tags);
        Operation::post("torrents/createTags", fields, StatusRule::Plain, Reading::End)
    }

    /// Deletes tags.
    pub fn delete_tags(&self, tags: &Sep<String, 44>) -> (op: Operation)
        ensures
            op@ == spec_post(
                "torrents/deleteTags"@,
                text_field("tags"@, tags.text()),
                StatusRule::Plain,
                Reading::End,
            ),
    {
        let mut fields: Vec<(String, String)> = Vec::new();
        push_value(&mut fields, "tags", tags);
        Operation::post("torrents/deleteTags", fields, StatusRule::Plain, Reading::End)
    }

    /// Switches the automatic management of torrents.
    pub fn set_auto_management(&self, hashes: &Hashes, enable: bool) -> (op: Operation)
        ensures
            op@ == spec_post(
                "torrents/setAutoManagement"@,
                text_field("hashes"@, hashes.text()) + text_field("enable"@, enable.text()),
                StatusRule::Plain,
                Reading::End,
            ),
    {
        let mut fields: Vec<(String, String)> = Vec::new();
        push_value(&mut fields, "hashes", hashes);
        push_value(&mut fields, "enable", &enable);
        Operation::post("torrents/setAutoManagement", fields, StatusRule::Plain, Reading::End)
    }

    /// Switches the sequential download of torrents.
    pub fn toggle_sequential_download(&self, hashes: &Hashes) -> (op: Operation)
        ensures
            op@ == spec_post(
                "torrents/toggleSequentialDownload"@,
                text_field("hashes"@, hashes.text()),
                StatusRule::Plain,
                Reading::End,
            ),
    {
        let mut fields: Vec<(String, String)> = Vec::new();
        push_value(&mut fields, "hashes", hashes);
        Operation::post(
            "torrents/toggleSequentialDownload",
            fields,
            StatusRule::Plain,
            Reading::End,
        )
    }

    /// Switches the priority of the first and last piece of torrents.
    pub fn toggle_first_last_piece_priority(&self, hashes: &Hashes) -> (op: Operation)
        ensures
            op@ == spec_post(
                "torrents/toggleFirstLastPiecePrio"@,
                text_field("hashes"@, hashes.text()),
                StatusRule::Plain,
                Reading::End,
            ),
    {
        let mut fields: Vec<(String, String)> = Vec::new();
        push_value(&mut fields, "hashes", hashes);
        Operation::post(
            "torrents/toggleFirstLastPiecePrio",
            fields,
            StatusRule::Plain,
            Reading::End,
        )
    }

    /// Switches the forced start of torrents.
    pub fn set_force_start(&self, hashes: &Hashes, value: bool) -> (op: Operation)
        ensures
            op@ == spec_post(
                "torrents/setForceStart"@,
                text_field("hashes"@, hashes.text()) + text_field("value"@, value.text()),
                StatusRule::Plain,
                Reading::End,
            ),
    {
        let mut fields: Vec<(String, String)> = Vec::new();
        push_value(&mut fields, "hashes", hashes);
        push_value(&mut fields, "value", &value);
        Operation::post("torrents/setForceStart", fields, StatusRule::Plain, Reading::End)
    }

    /// Switches the super seeding of torrents.
    pub fn set_super_seeding(&self, hashes: &Hashes, value: bool) -> (op: Operation)
        ensures
            op@ == spec_post(
                "torrents/setSuperSeeding"@,
                text_field("hashes"@, hashes.text()) + text_field("value"@, value.text()),
                StatusRule::Plain,
                Reading::End,
            ),
    {
        let mut fields: Vec<(String, String)> = Vec::new();
        push_value(&mut fields, "hashes", hashes);
        push_value(&mut fields, "value", &value);
        Operation::post("torrents/setSuperSeeding", fields, StatusRule::Plain, Reading::End)
    }

    /// Renames a file of a torrent.
    pub fn rename_file(&self, hash: &str, old_path: &str, new_path: &str) -> (op: Operation)
        ensures
            op@ == spec_post(
                "torrents/renameFile"@,
                text_field("hash"@, hash@)
                    + text_field("oldPath"@, old_path@)
                    + text_field("newPath"@, new_path@),
                StatusRule::InvalidPath,
                Reading::End,
            ),
    {
        let mut fields: Vec<(String, String)> = Vec::new();
        push_text(&mut fields, "hash", hash.to_owned());
        push_text(&mut fields, "oldPath", old_path.to_owned());
        push_text(&mut fields, "newPath", new_path.to_owned());
        Operation::post("torrents/renameFile", fields, StatusRule::InvalidPath, Reading::End)
    }

    /// Renames a folder of a torrent.
    pub fn rename_folder(&self, hash: &str, old_path: &str, new_path: &str) -> (op: Operation)
        ensures
            op@ == spec_post(
                "torrents/renameFolder"@,
                text_field("hash"@, hash@)
                    + text_field("oldPath"@, old_path@)
                    + text_field("newPath"@, new_path@),
                StatusRule::InvalidPath,
                Reading::End,
            ),
    {
        let mut fields: Vec<(String, String)> = Vec::new();
        push_text(&mut fields, "hash", hash.to_owned());
        push_text(&mut fields, "oldPath", old_path.to_owned());
        push_text(&mut fields, "newPath", new_path.to_owned());
        Operation::post("torrents/renameFolder", fields, StatusRule::InvalidPath, Reading::End)
    }
}

} // verus!
