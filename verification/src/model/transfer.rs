//! Global transfer figures.

use crate::text::same_text;
use vstd::prelude::*;

verus! {

#[derive(Debug, Clone, PartialEq, Eq)]
pub struct TransferInfo {
    /// Global download rate (bytes/s)
    pub dl_info_speed: u64,
    /// Data downloaded this session (bytes)
    pub dl_info_data: u64,
    /// Global upload rate (bytes/s)
    pub up_info_speed: u64,
    /// Data uploaded this session (bytes)
    pub up_info_data: u64,
    /// Download rate limit (bytes/s)
    pub dl_rate_limit: u64,
    /// Upload rate limit (bytes/s)
    pub up_rate_limit: u64,
    /// DHT nodes connected to
    pub dht_nodes: u64,
    /// Connection status. Possible values: connected, disconnected, firewalled
    pub connection_status: ConnectionStatus,
}

/// Connection status of the client.
#[derive(Debug, Clone, Copy, PartialEq, Eq, Structural)]
pub enum ConnectionStatus {
    /// Connected.
    Connected,
    /// Disconnected.
    Disconnected,
    /// Behind a firewall.
    Firewalled,
    /// Any status that the client does not know.
    Unknown,
}

impl ConnectionStatus {
    /// The name of the value on the wire.
    pub open spec fn spec_name(self) -> Seq<char> {
        match self {
            ConnectionStatus::Connected => "connected"@,
            ConnectionStatus::Disconnected => "disconnected"@,
            ConnectionStatus::Firewalled => "firewalled"@,
            ConnectionStatus::Unknown => "unknown"@,
        }
    }

    /// The value that a name on the wire stands for.
    pub open spec fn spec_from_name(name: Seq<char>) -> Option<ConnectionStatus> {
        if name == "connected"@ {
            Some(ConnectionStatus::Connected)
        } else if name == "disconnected"@ {
            Some(ConnectionStatus::Disconnected)
        } else if name == "firewalled"@ {
            Some(ConnectionStatus::Firewalled)
        } else {
            Some(ConnectionStatus::Unknown)
        }
    }

    /// The name of the value on the wire.
    pub fn name(&self) -> (s: &'static str)
        ensures
            s@ == self.spec_name(),
    {
        match self {
            ConnectionStatus::Connected => "connected",
            ConnectionStatus::Disconnected => "disconnected",
            ConnectionStatus::Firewalled => "firewalled",
            ConnectionStatus::Unknown => "unknown",
        }
    }

    /// Reads a name on the wire.
    pub fn from_name(name: &str) -> (r: Option<ConnectionStatus>)
        ensures
            r == Self::spec_from_name(name@),
    {
        if same_text(name, "connected") {
            Some(ConnectionStatus::Connected)
        } else if same_text(name, "disconnected") {
            Some(ConnectionStatus::Disconnected)
        } else if same_text(name, "firewalled") {
            Some(ConnectionStatus::Firewalled)
        } else {
            Some(ConnectionStatus::Unknown)
        }
    }

    /// A name that is read gives back the value that wrote it.
    pub proof fn lemma_name_round_trip(value: ConnectionStatus)
        ensures
            Self::spec_from_name(value.spec_name()) == Some(value),
    {
        // Two names differ in their length or in one of these characters.
        reveal_strlit("connected");
        assert("connected"@.len() == 9);
        reveal_strlit("disconnected");
        assert("disconnected"@.len() == 12);
        reveal_strlit("firewalled");
        assert("firewalled"@.len() == 10);
        reveal_strlit("unknown");
        assert("unknown"@.len() == 7);
    }
}

} // verus!
