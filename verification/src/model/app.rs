//! Application figures and preferences.

use vstd::prelude::*;

verus! {

#[derive(Debug, Clone, PartialEq, Eq)]
pub struct BuildInfo {
    /// QT version
    pub qt: String,
    /// libtorrent version
    pub libtorrent: String,
    /// Boost version
    pub boost: String,
    /// OpenSSL version
    pub openssl: String,
    /// Application bitness (e.g. 64-bit)
    pub bitness: i8,
}

/// Where the torrents of a watched directory are downloaded to.
///
/// Value                       | Description
/// ----------------------------|------------
/// `0`                         | Download to the monitored folder
/// `1`                         | Download to the default save path
/// `"/path/to/download/to"`    | Download to this path
#[derive(Debug, Clone, PartialEq, Eq)]
pub enum ScanDirValue {
    MonitoredFolder,
    DefaultSavingPath,
    Path(String),
}

/// What a scan directory value is on the wire: a number or a path.
pub enum ScanDirWire {
    Number(i64),
    Text(Seq<char>),
}

impl ScanDirValue {
    /// What the value is written as.
    pub open spec fn wire(self) -> ScanDirWire {
        match self {
            ScanDirValue::MonitoredFolder => ScanDirWire::Number(0),
            ScanDirValue::DefaultSavingPath => ScanDirWire::Number(1),
            ScanDirValue::Path(path) => ScanDirWire::Text(path@),
        }
    }

    /// The number that the value is written as, for the two values that
    /// are numbers.
    pub fn number(&self) -> (n: Option<i64>)
        ensures
            match self.wire() {
                ScanDirWire::Number(k) => n == Some(k),
                ScanDirWire::Text(_) => n is None,
            },
    {
        match self {
            ScanDirValue::MonitoredFolder => Some(0),
            ScanDirValue::DefaultSavingPath => Some(1),
            ScanDirValue::Path(_) => None,
        }
    }

    /// Reads a number: `0` and `1` are values, every other number is none.
    pub fn visit_i64(v: i64) -> (r: Option<Self>)
        ensures
            v == 0 ==> r == Some(ScanDirValue::MonitoredFolder),
            v == 1 ==> r == Some(ScanDirValue::DefaultSavingPath),
            v != 0 && v != 1 ==> r is None,
    {
        if v == 0 {
            Some(ScanDirValue::MonitoredFolder)
        } else if v == 1 {
            Some(ScanDirValue::DefaultSavingPath)
        } else {
            None
        }
    }

    /// Reads a text: every text is a path.
    pub fn visit_str(v: &str) -> (r: Self)
        ensures
            r.wire() == ScanDirWire::Text(v@),
    {
        ScanDirValue::Path(v.to_owned())
    }
}

} // verus!
