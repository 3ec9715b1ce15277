//! The server's configuration, as read from `config.toml`.
use vstd::prelude::*;

verus! {

/// Where and how the server logs.
pub struct Log {
    /// Directory of the log files.
    pub dir: String,
    /// Prefix of the log file names.
    pub prefix: String,
    /// Offset of the log timer from UTC: hours, minutes, seconds.
    pub utcoffset: [i8; 3],
    /// One of `trace`, `debug`, `info`, `warn`, `error`.
    pub level: String,
}

/// Where the certificate and key for HTTP/3 are.
pub struct Http3 {
    pub dir: String,
    pub cert_file_name: String,
    pub key_file_name: String,
}

/// A database: the name it is looked up by and its connection URL.
pub struct Database {
    pub name: String,
    pub protocol: String,
}

/// The whole configuration of the server.
pub struct Config {
    /// The address to listen on.
    pub host: String,
    /// The directory of the static files.
    pub pub_dir: String,
    pub log: Log,
    /// The path under which every route is mounted; empty for none.
    pub route_root: String,
    /// The key tokens are signed with.
    pub secret_key: String,
    /// Whether a directory of static files without an index is listed.
    pub assets_listing: bool,
    pub database: Option<Vec<Database>>,
}

} // verus!
