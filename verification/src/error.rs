//! The failures that the pipeline reports.

use vstd::prelude::*;
use vstd::string::StringExecFns;

verus! {

/// A fatal failure of one stage. The variants that wrap a failure of a
/// collaborator carry its message as text.
#[derive(Debug, PartialEq, Eq)]
pub enum Error {
    /// A request to the download agent failed.
    ReqErr(String),
    /// A response header was not text.
    ToStringError(String),
    /// A response body was not the JSON that was expected.
    SerdeJson(String),
    /// A request URL could not be encoded.
    SerdeUrl(String),
    /// A header value was malformed.
    HeaderError(String),
    /// The login response carried no `set-cookie` header.
    MissingHeaders,
    /// The `set-cookie` header held no `;`, so no session id.
    MissingCookie,
    /// The session id could not be cut out of the cookie.
    SliceError,
    /// The pack holds no file.
    NothingToLeech,
    /// The download agent knows no job for the hash.
    QbitEmptyTorrentInfo,
    /// The job stayed in an error, missing-files, paused or unknown state.
    QbitTorrentErrored,
    /// The upload tool's diagnostic stream could not be captured.
    RcloneStderrCaptureError,
    /// The upload tool could not be started, or failed.
    CommandSpawningError(String),
    /// A file is larger than the chunk budget and skipping is not allowed.
    MaxSizeAllowedTooSmall,
    /// The percentage of free disk space is not in 0..=100.
    InvalidMaxSizePercentage,
    /// The job entered a state that only occurs when the agent starts.
    QbitTorrentUnimplementedState,
    /// The configured download agent is not supported.
    UnsupportedTorrentClient,
    /// The mount path for seeding does not exist.
    MountPathNotExist,
    /// The configured upload tool is not supported.
    UnsupportedRcloneVariant,
    /// The input is neither a file, a URL nor a magnet link.
    RplInvalidInput,
    /// No save path is configured.
    SavePathEmptyError,
    /// Neither a save path nor a remote path is configured.
    SaveRemoteEmptyError,
    /// No remote path is configured.
    RemotePathEmptyError,
    /// The free disk space under the save path could not be read.
    DiskSpaceReadError,
}

impl Error {
    /// What the failure is, in words.
    pub open spec fn message_text(self) -> Seq<char> {
        match self {
            Error::ReqErr(cause) => "Request Error when talking to qbittorrent: "@ + cause@,
            Error::ToStringError(cause) => "Could not convert reqwest header to string: "@ + cause@,
            Error::SerdeJson(cause) => "Serde json could not correctly deserialize: "@ + cause@,
            Error::SerdeUrl(cause) => "Serde_urlencoded could not serialize the url: "@ + cause@,
            Error::HeaderError(cause) => "Header value was malformed: "@ + cause@,
            Error::CommandSpawningError(cause) => "Command io spawning error: "@ + cause@,
            Error::MissingHeaders => "Header value was not correctly set"@,
            Error::MissingCookie => "Cookie value was not correctly set"@,
            Error::SliceError => "Could not slice off SID from returned cookie"@,
            Error::NothingToLeech => "There is nothing in the pack to leech"@,
            Error::QbitEmptyTorrentInfo => "qBittorrent returned nothing for the hash provided"@,
            Error::QbitTorrentErrored => "qBittorrent client: The torrent has encountered an unexpected error"@,
            Error::RcloneStderrCaptureError => "Unexpected rclone stderr capture error encountered"@,
            Error::MaxSizeAllowedTooSmall => "File size in pack is larger than maximum allowed size"@,
            Error::InvalidMaxSizePercentage => "Invalid max_size_percentage, allowed value are 0-100"@,
            Error::QbitTorrentUnimplementedState => "qBittorrent client: The torrent has entered unimplemented state!"@,
            Error::UnsupportedTorrentClient => "Config error: Unsupported torrent client"@,
            Error::MountPathNotExist => "Config error: mount path does not exist"@,
            Error::UnsupportedRcloneVariant => "Config error: Unsupported rclone variant (only rclone/fclone/gclone/xclone is supported)"@,
            Error::RplInvalidInput => "Input error: rpl could not parse the input (only torrent file, url link and magnet link are supported)"@,
            Error::SavePathEmptyError => "Config error: save_path cannot be empty"@,
            Error::SaveRemoteEmptyError => "Config error: save_path and remote_path in config file cannot be empty"@,
            Error::RemotePathEmptyError => "Config error: remote_path cannot be empty"@,
            Error::DiskSpaceReadError => "Config error: could not read available disk space from save_path"@,
        }
    }

    /// What the failure is, in words.
    pub fn message(&self) -> (text: String)
        ensures
            text@ == self.message_text(),
    {
        match self {
            Error::ReqErr(cause) => String::from_str("Request Error when talking to qbittorrent: ").concat(cause.as_str()),
            Error::ToStringError(cause) => String::from_str("Could not convert reqwest header to string: ").concat(cause.as_str()),
            Error::SerdeJson(cause) => String::from_str("Serde json could not correctly deserialize: ").concat(cause.as_str()),
            Error::SerdeUrl(cause) => String::from_str("Serde_urlencoded could not serialize the url: ").concat(cause.as_str()),
            Error::HeaderError(cause) => String::from_str("Header value was malformed: ").concat(cause.as_str()),
            Error::CommandSpawningError(cause) => String::from_str("Command io spawning error: ").concat(cause.as_str()),
            Error::MissingHeaders => String::from_str("Header value was not correctly set"),
            Error::MissingCookie => String::from_str("Cookie value was not correctly set"),
            Error::SliceError => String::from_str("Could not slice off SID from returned cookie"),
            Error::NothingToLeech => String::from_str("There is nothing in the pack to leech"),
            Error::QbitEmptyTorrentInfo => String::from_str("qBittorrent returned nothing for the hash provided"),
            Error::QbitTorrentErrored => String::from_str("qBittorrent client: The torrent has encountered an unexpected error"),
            Error::RcloneStderrCaptureError => String::from_str("Unexpected rclone stderr capture error encountered"),
            Error::MaxSizeAllowedTooSmall => String::from_str("File size in pack is larger than maximum allowed size"),
            Error::InvalidMaxSizePercentage => String::from_str("Invalid max_size_percentage, allowed value are 0-100"),
            Error::QbitTorrentUnimplementedState => String::from_str("qBittorrent client: The torrent has entered unimplemented state!"),
            Error::UnsupportedTorrentClient => String::from_str("Config error: Unsupported torrent client"),
            Error::MountPathNotExist => String::from_str("Config error: mount path does not exist"),
            Error::UnsupportedRcloneVariant => String::from_str("Config error: Unsupported rclone variant (only rclone/fclone/gclone/xclone is supported)"),
            Error::RplInvalidInput => String::from_str("Input error: rpl could not parse the input (only torrent file, url link and magnet link are supported)"),
            Error::SavePathEmptyError => String::from_str("Config error: save_path cannot be empty"),
            Error::SaveRemoteEmptyError => String::from_str("Config error: save_path and remote_path in config file cannot be empty"),
            Error::RemotePathEmptyError => String::from_str("Config error: remote_path cannot be empty"),
            Error::DiskSpaceReadError => String::from_str("Config error: could not read available disk space from save_path"),
        }
    }
}

} // verus!
