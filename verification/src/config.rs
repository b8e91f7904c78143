//! The settings of a run: what the configuration file holds, what the
//! command line overrides, and what results from both.

use crate::error::Error;
use crate::leech::SeedSettings;
use crate::text::{contains, occurs_in};
use crate::torrent_parser::Pack;
use vstd::prelude::*;
use vstd::string::{StrSliceExecFns, StringExecFns};

verus! {

/// The size in bytes that `parse_size` reads out of a text such as
/// `5 GiB`, if it reads one.
pub uninterp spec fn parsed_size(text: Seq<char>) -> Option<u64>;

/// The longest text that is read as a size, in characters.
pub const MAX_SIZE_TEXT: usize = 20;

/// `parse_size::parse_size`: the number of bytes that a text such as
/// `5 GiB` stands for, or nothing if the text is no size. The result
/// depends on the text alone. Only short texts are handed over: on a
/// number of more than 20 digits the parser may overflow its counters.
#[verifier::external_body]
fn read_size(text: &str) -> (size: Option<u64>)
    requires
        text@.len() <= MAX_SIZE_TEXT,
    ensures
        size == parsed_size(text@),
{
    parse_size::parse_size(text).ok()
}

/// The size in bytes that a text stands for. A text of more than
/// `MAX_SIZE_TEXT` characters is no size.
pub open spec fn size_of_text(text: Seq<char>) -> Option<u64> {
    if text.len() <= MAX_SIZE_TEXT {
        parsed_size(text)
    } else {
        None
    }
}

/// The size in bytes that a text such as `5 GiB` stands for, if it is one.
pub fn size_from_text(text: &str) -> (size: Option<u64>)
    ensures
        size == size_of_text(text@),
{
    if text.unicode_len() <= MAX_SIZE_TEXT {
        read_size(text)
    } else {
        None
    }
}

/// Whether `url::Url::parse` accepts a text as an absolute URL.
pub uninterp spec fn parses_as_url(text: Seq<char>) -> bool;

/// `url::Url::parse`, asked only whether it succeeds. The answer depends
/// on the text alone.
#[verifier::external_body]
fn is_url(text: &str) -> (accepted: bool)
    ensures
        accepted == parses_as_url(text@),
{
    url::Url::parse(text).is_ok()
}

/// What the first group of the regular expression `pattern` captures in
/// `text`, if the expression is valid and matches.
pub uninterp spec fn first_capture(pattern: Seq<char>, text: Seq<char>) -> Option<Seq<char>>;

/// `regex::Regex::new` and `Regex::captures`: the text of group 1 of the
/// leftmost match of `pattern` in `text`. Nothing if the pattern is not
/// valid, if it does not match, or if the group took no part in the match.
/// The result depends on the two texts alone.
#[verifier::external_body]
fn capture_first(pattern: &str, text: &str) -> (captured: Option<String>)
    ensures
        match first_capture(pattern@, text@) {
            Some(found) => captured is Some && captured.unwrap()@ == found,
            None => captured is None,
        },
{
    let expression = regex::Regex::new(pattern).ok()?;
    let captures = expression.captures(text)?;
    captures.get(1).map(|group| group.as_str().to_owned())
}

/// Whether `text` is exactly `word`.
pub fn is_word(text: &str, word: &str) -> (same: bool)
    ensures
        same == (text@ == word@),
{
    String::from_str(text) == String::from_str(word)
}

/// The section of the configuration file on the run itself.
#[derive(Debug)]
pub struct RplConfig {
    /// The percentage of the free disk space to use as chunk budget, 0 to
    /// use `max_size` instead.
    pub max_size_percentage: u8,
    /// The chunk budget, as a text such as `5 GiB`.
    pub max_size: String,
    pub torrent_client: String,
    pub upload_client: String,
    pub save_path: String,
    pub remote_path: String,
    pub ignore_warning: bool,
}

/// The settings that a run works with.
#[derive(Debug)]
pub struct RplRunningConfig {
    /// The chunk budget in bytes.
    pub max_size: u64,
    pub upload_client: String,
    pub save_path: String,
    pub remote_path: String,
    pub ignore_warning: bool,
}

impl RplRunningConfig {
    pub fn new(
        max_size: u64,
        upload_client: String,
        save_path: String,
        remote_path: String,
        ignore_warning: bool,
    ) -> (config: Self)
        ensures
            config.max_size == max_size,
            config.upload_client == upload_client,
            config.save_path == save_path,
            config.remote_path == remote_path,
            config.ignore_warning == ignore_warning,
    {
        Self { max_size, upload_client, save_path, remote_path, ignore_warning }
    }
}

/// How the download agent is reached, and the limits of the jobs.
#[derive(Debug)]
pub struct RplQbitConfig {
    pub username: String,
    pub password: String,
    pub address: String,
    pub upload_limit: i64,
    pub download_limit: i64,
}

impl RplQbitConfig {
    pub fn new(
        username: String,
        password: String,
        address: String,
        upload_limit: i64,
        download_limit: i64,
    ) -> (config: Self)
        ensures
            config.username == username,
            config.password == password,
            config.address == address,
            config.upload_limit == upload_limit,
            config.download_limit == download_limit,
    {
        Self { username, password, address, upload_limit, download_limit }
    }
}

/// How the upload tool is run.
#[derive(Debug)]
pub struct RplRcloneConfig {
    pub transfers: u16,
    pub drive_chunk_size: u16,
    pub extra_custom_flags: Vec<String>,
}

impl RplRcloneConfig {
    pub fn new(transfers: u16, drive_chunk_size: u16, extra_custom_flags: Vec<String>) -> (config:
        Self)
        ensures
            config.transfers == transfers,
            config.drive_chunk_size == drive_chunk_size,
            config.extra_custom_flags == extra_custom_flags,
    {
        Self { transfers, drive_chunk_size, extra_custom_flags }
    }
}

/// The configuration file.
pub struct Config {
    pub rpl: RplConfig,
    pub qbittorrent: RplQbitConfig,
    pub seed_settings: SeedSettings,
    pub rclone: RplRcloneConfig,
}

/// Whether a percentage of the free disk space is the chunk budget: not for
/// 0, for 1 to 100, and an error above.
pub open spec fn percentage_outcome(percentage: int) -> Result<bool, Error> {
    if percentage == 0 {
        Ok(false)
    } else if 0 < percentage <= 100 {
        Ok(true)
    } else {
        Err(Error::InvalidMaxSizePercentage)
    }
}

impl Config {
    /// Whether no remote path is configured.
    pub fn remote_path_invalid(&self) -> (invalid: bool)
        ensures
            invalid == (self.rpl.remote_path@.len() == 0),
    {
        self.rpl.remote_path.as_str().is_empty()
    }

    /// Whether no save path is configured.
    pub fn save_path_is_empty(&self) -> (empty: bool)
        ensures
            empty == (self.rpl.save_path@.len() == 0),
    {
        self.rpl.save_path.as_str().is_empty()
    }

    /// Whether the chunk budget is a percentage of the free disk space.
    pub fn max_size_percentage_used(&self) -> (used: Result<bool, Error>)
        ensures
            used == percentage_outcome(self.rpl.max_size_percentage as int),
    {
        let percentage = self.rpl.max_size_percentage;
        if percentage == 0 {
            Ok(false)
        } else if percentage <= 100 {
            Ok(true)
        } else {
            Err(Error::InvalidMaxSizePercentage)
        }
    }
}

/// `percent` hundredths of `space`, rounded down.
pub fn percentage_of(space: u64, percent: u64) -> (part: u64)
    requires
        percent <= 100,
    ensures
        part == space * percent / 100,
{
    let whole: u64 = space / 100;
    let rest: u64 = space % 100;
    assert(space * percent / 100 == whole * percent + rest * percent / 100) by (nonlinear_arith)
        requires
            space == whole * 100 + rest,
            0 <= rest < 100,
            0 <= percent <= 100,
    ;
    assert(whole * percent <= space) by (nonlinear_arith)
        requires
            space == whole * 100 + rest,
            0 <= rest,
            0 <= percent <= 100,
            0 <= whole,
    ;
    assert(whole * percent + rest * percent / 100 <= space) by (nonlinear_arith)
        requires
            space == whole * 100 + rest,
            0 <= rest < 100,
            0 <= percent <= 100,
            0 <= whole,
    ;
    assert(rest * percent <= 9900) by (nonlinear_arith)
        requires
            0 <= rest < 100,
            0 <= percent <= 100,
    ;
    whole * percent + rest * percent / 100
}

/// What the command line sets in place of the configuration file.
#[derive(Debug)]
pub struct Overrides {
    pub torrent_client: Option<String>,
    pub upload_client: Option<String>,
    pub max_size_percentage: Option<u64>,
    pub max_size: Option<String>,
    pub remote_path: Option<String>,
    pub ignore_warning: bool,
}

/// The text that is in force: that of the command line, else that of the
/// file.
pub open spec fn in_force(given: Option<String>, file: String) -> Seq<char> {
    match given {
        Some(text) => text@,
        None => file@,
    }
}

fn chosen<'a>(given: &'a Option<String>, file: &'a String) -> (text: &'a str)
    ensures
        text@ == in_force(*given, *file),
{
    match given {
        Some(text) => text.as_str(),
        None => file.as_str(),
    }
}

/// Whether an upload tool of this name is supported.
pub open spec fn supported_upload_client(name: Seq<char>) -> bool {
    name == "rclone"@ || name == "fclone"@ || name == "gclone"@ || name == "xclone"@
}

/// The upload tool to use, once both clients are found to be supported.
pub open spec fn clients_outcome(torrent_client: Seq<char>, upload_client: Seq<char>) -> Result<
    Seq<char>,
    Error,
> {
    if torrent_client != "qbittorrent"@ {
        Err(Error::UnsupportedTorrentClient)
    } else if !supported_upload_client(upload_client) {
        Err(Error::UnsupportedRcloneVariant)
    } else {
        Ok(upload_client)
    }
}

/// Checks the download agent and the upload tool that are in force, and
/// gives the name of the upload tool.
pub fn check_clients(file: &RplConfig, given: &Overrides) -> (client: Result<String, Error>)
    ensures
        match clients_outcome(
            in_force(given.torrent_client, file.torrent_client),
            in_force(given.upload_client, file.upload_client),
        ) {
            Ok(name) => client is Ok && client.unwrap()@ == name,
            Err(e) => client == Err::<String, Error>(e),
        },
{
    let torrent_client = chosen(&given.torrent_client, &file.torrent_client);
    if !is_word(torrent_client, "qbittorrent") {
        return Err(Error::UnsupportedTorrentClient);
    }
    let upload_client = chosen(&given.upload_client, &file.upload_client);
    if is_word(upload_client, "rclone") || is_word(upload_client, "fclone") || is_word(
        upload_client,
        "gclone",
    ) || is_word(upload_client, "xclone") {
        Ok(String::from_str(upload_client))
    } else {
        Err(Error::UnsupportedRcloneVariant)
    }
}

/// The chunk budget in bytes, given the free disk space. A percentage on
/// the command line comes first, then a size on the command line, then a
/// percentage in the file, then the size in the file. `Ok(None)` stands
/// for a size that is no size.
pub open spec fn budget_outcome(
    file_percentage: int,
    file_size: Seq<char>,
    given_percentage: Option<u64>,
    given_size: Option<Seq<char>>,
    space: int,
) -> Result<Option<u64>, Error> {
    match given_percentage {
        Some(percent) => if 0 < percent <= 100 {
            Ok(Some((space * percent / 100) as u64))
        } else {
            Err(Error::InvalidMaxSizePercentage)
        },
        None => match given_size {
            Some(size) => Ok(size_of_text(size)),
            None => match percentage_outcome(file_percentage) {
                Err(e) => Err(e),
                Ok(true) => Ok(Some((space * file_percentage / 100) as u64)),
                Ok(false) => Ok(size_of_text(file_size)),
            },
        },
    }
}

/// The chunk budget in bytes that is in force, given the free disk space
/// under the save path.
pub fn max_size_allowed(file_config: &Config, given: &Overrides, space: u64) -> (budget: Result<
    Option<u64>,
    Error,
>)
    ensures
        budget == budget_outcome(
            file_config.rpl.max_size_percentage as int,
            file_config.rpl.max_size@,
            given.max_size_percentage,
            match given.max_size {
                Some(size) => Some(size@),
                None => None,
            },
            space as int,
        ),
{
    match given.max_size_percentage {
        Some(percent) => {
            if percent > 0 && percent <= 100 {
                Ok(Some(percentage_of(space, percent)))
            } else {
                Err(Error::InvalidMaxSizePercentage)
            }
        },
        None => match &given.max_size {
            Some(size) => Ok(size_from_text(size.as_str())),
            None => match file_config.max_size_percentage_used() {
                Err(e) => Err(e),
                Ok(true) => Ok(
                    Some(percentage_of(space, file_config.rpl.max_size_percentage as u64)),
                ),
                Ok(false) => Ok(size_from_text(file_config.rpl.max_size.as_str())),
            },
        },
    }
}

/// The remote path that is in force: that of the command line, else that of
/// the file, which must not be empty.
pub fn remote_path_in_force(file_config: &Config, given: &Overrides) -> (path: Result<
    String,
    Error,
>)
    ensures
        given.remote_path is None && file_config.rpl.remote_path@.len() == 0 ==> path == Err::<
            String,
            Error,
        >(Error::RemotePathEmptyError),
        !(given.remote_path is None && file_config.rpl.remote_path@.len() == 0) ==> path is Ok
            && path.unwrap()@ == in_force(given.remote_path, file_config.rpl.remote_path),
{
    match &given.remote_path {
        Some(path) => Ok(path.clone()),
        None => {
            if file_config.remote_path_invalid() {
                Err(Error::RemotePathEmptyError)
            } else {
                Ok(file_config.rpl.remote_path.clone())
            }
        },
    }
}

/// Whether files over the budget are skipped: if the command line or the
/// file says so.
pub fn ignore_warning_in_force(file_config: &Config, given: &Overrides) -> (ignore: bool)
    ensures
        ignore == (given.ignore_warning || file_config.rpl.ignore_warning),
{
    given.ignore_warning || file_config.rpl.ignore_warning
}

/// Whether the pack can be moved under the budget: not if its largest file
/// is over the budget and such files may not be skipped.
pub fn check_max_size_requirements(pack: &Pack, max_size: i64, ignore_warning: bool) -> (checked:
    Result<(), Error>)
    requires
        pack@.entries().len() > 0,
    ensures
        checked is Err <==> !ignore_warning && crate::plan::has_oversize(
            pack@.entries(),
            max_size as int,
        ),
        checked is Err ==> checked == Err::<(), Error>(Error::MaxSizeAllowedTooSmall),
{
    let largest = pack.largest_filesize();
    if largest > max_size && !ignore_warning {
        Err(Error::MaxSizeAllowedTooSmall)
    } else {
        Ok(())
    }
}

/// What kind of input names the pack.
#[derive(Debug, Clone, Copy, PartialEq, Eq, Structural)]
pub enum RplInputType {
    /// The path of a torrent file.
    NormalPath,
    /// The URL of a torrent file.
    UrlLink,
    /// A magnet link.
    MagnetString,
}

/// The bytes of a torrent file and where they came from.
#[derive(Debug)]
pub struct TorrentInput {
    pub raw_data: Vec<u8>,
    pub input_type: RplInputType,
}

impl TorrentInput {
    pub fn new(raw_data: Vec<u8>, input_type: RplInputType) -> (input: Self)
        ensures
            input.raw_data == raw_data,
            input.input_type == input_type,
    {
        Self { raw_data, input_type }
    }
}

/// The kind of an input, given whether a file of that name exists and
/// whether it is a URL: a path if the file exists, else a URL if it is one,
/// else a magnet link if it holds `magnet`.
pub open spec fn kind_among(input: Seq<char>, path_exists: bool, url: bool) -> Result<
    RplInputType,
    Error,
> {
    if path_exists {
        Ok(RplInputType::NormalPath)
    } else if url {
        Ok(RplInputType::UrlLink)
    } else if occurs_in(input, "magnet"@) {
        Ok(RplInputType::MagnetString)
    } else {
        Err(Error::RplInvalidInput)
    }
}

/// The kind of an input: a path if a file of that name exists, else a URL
/// if it parses as one, else a magnet link if it holds `magnet`.
pub open spec fn input_kind(input: Seq<char>, path_exists: bool) -> Result<RplInputType, Error> {
    kind_among(input, path_exists, parses_as_url(input))
}

/// The kind of the input `input`; `path_exists` says whether a file of
/// that name exists, and `url` whether the input is a URL.
pub fn kind_of_input(input: &str, path_exists: bool, url: bool) -> (kind: Result<
    RplInputType,
    Error,
>)
    ensures
        kind == kind_among(input@, path_exists, url),
{
    if path_exists {
        Ok(RplInputType::NormalPath)
    } else if url {
        Ok(RplInputType::UrlLink)
    } else if contains(input, "magnet") {
        Ok(RplInputType::MagnetString)
    } else {
        Err(Error::RplInvalidInput)
    }
}

/// The kind of the input `input`; `path_exists` says whether a file of
/// that name exists.
pub fn classify_input(input: &str, path_exists: bool) -> (kind: Result<RplInputType, Error>)
    ensures
        kind == input_kind(input@, path_exists),
{
    if path_exists {
        Ok(RplInputType::NormalPath)
    } else {
        kind_of_input(input, false, is_url(input))
    }
}

/// Where the torrent file of a magnet link is, as the service that
/// resolves magnet links names it in its answer.
pub fn torrent_location(answer: &str) -> (location: Option<String>)
    ensures
        match first_capture("^(https://itorrents.org/torrent/.*.torrent)<"@, answer@) {
            Some(found) => location is Some && location.unwrap()@ == found,
            None => location is None,
        },
{
    capture_first("^(https://itorrents.org/torrent/.*.torrent)<", answer)
}

} // verus!
