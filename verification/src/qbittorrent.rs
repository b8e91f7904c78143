//! The download agent: the states it reports for a job, the settings that a
//! job is added with, and the requests that are sent to it.

use crate::error::Error;
use crate::plan::{
    count_in, has_outside, lemma_outside_text_is_empty, outside_text, FileEntry,
};
use crate::queue::{job_of, lemma_count_grows, lemma_first_file, Job};
use crate::text::{chars_of, decimal, decimal_text, lemma_decimal_is_not_empty, push_decimal};
use crate::RplPackConfig;
use lava_torrent::torrent::v1::Torrent;
use vstd::prelude::*;
use vstd::string::{StrSliceExecFns, StringExecFns};

verus! {

/// The state that the download agent reports for a job.
#[derive(Debug, Clone, Copy, PartialEq, Eq, Structural)]
pub enum State {
    Error,
    MissingFiles,
    Uploading,
    PausedUP,
    QueuedUP,
    StalledUP,
    CheckingUP,
    ForcedUP,
    Allocating,
    Downloading,
    MetaDL,
    PausedDL,
    QueuedDL,
    StalledDL,
    CheckingDL,
    ForceDL,
    CheckingResumeData,
    Moving,
    Unknown,
}

/// What the pipeline does about a reported state.
#[derive(Debug, Clone, Copy, PartialEq, Eq, Structural)]
pub enum Handling {
    /// The download is under way: show its progress and keep polling.
    Progress,
    /// The agent is preparing or moving data: show that and keep polling.
    Busy,
    /// The job is paused or in no known state: one recovery, then a recheck.
    Stuck,
    /// The job reports an error or missing files: a bounded number of retries.
    Faulty,
    /// The download is complete: the chunk is ready to upload.
    Complete,
    /// A state that only occurs while the agent starts.
    Unexpected,
}

impl State {
    /// How each state is handled.
    pub open spec fn handling(self) -> Handling {
        match self {
            State::Downloading
            | State::StalledDL
            | State::QueuedDL
            | State::ForceDL
            | State::CheckingDL => Handling::Progress,
            State::Allocating | State::MetaDL | State::Moving => Handling::Busy,
            State::PausedDL | State::Unknown => Handling::Stuck,
            State::Error | State::MissingFiles => Handling::Faulty,
            State::Uploading
            | State::PausedUP
            | State::QueuedUP
            | State::StalledUP
            | State::ForcedUP
            | State::CheckingUP => Handling::Complete,
            State::CheckingResumeData => Handling::Unexpected,
        }
    }

    /// How this state is handled.
    pub fn classify(&self) -> (handling: Handling)
        ensures
            handling == self.handling(),
    {
        match self {
            State::Downloading
            | State::StalledDL
            | State::QueuedDL
            | State::ForceDL
            | State::CheckingDL => Handling::Progress,
            State::Allocating | State::MetaDL | State::Moving => Handling::Busy,
            State::PausedDL | State::Unknown => Handling::Stuck,
            State::Error | State::MissingFiles => Handling::Faulty,
            State::Uploading
            | State::PausedUP
            | State::QueuedUP
            | State::StalledUP
            | State::ForcedUP
            | State::CheckingUP => Handling::Complete,
            State::CheckingResumeData => Handling::Unexpected,
        }
    }
}

/// What the agent reports for a job, as far as the pipeline reads it.
#[derive(Debug, Clone, Copy, PartialEq, Eq, Structural)]
pub struct QbitTorrentInfo {
    amount_left: i64,
    total_size: i64,
    state: State,
}

impl QbitTorrentInfo {
    pub fn new(amount_left: i64, total_size: i64, state: State) -> (info: Self)
        ensures
            info.amount_left_spec() == amount_left,
            info.total_size_spec() == total_size,
            info.state_spec() == state,
    {
        Self { amount_left, total_size, state }
    }

    pub closed spec fn amount_left_spec(&self) -> i64 {
        self.amount_left
    }

    pub closed spec fn total_size_spec(&self) -> i64 {
        self.total_size
    }

    pub closed spec fn state_spec(&self) -> State {
        self.state
    }

    /// The bytes that are still to be downloaded.
    #[verifier::when_used_as_spec(amount_left_spec)]
    pub fn amount_left(&self) -> (left: i64)
        ensures
            left == self.amount_left_spec(),
    {
        self.amount_left
    }

    /// The bytes of the whole job.
    #[verifier::when_used_as_spec(total_size_spec)]
    pub fn total_size(&self) -> (size: i64)
        ensures
            size == self.total_size_spec(),
    {
        self.total_size
    }

    #[verifier::when_used_as_spec(state_spec)]
    pub fn state(&self) -> (state: State)
        ensures
            state == self.state_spec(),
    {
        self.state
    }
}

/// The torrent file of a torrent: the torrent in bencode, if it can be
/// encoded.
pub uninterp spec fn torrent_encoding(torrent: Torrent) -> Option<Seq<u8>>;

/// `Torrent::encode` of `lava_torrent`: the torrent as bencode, with the
/// keys of each dictionary in sorted order, or nothing if it reports an
/// error. The result depends on the torrent alone; that it succeeds is not
/// claimed.
#[verifier::external_body]
fn encode_torrent(torrent: Torrent) -> (bytes: Option<Vec<u8>>)
    ensures
        match torrent_encoding(torrent) {
            Some(encoded) => bytes is Some && bytes->Some_0@ == encoded,
            None => bytes is None,
        },
{
    torrent.encode().ok()
}

/// The settings of a job that is added to the download agent. A setting
/// that is `None` is left to the agent.
#[derive(Debug, Clone)]
pub struct QbitTorrent {
    urls: Option<String>,
    torrents: Option<Vec<u8>>,
    savepath: Option<String>,
    cookie: Option<String>,
    skip_checking: Option<String>,
    paused: Option<String>,
    root_folder: Option<String>,
    rename: Option<String>,
    upload_limit: Option<i64>,
    download_limit: Option<i64>,
}

/// The settings of a job as the contracts see them.
pub struct QbitTorrentSpec {
    pub urls: Option<Seq<char>>,
    pub torrents: Option<Seq<u8>>,
    pub savepath: Option<Seq<char>>,
    pub cookie: Option<Seq<char>>,
    pub skip_checking: Option<Seq<char>>,
    pub paused: Option<Seq<char>>,
    pub root_folder: Option<Seq<char>>,
    pub rename: Option<Seq<char>>,
    pub upload_limit: Option<int>,
    pub download_limit: Option<int>,
}

/// The view of a text that may be missing.
pub open spec fn text_view(text: Option<String>) -> Option<Seq<char>> {
    match text {
        Some(t) => Some(t@),
        None => None,
    }
}

/// The view of a number that may be missing.
pub open spec fn number_view(number: Option<i64>) -> Option<int> {
    match number {
        Some(n) => Some(n as int),
        None => None,
    }
}

impl View for QbitTorrent {
    type V = QbitTorrentSpec;

    closed spec fn view(&self) -> QbitTorrentSpec {
        QbitTorrentSpec {
            urls: text_view(self.urls),
            torrents: match self.torrents {
                Some(bytes) => Some(bytes@),
                None => None,
            },
            savepath: text_view(self.savepath),
            cookie: text_view(self.cookie),
            skip_checking: text_view(self.skip_checking),
            paused: text_view(self.paused),
            root_folder: text_view(self.root_folder),
            rename: text_view(self.rename),
            upload_limit: number_view(self.upload_limit),
            download_limit: number_view(self.download_limit),
        }
    }
}

/// The settings in which nothing is set.
pub open spec fn no_settings() -> QbitTorrentSpec {
    QbitTorrentSpec {
        urls: None,
        torrents: None,
        savepath: None,
        cookie: None,
        skip_checking: None,
        paused: None,
        root_folder: None,
        rename: None,
        upload_limit: None,
        download_limit: None,
    }
}

/// The text of a flag.
pub open spec fn flag_text(flag: bool) -> Seq<char> {
    if flag {
        "true"@
    } else {
        "false"@
    }
}

fn flag_string(flag: bool) -> (text: String)
    ensures
        text@ == flag_text(flag),
{
    if flag {
        String::from_str("true")
    } else {
        String::from_str("false")
    }
}

impl Default for QbitTorrent {
    fn default() -> (settings: Self)
        ensures
            settings@ == no_settings(),
    {
        Self {
            urls: None,
            torrents: None,
            savepath: None,
            cookie: None,
            skip_checking: None,
            paused: None,
            root_folder: None,
            rename: None,
            upload_limit: None,
            download_limit: None,
        }
    }
}

impl RplPackConfig for QbitTorrent {

}

impl QbitTorrent {
    /// Sets the torrent file to the bencode of `torrent`, and leaves every
    /// other setting as it is. `None` if the torrent cannot be encoded.
    pub fn torrents(self, torrent: Torrent) -> (result: Option<Self>)
        ensures
            result is Some <==> torrent_encoding(torrent) is Some,
            result matches Some(settings) ==> settings@ == (QbitTorrentSpec {
                torrents: torrent_encoding(torrent),
                ..self@
            }),
    {
        match encode_torrent(torrent) {
            Some(bytes) => Some(self.torrent_file(bytes)),
            None => None,
        }
    }

    /// Sets the torrent file to `bytes`.
    pub fn torrent_file(self, bytes: Vec<u8>) -> (settings: Self)
        ensures
            settings@ == (QbitTorrentSpec { torrents: Some(bytes@), ..self@ }),
    {
        let mut settings = self;
        settings.torrents = Some(bytes);
        settings
    }

    /// Sets the directory that the agent downloads into.
    pub fn save_path(self, path: String) -> (settings: Self)
        ensures
            settings@ == (QbitTorrentSpec { savepath: Some(path@), ..self@ }),
    {
        let mut settings = self;
        settings.savepath = Some(path);
        settings
    }

    /// Sets whether the agent takes the files on disk as good without
    /// checking their hashes.
    pub fn skip_hash_checking(self, skip: bool) -> (settings: Self)
        ensures
            settings@ == (QbitTorrentSpec { skip_checking: Some(flag_text(skip)), ..self@ }),
    {
        let mut settings = self;
        settings.skip_checking = Some(flag_string(skip));
        settings
    }

    /// Sets whether the job is added in the paused state.
    pub fn paused(self, paused: bool) -> (settings: Self)
        ensures
            settings@ == (QbitTorrentSpec { paused: Some(flag_text(paused)), ..self@ }),
    {
        let mut settings = self;
        settings.paused = Some(flag_string(paused));
        settings
    }

    /// Sets the upload limit in bytes per second; 0 is no limit.
    pub fn upload_limit(self, limit: i64) -> (settings: Self)
        ensures
            settings@ == (QbitTorrentSpec { upload_limit: Some(limit as int), ..self@ }),
    {
        let mut settings = self;
        settings.upload_limit = Some(limit);
        settings
    }

    /// Sets the download limit in bytes per second; 0 is no limit.
    pub fn download_limit(self, limit: i64) -> (settings: Self)
        ensures
            settings@ == (QbitTorrentSpec { download_limit: Some(limit as int), ..self@ }),
    {
        let mut settings = self;
        settings.download_limit = Some(limit);
        settings
    }

    /// The settings with which the whole pack is added again for seeding:
    /// these, with the files under `mount_path` taken as good.
    pub fn for_seeding(self, mount_path: String) -> (settings: Self)
        ensures
            settings@ == (QbitTorrentSpec {
                skip_checking: Some(flag_text(true)),
                savepath: Some(mount_path@),
                ..self@
            }),
    {
        self.skip_hash_checking(true).save_path(mount_path)
    }
}

/// The value of one field of a multipart form.
#[derive(Debug, PartialEq, Eq)]
pub enum FormValue {
    Text(String),
    File { bytes: Vec<u8>, file_name: String },
}

/// One field of a multipart form.
#[derive(Debug, PartialEq, Eq)]
pub struct FormPart {
    pub name: String,
    pub value: FormValue,
}

/// The value of a form field as the contracts see it.
pub enum FormValueSpec {
    Text(Seq<char>),
    File { bytes: Seq<u8>, file_name: Seq<char> },
}

/// A form field as the contracts see it.
pub struct FormPartSpec {
    pub name: Seq<char>,
    pub value: FormValueSpec,
}

impl View for FormPart {
    type V = FormPartSpec;

    open spec fn view(&self) -> FormPartSpec {
        FormPartSpec {
            name: self.name@,
            value: match self.value {
                FormValue::Text(text) => FormValueSpec::Text(text@),
                FormValue::File { bytes, file_name } => FormValueSpec::File {
                    bytes: bytes@,
                    file_name: file_name@,
                },
            },
        }
    }
}

/// The fields of a vector, each by its view.
pub open spec fn form_parts(parts: Seq<FormPart>) -> Seq<FormPartSpec> {
    Seq::new(parts.len(), |i: int| parts[i]@)
}

/// The text field `name`, if it has a value.
pub open spec fn text_part(name: Seq<char>, value: Option<Seq<char>>) -> Seq<FormPartSpec> {
    match value {
        Some(text) => seq![FormPartSpec { name, value: FormValueSpec::Text(text) }],
        None => Seq::empty(),
    }
}

/// The file field `name` with an empty file name, if it has a value.
pub open spec fn file_part(name: Seq<char>, value: Option<Seq<u8>>) -> Seq<FormPartSpec> {
    match value {
        Some(bytes) => seq![
            FormPartSpec { name, value: FormValueSpec::File { bytes, file_name: Seq::empty() } },
        ],
        None => Seq::empty(),
    }
}

/// The decimal text of a number that may be missing.
pub open spec fn decimal_view(number: Option<int>) -> Option<Seq<char>> {
    match number {
        Some(n) => Some(decimal(n)),
        None => None,
    }
}

/// The form that adds a job with these settings: one field for each
/// setting that is set, in this order.
pub open spec fn form_of(settings: QbitTorrentSpec) -> Seq<FormPartSpec> {
    text_part("urls"@, settings.urls) + file_part("torrents"@, settings.torrents) + text_part(
        "savepath"@,
        settings.savepath,
    ) + text_part("cookie"@, settings.cookie) + text_part("skip_checking"@, settings.skip_checking)
        + text_part("paused"@, settings.paused) + text_part("root_folder"@, settings.root_folder)
        + text_part("rename"@, settings.rename) + text_part(
        "upLimit"@,
        decimal_view(settings.upload_limit),
    ) + text_part("dlLimit"@, decimal_view(settings.download_limit))
}

fn push_text(parts: &mut Vec<FormPart>, name: &str, value: Option<String>)
    ensures
        form_parts(final(parts)@) == form_parts(old(parts)@) + text_part(name@, text_view(value)),
{
    match value {
        Some(text) => {
            parts.push(FormPart { name: String::from_str(name), value: FormValue::Text(text) });
        },
        None => {},
    }
    assert(form_parts(parts@) =~= form_parts(old(parts)@) + text_part(name@, text_view(value)));
}

fn decimal_option(number: Option<i64>) -> (text: Option<String>)
    ensures
        text_view(text) == decimal_view(number_view(number)),
{
    match number {
        Some(n) => Some(decimal_text(n)),
        None => None,
    }
}

impl QbitTorrent {
    /// The fields of the form that adds a job with these settings.
    pub fn build_form(self) -> (form: Vec<FormPart>)
        ensures
            form_parts(form@) == form_of(self@),
    {
        let mut form: Vec<FormPart> = Vec::new();
        assert(form_parts(form@) =~= Seq::empty());
        push_text(&mut form, "urls", self.urls);
        let ghost before = form_parts(form@);
        match self.torrents {
            Some(bytes) => {
                form.push(
                    FormPart {
                        name: String::from_str("torrents"),
                        value: FormValue::File { bytes, file_name: String::new() },
                    },
                );
            },
            None => {},
        }
        assert(form_parts(form@) =~= before + file_part("torrents"@, self@.torrents));
        push_text(&mut form, "savepath", self.savepath);
        push_text(&mut form, "cookie", self.cookie);
        push_text(&mut form, "skip_checking", self.skip_checking);
        push_text(&mut form, "paused", self.paused);
        push_text(&mut form, "root_folder", self.root_folder);
        push_text(&mut form, "rename", self.rename);
        push_text(&mut form, "upLimit", decimal_option(self.upload_limit));
        push_text(&mut form, "dlLimit", decimal_option(self.download_limit));
        assert(form_parts(form@) =~= form_of(self@));
        form
    }
}

/// The position of the first `c` in `text`, or the length of `text` if
/// there is none.
pub open spec fn first_index_of(text: Seq<char>, c: char) -> int
    decreases text.len(),
{
    if text.len() == 0 {
        0
    } else if text[0] == c {
        0
    } else {
        1 + first_index_of(text.drop_first(), c)
    }
}

/// The session cookie in the `set-cookie` header of a login response: what
/// stands before the first `;`.
pub open spec fn session_cookie_of(header: Option<Seq<char>>) -> Result<Seq<char>, Error> {
    match header {
        None => Err(Error::MissingHeaders),
        Some(text) => if first_index_of(text, ';') >= text.len() {
            Err(Error::MissingCookie)
        } else {
            Ok(text.subrange(0, first_index_of(text, ';')))
        },
    }
}

proof fn lemma_first_index(text: Seq<char>, c: char, n: int)
    requires
        0 <= n <= text.len(),
        forall|j: int| 0 <= j < n ==> text[j] != c,
        n < text.len() ==> text[n] == c,
    ensures
        first_index_of(text, c) == n,
    decreases n,
{
    if n > 0 {
        let rest = text.drop_first();
        assert forall|j: int| 0 <= j < n - 1 implies rest[j] != c by {
            assert(rest[j] == text[j + 1]);
        }
        lemma_first_index(rest, c, n - 1);
    }
}

/// The session cookie in the `set-cookie` header of a login response.
pub fn session_cookie(header: Option<&str>) -> (cookie: Result<String, Error>)
    ensures
        match session_cookie_of(
            match header {
                Some(text) => Some(text@),
                None => None,
            },
        ) {
            Ok(text) => cookie is Ok && cookie.unwrap()@ == text,
            Err(e) => cookie == Err::<String, Error>(e),
        },
{
    let text = match header {
        Some(text) => text,
        None => {
            return Err(Error::MissingHeaders);
        },
    };
    let chars = chars_of(text);
    let mut index: usize = 0;
    while index < chars.len() && chars[index] != ';'
        invariant
            0 <= index <= chars.len(),
            chars@ == text@,
            forall|j: int| 0 <= j < index ==> text@[j] != ';',
        decreases chars.len() - index,
    {
        index = index + 1;
    }
    proof {
        lemma_first_index(text@, ';', index as int);
    }
    if index >= chars.len() {
        Err(Error::MissingCookie)
    } else {
        Ok(String::from_str(text.substring_char(0, index)))
    }
}

/// The first of the jobs that the agent reports for a hash, or the error
/// that it knows none.
pub fn first_torrent_info(all: Vec<QbitTorrentInfo>) -> (info: Result<QbitTorrentInfo, Error>)
    ensures
        all.len() == 0 ==> info == Err::<QbitTorrentInfo, Error>(Error::QbitEmptyTorrentInfo),
        all.len() > 0 ==> info == Ok::<QbitTorrentInfo, Error>(all[0]),
{
    if all.len() == 0 {
        Err(Error::QbitEmptyTorrentInfo)
    } else {
        Ok(all[0])
    }
}

/// A request to the download agent that takes no parameter in its address.
#[derive(Debug, Clone, Copy, PartialEq, Eq, Structural)]
pub enum Operation {
    /// Ask for the version of the agent.
    Version,
    /// Add a job.
    Add,
    /// Set the priority of files of a job.
    FilePriority,
    /// Resume a job.
    Resume,
    /// Delete a job.
    Delete,
    /// Set the share limits of a job.
    ShareLimits,
}

impl Operation {
    /// The path of the operation below the address of the agent.
    pub open spec fn path(self) -> Seq<char> {
        match self {
            Operation::Version => "/api/v2/app/version"@,
            Operation::Add => "/api/v2/torrents/add"@,
            Operation::FilePriority => "/api/v2/torrents/filePrio"@,
            Operation::Resume => "/api/v2/torrents/resume"@,
            Operation::Delete => "/api/v2/torrents/delete"@,
            Operation::ShareLimits => "/api/v2/torrents/setShareLimits"@,
        }
    }

    /// The milliseconds that the agent is given to take the operation in.
    pub open spec fn settle_time(self) -> u64 {
        match self {
            Operation::Add => 1000,
            Operation::Resume => 1000,
            Operation::Delete => 3000,
            Operation::ShareLimits => 500,
            _ => 0,
        }
    }

    /// The address that the operation is sent to at the agent at `address`.
    pub fn url(&self, address: &str) -> (url: String)
        ensures
            url@ == address@ + self.path(),
    {
        let path = match self {
            Operation::Version => "/api/v2/app/version",
            Operation::Add => "/api/v2/torrents/add",
            Operation::FilePriority => "/api/v2/torrents/filePrio",
            Operation::Resume => "/api/v2/torrents/resume",
            Operation::Delete => "/api/v2/torrents/delete",
            Operation::ShareLimits => "/api/v2/torrents/setShareLimits",
        };
        String::from_str(address).concat(path)
    }

    /// The milliseconds to wait once the agent has accepted the operation.
    pub fn settle_millis(&self) -> (millis: u64)
        ensures
            millis == self.settle_time(),
    {
        match self {
            Operation::Add => 1000,
            Operation::Resume => 1000,
            Operation::Delete => 3000,
            Operation::ShareLimits => 500,
            _ => 0,
        }
    }
}

/// The address that logs `username` in at the agent at `address`.
pub fn login_url(address: &str, username: &str, password: &str) -> (url: String)
    ensures
        url@ == address@ + "/api/v2/auth/login?username="@ + username@ + "&password="@ + password@,
{
    String::from_str(address).concat("/api/v2/auth/login?username=").concat(username).concat(
        "&password=",
    ).concat(password)
}

/// The address that asks the agent at `address` for the job of `hash`.
pub fn info_url(address: &str, hash: &str) -> (url: String)
    ensures
        url@ == address@ + "/api/v2/torrents/info?hashes="@ + hash@ + "&limit=1"@,
{
    String::from_str(address).concat("/api/v2/torrents/info?hashes=").concat(hash).concat(
        "&limit=1",
    )
}

/// A text field of a form as the contracts see it.
pub open spec fn text_field(name: Seq<char>, value: Seq<char>) -> FormPartSpec {
    FormPartSpec { name, value: FormValueSpec::Text(value) }
}

fn field(name: &str, value: String) -> (part: FormPart)
    ensures
        part@ == text_field(name@, value@),
{
    FormPart { name: String::from_str(name), value: FormValue::Text(value) }
}

/// The form that sets the priority of the files at the positions `files` of
/// the job of `hash`. The priority 0 keeps a file from being downloaded.
pub fn priority_form(hash: &str, files: &str, priority: u8) -> (form: Vec<FormPart>)
    ensures
        form_parts(form@) == seq![
            text_field("hash"@, hash@),
            text_field("id"@, files@),
            text_field("priority"@, decimal(priority as int)),
        ],
{
    let mut form: Vec<FormPart> = Vec::new();
    form.push(field("hash", String::from_str(hash)));
    form.push(field("id", String::from_str(files)));
    form.push(field("priority", decimal_text(priority as i64)));
    assert(form_parts(form@) =~= seq![
        text_field("hash"@, hash@),
        text_field("id"@, files@),
        text_field("priority"@, decimal(priority as int)),
    ]);
    form
}

/// The form that resumes the job of `hash`.
pub fn resume_form(hash: &str) -> (form: Vec<FormPart>)
    ensures
        form_parts(form@) == seq![text_field("hashes"@, hash@)],
{
    let mut form: Vec<FormPart> = Vec::new();
    form.push(field("hashes", String::from_str(hash)));
    assert(form_parts(form@) =~= seq![text_field("hashes"@, hash@)]);
    form
}

/// The form that deletes the job of `hash`, with its files on disk if
/// `delete_files` says so.
pub fn delete_form(hash: &str, delete_files: bool) -> (form: Vec<FormPart>)
    ensures
        form_parts(form@) == seq![
            text_field("hashes"@, hash@),
            text_field("deleteFiles"@, flag_text(delete_files)),
        ],
{
    let mut form: Vec<FormPart> = Vec::new();
    form.push(field("hashes", String::from_str(hash)));
    form.push(field("deleteFiles", flag_string(delete_files)));
    assert(form_parts(form@) =~= seq![
        text_field("hashes"@, hash@),
        text_field("deleteFiles"@, flag_text(delete_files)),
    ]);
    form
}

/// The form that lifts the limits on share ratio and seeding time of the
/// job of `hash`.
pub fn share_limit_form(hash: &str) -> (form: Vec<FormPart>)
    ensures
        form_parts(form@) == seq![
            text_field("hashes"@, hash@),
            text_field("ratioLimit"@, "-1"@),
            text_field("seedingTimeLimit"@, "-1"@),
        ],
{
    let mut form: Vec<FormPart> = Vec::new();
    form.push(field("hashes", String::from_str(hash)));
    form.push(field("ratioLimit", String::from_str("-1")));
    form.push(field("seedingTimeLimit", String::from_str("-1")));
    assert(form_parts(form@) =~= seq![
        text_field("hashes"@, hash@),
        text_field("ratioLimit"@, "-1"@),
        text_field("seedingTimeLimit"@, "-1"@),
    ]);
    form
}

/// Whether the file at position `i` of the pack is outside the chunk that
/// starts at `offset` and holds `count` files.
pub open spec fn is_other(i: int, offset: int, count: int) -> bool {
    i < offset || i >= offset + count
}

/// The positions below `n` that are outside the chunk, in increasing order
/// and in decimal, joined by `" | "`.
pub open spec fn others_text(offset: int, count: int, n: int) -> Seq<char>
    decreases n,
{
    if n <= 0 {
        Seq::empty()
    } else {
        let before = others_text(offset, count, n - 1);
        if !is_other(n - 1, offset, count) {
            before
        } else if before.len() == 0 {
            decimal(n - 1)
        } else {
            before + " | "@ + decimal(n - 1)
        }
    }
}

/// Whether one of the positions below `n` is outside the chunk.
pub open spec fn has_others(offset: int, count: int, n: int) -> bool {
    exists|i: int| 0 <= i < n && is_other(i, offset, count)
}

/// The text of the other positions is empty exactly if there is none.
pub proof fn lemma_others_text_is_empty(offset: int, count: int, n: int)
    ensures
        others_text(offset, count, n).len() == 0 <==> !has_others(offset, count, n),
    decreases n,
{
    if n > 0 {
        lemma_others_text_is_empty(offset, count, n - 1);
        lemma_decimal_is_not_empty(n - 1);
        if is_other(n - 1, offset, count) {
            assert(0 <= n - 1 < n && is_other(n - 1, offset, count));
        } else if has_others(offset, count, n) {
            let i = choose|i: int| 0 <= i < n && is_other(i, offset, count);
            assert(0 <= i < n - 1 && is_other(i, offset, count));
        }
        if has_others(offset, count, n - 1) {
            let i = choose|i: int| 0 <= i < n - 1 && is_other(i, offset, count);
            assert(0 <= i < n && is_other(i, offset, count));
        }
    }
}

proof fn lemma_same_positions(plan: Seq<FileEntry>, k: int, offset: int, count: int, n: int)
    requires
        0 <= n <= plan.len(),
        forall|i: int| 0 <= i < n ==> ((#[trigger] plan[i]).chunk != k) == is_other(i, offset, count),
    ensures
        outside_text(plan, k, n) == others_text(offset, count, n),
    decreases n,
{
    if n > 0 {
        lemma_same_positions(plan, k, offset, count, n - 1);
        assert((plan[n - 1].chunk != k) == is_other(n - 1, offset, count));
    }
}

proof fn lemma_run_of_a_chunk(plan: Seq<FileEntry>, k: int, first: int, m: int)
    requires
        0 <= first <= m <= plan.len(),
        forall|i: int| 0 <= i < first ==> (#[trigger] plan[i]).chunk != k,
        forall|i: int| first <= i < m ==> (#[trigger] plan[i]).chunk == k,
    ensures
        count_in(plan, k, m) == m - first,
    decreases m,
{
    if m > first {
        lemma_run_of_a_chunk(plan, k, first, m - 1);
        assert(plan[m - 1].chunk == k);
    } else if m > 0 {
        lemma_run_of_a_chunk(plan, k, m - 1, m - 1);
        assert(plan[m - 1].chunk != k);
    }
}

proof fn lemma_no_more_files(plan: Seq<FileEntry>, k: int, m: int, n: int)
    requires
        0 <= m <= n <= plan.len(),
        count_in(plan, k, m) == count_in(plan, k, n),
    ensures
        forall|i: int| m <= i < n ==> (#[trigger] plan[i]).chunk != k,
    decreases n,
{
    if n > m {
        lemma_count_grows(plan, k, m, n - 1);
        lemma_no_more_files(plan, k, m, n - 1);
    }
}

/// Where the files of a chunk stand side by side, the files outside the
/// chunk are those outside the span that starts at the chunk's file offset
/// and holds as many files as the chunk.
pub proof fn lemma_outside_of_a_span(plan: Seq<FileEntry>, k: int)
    requires
        forall|i: int|
            job_of(plan, k).file_offset <= i < job_of(plan, k).file_offset + job_of(
                plan,
                k,
            ).no_files ==> 0 <= i < plan.len() && (#[trigger] plan[i]).chunk == k,
    ensures
        outside_text(plan, k, plan.len() as int) == others_text(
            job_of(plan, k).file_offset,
            job_of(plan, k).no_files,
            plan.len() as int,
        ),
        has_outside(plan, k, plan.len() as int) == has_others(
            job_of(plan, k).file_offset,
            job_of(plan, k).no_files,
            plan.len() as int,
        ),
{
    let n = plan.len() as int;
    let first = job_of(plan, k).file_offset;
    let count = job_of(plan, k).no_files;
    lemma_first_file(plan, k, n);
    lemma_run_of_a_chunk(plan, k, first, first + count);
    lemma_no_more_files(plan, k, first + count, n);
    assert forall|i: int| 0 <= i < n implies ((#[trigger] plan[i]).chunk != k) == is_other(
        i,
        first,
        count,
    ) by {}
    lemma_same_positions(plan, k, first, count, n);
    lemma_outside_text_is_empty(plan, k, n);
    lemma_others_text_is_empty(first, count, n);
}

impl Job {
    /// The positions of the files of a pack of `no_all_files` files that are
    /// outside the span that starts at position `offset` and holds as many
    /// files as this chunk. `None` if there is none. Where the files of the
    /// chunk stand side by side from `offset` on, these are the files that
    /// are not in the chunk.
    pub fn disable_others(&self, offset: i32, no_all_files: i32) -> (others: Option<String>)
        ensures
            others is Some <==> has_others(offset as int, self@.no_files, no_all_files as int),
            others matches Some(text) ==> text@ == others_text(
                offset as int,
                self@.no_files,
                no_all_files as int,
            ),
    {
        let count = self.no_files();
        let end: i64 = offset as i64 + count as i64;
        let mut text = String::new();
        let mut found = false;
        let mut i: i32 = 0;
        while i < no_all_files
            invariant
                0 <= i,
                i <= no_all_files || i == 0,
                end == offset + count,
                text@ == others_text(offset as int, count as int, i as int),
                found == (text@.len() > 0),
            decreases no_all_files - i,
        {
            if i < offset || i as i64 >= end {
                if found {
                    text.append(" | ");
                }
                push_decimal(&mut text, i as i64);
                found = true;
                proof {
                    lemma_decimal_is_not_empty(i as int);
                }
            }
            i = i + 1;
        }
        proof {
            lemma_others_text_is_empty(offset as int, count as int, no_all_files as int);
        }
        if found {
            Some(text)
        } else {
            None
        }
    }
}

} // verus!
