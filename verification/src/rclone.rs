//! The upload tool: how it is invoked and how its progress is read.

use crate::error::Error;
use crate::text::{contains, decimal, decimal_digits, occurs_in, push_decimal, push_decimal_digits};
use vstd::prelude::*;
use vstd::string::StringExecFns;

verus! {

/// The settings of the upload tool.
#[derive(Debug)]
pub struct RcloneClient {
    /// The name of the executable.
    pub variant: String,
    source: String,
    destination: String,
    transfers: u16,
    drive_chunk_size: u16,
    extra_custom_flags: Vec<String>,
}

/// The settings of the upload tool as the contracts see them.
pub struct RcloneSpec {
    pub variant: Seq<char>,
    /// The local directory that is uploaded.
    pub source: Seq<char>,
    /// The remote that it is uploaded to.
    pub destination: Seq<char>,
    /// The number of files that are transferred at a time.
    pub transfers: int,
    /// The size of the transport's chunks in MiB.
    pub drive_chunk_size: int,
    /// Flags that are handed on to the tool as they are.
    pub extra_custom_flags: Seq<Seq<char>>,
}

/// The texts of a vector, each by its view.
pub open spec fn texts(strings: Seq<String>) -> Seq<Seq<char>> {
    Seq::new(strings.len(), |i: int| strings[i]@)
}

impl View for RcloneClient {
    type V = RcloneSpec;

    closed spec fn view(&self) -> RcloneSpec {
        RcloneSpec {
            variant: self.variant@,
            source: self.source@,
            destination: self.destination@,
            transfers: self.transfers as int,
            drive_chunk_size: self.drive_chunk_size as int,
            extra_custom_flags: texts(self.extra_custom_flags@),
        }
    }
}

/// The arguments that every upload starts with: copy, leave out partial
/// downloads, and log progress as JSON once a second, with the configured
/// number of transfers and chunk size.
pub open spec fn mandatory_args(transfers: int, drive_chunk_size: int) -> Seq<Seq<char>> {
    seq![
        "copy"@,
        "--exclude"@,
        "*.parts"@,
        "--exclude"@,
        "*.!qB"@,
        "--verbose"@,
        "--stats"@,
        "1s"@,
        "--use-json-log"@,
        "--transfers"@,
        decimal_digits(transfers as nat),
        "--drive-chunk-size"@,
        decimal_digits(drive_chunk_size as nat) + "M"@,
    ]
}

/// The arguments of an upload: the mandatory ones, then the extra flags,
/// then the source and the destination.
pub open spec fn upload_args(client: RcloneSpec) -> Seq<Seq<char>> {
    mandatory_args(client.transfers, client.drive_chunk_size) + client.extra_custom_flags + seq![
        client.source,
        client.destination,
    ]
}

fn push_arg(args: &mut Vec<String>, arg: &str)
    ensures
        texts(final(args)@) == texts(old(args)@).push(arg@),
{
    args.push(String::from_str(arg));
    assert(texts(args@) =~= texts(old(args)@).push(arg@));
}

impl RcloneClient {
    pub fn new(
        variant: String,
        source: String,
        destination: String,
        transfers: u16,
        drive_chunk_size: u16,
        extra_custom_flags: Vec<String>,
    ) -> (client: Self)
        ensures
            client@ == (RcloneSpec {
                variant: variant@,
                source: source@,
                destination: destination@,
                transfers: transfers as int,
                drive_chunk_size: drive_chunk_size as int,
                extra_custom_flags: texts(extra_custom_flags@),
            }),
    {
        Self { variant, source, destination, transfers, drive_chunk_size, extra_custom_flags }
    }

    /// The arguments that the tool is started with to upload the source.
    pub fn command_args(&self) -> (args: Vec<String>)
        ensures
            texts(args@) == upload_args(self@),
    {
        let mut args: Vec<String> = Vec::new();
        assert(texts(args@) =~= Seq::empty());
        push_arg(&mut args, "copy");
        push_arg(&mut args, "--exclude");
        push_arg(&mut args, "*.parts");
        push_arg(&mut args, "--exclude");
        push_arg(&mut args, "*.!qB");
        push_arg(&mut args, "--verbose");
        push_arg(&mut args, "--stats");
        push_arg(&mut args, "1s");
        push_arg(&mut args, "--use-json-log");
        push_arg(&mut args, "--transfers");
        let mut transfers = String::new();
        push_decimal_digits(&mut transfers, self.transfers as u64);
        push_arg(&mut args, transfers.as_str());
        push_arg(&mut args, "--drive-chunk-size");
        let mut size = String::new();
        push_decimal_digits(&mut size, self.drive_chunk_size as u64);
        size.append("M");
        push_arg(&mut args, size.as_str());
        assert(texts(args@) =~= mandatory_args(self@.transfers, self@.drive_chunk_size)) by {
            assert(transfers@ =~= decimal_digits(self.transfers as nat));
            assert(size@ =~= decimal_digits(self.drive_chunk_size as nat) + "M"@);
        }
        let mut index: usize = 0;
        while index < self.extra_custom_flags.len()
            invariant
                0 <= index <= self.extra_custom_flags.len(),
                texts(args@) =~= mandatory_args(self@.transfers, self@.drive_chunk_size) + texts(
                    self.extra_custom_flags@,
                ).take(index as int),
            decreases self.extra_custom_flags.len() - index,
        {
            push_arg(&mut args, self.extra_custom_flags[index].as_str());
            index = index + 1;
        }
        assert(texts(self.extra_custom_flags@).take(index as int) =~= texts(
            self.extra_custom_flags@,
        ));
        push_arg(&mut args, self.source.as_str());
        push_arg(&mut args, self.destination.as_str());
        assert(texts(args@) =~= upload_args(self@));
        args
    }
}

/// Whether a line of the tool's log reports progress: it holds `ETA`.
pub open spec fn reports_progress(line: Seq<char>) -> bool {
    occurs_in(line, "ETA"@)
}

/// Whether a line of the tool's log reports progress. Other lines are not
/// parsed.
pub fn is_progress_line(line: &str) -> (progress: bool)
    ensures
        progress == reports_progress(line@),
{
    contains(line, "ETA")
}

/// The statistics of one progress line.
#[derive(Debug, Clone, Copy, PartialEq, Eq, Structural)]
pub struct TransferSample {
    /// The bytes transferred so far.
    pub bytes: u64,
    /// The speed in bytes per second, rounded up, if the line gives one.
    pub speed: Option<u64>,
    /// The seconds that the tool expects to need, if the line gives them.
    pub eta: Option<u64>,
}

/// What is known of an upload from its log so far.
#[derive(Debug, Clone, Copy, PartialEq, Eq, Structural)]
pub struct TransferStats {
    pub bytes_transferred: u64,
    pub current_speed: u64,
    pub eta_seconds: Option<u64>,
}

/// The statistics after a progress line. Speed and time left are those of
/// the line, or the last known ones where the line gives none. The bytes
/// move only on a line with a speed above 0, and never back.
pub open spec fn stats_after(
    stats: TransferStats,
    sample: Option<TransferSample>,
) -> TransferStats {
    match sample {
        None => stats,
        Some(sample) => TransferStats {
            bytes_transferred: if sample.speed is Some && sample.speed->0 > 0 && sample.bytes
                > stats.bytes_transferred {
                sample.bytes
            } else {
                stats.bytes_transferred
            },
            current_speed: match sample.speed {
                Some(speed) => speed,
                None => stats.current_speed,
            },
            eta_seconds: match sample.eta {
                Some(eta) => Some(eta),
                None => stats.eta_seconds,
            },
        },
    }
}

/// Whether a progress line moves the progress display.
pub open spec fn shows_progress(sample: Option<TransferSample>) -> bool {
    sample is Some && sample->0.speed is Some && sample->0.speed->0 > 0
}

impl TransferStats {
    /// The statistics of an upload that has reported nothing yet.
    pub fn new() -> (stats: Self)
        ensures
            stats == (TransferStats { bytes_transferred: 0, current_speed: 0, eta_seconds: None }),
    {
        TransferStats { bytes_transferred: 0, current_speed: 0, eta_seconds: None }
    }

    /// Takes the statistics of a progress line in, `None` for a line without
    /// statistics. Says whether the progress display is to be moved to
    /// `bytes_transferred`.
    pub fn record(&mut self, sample: Option<TransferSample>) -> (show: bool)
        ensures
            *final(self) == stats_after(*old(self), sample),
            show == shows_progress(sample),
    {
        match sample {
            None => false,
            Some(sample) => {
                let moving = match sample.speed {
                    Some(speed) => speed > 0,
                    None => false,
                };
                if moving && sample.bytes > self.bytes_transferred {
                    self.bytes_transferred = sample.bytes;
                }
                match sample.speed {
                    Some(speed) => {
                        self.current_speed = speed;
                    },
                    None => {},
                }
                match sample.eta {
                    Some(eta) => {
                        self.eta_seconds = Some(eta);
                    },
                    None => {},
                }
                moving
            },
        }
    }
}

/// The statistics after the first `n` progress lines of an upload.
pub open spec fn stats_along(samples: Seq<Option<TransferSample>>, n: int) -> TransferStats
    decreases n,
{
    if n <= 0 {
        TransferStats { bytes_transferred: 0, current_speed: 0, eta_seconds: None }
    } else {
        stats_after(stats_along(samples, n - 1), samples[n - 1])
    }
}

/// The bytes that an upload shows never go back, whatever its log holds.
pub proof fn lemma_progress_never_goes_back(samples: Seq<Option<TransferSample>>, i: int, j: int)
    requires
        0 <= i <= j,
    ensures
        stats_along(samples, i).bytes_transferred <= stats_along(samples, j).bytes_transferred,
    decreases j,
{
    if i < j {
        lemma_progress_never_goes_back(samples, i, j - 1);
    }
}

/// What the exit of the upload tool means for the upload: only the exit
/// code 0 is a success. `None` stands for a tool that a signal ended.
pub open spec fn exit_outcome(code: Option<i32>) -> Result<(), Seq<char>> {
    match code {
        Some(0) => Ok(()),
        Some(code) => Err("the upload tool ended with exit code "@ + decimal(code as int)),
        None => Err("the upload tool was ended by a signal"@),
    }
}

/// Whether an upload has succeeded, given the exit code of the tool.
pub fn check_exit(code: Option<i32>) -> (checked: Result<(), Error>)
    ensures
        match exit_outcome(code) {
            Ok(()) => checked == Ok::<(), Error>(()),
            Err(cause) => checked matches Err(Error::CommandSpawningError(text)) && text@ == cause,
        },
{
    match code {
        Some(0) => Ok(()),
        Some(code) => {
            let mut cause = String::from_str("the upload tool ended with exit code ");
            push_decimal(&mut cause, code as i64);
            Err(Error::CommandSpawningError(cause))
        },
        None => Err(
            Error::CommandSpawningError(String::from_str("the upload tool was ended by a signal")),
        ),
    }
}

} // verus!
