//! Frame extraction: what the transcoder is asked, for one frame of a
//! timeline and for the preview frame of a video, and what becomes of its
//! answer.

use vstd::prelude::*;
use crate::encode::{data_uri, data_uri_text, encodable, too_large};
use crate::error::{CommandError, CommandErrorView, ErrorKind};
use crate::schedule::Timestamp;
use crate::text::{append_decimal, decimal, digit_text, digits};
use vstd::arithmetic::div_mod::lemma_fundamental_div_mod;

verus! {

/// The hundredths of a second nearest to `numerator / denominator`
/// microseconds; a value halfway between two goes to the even one.
pub open spec fn hundredths(numerator: nat, denominator: nat) -> nat {
    let unit = denominator * 10_000;
    let below = numerator / unit;
    let rest = numerator % unit;
    if 2 * rest > unit || (2 * rest == unit && below % 2 == 1) {
        below + 1
    } else {
        below
    }
}

/// A number below one hundred, written with two digits.
pub open spec fn two_digits(n: nat) -> Seq<char> {
    seq![digits()[(n / 10) as int], digits()[(n % 10) as int]]
}

/// A point in time as the transcoder reads it: seconds with two decimal
/// places, such as `7.50`.
pub open spec fn seconds_text(time: Timestamp) -> Seq<char> {
    let nearest = hundredths(time.numerator as nat, time.denominator as nat);
    decimal(nearest / 100) + "."@ + two_digits(nearest % 100)
}

/// The arguments with which the transcoder writes one frame of a timeline:
/// seek to the time, read the video, emit one frame scaled to 80 by 45,
/// overwrite what is at the target.
pub open spec fn timeline_arguments(video: Seq<char>, time: Timestamp, target: Seq<char>) -> Seq<
    Seq<char>,
> {
    seq![
        "-ss"@,
        seconds_text(time),
        "-i"@,
        video,
        "-vframes"@,
        "1"@,
        "-vf"@,
        "scale=80:45"@,
        "-y"@,
        target,
    ]
}

/// The arguments with which the transcoder writes the preview frame of a
/// video: the frame one second in, scaled to 160 by 90.
pub open spec fn preview_arguments(video: Seq<char>, target: Seq<char>) -> Seq<Seq<char>> {
    seq![
        "-i"@,
        video,
        "-ss"@,
        "00:00:01.000"@,
        "-vframes"@,
        "1"@,
        "-vf"@,
        "scale=160:90"@,
        "-y"@,
        target,
    ]
}

/// How a tool that could be started ended.
#[derive(Debug, PartialEq, Eq)]
pub struct ToolRun {
    /// Whether it reported success.
    pub success: bool,
    /// What it wrote to its error stream.
    pub stderr: String,
}

/// The mathematical content of a [`ToolRun`].
pub struct ToolRunView {
    pub success: bool,
    pub stderr: Seq<char>,
}

impl View for ToolRun {
    type V = ToolRunView;

    open spec fn view(&self) -> ToolRunView {
        ToolRunView { success: self.success, stderr: self.stderr@ }
    }
}

/// What running a tool came to, in mathematical terms: how it ended, or why
/// it could not be started.
pub open spec fn run_view(run: Result<ToolRun, String>) -> Result<ToolRunView, Seq<char>> {
    match run {
        Ok(ended) => Ok(ended@),
        Err(detail) => Err(detail@),
    }
}

/// What reading a file came to, in mathematical terms: its bytes, or why it
/// could not be read.
pub open spec fn read_view(read: Result<Vec<u8>, String>) -> Result<Seq<u8>, Seq<char>> {
    match read {
        Ok(bytes) => Ok(bytes@),
        Err(detail) => Err(detail@),
    }
}

/// The error for a transcoder that could not be started.
pub open spec fn launch_failure(detail: Seq<char>) -> CommandErrorView {
    CommandErrorView {
        kind: ErrorKind::ProcessLaunchFailure,
        message: "Failed to execute ffmpeg: "@ + detail,
    }
}

/// The error for a transcoder that reported failure.
pub open spec fn exit_failure(stderr: Seq<char>) -> CommandErrorView {
    CommandErrorView { kind: ErrorKind::ProcessExitFailure, message: "FFmpeg error: "@ + stderr }
}

/// The error for a frame that was written and could not be read.
pub open spec fn frame_read_failure(detail: Seq<char>) -> CommandErrorView {
    CommandErrorView {
        kind: ErrorKind::FilesystemFailure,
        message: "Failed to read thumbnail: "@ + detail,
    }
}

/// Whether a preview goes on after the transcoder was run, and the error
/// that ends it where it does not.
pub open spec fn transcode_verdict(run: Result<ToolRunView, Seq<char>>) -> Result<
    (),
    CommandErrorView,
> {
    match run {
        Err(detail) => Err(launch_failure(detail)),
        Ok(ended) => if ended.success {
            Ok(())
        } else {
            Err(exit_failure(ended.stderr))
        },
    }
}

/// What a preview answers once its frame was read, or could not be.
pub open spec fn preview_result(read: Result<Seq<u8>, Seq<char>>) -> Result<
    Seq<char>,
    CommandErrorView,
> {
    match read {
        Err(detail) => Err(frame_read_failure(detail)),
        Ok(bytes) => if encodable(bytes.len()) {
            Ok(data_uri_text("image/jpeg"@, bytes))
        } else {
            Err(too_large())
        },
    }
}

/// A point in time, in seconds with two decimal places.
pub fn seconds_text_of(time: Timestamp) -> (text: String)
    requires
        time.wf(),
    ensures
        text@ == seconds_text(time),
{
    let unit: u128 = (time.denominator as u128) * 10_000;
    let below: u128 = time.numerator / unit;
    let rest: u128 = time.numerator % unit;
    proof {
        lemma_fundamental_div_mod(time.numerator as int, unit as int);
        assert(below * 10_000 < 0x1_0000_0000_0000_0000) by (nonlinear_arith)
            requires
                time.denominator >= 1,
                unit == time.denominator * 10_000,
                time.numerator < time.denominator * 0x1_0000_0000_0000_0000,
                time.numerator == unit * below + rest,
                0 <= rest,
                0 <= below,
        ;
    }
    let nearest: u64 = if 2 * rest > unit || (2 * rest == unit && below % 2 == 1) {
        (below + 1) as u64
    } else {
        below as u64
    };
    let cents = nearest % 100;
    let mut text = String::new();
    append_decimal(&mut text, nearest / 100);
    text.append(".");
    text.append(digit_text(cents / 10));
    text.append(digit_text(cents % 10));
    assert(text@ =~= seconds_text(time));
    text
}

/// The transcoder's argument list for the frame of `video` at `time`,
/// written to `target`.
pub fn timeline_frame_args(video: &str, time: Timestamp, target: &str) -> (args: Vec<String>)
    requires
        time.wf(),
    ensures
        args.deep_view() == timeline_arguments(video@, time, target@),
{
    let mut args: Vec<String> = Vec::new();
    args.push(String::from_str("-ss"));
    args.push(seconds_text_of(time));
    args.push(String::from_str("-i"));
    args.push(String::from_str(video));
    args.push(String::from_str("-vframes"));
    args.push(String::from_str("1"));
    args.push(String::from_str("-vf"));
    args.push(String::from_str("scale=80:45"));
    args.push(String::from_str("-y"));
    args.push(String::from_str(target));
    assert(args.deep_view() =~= timeline_arguments(video@, time, target@));
    args
}

/// The transcoder's argument list for the preview frame of `video`, written
/// to `target`.
pub fn preview_frame_args(video: &str, target: &str) -> (args: Vec<String>)
    ensures
        args.deep_view() == preview_arguments(video@, target@),
{
    let mut args: Vec<String> = Vec::new();
    args.push(String::from_str("-i"));
    args.push(String::from_str(video));
    args.push(String::from_str("-ss"));
    args.push(String::from_str("00:00:01.000"));
    args.push(String::from_str("-vframes"));
    args.push(String::from_str("1"));
    args.push(String::from_str("-vf"));
    args.push(String::from_str("scale=160:90"));
    args.push(String::from_str("-y"));
    args.push(String::from_str(target));
    assert(args.deep_view() =~= preview_arguments(video@, target@));
    args
}

/// Whether the preview goes on after the transcoder was run: a transcoder
/// that could not be started, which carries the reason as text, or that
/// reported failure ends the command.
pub fn preview_transcoded(run: Result<ToolRun, String>) -> (r: Result<(), CommandError>)
    ensures
        match transcode_verdict(run_view(run)) {
            Ok(_) => r is Ok,
            Err(error) => r matches Err(e) && e@ == error,
        },
{
    match run {
        Err(detail) => Err(
            CommandError::with_detail(
                ErrorKind::ProcessLaunchFailure,
                "Failed to execute ffmpeg: ",
                detail.as_str(),
            ),
        ),
        Ok(ended) => if ended.success {
            Ok(())
        } else {
            Err(
                CommandError::with_detail(
                    ErrorKind::ProcessExitFailure,
                    "FFmpeg error: ",
                    ended.stderr.as_str(),
                ),
            )
        },
    }
}

/// The preview's answer after the frame was read: the frame as inline JPEG
/// data, or the failure of the read, which carries its reason as text.
pub fn preview_from_read(read: Result<Vec<u8>, String>) -> (r: Result<String, CommandError>)
    ensures
        match preview_result(read_view(read)) {
            Ok(text) => r matches Ok(uri) && uri@ == text,
            Err(error) => r matches Err(e) && e@ == error,
        },
{
    match read {
        Err(detail) => Err(
            CommandError::with_detail(
                ErrorKind::FilesystemFailure,
                "Failed to read thumbnail: ",
                detail.as_str(),
            ),
        ),
        Ok(bytes) => match data_uri("image/jpeg", bytes.as_slice()) {
            Some(uri) => Ok(uri),
            None => Err(
                CommandError::new(ErrorKind::InvalidArgument, "Image is too large to encode"),
            ),
        },
    }
}

} // verus!
