//! The timeline of a video: a fixed number of small frames, evenly spaced
//! over its length, each as inline JPEG data.
//!
//! Making one takes outside work: the prober is run once, and for every
//! frame the transcoder is run, the file it wrote is read, and the file is
//! removed. A [`Timeline`] decides; the caller does the work. It asks the
//! timeline what to do next ([`Timeline::action`]), does it, and reports what
//! came of it ([`Timeline::step`]), until the timeline says that it has
//! finished.
//!
//! A prober that fails ends the request at once. A frame that cannot be made
//! is left out, and the request goes on with the next.

use vstd::prelude::*;
use crate::encode::{data_uri, data_uri_text, encodable};
use crate::error::{CommandError, CommandErrorView, ErrorKind};
use crate::frames::{
    read_view,
    run_view,
    timeline_arguments,
    timeline_frame_args,
    ToolRun,
    ToolRunView,
};
use crate::paths::{timeline_path, timeline_temp_path};
use crate::probe::{duration_of, parse_duration, parse_failure, probe_args, probe_arguments};
use crate::schedule::{timestamp, timestamp_at, Duration, Timestamp};

verus! {

/// How far a timeline has come.
#[derive(Debug, PartialEq, Eq)]
pub enum Phase {
    /// The prober has been asked for the duration.
    Probing,
    /// The transcoder has been asked for the frame of this index.
    Transcoding(u32),
    /// The file of the frame of this index is being read.
    Reading(u32),
    /// The file of the frame of this index is being removed.
    Removing(u32),
    /// Every frame has been tried.
    Done,
    /// The request has failed.
    Failed(CommandError),
}

/// The mathematical content of a [`Phase`].
pub enum PhaseView {
    Probing,
    Transcoding(u32),
    Reading(u32),
    Removing(u32),
    Done,
    Failed(CommandErrorView),
}

impl View for Phase {
    type V = PhaseView;

    open spec fn view(&self) -> PhaseView {
        match self {
            Phase::Probing => PhaseView::Probing,
            Phase::Transcoding(i) => PhaseView::Transcoding(*i),
            Phase::Reading(i) => PhaseView::Reading(*i),
            Phase::Removing(i) => PhaseView::Removing(*i),
            Phase::Done => PhaseView::Done,
            Phase::Failed(e) => PhaseView::Failed(e@),
        }
    }
}

/// What came of the work that a timeline asked for.
#[derive(Debug, PartialEq, Eq)]
pub enum Event {
    /// The prober could not be started; the reason, as text.
    ProbeFailed(String),
    /// The prober ran; what it printed.
    ProbeOutput(String),
    /// The transcoder could not be started, or reported failure.
    TranscodeFailed,
    /// The transcoder reported success.
    TranscodeSucceeded,
    /// The frame's file could not be read.
    ReadFailed,
    /// The frame's file was read; what it holds.
    ReadSucceeded(Vec<u8>),
    /// The removal of the frame's file has been tried.
    Removed,
}

/// The mathematical content of an [`Event`].
pub enum EventView {
    ProbeFailed(Seq<char>),
    ProbeOutput(Seq<char>),
    TranscodeFailed,
    TranscodeSucceeded,
    ReadFailed,
    ReadSucceeded(Seq<u8>),
    Removed,
}

impl View for Event {
    type V = EventView;

    open spec fn view(&self) -> EventView {
        match self {
            Event::ProbeFailed(detail) => EventView::ProbeFailed(detail@),
            Event::ProbeOutput(output) => EventView::ProbeOutput(output@),
            Event::TranscodeFailed => EventView::TranscodeFailed,
            Event::TranscodeSucceeded => EventView::TranscodeSucceeded,
            Event::ReadFailed => EventView::ReadFailed,
            Event::ReadSucceeded(bytes) => EventView::ReadSucceeded(bytes@),
            Event::Removed => EventView::Removed,
        }
    }
}

/// The work that a timeline asks for.
#[derive(Debug, PartialEq, Eq)]
pub enum Action {
    /// Run the prober with these arguments.
    Probe(Vec<String>),
    /// Run the transcoder with these arguments.
    Transcode(Vec<String>),
    /// Read the file at this path.
    Read(String),
    /// Remove the file at this path, if it is there.
    Remove(String),
    /// Nothing: the timeline has finished.
    Finish,
}

/// The mathematical content of an [`Action`].
pub enum ActionView {
    Probe(Seq<Seq<char>>),
    Transcode(Seq<Seq<char>>),
    Read(Seq<char>),
    Remove(Seq<char>),
    Finish,
}

impl View for Action {
    type V = ActionView;

    open spec fn view(&self) -> ActionView {
        match self {
            Action::Probe(args) => ActionView::Probe(args.deep_view()),
            Action::Transcode(args) => ActionView::Transcode(args.deep_view()),
            Action::Read(path) => ActionView::Read(path@),
            Action::Remove(path) => ActionView::Remove(path@),
            Action::Finish => ActionView::Finish,
        }
    }
}

/// A request for a timeline, under way.
pub struct Timeline {
    video_path: String,
    directory: Option<String>,
    stamp: u64,
    count: u32,
    duration: u64,
    thumbnails: Vec<String>,
    phase: Phase,
}

/// The mathematical content of a [`Timeline`].
pub struct TimelineView {
    /// The video that the frames are taken from.
    pub video_path: Seq<char>,
    /// The directory in which the frames' files are written; none where
    /// the caller has none whose path is text.
    pub directory: Option<Seq<char>>,
    /// A number that tells this request's files from those of others.
    pub stamp: u64,
    /// How many frames were asked for.
    pub count: u32,
    /// The video's length in microseconds, once the prober has told it.
    pub duration: u64,
    /// The frames made so far, in the order of their timestamps.
    pub thumbnails: Seq<Seq<char>>,
    /// How far the request has come.
    pub phase: PhaseView,
}

/// The error for a request of no frames.
pub open spec fn no_frames() -> CommandErrorView {
    CommandErrorView {
        kind: ErrorKind::InvalidArgument,
        message: "thumbnail count must be at least 1"@,
    }
}

/// The error for a prober that could not be started.
pub open spec fn probe_failure(detail: Seq<char>) -> CommandErrorView {
    CommandErrorView {
        kind: ErrorKind::ProcessLaunchFailure,
        message: "Failed to get duration: "@ + detail,
    }
}

/// The error for a request that has no directory to write its frames in.
pub open spec fn no_directory() -> CommandErrorView {
    CommandErrorView { kind: ErrorKind::FilesystemFailure, message: "Invalid temp path"@ }
}

/// The path of the file for the frame of the given index.
pub open spec fn frame_path(s: TimelineView, index: u32) -> Seq<char> {
    timeline_path(s.directory->0, s.stamp as nat, index as nat)
}

/// The time of the frame of the given index.
pub open spec fn frame_time(s: TimelineView, index: u32) -> Timestamp {
    timestamp_at(s.duration, s.count, index)
}

/// The directory of a request, in mathematical terms.
pub open spec fn directory_view(directory: Option<String>) -> Option<Seq<char>> {
    match directory {
        Some(d) => Some(d@),
        None => None,
    }
}

/// The event that the outcome of running the transcoder for a frame comes
/// to: the frame counts as written only where the transcoder could be
/// started and reported success.
pub open spec fn transcode_event_of(run: Result<ToolRunView, Seq<char>>) -> EventView {
    if run matches Ok(ended) && ended.success {
        EventView::TranscodeSucceeded
    } else {
        EventView::TranscodeFailed
    }
}

impl TimelineView {
    /// The same request in another phase.
    pub open spec fn at(self, phase: PhaseView) -> TimelineView {
        TimelineView { phase, ..self }
    }

    /// Whether the request is as a timeline can be: it is for at least one
    /// frame unless it has failed, and the frame it works on is one of those
    /// asked for and has a directory to be written in.
    pub open spec fn wf(self) -> bool {
        match self.phase {
            PhaseView::Probing => self.count >= 1,
            PhaseView::Transcoding(i) => i < self.count && self.directory is Some,
            PhaseView::Reading(i) => i < self.count && self.directory is Some,
            PhaseView::Removing(i) => i < self.count && self.directory is Some,
            PhaseView::Done => self.count >= 1,
            PhaseView::Failed(_) => true,
        }
    }

    /// Whether the request has finished.
    pub open spec fn finished(self) -> bool {
        self.phase is Done || self.phase is Failed
    }
}

/// A request as it begins: refused at once where no frame is asked for, and
/// else waiting for the prober.
pub open spec fn initial(
    video_path: Seq<char>,
    count: u32,
    directory: Option<Seq<char>>,
    stamp: u64,
) -> TimelineView {
    TimelineView {
        video_path,
        directory,
        stamp,
        count,
        duration: 0,
        thumbnails: Seq::empty(),
        phase: if count == 0 {
            PhaseView::Failed(no_frames())
        } else {
            PhaseView::Probing
        },
    }
}

/// The request after an event. A prober that could not be started, or
/// printed no duration, ends the request; so does a missing directory, once
/// the prober has answered. An event that does not answer what the request
/// last asked for changes nothing.
pub open spec fn next(s: TimelineView, e: EventView) -> TimelineView {
    match (s.phase, e) {
        (PhaseView::Probing, EventView::ProbeFailed(detail)) => s.at(
            PhaseView::Failed(probe_failure(detail)),
        ),
        (PhaseView::Probing, EventView::ProbeOutput(output)) => match duration_of(output) {
            Some(micros) => if s.directory is Some {
                TimelineView { duration: micros, phase: PhaseView::Transcoding(0), ..s }
            } else {
                s.at(PhaseView::Failed(no_directory()))
            },
            None => s.at(PhaseView::Failed(parse_failure(output))),
        },
        (PhaseView::Transcoding(i), EventView::TranscodeFailed) => s.at(PhaseView::Removing(i)),
        (PhaseView::Transcoding(i), EventView::TranscodeSucceeded) => s.at(PhaseView::Reading(i)),
        (PhaseView::Reading(i), EventView::ReadFailed) => s.at(PhaseView::Removing(i)),
        (PhaseView::Reading(i), EventView::ReadSucceeded(bytes)) => TimelineView {
            thumbnails: if encodable(bytes.len()) {
                s.thumbnails.push(data_uri_text("image/jpeg"@, bytes))
            } else {
                s.thumbnails
            },
            phase: PhaseView::Removing(i),
            ..s
        },
        (PhaseView::Removing(i), EventView::Removed) => if i + 1 < s.count {
            s.at(PhaseView::Transcoding((i + 1) as u32))
        } else {
            s.at(PhaseView::Done)
        },
        _ => s,
    }
}

/// What the request asks for.
pub open spec fn pending(s: TimelineView) -> ActionView {
    match s.phase {
        PhaseView::Probing => ActionView::Probe(probe_arguments(s.video_path)),
        PhaseView::Transcoding(i) => ActionView::Transcode(
            timeline_arguments(s.video_path, frame_time(s, i), frame_path(s, i)),
        ),
        PhaseView::Reading(i) => ActionView::Read(frame_path(s, i)),
        PhaseView::Removing(i) => ActionView::Remove(frame_path(s, i)),
        PhaseView::Done => ActionView::Finish,
        PhaseView::Failed(_) => ActionView::Finish,
    }
}

/// What a finished request answers: the frames that could be made, or the
/// error that ended it. None while it is under way.
pub open spec fn answer(s: TimelineView) -> Option<Result<Seq<Seq<char>>, CommandErrorView>> {
    match s.phase {
        PhaseView::Done => Some(Ok(s.thumbnails)),
        PhaseView::Failed(e) => Some(Err(e)),
        _ => None,
    }
}

/// The event that the outcome of running the prober comes to: what it
/// printed, or why it could not be started.
pub open spec fn probe_event_of(run: Result<Seq<char>, Seq<char>>) -> EventView {
    match run {
        Ok(output) => EventView::ProbeOutput(output),
        Err(detail) => EventView::ProbeFailed(detail),
    }
}

/// The event that the outcome of reading a frame's file comes to: what the
/// file holds, or that it could not be read, whatever the reason.
pub open spec fn read_event_of(read: Result<Seq<u8>, Seq<char>>) -> EventView {
    match read {
        Ok(bytes) => EventView::ReadSucceeded(bytes),
        Err(_) => EventView::ReadFailed,
    }
}

/// The event to report after the prober was run.
pub fn probe_event(run: Result<String, String>) -> (e: Event)
    ensures
        e@ == probe_event_of(
            match run {
                Ok(output) => Ok(output@),
                Err(detail) => Err(detail@),
            },
        ),
{
    match run {
        Ok(output) => Event::ProbeOutput(output),
        Err(detail) => Event::ProbeFailed(detail),
    }
}

/// The event to report after a frame's file was read, or could not be.
pub fn read_event(read: Result<Vec<u8>, String>) -> (e: Event)
    ensures
        e@ == read_event_of(read_view(read)),
{
    match read {
        Ok(bytes) => Event::ReadSucceeded(bytes),
        Err(_) => Event::ReadFailed,
    }
}

/// The event to report after the transcoder was run for a frame.
pub fn transcode_event(run: Result<ToolRun, String>) -> (e: Event)
    ensures
        e@ == transcode_event_of(run_view(run)),
{
    match run {
        Ok(ended) => if ended.success {
            Event::TranscodeSucceeded
        } else {
            Event::TranscodeFailed
        },
        Err(_) => Event::TranscodeFailed,
    }
}

impl View for Timeline {
    type V = TimelineView;

    closed spec fn view(&self) -> TimelineView {
        TimelineView {
            video_path: self.video_path@,
            directory: directory_view(self.directory),
            stamp: self.stamp,
            count: self.count,
            duration: self.duration,
            thumbnails: self.thumbnails.deep_view(),
            phase: self.phase@,
        }
    }
}

impl Timeline {
    #[verifier::type_invariant]
    spec fn valid(self) -> bool {
        self@.wf()
    }

    /// Begins a request for `count` frames of the video at `video_path`.
    /// The frames' files are written in `directory`, under names made from
    /// `stamp` and the frame's index.
    pub fn begin(video_path: String, count: u32, directory: Option<String>, stamp: u64) -> (t:
        Timeline)
        ensures
            t@ == initial(video_path@, count, directory_view(directory), stamp),
            t@.wf(),
    {
        let phase = if count == 0 {
            Phase::Failed(
                CommandError::new(
                    ErrorKind::InvalidArgument,
                    "thumbnail count must be at least 1",
                ),
            )
        } else {
            Phase::Probing
        };
        let thumbnails: Vec<String> = Vec::new();
        assert(thumbnails.deep_view() =~= Seq::<Seq<char>>::empty());
        let t = Timeline { video_path, directory, stamp, count, duration: 0, thumbnails, phase };
        assert(t@ =~~= initial(video_path@, count, directory_view(directory), stamp));
        t
    }

    /// What the request asks the caller to do.
    pub fn action(&self) -> (a: Action)
        ensures
            a@ == pending(self@),
    {
        proof {
            use_type_invariant(self);
        }
        let directory = match &self.directory {
            Some(d) => d.as_str(),
            None => "",
        };
        match &self.phase {
            Phase::Probing => Action::Probe(probe_args(self.video_path.as_str())),
            Phase::Transcoding(i) => {
                let time = timestamp(Duration { micros: self.duration }, self.count, *i);
                let target = timeline_temp_path(directory, self.stamp, *i);
                Action::Transcode(
                    timeline_frame_args(self.video_path.as_str(), time, target.as_str()),
                )
            },
            Phase::Reading(i) => Action::Read(timeline_temp_path(directory, self.stamp, *i)),
            Phase::Removing(i) => Action::Remove(timeline_temp_path(directory, self.stamp, *i)),
            Phase::Done => Action::Finish,
            Phase::Failed(_) => Action::Finish,
        }
    }

    /// Whether the request has finished.
    pub fn is_finished(&self) -> (b: bool)
        ensures
            b == self@.finished(),
    {
        match &self.phase {
            Phase::Done => true,
            Phase::Failed(_) => true,
            _ => false,
        }
    }

    /// The request after `event`.
    pub fn step(self, event: Event) -> (t: Timeline)
        ensures
            t@ == next(self@, event@),
            t@.wf(),
    {
        proof {
            use_type_invariant(&self);
        }
        let ghost before = self@;
        let ghost happened = event@;
        let Timeline { video_path, directory, stamp, count, duration, thumbnails, phase } = self;
        let mut duration = duration;
        let mut thumbnails = thumbnails;
        let phase = match (phase, event) {
            (Phase::Probing, Event::ProbeFailed(detail)) => Phase::Failed(
                CommandError::with_detail(
                    ErrorKind::ProcessLaunchFailure,
                    "Failed to get duration: ",
                    detail.as_str(),
                ),
            ),
            (Phase::Probing, Event::ProbeOutput(output)) => match parse_duration(
                output.as_str(),
            ) {
                Ok(d) => if directory.is_some() {
                    duration = d.micros;
                    Phase::Transcoding(0)
                } else {
                    Phase::Failed(
                        CommandError::new(ErrorKind::FilesystemFailure, "Invalid temp path"),
                    )
                },
                Err(e) => Phase::Failed(e),
            },
            (Phase::Transcoding(i), Event::TranscodeFailed) => Phase::Removing(i),
            (Phase::Transcoding(i), Event::TranscodeSucceeded) => Phase::Reading(i),
            (Phase::Reading(i), Event::ReadFailed) => Phase::Removing(i),
            (Phase::Reading(i), Event::ReadSucceeded(bytes)) => {
                match data_uri("image/jpeg", bytes.as_slice()) {
                    Some(uri) => {
                        let ghost made = thumbnails.deep_view();
                        thumbnails.push(uri);
                        assert(thumbnails.deep_view() =~= made.push(uri@));
                    },
                    None => {},
                }
                Phase::Removing(i)
            },
            (Phase::Removing(i), Event::Removed) => if i + 1 < count {
                Phase::Transcoding(i + 1)
            } else {
                Phase::Done
            },
            (phase, _) => phase,
        };
        let t = Timeline { video_path, directory, stamp, count, duration, thumbnails, phase };
        assert(t@ =~~= next(before, happened));
        t
    }

    /// The answer of a finished request: the frames that could be made, in
    /// the order of their timestamps, or the error that ended it. None while
    /// the request is under way.
    pub fn finish(self) -> (r: Option<Result<Vec<String>, CommandError>>)
        ensures
            match answer(self@) {
                None => r is None,
                Some(Ok(frames)) => r matches Some(Ok(v)) && v.deep_view() == frames,
                Some(Err(error)) => r matches Some(Err(e)) && e@ == error,
            },
    {
        match self.phase {
            Phase::Done => Some(Ok(self.thumbnails)),
            Phase::Failed(e) => Some(Err(e)),
            _ => None,
        }
    }
}

} // verus!
