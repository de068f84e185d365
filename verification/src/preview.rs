//! The preview of a video: one frame, taken a second in, as inline JPEG
//! data.
//!
//! Like a timeline, a [`Preview`] decides and the caller does the work: the
//! transcoder is run, the file it wrote is read, and the file is removed.
//! Unlike in a timeline, every failure ends the request with an error. The
//! file is removed all the same: the request has no answer before that.

use vstd::prelude::*;
use crate::error::{CommandError, CommandErrorView, ErrorKind};
use crate::frames::{
    preview_arguments,
    preview_frame_args,
    preview_from_read,
    preview_result,
    preview_transcoded,
    read_view,
    run_view,
    transcode_verdict,
    ToolRun,
    ToolRunView,
};
use crate::paths::{preview_path, preview_temp_path};
use crate::timeline::{directory_view, no_directory, Action, ActionView};

verus! {

/// What came of the work that a preview asked for.
#[derive(Debug, PartialEq, Eq)]
pub enum PreviewEvent {
    /// The transcoder was run: how it ended, or why it could not be started.
    Transcoded(Result<ToolRun, String>),
    /// The frame's file was read: what it holds, or why it could not be read.
    Read(Result<Vec<u8>, String>),
    /// The removal of the frame's file has been tried.
    Removed,
}

/// The mathematical content of a [`PreviewEvent`].
pub enum PreviewEventView {
    Transcoded(Result<ToolRunView, Seq<char>>),
    Read(Result<Seq<u8>, Seq<char>>),
    Removed,
}

impl View for PreviewEvent {
    type V = PreviewEventView;

    open spec fn view(&self) -> PreviewEventView {
        match self {
            PreviewEvent::Transcoded(run) => PreviewEventView::Transcoded(run_view(*run)),
            PreviewEvent::Read(read) => PreviewEventView::Read(read_view(*read)),
            PreviewEvent::Removed => PreviewEventView::Removed,
        }
    }
}

/// How far a preview has come.
#[derive(Debug, PartialEq, Eq)]
pub enum PreviewPhase {
    /// The transcoder has been asked for the frame.
    Transcoding,
    /// The frame's file is being read.
    Reading,
    /// The frame's file is being removed; the answer is settled.
    Removing(Result<String, CommandError>),
    /// The request has finished with this answer.
    Done(Result<String, CommandError>),
}

/// The mathematical content of a [`PreviewPhase`].
pub enum PreviewPhaseView {
    Transcoding,
    Reading,
    Removing(Result<Seq<char>, CommandErrorView>),
    Done(Result<Seq<char>, CommandErrorView>),
}

/// An answer, in mathematical terms.
pub open spec fn answer_view(answer: Result<String, CommandError>) -> Result<
    Seq<char>,
    CommandErrorView,
> {
    match answer {
        Ok(uri) => Ok(uri@),
        Err(e) => Err(e@),
    }
}

impl View for PreviewPhase {
    type V = PreviewPhaseView;

    open spec fn view(&self) -> PreviewPhaseView {
        match self {
            PreviewPhase::Transcoding => PreviewPhaseView::Transcoding,
            PreviewPhase::Reading => PreviewPhaseView::Reading,
            PreviewPhase::Removing(answer) => PreviewPhaseView::Removing(answer_view(*answer)),
            PreviewPhase::Done(answer) => PreviewPhaseView::Done(answer_view(*answer)),
        }
    }
}

/// A request for a preview, under way.
pub struct Preview {
    video_path: String,
    target: String,
    phase: PreviewPhase,
}

/// The mathematical content of a [`Preview`].
pub struct PreviewView {
    /// The video that the frame is taken from.
    pub video_path: Seq<char>,
    /// The path of the file that the frame is written to.
    pub target: Seq<char>,
    /// How far the request has come.
    pub phase: PreviewPhaseView,
}

impl PreviewView {
    /// The same request in another phase.
    pub open spec fn at(self, phase: PreviewPhaseView) -> PreviewView {
        PreviewView { phase, ..self }
    }
}

/// A request as it begins: waiting for the transcoder, which writes to a
/// file in `directory` named after `stamp`; failed at once where there is
/// no directory.
pub open spec fn preview_initial(
    video_path: Seq<char>,
    directory: Option<Seq<char>>,
    stamp: u64,
) -> PreviewView {
    match directory {
        Some(d) => PreviewView {
            video_path,
            target: preview_path(d, stamp as nat),
            phase: PreviewPhaseView::Transcoding,
        },
        None => PreviewView {
            video_path,
            target: Seq::empty(),
            phase: PreviewPhaseView::Done(Err(no_directory())),
        },
    }
}

/// The request after an event. A transcoder that failed settles the answer
/// and leaves the file to be removed; so does the reading of the file,
/// whatever came of it. The removal ends the request. An event that does
/// not answer what the request last asked for changes nothing.
pub open spec fn preview_next(s: PreviewView, e: PreviewEventView) -> PreviewView {
    match (s.phase, e) {
        (PreviewPhaseView::Transcoding, PreviewEventView::Transcoded(run)) => match transcode_verdict(
            run,
        ) {
            Ok(_) => s.at(PreviewPhaseView::Reading),
            Err(error) => s.at(PreviewPhaseView::Removing(Err(error))),
        },
        (PreviewPhaseView::Reading, PreviewEventView::Read(read)) => s.at(
            PreviewPhaseView::Removing(preview_result(read)),
        ),
        (PreviewPhaseView::Removing(answer), PreviewEventView::Removed) => s.at(
            PreviewPhaseView::Done(answer),
        ),
        _ => s,
    }
}

/// What the request asks for.
pub open spec fn preview_pending(s: PreviewView) -> ActionView {
    match s.phase {
        PreviewPhaseView::Transcoding => ActionView::Transcode(
            preview_arguments(s.video_path, s.target),
        ),
        PreviewPhaseView::Reading => ActionView::Read(s.target),
        PreviewPhaseView::Removing(_) => ActionView::Remove(s.target),
        PreviewPhaseView::Done(_) => ActionView::Finish,
    }
}

/// What a finished request answers; none while it is under way.
pub open spec fn preview_answer(s: PreviewView) -> Option<Result<Seq<char>, CommandErrorView>> {
    match s.phase {
        PreviewPhaseView::Done(answer) => Some(answer),
        _ => None,
    }
}

impl View for Preview {
    type V = PreviewView;

    closed spec fn view(&self) -> PreviewView {
        PreviewView { video_path: self.video_path@, target: self.target@, phase: self.phase@ }
    }
}

impl Preview {
    /// Begins a request for the preview of the video at `video_path`. The
    /// frame's file is written in `directory`, under a name made from
    /// `stamp`.
    pub fn begin(video_path: String, directory: Option<String>, stamp: u64) -> (p: Preview)
        ensures
            p@ == preview_initial(video_path@, directory_view(directory), stamp),
    {
        match directory {
            Some(d) => {
                let target = preview_temp_path(d.as_str(), stamp);
                Preview { video_path, target, phase: PreviewPhase::Transcoding }
            },
            None => Preview {
                video_path,
                target: String::new(),
                phase: PreviewPhase::Done(
                    Err(CommandError::new(ErrorKind::FilesystemFailure, "Invalid temp path")),
                ),
            },
        }
    }

    /// What the request asks the caller to do.
    pub fn action(&self) -> (a: Action)
        ensures
            a@ == preview_pending(self@),
    {
        match &self.phase {
            PreviewPhase::Transcoding => Action::Transcode(
                preview_frame_args(self.video_path.as_str(), self.target.as_str()),
            ),
            PreviewPhase::Reading => Action::Read(self.target.clone()),
            PreviewPhase::Removing(_) => Action::Remove(self.target.clone()),
            PreviewPhase::Done(_) => Action::Finish,
        }
    }

    /// The request after `event`.
    pub fn step(self, event: PreviewEvent) -> (p: Preview)
        ensures
            p@ == preview_next(self@, event@),
    {
        let Preview { video_path, target, phase } = self;
        let phase = match (phase, event) {
            (PreviewPhase::Transcoding, PreviewEvent::Transcoded(run)) => match preview_transcoded(
                run,
            ) {
                Ok(_) => PreviewPhase::Reading,
                Err(e) => PreviewPhase::Removing(Err(e)),
            },
            (PreviewPhase::Reading, PreviewEvent::Read(read)) => PreviewPhase::Removing(
                preview_from_read(read),
            ),
            (PreviewPhase::Removing(answer), PreviewEvent::Removed) => PreviewPhase::Done(answer),
            (phase, _) => phase,
        };
        Preview { video_path, target, phase }
    }

    /// The answer of a finished request: the frame as inline JPEG data, or
    /// the error that ended it. None while the request is under way.
    pub fn finish(self) -> (r: Option<Result<String, CommandError>>)
        ensures
            match preview_answer(self@) {
                None => r is None,
                Some(answer) => r matches Some(found) && answer_view(found) == answer,
            },
    {
        match self.phase {
            PreviewPhase::Done(answer) => Some(answer),
            _ => None,
        }
    }
}

/// A request that has finished stays as it is, whatever is reported to it.
pub proof fn lemma_preview_done_stays(s: PreviewView, e: PreviewEventView)
    requires
        s.phase is Done,
    ensures
        preview_next(s, e) == s,
{
}

/// A request finishes only by the removal of its file: the event that
/// finishes it reports the removal, which the request had asked for, of the
/// file that the transcoder was told to write.
pub proof fn lemma_preview_done_after_removal(s: PreviewView, e: PreviewEventView)
    requires
        !(s.phase is Done),
        preview_next(s, e).phase is Done,
    ensures
        e == PreviewEventView::Removed,
        preview_pending(s) == ActionView::Remove(s.target),
        preview_next(s, e).target == s.target,
{
}

/// The answer of a whole request that has a directory. Where the transcoder
/// cannot be started or reports failure, the file is removed and the request
/// answers with that error. Where it succeeds, the file is read and removed,
/// and the request answers with the frame as inline data, or with the error
/// of the read.
pub proof fn lemma_preview_answer(
    video_path: Seq<char>,
    directory: Seq<char>,
    stamp: u64,
    run: Result<ToolRunView, Seq<char>>,
    read: Result<Seq<u8>, Seq<char>>,
)
    ensures
        ({
            let begun = preview_initial(video_path, Some(directory), stamp);
            let target = preview_path(directory, stamp as nat);
            let transcoded = preview_next(begun, PreviewEventView::Transcoded(run));
            &&& preview_pending(begun) == ActionView::Transcode(
                preview_arguments(video_path, target),
            )
            &&& match transcode_verdict(run) {
                Err(error) => {
                    &&& preview_pending(transcoded) == ActionView::Remove(target)
                    &&& preview_answer(preview_next(transcoded, PreviewEventView::Removed))
                        == Some(Err::<Seq<char>, CommandErrorView>(error))
                },
                Ok(_) => {
                    let was_read = preview_next(transcoded, PreviewEventView::Read(read));
                    &&& preview_pending(transcoded) == ActionView::Read(target)
                    &&& preview_pending(was_read) == ActionView::Remove(target)
                    &&& preview_answer(preview_next(was_read, PreviewEventView::Removed))
                        == Some(preview_result(read))
                },
            }
        }),
{
}

/// A request without a directory fails at once and asks for no work.
pub proof fn lemma_preview_without_directory(video_path: Seq<char>, stamp: u64)
    ensures
        preview_pending(preview_initial(video_path, None, stamp)) == ActionView::Finish,
        preview_answer(preview_initial(video_path, None, stamp)) == Some(
            Err::<Seq<char>, CommandErrorView>(no_directory()),
        ),
{
}

} // verus!
