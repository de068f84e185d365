//! Whole runs of a timeline: what a request answers once the outside work
//! has been done, stated over the events that the work gives rise to.

use vstd::prelude::*;
use crate::encode::{data_uri_text, encodable};
use crate::error::CommandErrorView;
use crate::frames::timeline_arguments;
use crate::probe::{duration_of, parse_failure};
use crate::schedule::timestamps;
use crate::timeline::{
    answer,
    frame_path,
    frame_time,
    initial,
    next,
    no_directory,
    no_frames,
    pending,
    probe_failure,
    ActionView,
    EventView,
    PhaseView,
    TimelineView,
};

verus! {

/// What came of trying to make one frame.
pub enum Attempt {
    /// The transcoder could not be started, or reported failure.
    TranscodeFailed,
    /// The transcoder reported success, and the file could not be read.
    ReadFailed,
    /// The file was read and held these bytes.
    Frame(Seq<u8>),
}

/// The events that one attempt gives rise to, in order. Each ends with the
/// removal of the frame's file.
pub open spec fn attempt_events(attempt: Attempt) -> Seq<EventView> {
    match attempt {
        Attempt::TranscodeFailed => seq![EventView::TranscodeFailed, EventView::Removed],
        Attempt::ReadFailed => seq![
            EventView::TranscodeSucceeded,
            EventView::ReadFailed,
            EventView::Removed,
        ],
        Attempt::Frame(bytes) => seq![
            EventView::TranscodeSucceeded,
            EventView::ReadSucceeded(bytes),
            EventView::Removed,
        ],
    }
}

/// The frame that an attempt adds to the timeline, if it adds one: the
/// inline JPEG data of the bytes read.
pub open spec fn frame_of(attempt: Attempt) -> Option<Seq<char>> {
    match attempt {
        Attempt::Frame(bytes) => if encodable(bytes.len()) {
            Some(data_uri_text("image/jpeg"@, bytes))
        } else {
            None
        },
        _ => None,
    }
}

/// The events of several attempts, one after the other.
pub open spec fn events_of(attempts: Seq<Attempt>) -> Seq<EventView>
    decreases attempts.len(),
{
    if attempts.len() == 0 {
        Seq::empty()
    } else {
        attempt_events(attempts[0]) + events_of(attempts.drop_first())
    }
}

/// The frames that several attempts add, in the order of the attempts;
/// an attempt that adds none leaves no trace.
pub open spec fn frames_of(attempts: Seq<Attempt>) -> Seq<Seq<char>>
    decreases attempts.len(),
{
    if attempts.len() == 0 {
        Seq::empty()
    } else {
        match frame_of(attempts[0]) {
            Some(frame) => seq![frame] + frames_of(attempts.drop_first()),
            None => frames_of(attempts.drop_first()),
        }
    }
}

/// How many of the attempts add no frame.
pub open spec fn failures(attempts: Seq<Attempt>) -> nat
    decreases attempts.len(),
{
    if attempts.len() == 0 {
        0
    } else {
        failures(attempts.drop_first()) + if frame_of(attempts[0]) is None {
            1nat
        } else {
            0nat
        }
    }
}

/// The request after a sequence of events.
pub open spec fn run(s: TimelineView, events: Seq<EventView>) -> TimelineView
    decreases events.len(),
{
    if events.len() == 0 {
        s
    } else {
        run(next(s, events[0]), events.drop_first())
    }
}

/// The frames of a timeline are taken at the times of its schedule: the
/// frame of index `i` at the `i`-th of the evenly spaced timestamps over the
/// video's length.
pub proof fn lemma_frames_follow_schedule(s: TimelineView, i: u32)
    requires
        i < s.count,
    ensures
        frame_time(s, i) == timestamps(s.duration, s.count)[i as int],
{
}

/// Every event leaves a request as a timeline can be.
pub proof fn lemma_next_wf(s: TimelineView, e: EventView)
    requires
        s.wf(),
    ensures
        next(s, e).wf(),
{
}

/// Running through two sequences of events in a row is running through the
/// first and then through the second.
pub proof fn lemma_run_split(s: TimelineView, first: Seq<EventView>, second: Seq<EventView>)
    ensures
        run(s, first + second) == run(run(s, first), second),
    decreases first.len(),
{
    if first.len() == 0 {
        assert(first + second =~= second);
    } else {
        assert((first + second).drop_first() =~= first.drop_first() + second);
        lemma_run_split(next(s, first[0]), first.drop_first(), second);
    }
}

/// A request that has finished stays as it is, whatever is reported to it,
/// and asks for nothing more.
pub proof fn lemma_finished_stays(s: TimelineView, events: Seq<EventView>)
    requires
        s.finished(),
    ensures
        run(s, events) == s,
        pending(run(s, events)) == ActionView::Finish,
    decreases events.len(),
{
    if events.len() > 0 {
        lemma_finished_stays(s, events.drop_first());
    }
}

/// A request for no frames fails at once as an invalid argument: from its
/// beginning on it asks for no work, whatever is reported to it.
pub proof fn lemma_no_frames_no_work(
    video_path: Seq<char>,
    directory: Option<Seq<char>>,
    stamp: u64,
    events: Seq<EventView>,
)
    ensures
        pending(run(initial(video_path, 0, directory, stamp), events)) == ActionView::Finish,
        answer(run(initial(video_path, 0, directory, stamp), events)) == Some(
            Err::<Seq<Seq<char>>, CommandErrorView>(no_frames()),
        ),
{
    lemma_finished_stays(initial(video_path, 0, directory, stamp), events);
}

/// The error with which a request in `s` ends when the prober's answer is
/// `e`: the prober could not be started, it printed no duration, or it did
/// and there is no directory for the frames. None where the request goes on,
/// or `e` is no answer of the prober.
pub open spec fn probe_error(s: TimelineView, e: EventView) -> Option<CommandErrorView> {
    match e {
        EventView::ProbeFailed(detail) => Some(probe_failure(detail)),
        EventView::ProbeOutput(output) => if duration_of(output) is None {
            Some(parse_failure(output))
        } else if s.directory is None {
            Some(no_directory())
        } else {
            None
        },
        _ => None,
    }
}

/// Where the prober cannot be started, or prints no duration, or there is
/// no directory for the frames, the request ends with that error, and no
/// frame is ever tried: whatever is reported afterwards, the request asks
/// for nothing and answers the same.
pub proof fn lemma_probe_failure_is_final(s: TimelineView, e: EventView, events: Seq<EventView>)
    requires
        s.phase == PhaseView::Probing,
        probe_error(s, e) is Some,
    ensures
        pending(run(next(s, e), events)) == ActionView::Finish,
        answer(run(next(s, e), events)) == Some(
            Err::<Seq<Seq<char>>, CommandErrorView>(probe_error(s, e)->0),
        ),
        run(next(s, e), events).thumbnails == s.thumbnails,
{
    lemma_finished_stays(next(s, e), events);
}

/// What one attempt does to a request that is about to try a frame: the
/// frame, if the attempt gives one, is added at the end, and the request
/// turns to the next frame, or is done after the last.
pub proof fn lemma_attempt(s: TimelineView, i: u32, attempt: Attempt)
    requires
        s.phase == PhaseView::Transcoding(i),
        i < s.count,
    ensures
        run(s, attempt_events(attempt)) == (TimelineView {
            thumbnails: match frame_of(attempt) {
                Some(frame) => s.thumbnails.push(frame),
                None => s.thumbnails,
            },
            phase: if i + 1 < s.count {
                PhaseView::Transcoding((i + 1) as u32)
            } else {
                PhaseView::Done
            },
            ..s
        }),
{
    let events = attempt_events(attempt);
    let s1 = next(s, events[0]);
    let rest1 = events.drop_first();
    let s2 = next(s1, rest1[0]);
    let rest2 = rest1.drop_first();
    assert(run(s, events) == run(s1, rest1));
    assert(run(s1, rest1) == run(s2, rest2));
    if rest2.len() > 0 {
        let s3 = next(s2, rest2[0]);
        assert(rest2.drop_first().len() == 0);
        assert(run(s2, rest2) == run(s3, rest2.drop_first()));
        assert(run(s3, rest2.drop_first()) == s3);
    } else {
        assert(run(s2, rest2) == s2);
    }
}

/// The file of a frame is removed whatever comes of the attempt: the
/// transcoder is asked to write the frame to its path, and the last thing
/// asked for before the request turns to the next frame, or is done, is the
/// removal of the file at that path.
pub proof fn lemma_attempt_removes_file(s: TimelineView, i: u32, attempt: Attempt)
    requires
        s.phase == PhaseView::Transcoding(i),
        i < s.count,
    ensures
        pending(s) == ActionView::Transcode(
            timeline_arguments(s.video_path, frame_time(s, i), frame_path(s, i)),
        ),
        timeline_arguments(s.video_path, frame_time(s, i), frame_path(s, i)).last() == frame_path(
            s,
            i,
        ),
        pending(run(s, attempt_events(attempt).drop_last())) == ActionView::Remove(
            frame_path(s, i),
        ),
        attempt_events(attempt).last() == EventView::Removed,
        !(run(s, attempt_events(attempt)).phase is Removing),
{
    let events = attempt_events(attempt).drop_last();
    let s1 = next(s, events[0]);
    let rest1 = events.drop_first();
    assert(run(s, events) == run(s1, rest1));
    if rest1.len() > 0 {
        let s2 = next(s1, rest1[0]);
        assert(rest1.drop_first().len() == 0);
        assert(run(s1, rest1) == run(s2, rest1.drop_first()));
        assert(run(s2, rest1.drop_first()) == s2);
    } else {
        assert(run(s1, rest1) == s1);
    }
    lemma_attempt(s, i, attempt);
}

/// Every attempt either adds a frame or counts as a failure.
pub proof fn lemma_frames_counted(attempts: Seq<Attempt>)
    ensures
        frames_of(attempts).len() + failures(attempts) == attempts.len(),
    decreases attempts.len(),
{
    if attempts.len() > 0 {
        lemma_frames_counted(attempts.drop_first());
    }
}

/// A request that is about to try frame `i`, run through the attempts at
/// all the frames that are left, is done, and has added the frames of those
/// attempts that gave one, in their order.
pub proof fn lemma_attempts(s: TimelineView, i: u32, attempts: Seq<Attempt>)
    requires
        s.phase == PhaseView::Transcoding(i),
        i + attempts.len() == s.count,
        attempts.len() >= 1,
    ensures
        run(s, events_of(attempts)) == (TimelineView {
            thumbnails: s.thumbnails + frames_of(attempts),
            phase: PhaseView::Done,
            ..s
        }),
    decreases attempts.len(),
{
    let first = attempts[0];
    let rest = attempts.drop_first();
    let after = run(s, attempt_events(first));
    lemma_attempt(s, i, first);
    lemma_run_split(s, attempt_events(first), events_of(rest));
    if rest.len() == 0 {
        assert(events_of(rest) =~= Seq::<EventView>::empty());
        assert(frames_of(rest) =~= Seq::<Seq<char>>::empty());
        assert(after.thumbnails =~= s.thumbnails + frames_of(attempts));
    } else {
        lemma_attempts(after, (i + 1) as u32, rest);
        assert(after.thumbnails + frames_of(rest) =~= s.thumbnails + frames_of(attempts));
    }
}

/// The answer of a whole request. Where there is a directory for the frames,
/// the prober prints a duration and each of the `count >= 1` frames is tried, the request answers with the
/// frames of the attempts that gave one, in the order of the attempts, which
/// is the order of their timestamps. An attempt that gave none leaves no
/// entry: with `k` such attempts the answer holds `count - k` frames.
pub proof fn lemma_timeline_answer(
    video_path: Seq<char>,
    count: u32,
    directory: Option<Seq<char>>,
    stamp: u64,
    output: Seq<char>,
    attempts: Seq<Attempt>,
)
    requires
        count >= 1,
        directory is Some,
        duration_of(output) is Some,
        attempts.len() == count,
    ensures
        answer(
            run(
                initial(video_path, count, directory, stamp),
                seq![EventView::ProbeOutput(output)] + events_of(attempts),
            ),
        ) == Some(Ok::<Seq<Seq<char>>, CommandErrorView>(frames_of(attempts))),
        frames_of(attempts).len() == count - failures(attempts),
{
    let begun = initial(video_path, count, directory, stamp);
    let probed = next(begun, EventView::ProbeOutput(output));
    let first = seq![EventView::ProbeOutput(output)];
    lemma_run_split(begun, first, events_of(attempts));
    assert(run(begun, first) == probed) by {
        assert(first.drop_first().len() == 0);
        assert(run(begun, first) == run(probed, first.drop_first()));
    }
    lemma_attempts(probed, 0, attempts);
    assert(probed.thumbnails + frames_of(attempts) =~= frames_of(attempts));
    lemma_frames_counted(attempts);
}

} // verus!
