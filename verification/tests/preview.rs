use timeline_thumbnails::error::ErrorKind;
use timeline_thumbnails::frames::ToolRun;
use timeline_thumbnails::preview::{Preview, PreviewEvent};
use timeline_thumbnails::timeline::Action;

fn begun() -> Preview {
    Preview::begin("/videos/a.mp4".to_string(), Some("/tmp".to_string()), 1_700_000_000_123_456_789)
}

fn succeeded() -> PreviewEvent {
    PreviewEvent::Transcoded(Ok(ToolRun { success: true, stderr: "".to_string() }))
}

const TARGET: &str = "/tmp/thumb_1700000000123456789.jpg";

#[test]
fn preview_asks_for_the_frame_one_second_in() {
    let expected: Vec<String> = [
        "-i",
        "/videos/a.mp4",
        "-ss",
        "00:00:01.000",
        "-vframes",
        "1",
        "-vf",
        "scale=160:90",
        "-y",
        TARGET,
    ]
    .iter()
    .map(|s| s.to_string())
    .collect();
    assert_eq!(begun().action(), Action::Transcode(expected));
}

#[test]
fn preview_reads_and_removes_the_frame() {
    let mut p = begun();
    p = p.step(succeeded());
    assert_eq!(p.action(), Action::Read(TARGET.to_string()));
    p = p.step(PreviewEvent::Read(Ok(vec![0xff, 0xd8, 0xff])));
    assert_eq!(p.action(), Action::Remove(TARGET.to_string()));
    p = p.step(PreviewEvent::Removed);
    assert_eq!(p.action(), Action::Finish);
    assert_eq!(p.finish().unwrap().unwrap(), "data:image/jpeg;base64,/9j/");
}

#[test]
fn preview_removes_the_file_when_the_transcoder_fails() {
    let mut p = begun();
    let run = ToolRun { success: false, stderr: "moov atom not found\n".to_string() };
    p = p.step(PreviewEvent::Transcoded(Ok(run)));
    assert_eq!(p.action(), Action::Remove(TARGET.to_string()));
    p = p.step(PreviewEvent::Removed);
    assert_eq!(p.action(), Action::Finish);
    let e = p.finish().unwrap().unwrap_err();
    assert_eq!(e.kind, ErrorKind::ProcessExitFailure);
    assert_eq!(e.message, "FFmpeg error: moov atom not found\n");
}

#[test]
fn preview_removes_the_file_when_the_transcoder_does_not_start() {
    let mut p = begun();
    p = p.step(PreviewEvent::Transcoded(Err("No such file or directory".to_string())));
    assert_eq!(p.action(), Action::Remove(TARGET.to_string()));
    p = p.step(PreviewEvent::Removed);
    let e = p.finish().unwrap().unwrap_err();
    assert_eq!(e.kind, ErrorKind::ProcessLaunchFailure);
    assert_eq!(e.message, "Failed to execute ffmpeg: No such file or directory");
}

#[test]
fn preview_removes_the_file_when_it_cannot_be_read() {
    let mut p = begun();
    p = p.step(succeeded());
    p = p.step(PreviewEvent::Read(Err("permission denied".to_string())));
    assert_eq!(p.action(), Action::Remove(TARGET.to_string()));
    p = p.step(PreviewEvent::Removed);
    let e = p.finish().unwrap().unwrap_err();
    assert_eq!(e.kind, ErrorKind::FilesystemFailure);
    assert_eq!(e.message, "Failed to read thumbnail: permission denied");
}

#[test]
fn preview_has_no_answer_before_the_file_is_removed() {
    let mut p = begun();
    p = p.step(succeeded());
    p = p.step(PreviewEvent::Read(Ok(vec![1])));
    assert!(p.finish().is_none());
    assert!(begun().finish().is_none());
}

#[test]
fn preview_ignores_an_event_that_answers_nothing() {
    let mut p = begun();
    let asked = p.action();
    p = p.step(PreviewEvent::Removed);
    p = p.step(PreviewEvent::Read(Ok(vec![1])));
    assert_eq!(p.action(), asked);
    p = p.step(succeeded());
    p = p.step(succeeded());
    p = p.step(PreviewEvent::Removed);
    assert_eq!(p.action(), Action::Read(TARGET.to_string()));
}

#[test]
fn preview_that_has_finished_stays_finished() {
    let mut p = begun();
    p = p.step(succeeded());
    p = p.step(PreviewEvent::Read(Ok(vec![b'f'])));
    p = p.step(PreviewEvent::Removed);
    p = p.step(succeeded());
    p = p.step(PreviewEvent::Read(Err("late".to_string())));
    p = p.step(PreviewEvent::Removed);
    assert_eq!(p.action(), Action::Finish);
    assert_eq!(p.finish().unwrap().unwrap(), "data:image/jpeg;base64,Zg==");
}

#[test]
fn preview_without_a_directory_fails_without_any_work() {
    let p = Preview::begin("/videos/a.mp4".to_string(), None, 7);
    assert_eq!(p.action(), Action::Finish);
    let e = p.finish().unwrap().unwrap_err();
    assert_eq!(e.kind, ErrorKind::FilesystemFailure);
    assert_eq!(e.message, "Invalid temp path");
}

#[test]
fn previews_made_at_different_instants_write_to_different_files() {
    let a = Preview::begin("/videos/a.mp4".to_string(), Some("/tmp".to_string()), 1_700_000_000_000_000_000);
    let b = Preview::begin("/videos/a.mp4".to_string(), Some("/tmp".to_string()), 1_700_000_000_000_000_001);
    assert_ne!(a.action(), b.action());
}
