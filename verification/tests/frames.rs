use timeline_thumbnails::error::ErrorKind;
use timeline_thumbnails::frames::{
    preview_frame_args, preview_from_read, preview_transcoded, seconds_text_of,
    timeline_frame_args, ToolRun,
};
use timeline_thumbnails::schedule::Timestamp;

fn micros(numerator: u64) -> Timestamp {
    Timestamp { numerator: numerator as u128, denominator: 1 }
}

#[test]
fn seconds_text_has_two_decimal_places() {
    assert_eq!(seconds_text_of(micros(0)), "0.00");
    assert_eq!(seconds_text_of(micros(2_500_000)), "2.50");
    assert_eq!(seconds_text_of(micros(7_050_000)), "7.05");
    assert_eq!(seconds_text_of(micros(123_456_789)), "123.46");
    assert_eq!(seconds_text_of(micros(9_999)), "0.01");
    assert_eq!(seconds_text_of(micros(4_999)), "0.00");
}

#[test]
fn seconds_text_rounds_to_the_nearest_hundredth() {
    assert_eq!(seconds_text_of(micros(2_505_001)), "2.51");
    assert_eq!(seconds_text_of(micros(2_504_999)), "2.50");
    assert_eq!(seconds_text_of(micros(59_999_999)), "60.00");
    assert_eq!(seconds_text_of(micros(999_999)), "1.00");
}

#[test]
fn seconds_text_rounds_halves_to_the_even_hundredth() {
    assert_eq!(seconds_text_of(micros(125_000)), "0.12");
    assert_eq!(seconds_text_of(micros(135_000)), "0.14");
    assert_eq!(seconds_text_of(micros(375_000)), "0.38");
    assert_eq!(seconds_text_of(micros(5_000)), "0.00");
    assert_eq!(seconds_text_of(micros(15_000)), "0.02");
    assert_eq!(format!("{:.2}", 0.125f64), "0.12");
    assert_eq!(format!("{:.2}", 0.375f64), "0.38");
}

#[test]
fn seconds_text_of_a_fraction_of_a_microsecond() {
    assert_eq!(seconds_text_of(Timestamp { numerator: 1_000_000, denominator: 3 }), "0.33");
    assert_eq!(seconds_text_of(Timestamp { numerator: 2_000_000, denominator: 3 }), "0.67");
    assert_eq!(seconds_text_of(Timestamp { numerator: 30_000, denominator: 2 }), "0.02");
    assert_eq!(seconds_text_of(Timestamp { numerator: 10_000, denominator: 2 }), "0.00");
    assert_eq!(seconds_text_of(Timestamp { numerator: 10_001, denominator: 2 }), "0.01");
    assert_eq!(seconds_text_of(Timestamp { numerator: 1, denominator: 2 }), "0.00");
    assert_eq!(
        seconds_text_of(Timestamp {
            numerator: (u32::MAX as u128 - 1) * (u64::MAX as u128),
            denominator: u32::MAX,
        }),
        "18446744069414.58"
    );
}

#[test]
fn seconds_text_at_the_upper_limit() {
    assert_eq!(seconds_text_of(micros(u64::MAX)), "18446744073709.55");
}

#[test]
fn timeline_frame_args_seek_before_the_input() {
    assert_eq!(
        timeline_frame_args(
            "/videos/a.mp4",
            Timestamp { numerator: 10_000_000, denominator: 4 },
            "/tmp/timeline_thumb_1_2.jpg"
        ),
        vec![
            "-ss",
            "2.50",
            "-i",
            "/videos/a.mp4",
            "-vframes",
            "1",
            "-vf",
            "scale=80:45",
            "-y",
            "/tmp/timeline_thumb_1_2.jpg",
        ]
    );
}

#[test]
fn preview_frame_args_take_the_frame_one_second_in() {
    assert_eq!(
        preview_frame_args("/videos/a.mp4", "/tmp/thumb_1.jpg"),
        vec![
            "-i",
            "/videos/a.mp4",
            "-ss",
            "00:00:01.000",
            "-vframes",
            "1",
            "-vf",
            "scale=160:90",
            "-y",
            "/tmp/thumb_1.jpg",
        ]
    );
}

#[test]
fn preview_ends_when_the_transcoder_does_not_start() {
    let e = preview_transcoded(Err("No such file or directory".to_string())).unwrap_err();
    assert_eq!(e.kind, ErrorKind::ProcessLaunchFailure);
    assert_eq!(e.message, "Failed to execute ffmpeg: No such file or directory");
}

#[test]
fn preview_ends_when_the_transcoder_fails() {
    let run = ToolRun { success: false, stderr: "moov atom not found\n".to_string() };
    let e = preview_transcoded(Ok(run)).unwrap_err();
    assert_eq!(e.kind, ErrorKind::ProcessExitFailure);
    assert_eq!(e.message, "FFmpeg error: moov atom not found\n");
}

#[test]
fn preview_goes_on_when_the_transcoder_succeeds() {
    let run = ToolRun { success: true, stderr: "warning: something\n".to_string() };
    assert_eq!(preview_transcoded(Ok(run)), Ok(()));
}

#[test]
fn preview_is_inline_jpeg_data() {
    assert_eq!(
        preview_from_read(Ok(vec![0xff, 0xd8, 0xff])).unwrap(),
        "data:image/jpeg;base64,/9j/"
    );
}

#[test]
fn preview_that_cannot_be_read_is_a_filesystem_failure() {
    let e = preview_from_read(Err("No such file or directory".to_string())).unwrap_err();
    assert_eq!(e.kind, ErrorKind::FilesystemFailure);
    assert_eq!(e.message, "Failed to read thumbnail: No such file or directory");
}
