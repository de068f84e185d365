use timeline_thumbnails::error::ErrorKind;
use timeline_thumbnails::probe::{duration_from_probe, parse_duration, probe_args};

#[test]
fn probe_args_ask_for_the_bare_duration() {
    assert_eq!(
        probe_args("/videos/a b.mp4"),
        vec![
            "-v",
            "error",
            "-show_entries",
            "format=duration",
            "-of",
            "default=noprint_wrappers=1:nokey=1",
            "/videos/a b.mp4",
        ]
    );
}

#[test]
fn parse_duration_reads_what_the_prober_prints() {
    assert_eq!(parse_duration("12.345000\n").unwrap().micros, 12_345_000);
    assert_eq!(parse_duration("0.000000\n").unwrap().micros, 0);
    assert_eq!(parse_duration("3600.500000\r\n").unwrap().micros, 3_600_500_000);
}

#[test]
fn parse_duration_accepts_short_and_long_fractions() {
    assert_eq!(parse_duration("5").unwrap().micros, 5_000_000);
    assert_eq!(parse_duration("5.").unwrap().micros, 5_000_000);
    assert_eq!(parse_duration(".5").unwrap().micros, 500_000);
    assert_eq!(parse_duration("7.5").unwrap().micros, 7_500_000);
    assert_eq!(parse_duration("0.000001").unwrap().micros, 1);
    assert_eq!(parse_duration("1.2345678").unwrap().micros, 1_234_567);
    assert_eq!(parse_duration("1.9999999999").unwrap().micros, 1_999_999);
    assert_eq!(parse_duration("007.25").unwrap().micros, 7_250_000);
}

#[test]
fn parse_duration_trims_white_space_of_every_kind() {
    assert_eq!(parse_duration("  7.5 \t\n").unwrap().micros, 7_500_000);
    assert_eq!(parse_duration("\u{a0}1.0\u{2003}\u{3000}").unwrap().micros, 1_000_000);
    assert_eq!(parse_duration("\u{85}2\u{1680}").unwrap().micros, 2_000_000);
}

#[test]
fn parse_duration_refuses_what_is_no_decimal_number() {
    for text in [".", "N/A", "N/A\n", "1.2.3", "1 2", "-1.0", "+1.0", "1e3", "abc", "1,5", "0x10", "１２"] {
        let e = parse_duration(text).unwrap_err();
        assert_eq!(e.kind, ErrorKind::ParseFailure);
        assert_eq!(e.message, "Failed to parse duration: invalid float literal");
    }
}

#[test]
fn parse_duration_refuses_output_that_holds_nothing() {
    for text in ["", "   ", "\n", " \t\r\n", "\u{a0}\u{3000}"] {
        let e = parse_duration(text).unwrap_err();
        assert_eq!(e.kind, ErrorKind::ParseFailure);
        assert_eq!(e.message, "Failed to parse duration: cannot parse float from empty string");
    }
}

#[test]
fn parse_duration_goes_up_to_the_last_microsecond_in_range() {
    assert_eq!(parse_duration("18446744073709.551615").unwrap().micros, u64::MAX);
    assert_eq!(
        parse_duration("000000000000000000000000018446744073709.5516159").unwrap().micros,
        u64::MAX
    );
    for text in [
        "18446744073709.551616",
        "18446744073710",
        "18446744073709551616",
        "99999999999999999999999999999999",
    ] {
        let e = parse_duration(text).unwrap_err();
        assert_eq!(e.kind, ErrorKind::ParseFailure);
        assert_eq!(e.message, "Failed to parse duration: invalid float literal");
    }
}

#[test]
fn duration_from_probe_reports_a_prober_that_did_not_start() {
    let e = duration_from_probe(Err("No such file or directory".to_string())).unwrap_err();
    assert_eq!(e.kind, ErrorKind::ProcessLaunchFailure);
    assert_eq!(e.message, "Failed to execute ffprobe: No such file or directory");
}

#[test]
fn duration_from_probe_reads_the_output() {
    assert_eq!(duration_from_probe(Ok("42.000000\n".to_string())).unwrap().micros, 42_000_000);
    let e = duration_from_probe(Ok("N/A\n".to_string())).unwrap_err();
    assert_eq!(e.kind, ErrorKind::ParseFailure);
    assert_eq!(e.to_text(), "Failed to parse duration: invalid float literal");
    let e = duration_from_probe(Ok("".to_string())).unwrap_err();
    assert_eq!(e.to_text(), "Failed to parse duration: cannot parse float from empty string");
}
