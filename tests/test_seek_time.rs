use web_radio::seek_time::{ffmeg_seek_time_arg_format, parse_seek_time};

#[test]
fn seek_time_format_scenarios() {
    assert_eq!(ffmeg_seek_time_arg_format(0), "00:00.000000");
    assert_eq!(ffmeg_seek_time_arg_format(1500), "00:01.500000");
    assert_eq!(ffmeg_seek_time_arg_format(3_600_000), "01:00:00.000000");
    assert_eq!(ffmeg_seek_time_arg_format(3_723_456), "01:02:03.456000");
}

#[test]
fn seek_time_many_hours() {
    assert_eq!(ffmeg_seek_time_arg_format(10_000_000_000), "2777:46:40.000000");
}

#[test]
fn seek_time_round_trip() {
    for ms in [0u64, 1, 999, 1000, 59_999, 60_000, 3_599_999, 3_600_000, 3_723_456, 10_000_000_000] {
        assert_eq!(parse_seek_time(&ffmeg_seek_time_arg_format(ms)), Some(ms));
    }
}

#[test]
fn seek_time_parser_rejects_other_shapes() {
    assert_eq!(parse_seek_time(""), None);
    assert_eq!(parse_seek_time("1:02.000000"), None);
    assert_eq!(parse_seek_time("00:01,500000"), None);
    assert_eq!(parse_seek_time("x1:00:00.000000"), None);
    assert_eq!(parse_seek_time("99999999999999999999:00:00.000000"), None);
}

#[test]
fn seek_time_parser_truncates_microseconds() {
    assert_eq!(parse_seek_time("00:01.500999"), Some(1500));
}
