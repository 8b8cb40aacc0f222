use wasabi::soak::{csv_fields, env_u64, parse_u64, proc_status_field, soak_counts, trend_gate, SoakCounts, SoakLineError, TrendGate, MIN_SAMPLES_FOR_TREND};

const STATUS: &str = "Name:\tsoak\nUmask:\t0022\nVmRSS:\t   51234 kB\nThreads:\t17\nVmSwap:\tnone\n";

#[test]
fn status_fields_are_read_from_their_first_line() {
    assert_eq!(proc_status_field(STATUS, "VmRSS"), Some(51234));
    assert_eq!(proc_status_field(STATUS, "Threads"), Some(17));
    assert_eq!(proc_status_field(STATUS, "Umask"), Some(22));
    assert_eq!(proc_status_field(STATUS, "VmHWM"), None);
    assert_eq!(proc_status_field("", "VmRSS"), None);
}

#[test]
fn a_field_that_does_not_parse_is_none_even_when_a_later_line_would() {
    assert_eq!(proc_status_field(STATUS, "VmSwap"), None);
    assert_eq!(proc_status_field("Vm:\tx\nVm:\t4\n", "Vm"), None);
    // The prefix match is on the name alone, so "Vm" also matches "VmRSS".
    assert_eq!(proc_status_field("VmRSS:\t8 kB\n", "Vm"), None);
    assert_eq!(proc_status_field("VmRSS::: 9\n", "VmRSS"), Some(9));
}

#[test]
fn carriage_returns_before_line_feeds_are_not_part_of_a_line() {
    assert_eq!(proc_status_field("A:\t1\r\nB:\t2\r\n", "B"), Some(2));
    assert_eq!(proc_status_field("A\r\nA\r:3\n", "A\r"), Some(3));
    assert_eq!(proc_status_field("Last:\t5\r", "Last"), Some(5));
}

#[test]
fn numbers_parse_as_u64_from_str_does() {
    let chars = |s: &str| s.chars().collect::<Vec<char>>();
    assert_eq!(parse_u64(&chars("0")), Some(0));
    assert_eq!(parse_u64(&chars("+42")), Some(42));
    assert_eq!(parse_u64(&chars("18446744073709551615")), Some(u64::MAX));
    assert_eq!(parse_u64(&chars("18446744073709551616")), None);
    assert_eq!(parse_u64(&chars("")), None);
    assert_eq!(parse_u64(&chars("+")), None);
    assert_eq!(parse_u64(&chars("-1")), None);
    assert_eq!(parse_u64(&chars("12a")), None);
    for s in ["7", "+7", "007", "99999999999999999999", "1_000", " 1"] {
        assert_eq!(parse_u64(&chars(s)), s.parse::<u64>().ok(), "{s:?}");
    }
}

#[test]
fn settings_fall_back_when_absent_or_unreadable() {
    assert_eq!(env_u64(None, 30), 30);
    assert_eq!(env_u64(Some(" 120\n"), 30), 120);
    assert_eq!(env_u64(Some("two"), 30), 30);
    assert_eq!(env_u64(Some(""), 30), 30);
    assert_eq!(env_u64(Some("+5"), 30), 5);
}

#[test]
fn the_trend_gate_skips_missing_probes_and_short_runs() {
    assert_eq!(MIN_SAMPLES_FOR_TREND, 6);
    assert_eq!(trend_gate(&[]), TrendGate::TooFewWindows);
    assert_eq!(trend_gate(&[true; 5]), TrendGate::TooFewWindows);
    assert_eq!(trend_gate(&[true; 6]), TrendGate::Judge);
    assert_eq!(trend_gate(&[true, true, false, true, true, true, true]), TrendGate::ProbesUnavailable);
    assert_eq!(trend_gate(&[false]), TrendGate::ProbesUnavailable);
}

fn fields_text(line: &str) -> Vec<String> {
    csv_fields(line).iter().map(|f| f.iter().collect()).collect()
}

#[test]
fn csv_lines_split_at_every_comma() {
    assert_eq!(fields_text("a, b,,c "), vec!["a", " b", "", "c "]);
    assert_eq!(fields_text(""), vec![""]);
    assert_eq!(fields_text(","), vec!["", ""]);
}

#[test]
fn soak_lines_give_their_whole_number_columns() {
    let ok = csv_fields("60.0, 51234 ,17,9,0,3,120.5,480.0");
    assert_eq!(
        soak_counts(&ok),
        Ok(SoakCounts { rss_kib: Some(51234), threads: Some(17), fds: 9, ingress_depth: 0, ingress_dropped: 3 })
    );
    let unprobed = csv_fields("60.0,, ,9,0,3,1,2");
    assert_eq!(
        soak_counts(&unprobed),
        Ok(SoakCounts { rss_kib: None, threads: None, fds: 9, ingress_depth: 0, ingress_dropped: 3 })
    );
    assert_eq!(soak_counts(&csv_fields("1,2,3")), Err(SoakLineError::FieldCount(3)));
    assert_eq!(soak_counts(&csv_fields("1,x,3,4,5,6,7,8")), Err(SoakLineError::NotANumber(1)));
    assert_eq!(soak_counts(&csv_fields("1,2,3,,5,6,7,8")), Err(SoakLineError::NotANumber(3)));
    assert_eq!(soak_counts(&csv_fields("1,2,3,4,5,-6,7,8")), Err(SoakLineError::NotANumber(5)));
}
