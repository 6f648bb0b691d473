use servicer::proc_stats::{
    compute_cpu_percents, cpu_percent, cpu_ticks_from_stat, memory_from_statm, memory_usage_kb,
    page_size_from_smaps,
};
use servicer::text::{parse_u64, split_whitespace_tokens, trim_end_ws, u64_to_dec_string};
use servicer::ServiceError;

#[test]
fn cpu_percent_from_synthetic_ticks() {
    // 100 ticks over a 100 ms window at 100 ticks per second is a full
    // second of CPU time in a tenth of a second of wall clock.
    assert_eq!(cpu_percent(1000, 1100, 100, 100), 1000);
    // One tick over the same window is 10 ms of CPU time.
    assert_eq!(cpu_percent(1000, 1001, 100, 100), 10);
    // No movement, no use.
    assert_eq!(cpu_percent(1000, 1000, 100, 100), 0);
}

#[test]
fn cpu_percent_of_backwards_reading_is_zero() {
    assert_eq!(cpu_percent(1100, 1000, 100, 100), 0);
}

#[test]
fn cpu_percents_are_elementwise() {
    let t0 = vec![1000, 500, 42];
    let t1 = vec![1100, 500, 41];
    assert_eq!(compute_cpu_percents(&t0, &t1, 100, 100), vec![1000, 0, 0]);
}

#[test]
fn memory_from_synthetic_pages() {
    assert_eq!(memory_usage_kb(50, 10, 4), 160);
}

#[test]
fn memory_is_zero_when_shared_exceeds_resident() {
    assert_eq!(memory_usage_kb(10, 50, 4), 0);
}

#[test]
fn cpu_ticks_sum_of_stat_fields() {
    // A shortened stat record: the 14th and 15th fields are 250 and 50.
    let stat = "1234 (node) S 1 1234 1234 0 -1 4194304 500 0 0 0 250 50 0 0 20 0 11 0 123456 1000000 500 18446744073709551615";
    assert_eq!(cpu_ticks_from_stat(stat), Ok(300));
}

#[test]
fn cpu_ticks_of_short_record_is_malformed() {
    assert_eq!(
        cpu_ticks_from_stat("1234 (node) S 1"),
        Err(ServiceError::MalformedProcessStat)
    );
    assert_eq!(
        cpu_ticks_from_stat("1234 (node) S 1 2 3 4 5 6 7 8 9 10 eleven 12 13 14 15"),
        Err(ServiceError::MalformedProcessStat)
    );
}

#[test]
fn memory_from_statm_record() {
    // total=2000, resident=50, shared=10 pages.
    assert_eq!(memory_from_statm("2000 50 10 100 0 200 0", 4), Ok(160));
    assert_eq!(memory_from_statm("2000 50", 4), Err(ServiceError::MalformedProcessStat));
    assert_eq!(memory_from_statm("2000 x 10", 4), Err(ServiceError::MalformedProcessStat));
}

#[test]
fn page_size_read_from_smaps() {
    let smaps = "Size:                  4 kB\nKernelPageSize:        4 kB\nMMUPageSize:           4 kB\n";
    assert_eq!(page_size_from_smaps(smaps), Some(4));
    assert_eq!(page_size_from_smaps("Size: 4 kB\n"), None);
    assert_eq!(page_size_from_smaps(""), None);
}

#[test]
fn parse_u64_reads_digit_runs_only() {
    assert_eq!(parse_u64("0"), Some(0));
    assert_eq!(parse_u64("42"), Some(42));
    assert_eq!(parse_u64("18446744073709551615"), Some(u64::MAX));
    assert_eq!(parse_u64("18446744073709551616"), None);
    assert_eq!(parse_u64(""), None);
    assert_eq!(parse_u64("4 2"), None);
    assert_eq!(parse_u64("-1"), None);
    assert_eq!(parse_u64("12a"), None);
}

#[test]
fn dec_string_renders_decimal() {
    assert_eq!(u64_to_dec_string(0), "0");
    assert_eq!(u64_to_dec_string(15), "15");
    assert_eq!(u64_to_dec_string(u64::MAX), "18446744073709551615");
}

#[test]
fn tokens_split_on_any_whitespace() {
    assert_eq!(
        split_whitespace_tokens(" a\tbb \n ccc\r"),
        vec!["a".to_string(), "bb".to_string(), "ccc".to_string()]
    );
    assert_eq!(split_whitespace_tokens(""), Vec::<String>::new());
    assert_eq!(split_whitespace_tokens(" \t\n"), Vec::<String>::new());
}

#[test]
fn trim_removes_trailing_whitespace_only() {
    assert_eq!(trim_end_ws("/usr/bin/node\n"), "/usr/bin/node");
    assert_eq!(trim_end_ws("  a b  "), "  a b");
    assert_eq!(trim_end_ws("\n\t "), "");
}
