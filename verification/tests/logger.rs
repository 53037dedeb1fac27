use httpbench::observation_logger::{ObservationLogger, SimpleLogger};
use httpbench::request_generator::RequestError;

fn merge(a: SimpleLogger, b: SimpleLogger) -> SimpleLogger {
    ObservationLogger::<RequestError>::merge(a, b)
}

#[test]
fn empty_logger_renders_no_results() {
    let l = SimpleLogger::new();
    assert_eq!(l.render(), "No results");
}

#[test]
fn only_failures_render_no_results() {
    let mut l = SimpleLogger::new();
    l.log_start_of_request_at(1000);
    l.log_end_of_request_at(true, 2000);
    l.log_start_of_request_at(3000);
    l.log_end_of_request_at(true, 9000);
    assert_eq!(l.completed_count(), 0);
    assert_eq!(l.render(), "No results");
}

#[test]
fn sub_second_span_renders_no_results() {
    let mut l = SimpleLogger::new();
    l.log_start_of_request_at(1000);
    l.log_end_of_request_at(false, 1999);
    assert_eq!(l.completed_count(), 1);
    assert_eq!(l.render(), "No results");
}

#[test]
fn exact_rps_figure() {
    // Two completions over a two-second span: 1.000 requests per second.
    let mut l = SimpleLogger::new();
    l.log_start_of_request_at(1000);
    l.log_end_of_request_at(false, 2000);
    l.log_start_of_request_at(2000);
    l.log_end_of_request_at(false, 3000);
    assert_eq!(l.completed_count(), 2);
    assert_eq!(l.render(), "RPS: 1.000");
}

#[test]
fn fractional_rps_figure() {
    // Five completions over a two-second span: 2.500 requests per second.
    let mut l = SimpleLogger::new();
    for k in 0..5u32 {
        let start = 1000 + (k as i64) * 400;
        l.log_start_of_request_at(start);
        l.log_end_of_request_at(false, if k == 4 { 3000 } else { start + 100 });
    }
    assert_eq!(l.completed_count(), 5);
    assert_eq!(l.render(), "RPS: 2.500");
}

#[test]
fn failed_attempts_widen_the_span_only_by_their_start() {
    // One completion; a failed attempt started earlier moves the minimum
    // start back without contributing an end.
    let mut l = SimpleLogger::new();
    l.log_start_of_request_at(0);
    l.log_end_of_request_at(true, 500);
    l.log_start_of_request_at(1000);
    l.log_end_of_request_at(false, 2000);
    // span 0..2000 -> 2 whole seconds, 1 completion -> 0.500
    assert_eq!(l.render(), "RPS: 0.500");
}

#[test]
fn end_without_start_records_nothing() {
    let mut l = SimpleLogger::new();
    l.log_end_of_request_at(false, 1000);
    assert_eq!(l.observations.len(), 0);
    assert_eq!(l.render(), "No results");
}

#[test]
fn a_new_start_overwrites_a_stale_one() {
    let mut l = SimpleLogger::new();
    l.log_start_of_request_at(1000);
    l.log_start_of_request_at(4000);
    l.log_end_of_request_at(false, 5000);
    assert_eq!(l.observations.len(), 1);
    assert_eq!(l.observations[0].start_millis, 4000);
}

#[test]
fn merge_adds_completion_counts() {
    let mut a = SimpleLogger::new();
    a.log_start_of_request_at(1000);
    a.log_end_of_request_at(false, 2000);
    a.log_start_of_request_at(2000);
    a.log_end_of_request_at(false, 2500);

    let mut b = SimpleLogger::new();
    b.log_start_of_request_at(1500);
    b.log_end_of_request_at(false, 2200);
    b.log_start_of_request_at(2200);
    b.log_end_of_request_at(true, 2300);

    let count_a = a.completed_count();
    let count_b = b.completed_count();
    let merged = merge(a, b);
    assert_eq!(merged.completed_count(), count_a + count_b);
    assert_eq!(merged.observations.len(), 4);
}

#[test]
fn merged_render_spans_the_full_union() {
    // A completes 10000..11000; B completes 5000..15000. The union spans
    // 5000..15000: two completions over ten seconds -> 0.200.
    let mut a = SimpleLogger::new();
    a.log_start_of_request_at(10_000);
    a.log_end_of_request_at(false, 11_000);

    let mut b = SimpleLogger::new();
    b.log_start_of_request_at(5_000);
    b.log_end_of_request_at(false, 15_000);

    let merged = merge(a, b);
    assert_eq!(merged.render(), "RPS: 0.200");
}

#[test]
fn merge_order_does_not_change_the_report() {
    let mut a = SimpleLogger::new();
    a.log_start_of_request_at(10_000);
    a.log_end_of_request_at(false, 11_000);
    let mut a2 = SimpleLogger::new();
    a2.log_start_of_request_at(10_000);
    a2.log_end_of_request_at(false, 11_000);

    let mut b = SimpleLogger::new();
    b.log_start_of_request_at(5_000);
    b.log_end_of_request_at(false, 15_000);
    let mut b2 = SimpleLogger::new();
    b2.log_start_of_request_at(5_000);
    b2.log_end_of_request_at(false, 15_000);

    let ab = merge(a, b);
    let ba = merge(b2, a2);
    assert_eq!(ab.render(), ba.render());
    assert_eq!(ab.completed_count(), ba.completed_count());
}

#[test]
fn merge_with_empty_logger_changes_nothing() {
    let mut a = SimpleLogger::new();
    a.log_start_of_request_at(1000);
    a.log_end_of_request_at(false, 3000);
    let merged = merge(a, SimpleLogger::new());
    assert_eq!(merged.completed_count(), 1);
    assert_eq!(merged.render(), "RPS: 0.500");
}

#[test]
fn default_logger_is_empty() {
    let l = SimpleLogger::default();
    assert_eq!(l.observations.len(), 0);
    assert!(l.current.is_none());
}

#[test]
fn trait_logging_with_the_real_clock() {
    let mut l = SimpleLogger::new();
    ObservationLogger::<RequestError>::log_start_of_request(&mut l);
    ObservationLogger::<RequestError>::log_end_of_request(&mut l, None);
    ObservationLogger::<RequestError>::log_start_of_request(&mut l);
    ObservationLogger::<RequestError>::log_end_of_request(
        &mut l,
        Some(RequestError::StatusError),
    );
    assert_eq!(l.observations.len(), 2);
    assert_eq!(l.completed_count(), 1);
    assert!(l.observations[0].end_millis.is_some());
    assert!(l.observations[1].end_millis.is_none());
    assert!(l.observations[0].start_millis > 0);
    assert!(l.current.is_none());
}
