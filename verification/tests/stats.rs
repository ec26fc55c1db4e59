use glimmerkit_build::stats::{CollectedStats, Stat, StatStart};
use std::time::Duration;

#[test]
fn empty_collection_totals_to_nothing() {
    let stats = CollectedStats::new();
    let total = stats.total();
    assert_eq!(total.files, 0);
    assert_eq!(total.elapsed, Duration::from_secs(0));
    assert_eq!(stats.len(), 0);
}

#[test]
fn total_counts_and_adds() {
    let mut stats = CollectedStats::new();
    stats.add(Stat::new("a.ts".to_string(), Duration::from_millis(5)));
    stats.add(Stat::new("b.ts".to_string(), Duration::from_millis(7)));
    let total = stats.total();
    assert_eq!(total.files, 2);
    assert_eq!(total.elapsed, Duration::from_millis(12));
}

#[test]
fn total_keeps_the_nanoseconds() {
    let mut stats = CollectedStats::new();
    stats.add(Stat::new("a.ts".to_string(), Duration::new(1, 999_999_999)));
    stats.add(Stat::new("b.ts".to_string(), Duration::new(2, 2)));
    let total = stats.total();
    assert_eq!(total.elapsed, Duration::new(4, 1));
}

#[test]
fn concat_appends_a_package_at_a_time() {
    let mut stats = CollectedStats::new();
    stats.concat(vec![
        Stat::new("a/x.ts".to_string(), Duration::from_micros(10)),
        Stat::new("a/y.ts".to_string(), Duration::from_micros(20)),
    ]);
    stats.concat(vec![]);
    stats.concat(vec![Stat::new("b/z.ts".to_string(), Duration::from_micros(30))]);
    let total = stats.total();
    assert_eq!(total.files, 3);
    assert_eq!(total.elapsed, Duration::from_micros(60));
    assert_eq!(stats.len(), 3);
}

#[test]
fn total_does_not_depend_on_the_order() {
    let spans = [3u64, 1, 4, 1, 5, 9, 2, 6];
    let mut forward = CollectedStats::new();
    for span in spans.iter() {
        forward.add(Stat::new("f.ts".to_string(), Duration::from_nanos(*span)));
    }
    let mut backward = CollectedStats::new();
    for span in spans.iter().rev() {
        backward.add(Stat::new("f.ts".to_string(), Duration::from_nanos(*span)));
    }
    assert_eq!(forward.total().files, backward.total().files);
    assert_eq!(forward.total().elapsed, backward.total().elapsed);
    assert_eq!(forward.total().elapsed, Duration::from_nanos(31));
}

#[test]
fn checked_total_agrees_with_total() {
    let mut stats = CollectedStats::new();
    stats.add(Stat::new("a.ts".to_string(), Duration::from_secs(2)));
    stats.add(Stat::new("b.ts".to_string(), Duration::from_secs(3)));
    let total = stats.checked_total().unwrap();
    assert_eq!(total.files, 2);
    assert_eq!(total.elapsed, Duration::from_secs(5));
}

#[test]
fn checked_total_reaches_the_longest_span() {
    let mut stats = CollectedStats::new();
    stats.add(Stat::new("a.ts".to_string(), Duration::new(u64::MAX, 999_999_998)));
    stats.add(Stat::new("b.ts".to_string(), Duration::from_nanos(1)));
    let total = stats.checked_total().unwrap();
    assert_eq!(total.elapsed, Duration::MAX);
}

#[test]
fn checked_total_refuses_what_does_not_fit() {
    let mut stats = CollectedStats::new();
    stats.add(Stat::new("a.ts".to_string(), Duration::MAX));
    stats.add(Stat::new("b.ts".to_string(), Duration::from_nanos(1)));
    stats.add(Stat::new("c.ts".to_string(), Duration::from_nanos(1)));
    assert!(stats.checked_total().is_none());
}

#[test]
fn stat_holds_what_it_was_given() {
    let stat = Stat::new("src/a.ts".to_string(), Duration::from_millis(42));
    assert_eq!(stat.file(), "src/a.ts");
    assert_eq!(stat.elapsed(), Duration::from_millis(42));
}

#[test]
fn started_stat_finishes_for_the_same_file() {
    let started = StatStart::new("src/a.ts".to_string());
    assert_eq!(started.path(), "src/a.ts");
    let stat = started.done();
    assert_eq!(stat.file(), "src/a.ts");
    assert!(stat.elapsed() < Duration::from_secs(3600));
}
