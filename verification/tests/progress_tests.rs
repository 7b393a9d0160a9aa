use compressor::progress::Progress;

#[test]
fn progress_counts_up_to_total() {
    let mut p = Progress::new(100);
    assert_eq!(p.done, 0);
    assert_eq!(p.total, 100);
    assert!(!p.is_finished());

    p.inc(40);
    assert_eq!(p.done, 40);
    assert!(p.done <= p.total);

    p.inc(35);
    assert_eq!(p.done, 75);
    assert!(p.done <= p.total);

    p.inc(25);
    assert_eq!(p.done, 100);
    assert!(p.is_finished());
}

#[test]
fn progress_on_empty_source() {
    let p = Progress::new(0);
    assert!(p.is_finished());
}

#[test]
fn progress_never_decreases() {
    let mut p = Progress::new(1_000_000);
    let mut last: u64 = 0;
    for step in [1u64, 8192, 8192, 100_000, 0, 7] {
        p.inc(step);
        assert!(p.done >= last);
        assert!(p.done <= p.total);
        last = p.done;
    }
}
