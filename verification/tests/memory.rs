use glycin::memory::{
    calculate_memory_limit, mem_available, memory_limit, DEFAULT_LIMIT, KEPT_FREE, MAX_CONSIDERED,
};

fn lines(text: &str) -> Vec<Vec<u8>> {
    text.lines().map(|line| line.as_bytes().to_vec()).collect()
}

#[test]
fn memory_and_swap_are_added_up() {
    let meminfo = lines(
        "MemTotal:       16000000 kB\nMemFree:         1000000 kB\nMemAvailable:    8000000 kB\n\
         SwapTotal:       4000000 kB\nSwapFree:        2000000 kB\n",
    );
    assert_eq!(mem_available(Some(&meminfo)), Some(10000000 * 1024));
}

#[test]
fn unknown_memory() {
    assert_eq!(mem_available(None), None);
    assert_eq!(mem_available(Some(&Vec::new())), None);
    assert_eq!(mem_available(Some(&lines("MemTotal: 5 kB"))), None);
    assert_eq!(mem_available(Some(&lines("MemAvailable:"))), None);
    assert_eq!(mem_available(Some(&lines("MemAvailable: much"))), None);
    assert_eq!(mem_available(Some(&lines("MemAvailable: -5"))), None);
    assert_eq!(memory_limit(None), 1024 * 1024 * 1024);
    assert_eq!(DEFAULT_LIMIT, 1024 * 1024 * 1024);
}

#[test]
fn unusual_amounts() {
    assert_eq!(mem_available(Some(&lines("MemAvailable: +5"))), Some(5120));
    assert_eq!(mem_available(Some(&lines("MemAvailable:  0"))), Some(0));
    assert_eq!(
        mem_available(Some(&lines("MemAvailable: 18446744073709551615 kB"))),
        Some(u64::MAX)
    );
    assert_eq!(
        mem_available(Some(&lines("MemAvailable: 18446744073709551616 kB"))),
        None
    );
    assert_eq!(
        mem_available(Some(&lines(
            "MemAvailable: 18446744073709551615 kB\nSwapFree: 1 kB"
        ))),
        Some(u64::MAX)
    );
}

#[test]
fn lines_on_something_else_do_not_matter() {
    let without = lines("MemAvailable: 7 kB\nSwapFree: 8 kB");
    let with = lines("MemAvailable: 7 kB\nCached: 1000 kB\nSwapFree: 8 kB");
    assert_eq!(mem_available(Some(&with)), mem_available(Some(&without)));
}

#[test]
fn limits() {
    assert_eq!(KEPT_FREE, 1024 * 1024 * 200);
    assert_eq!(MAX_CONSIDERED, 1024 * 1024 * 1024 * 20);
    assert_eq!(calculate_memory_limit(0), 0);
    assert_eq!(calculate_memory_limit(KEPT_FREE), 0);
    assert_eq!(calculate_memory_limit(KEPT_FREE + 5), 4);
    assert_eq!(calculate_memory_limit(KEPT_FREE + 9), 7);
    assert_eq!(calculate_memory_limit(u64::MAX), 17012097024);
    assert_eq!(memory_limit(Some(1024 * 1024 * 1024)), 691221299);
}

#[test]
fn limit_is_eighty_percent() {
    for available in [
        0,
        KEPT_FREE + 1,
        KEPT_FREE + 2,
        KEPT_FREE + 3,
        KEPT_FREE + 4,
        KEPT_FREE + 123456789,
        8 * 1024 * 1024 * 1024 + 1,
        MAX_CONSIDERED - 1,
        MAX_CONSIDERED,
        MAX_CONSIDERED + 1,
    ] {
        let considered = available.min(MAX_CONSIDERED).saturating_sub(KEPT_FREE);
        assert_eq!(
            calculate_memory_limit(available),
            (considered as f64 * 0.8) as u64
        );
    }
}

#[test]
fn limit_never_shrinks_with_more_memory() {
    let mut last = 0;
    for step in 0..100 {
        let limit = calculate_memory_limit(step * 333333333);
        assert!(limit >= last);
        assert!(step * 333333333 <= KEPT_FREE || limit <= step * 333333333 - KEPT_FREE);
        last = limit;
    }
}
