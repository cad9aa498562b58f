use geotiff_extractor::cache::MinMaxCache;
use std::cell::Cell;

#[test]
fn second_demand_reuses_first_value() {
    let calls = Cell::new(0u32);
    let mut cache: MinMaxCache<(i64, i64)> = MinMaxCache::new();
    let first: Result<(i64, i64), String> = cache.get_or_compute(|| {
        calls.set(calls.get() + 1);
        Ok((17, 10000))
    });
    let second: Result<(i64, i64), String> = cache.get_or_compute(|| {
        calls.set(calls.get() + 1);
        Ok((0, 1))
    });
    assert_eq!(first, Ok((17, 10000)));
    assert_eq!(second, Ok((17, 10000)));
    assert_eq!(calls.get(), 1);
    assert_eq!(cache.peek(), Some((17, 10000)));
}

#[test]
fn new_cache_holds_nothing() {
    let cache: MinMaxCache<u8> = MinMaxCache::new();
    assert_eq!(cache.peek(), None);
}

#[test]
fn failed_computation_leaves_cache_empty_and_retries() {
    let calls = Cell::new(0u32);
    let mut cache: MinMaxCache<u8> = MinMaxCache::new();
    let first: Result<u8, &str> = cache.get_or_compute(|| {
        calls.set(calls.get() + 1);
        Err("band read failed")
    });
    assert_eq!(first, Err("band read failed"));
    assert_eq!(cache.peek(), None);
    let second: Result<u8, &str> = cache.get_or_compute(|| {
        calls.set(calls.get() + 1);
        Ok(3)
    });
    assert_eq!(second, Ok(3));
    assert_eq!(calls.get(), 2);
    let third: Result<u8, &str> = cache.get_or_compute(|| {
        calls.set(calls.get() + 1);
        Err("never asked")
    });
    assert_eq!(third, Ok(3));
    assert_eq!(calls.get(), 2);
}
