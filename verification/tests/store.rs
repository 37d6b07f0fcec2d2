use feed_handler::{HistoryStore, MarketData, CAPACITY};

fn record(n: u64) -> MarketData {
    MarketData {
        symbol: format!("SYM{}", n),
        price_bits: (n as f64 * 1.25).to_bits(),
        volume_bits: (n as f64 + 0.5).to_bits(),
        timestamp: n,
    }
}

fn btcusd() -> MarketData {
    MarketData {
        symbol: "BTCUSD".to_string(),
        price_bits: 50000.0f64.to_bits(),
        volume_bits: 1.5f64.to_bits(),
        timestamp: 1234567890,
    }
}

#[test]
fn capacity_is_one_thousand() {
    assert_eq!(CAPACITY, 1000);
}

#[test]
fn new_store_is_empty() {
    let store = HistoryStore::new();
    assert_eq!(store.len(), 0);
    assert!(store.is_empty());
    assert!(store.snapshot().is_empty());
}

#[test]
fn append_then_snapshot_returns_the_record() {
    let mut store = HistoryStore::new();
    store.append(btcusd());
    let first = store.snapshot();
    assert_eq!(first.len(), 1);
    assert_eq!(first[0], btcusd());
    assert_eq!(first[0].symbol, "BTCUSD");
    assert_eq!(f64::from_bits(first[0].price_bits), 50000.0);
    assert_eq!(f64::from_bits(first[0].volume_bits), 1.5);
    assert_eq!(first[0].timestamp, 1234567890);
    assert!(!store.is_empty());

    store.append(btcusd());
    let second = store.snapshot();
    assert_eq!(second.len(), 2);
    assert_eq!(second, vec![btcusd(), btcusd()]);
}

#[test]
fn length_is_appends_or_capacity_whichever_is_smaller() {
    let mut store = HistoryStore::new();
    for k in 1..=1500usize {
        store.append(record(k as u64));
        assert_eq!(store.len(), k.min(1000));
        assert_eq!(store.snapshot().len(), k.min(1000));
    }
}

#[test]
fn a_full_store_keeps_everything_until_the_next_append() {
    let mut store = HistoryStore::new();
    for n in 1..=1000u64 {
        store.append(record(n));
    }
    let held = store.snapshot();
    assert_eq!(held.len(), 1000);
    assert_eq!(held[0], record(1));
    assert_eq!(held[999], record(1000));
}

#[test]
fn the_oldest_record_leaves_first() {
    let mut store = HistoryStore::new();
    for n in 1..=1001u64 {
        store.append(record(n));
    }
    let held = store.snapshot();
    assert_eq!(held.len(), 1000);
    for (i, r) in held.iter().enumerate() {
        assert_eq!(*r, record(i as u64 + 2));
    }
    assert!(!held.contains(&record(1)));
}

#[test]
fn eviction_goes_by_arrival_not_by_timestamp() {
    let mut store = HistoryStore::new();
    for n in 0..1002u64 {
        store.append(record(5000 - n));
    }
    let held = store.snapshot();
    assert_eq!(held.len(), 1000);
    assert_eq!(held[0].timestamp, 4998);
    assert_eq!(held[999].timestamp, 3999);
}

#[test]
fn a_snapshot_is_not_touched_by_later_appends() {
    let mut store = HistoryStore::new();
    for n in 1..=5u64 {
        store.append(record(n));
    }
    let taken = store.snapshot();
    for n in 6..=2000u64 {
        store.append(record(n));
    }
    assert_eq!(taken, vec![record(1), record(2), record(3), record(4), record(5)]);
    assert_eq!(store.snapshot()[0], record(1001));
}

#[test]
fn changing_a_snapshot_does_not_change_the_store() {
    let mut store = HistoryStore::new();
    store.append(record(1));
    let mut taken = store.snapshot();
    taken[0].timestamp = 99;
    taken.push(record(2));
    assert_eq!(store.snapshot(), vec![record(1)]);
}

#[test]
fn a_cloned_record_equals_its_source() {
    let source = btcusd();
    let copy = source.clone();
    assert_eq!(copy, source);
}

#[test]
fn bit_patterns_are_carried_through_unchanged() {
    let odd = MarketData {
        symbol: String::new(),
        price_bits: f64::NAN.to_bits(),
        volume_bits: (-0.0f64).to_bits(),
        timestamp: u64::MAX,
    };
    let mut store = HistoryStore::new();
    store.append(odd.clone());
    let held = store.snapshot();
    assert_eq!(held[0].price_bits, f64::NAN.to_bits());
    assert_eq!(held[0].volume_bits, 1u64 << 63);
    assert_eq!(held[0].timestamp, u64::MAX);
    assert_eq!(held[0].symbol, "");
}
