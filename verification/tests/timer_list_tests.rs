use miniftp::timer_list::TimerList;

#[test]
fn touch_records_and_refreshes() {
    let mut t = TimerList::new(60);
    assert_eq!(t.len(), 0);
    t.touch(3, 100);
    t.touch(4, 110);
    assert_eq!(t.len(), 2);
    assert!(t.contains(3));
    assert!(t.contains(4));
    // A refresh keeps one entry per descriptor.
    t.touch(3, 150);
    assert_eq!(t.len(), 2);
}

#[test]
fn remove_drops_only_the_named_descriptor() {
    let mut t = TimerList::new(60);
    t.touch(3, 100);
    t.touch(4, 110);
    t.remove(3);
    assert!(!t.contains(3));
    assert!(t.contains(4));
    t.remove(99);
    assert!(t.contains(4));
}

#[test]
fn expired_selects_exactly_the_stale_entries() {
    let mut t = TimerList::new(60);
    t.touch(3, 100);
    t.touch(4, 140);
    // At 161: entry 3 is 61s idle (stale), entry 4 only 21s (fresh).
    let stale = t.expired(161);
    assert_eq!(stale, vec![3]);
    // At the exact threshold nothing is evicted: 100 + 60 is not < 160.
    let none = t.expired(160);
    assert!(none.is_empty());
    // Refreshing rescues an entry.
    t.touch(3, 160);
    assert!(t.expired(161).is_empty());
}
