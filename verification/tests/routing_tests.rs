use savant_core::routing::RoutingIdFilter;

#[test]
fn test_routing_id_filter() {
    let mut filter = RoutingIdFilter::new(2).unwrap();

    let topic1 = vec![1, 2, 3];
    let topic2 = vec![1, 2, 4];

    let routing_id = vec![4, 5, 6];
    let routing_id2 = vec![7, 8, 9];

    assert!(filter.allow(&topic1, &None));
    assert!(filter.allow(&topic1, &Some(&routing_id)));
    assert!(filter.allow(&topic1, &Some(&routing_id2)));
    assert!(!filter.allow(&topic1, &Some(&routing_id)));
    assert!(filter.allow(&topic1, &Some(&routing_id2)));

    assert!(filter.allow(&topic2, &None));
    assert!(filter.allow(&topic2, &Some(&routing_id2)));
    assert!(filter.allow(&topic2, &Some(&routing_id)));
    assert!(!filter.allow(&topic2, &Some(&routing_id2)));
    assert!(filter.allow(&topic2, &Some(&routing_id)));
}

#[test]
fn test_routing_id_filter_rejects_zero_capacity() {
    assert!(RoutingIdFilter::new(0).is_err());
    assert!(RoutingIdFilter::new(1).is_ok());
}

#[test]
fn test_routing_id_filter_eviction_readmits() {
    // Capacity one: after two identity switches the first retired pair has
    // been evicted, so the stale identity is admitted again on its next
    // appearance.
    let mut filter = RoutingIdFilter::new(1).unwrap();
    let topic = vec![9u8];
    let r1 = vec![1u8];
    let r2 = vec![2u8];
    let r3 = vec![3u8];

    assert!(filter.allow(&topic, &Some(&r1)));
    assert!(filter.allow(&topic, &Some(&r2))); // retires (topic, r1)
    assert!(!filter.allow(&topic, &Some(&r1))); // denied while retired
    assert!(filter.allow(&topic, &Some(&r3))); // retires (topic, r2), evicting (topic, r1)
    assert!(filter.allow(&topic, &Some(&r1))); // evicted, so admitted again
}

#[test]
fn test_routing_id_filter_current_stays_allowed() {
    let mut filter = RoutingIdFilter::new(4).unwrap();
    let topic = vec![0u8];
    let r1 = vec![1u8];
    assert!(filter.allow(&topic, &Some(&r1)));
    assert!(filter.allow(&topic, &Some(&r1)));
    assert!(filter.allow(&topic, &Some(&r1)));
    assert!(filter.allow(&topic, &None));
}
