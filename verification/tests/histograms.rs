use network_metrics::registry::{
    try_create_histogram, try_create_histogram_vec, try_create_histogram_with_buckets, Registry,
    RegistrationError,
};

#[test]
fn boundary_observation_counts_in_its_bucket_and_above() {
    let mut reg = Registry::new();
    let mut h = try_create_histogram_with_buckets(
        &mut reg,
        "delay",
        "Delay in microseconds.",
        vec![100, 200, 300],
    )
    .unwrap();
    h.observe(200);
    // cumulative "<= boundary" semantics: the 200 bucket and every bucket
    // above it count the observation, the bucket below does not
    assert_eq!(h.get_cumulative(0), 0);
    assert_eq!(h.get_cumulative(1), 1);
    assert_eq!(h.get_cumulative(2), 1);
    assert_eq!(h.get_count(), 1);
    assert_eq!(h.get_sum(), 200);
}

#[test]
fn observation_above_last_boundary_raises_only_the_total() {
    let mut reg = Registry::new();
    let mut h =
        try_create_histogram_with_buckets(&mut reg, "d", "D.", vec![100, 200, 300]).unwrap();
    h.observe(1000);
    assert_eq!(h.get_cumulative(0), 0);
    assert_eq!(h.get_cumulative(1), 0);
    assert_eq!(h.get_cumulative(2), 0);
    assert_eq!(h.get_count(), 1);
}

#[test]
fn several_observations_accumulate() {
    let mut reg = Registry::new();
    let mut h =
        try_create_histogram_with_buckets(&mut reg, "d", "D.", vec![100, 200, 300]).unwrap();
    h.observe(50);
    h.observe(200);
    h.observe(250);
    h.observe(400);
    assert_eq!(h.get_cumulative(0), 1);
    assert_eq!(h.get_cumulative(1), 2);
    assert_eq!(h.get_cumulative(2), 3);
    assert_eq!(h.get_count(), 4);
    assert_eq!(h.get_sum(), 900);
}

#[test]
fn empty_bucket_list_is_rejected() {
    let mut reg = Registry::new();
    let r = try_create_histogram_with_buckets(&mut reg, "bad", "Bad.", vec![]);
    assert!(matches!(r, Err(RegistrationError::InvalidBuckets)));
}

#[test]
fn non_increasing_bucket_list_is_rejected() {
    let mut reg = Registry::new();
    let r = try_create_histogram_with_buckets(&mut reg, "bad", "Bad.", vec![100, 100, 300]);
    assert!(matches!(r, Err(RegistrationError::InvalidBuckets)));
    let r2 = try_create_histogram_with_buckets(&mut reg, "bad", "Bad.", vec![300, 200]);
    assert!(matches!(r2, Err(RegistrationError::InvalidBuckets)));
}

#[test]
fn rejected_buckets_leave_the_name_free() {
    let mut reg = Registry::new();
    let bad = try_create_histogram_with_buckets(&mut reg, "h", "H.", vec![5, 5]);
    assert!(bad.is_err());
    let good = try_create_histogram_with_buckets(&mut reg, "h", "H.", vec![5, 10]);
    assert!(good.is_ok());
}

#[test]
fn default_buckets_start_at_five_milliseconds() {
    let mut reg = Registry::new();
    let mut h = try_create_histogram(&mut reg, "lat", "Latency.").unwrap();
    h.observe(5000);
    assert_eq!(h.get_cumulative(0), 1);
    assert_eq!(h.get_count(), 1);
}

#[test]
fn histogram_vec_tracks_each_label_separately() {
    let mut reg = Registry::new();
    let mut hv = try_create_histogram_vec(
        &mut reg,
        "times",
        "Times per type.",
        vec!["type".to_string()],
    )
    .unwrap();
    let a = vec!["attestation".to_string()];
    let b = vec!["block".to_string()];
    assert_eq!(hv.get_total(&a), None);
    hv.observe(&a, 7000);
    hv.observe(&a, 12000);
    hv.observe(&b, 90000);
    assert_eq!(hv.get_total(&a), Some(2));
    assert_eq!(hv.get_total(&b), Some(1));
}

#[test]
fn decimal_buckets_give_the_one_two_five_progression() {
    let b = network_metrics::registry::decimal_buckets(-3, -1);
    // 0.001 s up to 0.5 s, in microseconds
    assert_eq!(
        b,
        vec![1000, 2000, 5000, 10000, 20000, 50000, 100000, 200000, 500000]
    );
}
