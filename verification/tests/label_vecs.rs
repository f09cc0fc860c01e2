use network_metrics::registry::{
    try_create_int_counter_vec, try_create_int_gauge_vec, Registry,
};

#[test]
fn gauge_vec_creates_combinations_lazily() {
    let mut reg = Registry::new();
    let mut gv = try_create_int_gauge_vec(
        &mut reg,
        "peers",
        "Peers per status.",
        vec!["sync_status".to_string()],
    )
    .unwrap();
    let synced = vec!["Synced".to_string()];
    assert_eq!(gv.get(&synced), None);
    gv.set(&synced, 12);
    assert_eq!(gv.get(&synced), Some(12));
    gv.set(&synced, 3);
    assert_eq!(gv.get(&synced), Some(3));
}

#[test]
fn gauge_vec_reset_zeroes_every_known_combination() {
    let mut reg = Registry::new();
    let mut gv = try_create_int_gauge_vec(
        &mut reg,
        "peers",
        "Peers per status.",
        vec!["sync_status".to_string()],
    )
    .unwrap();
    let a = vec!["Synced".to_string()];
    let b = vec!["Behind".to_string()];
    gv.set(&a, 5);
    gv.set(&b, 7);
    gv.reset();
    // combinations survive a reset, reading zero
    assert_eq!(gv.get(&a), Some(0));
    assert_eq!(gv.get(&b), Some(0));
    assert_eq!(gv.get(&vec!["Never".to_string()]), None);
}

#[test]
fn gauge_vec_inc_starts_from_zero() {
    let mut reg = Registry::new();
    let mut gv =
        try_create_int_gauge_vec(&mut reg, "m", "M.", vec!["Client".to_string()]).unwrap();
    let k = vec!["Prysm".to_string()];
    gv.inc(&k);
    gv.inc(&k);
    assert_eq!(gv.get(&k), Some(2));
}

#[test]
fn counter_vec_tallies_per_label() {
    let mut reg = Registry::new();
    let mut cv = try_create_int_counter_vec(
        &mut reg,
        "gossip_errors",
        "Errors per type.",
        vec!["type".to_string()],
    )
    .unwrap();
    let invalid = vec!["invalid_signature".to_string()];
    let late = vec!["past_slot".to_string()];
    cv.inc(&invalid);
    cv.inc(&invalid);
    cv.inc_by(&late, 4);
    assert_eq!(cv.get(&invalid), Some(2));
    assert_eq!(cv.get(&late), Some(4));
    assert_eq!(cv.get(&vec!["other".to_string()]), None);
}

#[test]
fn gauge_vec_dec_can_go_negative() {
    let mut reg = Registry::new();
    let mut gv =
        try_create_int_gauge_vec(&mut reg, "m", "M.", vec!["Client".to_string()]).unwrap();
    let k = vec!["Nimbus".to_string()];
    gv.inc(&k);
    gv.dec(&k);
    gv.dec(&k);
    assert_eq!(gv.get(&k), Some(-1));
}

#[test]
fn gauge_vec_inc_by_moves_by_the_given_amount() {
    let mut reg = Registry::new();
    let mut gv =
        try_create_int_gauge_vec(&mut reg, "m", "M.", vec!["Client".to_string()]).unwrap();
    let k = vec!["Teku".to_string()];
    gv.inc_by(&k, 7);
    gv.inc_by(&k, -2);
    assert_eq!(gv.get(&k), Some(5));
}
