use tray_indicator::icon::IconOwner;

#[test]
fn fresh_owner_is_empty() {
    let owner = IconOwner::new();
    assert_eq!(owner.current(), None);
    assert_eq!(owner.installed, 0);
    assert_eq!(owner.released, 0);
}

#[test]
fn install_swaps_and_releases_the_superseded_handle() {
    let mut owner = IconOwner::new();
    assert_eq!(owner.install(101), None);
    assert_eq!(owner.current(), Some(101));
    assert_eq!(owner.install(102), Some(101));
    assert_eq!(owner.current(), Some(102));
    assert_eq!(owner.installed, 2);
    assert_eq!(owner.released, 1);
}

#[test]
fn releases_balance_installs_at_shutdown() {
    // count create/release operations over a whole session: after
    // release_all, releases equal successful installs exactly
    let mut owner = IconOwner::new();
    let mut destroyed = Vec::new();
    for h in 1..=5u64 {
        if let Some(old) = owner.install(h) {
            destroyed.push(old);
        }
    }
    if let Some(last) = owner.release_all() {
        destroyed.push(last);
    }
    assert_eq!(owner.installed, 5);
    assert_eq!(owner.released, 5);
    assert_eq!(owner.current(), None);
    // every installed handle was handed out for destruction exactly once
    assert_eq!(destroyed, vec![1, 2, 3, 4, 5]);
}

#[test]
fn release_all_with_nothing_live_is_a_no_op() {
    let mut owner = IconOwner::new();
    assert_eq!(owner.release_all(), None);
    assert_eq!(owner.installed, 0);
    assert_eq!(owner.released, 0);
    assert_eq!(owner.current(), None);
}
