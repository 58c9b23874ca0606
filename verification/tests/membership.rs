use espresso_node::membership::{EpochMembershipCoordinator, MembershipError, EpochQuery};
use espresso_node::registry::CatchupRegistry;
use std::sync::{Arc, Mutex};

type Coordinator = EpochMembershipCoordinator<Arc<u32>, Arc<Mutex<CatchupRegistry<u8>>>, Arc<u8>>;

fn coordinator() -> Coordinator {
    EpochMembershipCoordinator::new(Arc::new(7), None, 100)
}

#[test]
fn new_keeps_membership_and_height() {
    let c = coordinator();
    assert_eq!(**c.membership(), 7);
    assert_eq!(c.epoch_height, 100);
    assert!(c.storage_add_drb_result_fn().is_none());
    assert!(!c.catchup_map().lock().unwrap().contains_key(3));
}

#[test]
fn membership_for_none_epoch_is_ready() {
    let c = coordinator();
    for has in [false, true] {
        for busy in [false, true] {
            let m = c.membership_for_epoch(None, has, busy).unwrap();
            assert_eq!(m.epoch(), None);
            assert_eq!(m.coordinator.epoch_height, 100);
        }
    }
}

#[test]
fn membership_for_epoch_with_table_is_ready() {
    let c = coordinator();
    let m = c.membership_for_epoch(Some(5), true, true).unwrap();
    assert_eq!(m.epoch, Some(5));
    assert!(Arc::ptr_eq(m.coordinator.membership(), c.membership()));
}

#[test]
fn membership_for_epoch_catchup_in_progress() {
    let c = coordinator();
    assert_eq!(
        c.membership_for_epoch(Some(5), false, true).err(),
        Some(MembershipError::CatchupInProgress { epoch: 5, randomized: true })
    );
}

#[test]
fn membership_for_epoch_starts_catchup() {
    let c = coordinator();
    assert_eq!(
        c.membership_for_epoch(Some(5), false, false).err(),
        Some(MembershipError::CatchupStarted { epoch: 5, randomized: true })
    );
}

#[test]
fn stake_table_for_epoch_answers() {
    let c = coordinator();
    assert_eq!(c.stake_table_for_epoch(Some(9), true, false).unwrap().epoch, Some(9));
    assert_eq!(
        c.stake_table_for_epoch(Some(9), false, true).err(),
        Some(MembershipError::CatchupInProgress { epoch: 9, randomized: false })
    );
    assert_eq!(
        c.stake_table_for_epoch(Some(9), false, false).err(),
        Some(MembershipError::CatchupStarted { epoch: 9, randomized: false })
    );
    assert_eq!(c.stake_table_for_epoch(None, false, false).unwrap().epoch, None);
}

#[test]
fn next_epoch_of_none_fails() {
    let c = coordinator();
    let m = c.membership_for_epoch(None, false, false).unwrap();
    assert_eq!(m.next_epoch(true, false).err(), Some(MembershipError::NoNextEpoch));
    assert_eq!(m.next_epoch_stake_table(true, false).err(), Some(MembershipError::NoNextEpoch));
    assert_eq!(m.next_epoch_number(), Err(MembershipError::NoNextEpoch));
}

#[test]
fn next_epoch_looks_up_the_following_epoch() {
    let c = coordinator();
    let m = c.membership_for_epoch(Some(4), true, false).unwrap();
    assert_eq!(m.next_epoch_number(), Ok(5));
    assert_eq!(m.next_epoch(true, false).unwrap().epoch, Some(5));
    assert_eq!(
        m.next_epoch(false, false).err(),
        Some(MembershipError::CatchupStarted { epoch: 5, randomized: true })
    );
    assert_eq!(m.next_epoch_stake_table(true, true).unwrap().epoch, Some(5));
    assert_eq!(
        m.next_epoch_stake_table(false, true).err(),
        Some(MembershipError::CatchupInProgress { epoch: 5, randomized: false })
    );
}

#[test]
fn get_new_epoch_uses_the_same_coordinator() {
    let c = coordinator();
    let m = c.membership_for_epoch(Some(4), true, false).unwrap();
    let n = m.get_new_epoch(Some(11), true, false).unwrap();
    assert_eq!(n.epoch, Some(11));
    assert!(Arc::ptr_eq(n.coordinator.membership(), c.membership()));
    assert_eq!(
        m.get_new_epoch(Some(11), false, false).err(),
        Some(MembershipError::CatchupStarted { epoch: 11, randomized: true })
    );
}

#[test]
fn root_and_drb_queries_need_an_epoch() {
    let c = coordinator();
    let none = c.membership_for_epoch(None, false, false).unwrap();
    assert_eq!(none.get_epoch_root(42), Err(MembershipError::NoEpoch));
    assert_eq!(none.get_epoch_drb(42), Err(MembershipError::NoEpoch));
    let some = c.membership_for_epoch(Some(3), true, false).unwrap();
    assert_eq!(some.get_epoch_root(42), Ok(EpochQuery { block_height: 42, epoch: 3 }));
    assert_eq!(some.get_epoch_drb(7), Ok(EpochQuery { block_height: 7, epoch: 3 }));
}

#[test]
fn add_drb_result_targets_own_epoch() {
    let c = coordinator();
    let none = c.membership_for_epoch(None, false, false).unwrap();
    assert_eq!(none.add_drb_result([1u8; 32]), None);
    let some = c.membership_for_epoch(Some(3), true, false).unwrap();
    assert_eq!(some.add_drb_result([1u8; 32]), Some((3, [1u8; 32])));
}

#[test]
fn clone_shares_handles() {
    let c = coordinator();
    let m = c.membership_for_epoch(Some(2), true, false).unwrap();
    let m2 = m.clone();
    assert_eq!(m2.epoch, Some(2));
    assert!(Arc::ptr_eq(m2.coordinator.catchup_map(), c.catchup_map()));
    let c2 = c.clone();
    assert_eq!(c2.epoch_height, 100);
    assert!(Arc::ptr_eq(c2.membership(), c.membership()));
}
