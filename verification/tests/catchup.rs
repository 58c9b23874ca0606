use espresso_node::catchup::{
    drb_seed_input, CatchupAction, CatchupEvent, CatchupRun, CatchupStage, CatchupWait,
};
use espresso_node::membership::{EpochMembershipCoordinator, MembershipError};
use espresso_node::registry::CatchupRegistry;
use std::sync::{Arc, Mutex};

type Coordinator = EpochMembershipCoordinator<Arc<u32>, Arc<Mutex<CatchupRegistry<u8>>>, Arc<u8>>;

#[test]
fn seed_of_short_input_is_padded() {
    let seed = drb_seed_input(&vec![1, 2, 3]);
    let mut expected = [0u8; 32];
    expected[0] = 1;
    expected[1] = 2;
    expected[2] = 3;
    assert_eq!(seed, expected);
}

#[test]
fn seed_of_long_input_is_truncated() {
    let bytes: Vec<u8> = (0..40u8).collect();
    let seed = drb_seed_input(&bytes);
    let expected: Vec<u8> = (0..32u8).collect();
    assert_eq!(seed.to_vec(), expected);
    assert_eq!(drb_seed_input(&vec![]), [0u8; 32]);
}

#[test]
fn catchup_of_initial_epochs_is_refused() {
    for epoch in [0u64, 1] {
        let run = CatchupRun::start(epoch, false);
        assert_eq!(run.result(), Some(Err(MembershipError::InitialStakeTableMissing)));
        assert_eq!(run.action(), CatchupAction::Finish(Err(MembershipError::InitialStakeTableMissing)));
    }
}

#[test]
fn catchup_with_root_present_and_drb_fetched() {
    let run = CatchupRun::start(10, false);
    assert_eq!(run.action(), CatchupAction::QueryStakeTable { epoch: 8 });
    let run = run.step(CatchupEvent::StakeTable(true));
    assert_eq!(run.action(), CatchupAction::FetchEpochRoot { root_epoch: 8, membership_epoch: 8 });
    let run = run.step(CatchupEvent::EpochRoot(true));
    assert_eq!(run.action(), CatchupAction::AddEpochRoot { epoch: 10 });
    let run = run.step(CatchupEvent::EpochRootAdded(true));
    assert_eq!(run.action(), CatchupAction::StakeTableForEpoch { epoch: 9 });
    let run = run.step(CatchupEvent::Membership(Ok(Some(9))));
    assert_eq!(run.action(), CatchupAction::FetchEpochDrb { transition_epoch: 9, membership_epoch: 9 });
    let run = run.step(CatchupEvent::EpochDrb(Some([5u8; 32])));
    assert_eq!(run.action(), CatchupAction::AddDrbResult { epoch: 10, drb: [5u8; 32] });
    assert_eq!(run.result(), None);
    let run = run.step(CatchupEvent::Done);
    assert_eq!(run.result(), Some(Ok(10)));
    assert_eq!(run.action(), CatchupAction::Finish(Ok(10)));
}

#[test]
fn catchup_waits_for_root_and_computes_drb() {
    let run = CatchupRun::start(5, true);
    let run = run.step(CatchupEvent::StakeTable(false));
    assert_eq!(run.action(), CatchupAction::WaitForCatchup { epoch: 3 });
    let run = run.step(CatchupEvent::Membership(Ok(Some(3))));
    assert_eq!(run.action(), CatchupAction::FetchEpochRoot { root_epoch: 3, membership_epoch: 3 });
    let run = run.step(CatchupEvent::EpochRoot(true)).step(CatchupEvent::EpochRootAdded(true));
    assert_eq!(run.action(), CatchupAction::StakeTableForEpoch { epoch: 4 });
    let run = run.step(CatchupEvent::Membership(Err(MembershipError::CatchupStarted { epoch: 4, randomized: false })));
    assert_eq!(run.action(), CatchupAction::WaitForCatchup { epoch: 4 });
    let run = run.step(CatchupEvent::Membership(Ok(Some(4))));
    let run = run.step(CatchupEvent::EpochDrb(None));
    assert_eq!(run.action(), CatchupAction::SerializeQcSignatures);
    let run = run.step(CatchupEvent::QcSignatures(Some(vec![9, 8, 7])));
    let mut seed = [0u8; 32];
    seed[0] = 9;
    seed[1] = 8;
    seed[2] = 7;
    assert_eq!(run.action(), CatchupAction::ComputeDrb { seed });
    let run = run.step(CatchupEvent::DrbComputed([2u8; 32]));
    assert_eq!(run.action(), CatchupAction::StoreDrbResult { epoch: 5, drb: [2u8; 32] });
    let run = run.step(CatchupEvent::Done);
    assert_eq!(run.action(), CatchupAction::AddDrbResult { epoch: 5, drb: [2u8; 32] });
    let run = run.step(CatchupEvent::Done);
    assert_eq!(run.result(), Some(Ok(5)));
}

#[test]
fn catchup_fails_when_root_unavailable() {
    let run = CatchupRun::start(6, false).step(CatchupEvent::StakeTable(true));
    let run = run.step(CatchupEvent::EpochRoot(false));
    assert_eq!(run.result(), Some(Err(MembershipError::EpochRootUnavailable { root_epoch: 4 })));
    let run = CatchupRun::start(6, false).step(CatchupEvent::StakeTable(false));
    let run = run.step(CatchupEvent::Membership(Ok(None)));
    assert_eq!(run.result(), Some(Err(MembershipError::EpochRootUnavailable { root_epoch: 4 })));
}

#[test]
fn catchup_fails_when_root_catchup_fails() {
    let run = CatchupRun::start(6, false).step(CatchupEvent::StakeTable(false));
    let run = run.step(CatchupEvent::Membership(Err(MembershipError::InitialStakeTableMissing)));
    assert_eq!(run.result(), Some(Err(MembershipError::InitialStakeTableMissing)));
}

#[test]
fn catchup_fails_when_root_not_added() {
    let run = CatchupRun::start(6, false)
        .step(CatchupEvent::StakeTable(true))
        .step(CatchupEvent::EpochRoot(true))
        .step(CatchupEvent::EpochRootAdded(false));
    assert_eq!(run.result(), Some(Err(MembershipError::AddEpochRootFailed)));
}

#[test]
fn catchup_fails_when_serialization_fails() {
    let run = CatchupRun::start(6, false)
        .step(CatchupEvent::StakeTable(true))
        .step(CatchupEvent::EpochRoot(true))
        .step(CatchupEvent::EpochRootAdded(true))
        .step(CatchupEvent::Membership(Ok(None)));
    assert_eq!(run.action(), CatchupAction::SerializeQcSignatures);
    let run = run.step(CatchupEvent::QcSignatures(None));
    assert_eq!(run.result(), Some(Err(MembershipError::QcSerializationFailed)));
}

#[test]
fn drb_epoch_wait_failure_ends_catchup() {
    let run = CatchupRun::start(6, false)
        .step(CatchupEvent::StakeTable(true))
        .step(CatchupEvent::EpochRoot(true))
        .step(CatchupEvent::EpochRootAdded(true))
        .step(CatchupEvent::Membership(Err(MembershipError::NoEpoch)))
        .step(CatchupEvent::Membership(Err(MembershipError::AddEpochRootFailed)));
    assert_eq!(run.result(), Some(Err(MembershipError::AddEpochRootFailed)));
}

#[test]
fn unrelated_event_leaves_catchup_unchanged() {
    let run = CatchupRun::start(6, false).step(CatchupEvent::Done);
    assert_eq!(run.stage(), CatchupStage::CheckRoot);
    let run = CatchupRun::start(0, false).step(CatchupEvent::StakeTable(true));
    assert_eq!(run.result(), Some(Err(MembershipError::InitialStakeTableMissing)));
}

#[test]
fn coordinator_catchup_uses_storage_callback() {
    let with: Coordinator = EpochMembershipCoordinator::new(Arc::new(1), Some(Arc::new(0)), 50);
    let without: Coordinator = EpochMembershipCoordinator::new(Arc::new(1), None, 50);
    let mut reg: CatchupRegistry<u8> = CatchupRegistry::new();
    let (run, _) = with.spawn_catchup(&mut reg, 3, 0).unwrap();
    let a = run.step(CatchupEvent::StakeTable(true)).step(CatchupEvent::EpochRoot(true))
        .step(CatchupEvent::EpochRootAdded(true)).step(CatchupEvent::Membership(Ok(Some(2))))
        .step(CatchupEvent::EpochDrb(Some([1u8; 32])));
    assert_eq!(a.action(), CatchupAction::StoreDrbResult { epoch: 3, drb: [1u8; 32] });
    let mut reg2: CatchupRegistry<u8> = CatchupRegistry::new();
    let (run, _) = without.spawn_catchup(&mut reg2, 3, 0).unwrap();
    let b = run.step(CatchupEvent::StakeTable(true)).step(CatchupEvent::EpochRoot(true))
        .step(CatchupEvent::EpochRootAdded(true)).step(CatchupEvent::Membership(Ok(Some(2))))
        .step(CatchupEvent::EpochDrb(Some([1u8; 32])));
    assert_eq!(b.action(), CatchupAction::AddDrbResult { epoch: 3, drb: [1u8; 32] });
    let done = b.step(CatchupEvent::Done);
    let m = without.caught_up(&done).unwrap().unwrap();
    assert_eq!(m.epoch, Some(3));
    let (fresh, _) = without.spawn_catchup(&mut reg2, 4, 0).unwrap();
    assert!(without.caught_up(&fresh).is_none());
    let (failed, _) = without.spawn_catchup(&mut reg2, 1, 0).unwrap();
    assert_eq!(without.caught_up(&failed).unwrap().err(), Some(MembershipError::InitialStakeTableMissing));
}

#[test]
fn spawn_catchup_registers_once() {
    let c: Coordinator = EpochMembershipCoordinator::new(Arc::new(1), None, 50);
    let mut reg: CatchupRegistry<u8> = CatchupRegistry::new();
    let (run, ticket) = c.spawn_catchup(&mut reg, 6, 1).unwrap();
    assert_eq!(run.epoch(), 6);
    assert_eq!(run.action(), CatchupAction::QueryStakeTable { epoch: 4 });
    assert_eq!(reg.get(6), Some(&(ticket, 1)));
    assert!(c.spawn_catchup(&mut reg, 6, 2).is_none());
    assert_eq!(reg.get(6), Some(&(ticket, 1)));
}

#[test]
fn wait_for_catchup_joins_registers_or_rejoins() {
    let c: Coordinator = EpochMembershipCoordinator::new(Arc::new(1), None, 50);
    let mut reg: CatchupRegistry<u8> = CatchupRegistry::new();
    let m = c.membership_for_epoch(Some(8), true, false).unwrap();
    match c.wait_for_catchup(&mut reg, 8, None, Some(Ok(m)), 1) {
        CatchupWait::Joined(j) => assert_eq!(j.epoch, Some(8)),
        _ => panic!("expected to join"),
    }
    assert!(!reg.contains_key(8));
    // Nothing in progress: the waiter runs the catchup under a new entry.
    let first = match c.wait_for_catchup(&mut reg, 8, None, None, 2) {
        CatchupWait::Catchup { run, ticket } => {
            assert_eq!(run.epoch(), 8);
            assert_eq!(run.action(), CatchupAction::QueryStakeTable { epoch: 6 });
            ticket
        },
        _ => panic!("expected a catchup"),
    };
    assert_eq!(reg.get(8), Some(&(first, 2)));
    // A second waiter that found nothing sees the entry changed and waits again.
    match c.wait_for_catchup(&mut reg, 8, None, None, 3) {
        CatchupWait::Rejoin => {},
        _ => panic!("expected to rejoin"),
    }
    assert_eq!(reg.get(8), Some(&(first, 2)));
    // A waiter that saw that run fail takes over under a new entry.
    match c.wait_for_catchup(&mut reg, 8, Some(first), Some(Err(MembershipError::AddEpochRootFailed)), 4) {
        CatchupWait::Catchup { run, ticket } => {
            assert_eq!(run.epoch(), 8);
            assert_ne!(ticket, first);
            assert_eq!(reg.get(8), Some(&(ticket, 4)));
        },
        _ => panic!("expected a catchup"),
    }
}
