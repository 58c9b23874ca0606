//! The catchup of a membership to an epoch, as a machine that the runtime
//! drives: the machine names the next piece of outside work (an action), the
//! runtime performs it and hands back what came of it (an event).
//!
//! To catch up to `epoch`, the stake table of its root epoch (`epoch - 2`) is
//! needed, caught up first if it is missing. The epoch root is fetched and
//! added to the store; then the DRB result is taken from the epoch after the
//! root, or computed from the root's quorum certificate when it cannot be
//! fetched; it is stored through the callback, if there is one, and added to
//! the store.

use vstd::prelude::*;
use crate::membership::{DrbResult, EpochMembership, EpochMembershipCoordinator, MembershipError};
use crate::registry::{registered, taken_over, ticket_of, CatchupRegistry};

verus! {

/// The first 32 bytes of `bytes`, padded with zeros: the seed a DRB result is
/// computed from.
pub open spec fn drb_seed_seq(bytes: Seq<u8>) -> Seq<u8> {
    Seq::new(32, |i: int| if i < bytes.len() { bytes[i] } else { 0u8 })
}

/// The seed of `bytes`, as an array.
pub open spec fn drb_seed_of(bytes: Seq<u8>) -> DrbResult {
    choose|a: DrbResult| a@ == drb_seed_seq(bytes)
}

/// The seed for computing a DRB result from the serialized signatures of a
/// quorum certificate: its first 32 bytes, padded with zeros when it is
/// shorter.
pub fn drb_seed_input(bytes: &Vec<u8>) -> (seed: DrbResult)
    ensures
        seed@ == drb_seed_seq(bytes@),
        seed == drb_seed_of(bytes@),
{
    let mut seed: DrbResult = [0u8; 32];
    let len: usize = if bytes.len() < 32 {
        bytes.len()
    } else {
        32
    };
    let mut i: usize = 0;
    while i < len
        invariant
            len <= 32,
            len <= bytes.len(),
            i <= len,
            len == bytes.len() || len == 32,
            forall|j: int| 0 <= j < i ==> seed@[j] == bytes@[j],
            forall|j: int| i <= j < 32 ==> seed@[j] == 0u8,
        decreases len - i,
    {
        seed[i] = bytes[i];
        i = i + 1;
    }
    assert(seed@ =~= drb_seed_seq(bytes@));
    proof {
        let a = drb_seed_of(bytes@);
        assert(a@ == drb_seed_seq(bytes@));
        assert(a@ =~= seed@);
        broadcast use vstd::array::axiom_array_ext_equal;
        assert(a =~= seed);
    }
    seed
}

/// Where a catchup stands.
#[derive(Clone, Copy, Debug, PartialEq, Eq)]
pub enum CatchupStage {
    /// Asking whether the store has the root epoch's stake table.
    CheckRoot,
    /// Waiting for the catchup of the root epoch.
    AwaitRoot,
    /// Fetching the epoch root from the membership of `membership_epoch`.
    FetchRoot { membership_epoch: u64 },
    /// Adding the epoch root to the store.
    AddRoot { membership_epoch: u64 },
    /// Looking up the stake table of `epoch`, the epoch after the root
    /// membership's.
    NextStakeTable { epoch: u64 },
    /// Waiting for the catchup of the epoch after the root.
    AwaitDrbEpoch,
    /// Fetching the DRB result from the membership of `membership_epoch`.
    FetchDrb { membership_epoch: u64 },
    /// Serializing the signatures of the root's quorum certificate.
    SerializeQc,
    /// Computing the DRB result from `seed`.
    ComputeDrb { seed: DrbResult },
    /// Storing `drb` through the callback.
    StoreDrb { drb: DrbResult },
    /// Adding `drb` to the store.
    AddDrb { drb: DrbResult },
    /// Done, with the epoch caught up to or the reason it failed.
    Finished(Result<u64, MembershipError>),
}

/// The outside work a catchup asks for next.
#[derive(Clone, Copy, Debug, PartialEq, Eq)]
pub enum CatchupAction {
    /// Ask the store whether it has the stake table of `epoch`.
    QueryStakeTable { epoch: u64 },
    /// Wait for the catchup of `epoch`, joining one in progress or running one.
    WaitForCatchup { epoch: u64 },
    /// Fetch the root leaf at the root block of `root_epoch` through the
    /// membership of `membership_epoch`.
    FetchEpochRoot { root_epoch: u64, membership_epoch: u64 },
    /// Add the fetched root's header to the store as the root of `epoch`.
    AddEpochRoot { epoch: u64 },
    /// Look up a membership with the stake table of `epoch`.
    StakeTableForEpoch { epoch: u64 },
    /// Fetch the DRB result at the transition block of `transition_epoch`
    /// through the membership of `membership_epoch`.
    FetchEpochDrb { transition_epoch: u64, membership_epoch: u64 },
    /// Serialize the signatures of the root leaf's quorum certificate.
    SerializeQcSignatures,
    /// Compute the DRB result from `seed`.
    ComputeDrb { seed: DrbResult },
    /// Hand `drb` to the storage callback, as the result of `epoch`.
    StoreDrbResult { epoch: u64, drb: DrbResult },
    /// Add `drb` to the store as the result of `epoch`.
    AddDrbResult { epoch: u64, drb: DrbResult },
    /// Nothing more to do: the catchup ended with this result.
    Finish(Result<u64, MembershipError>),
}

/// What came of the last action.
#[derive(Debug)]
pub enum CatchupEvent {
    /// Whether the store has the stake table asked about.
    StakeTable(bool),
    /// The epoch of the membership that a wait or a lookup gave, or its error.
    Membership(Result<Option<u64>, MembershipError>),
    /// Whether the epoch root could be fetched.
    EpochRoot(bool),
    /// Whether the store took the epoch root (and it was applied).
    EpochRootAdded(bool),
    /// The DRB result fetched, or `None` when it could not be.
    EpochDrb(Option<DrbResult>),
    /// The serialized signatures, or `None` when serialization failed.
    QcSignatures(Option<Vec<u8>>),
    /// The DRB result computed.
    DrbComputed(DrbResult),
    /// The action was carried out (storing or adding a DRB result).
    Done,
}

/// The stage after the membership of the epoch after the root is known.
pub open spec fn after_drb_membership(d: Option<u64>) -> CatchupStage {
    match d {
        Some(m) => CatchupStage::FetchDrb { membership_epoch: m },
        None => CatchupStage::SerializeQc,
    }
}

/// The stage after the DRB result is known.
pub open spec fn after_drb(store_drb: bool, drb: DrbResult) -> CatchupStage {
    if store_drb {
        CatchupStage::StoreDrb { drb }
    } else {
        CatchupStage::AddDrb { drb }
    }
}

/// The stage a catchup to `epoch` begins in.
pub open spec fn start_stage(epoch: u64) -> CatchupStage {
    if epoch < 2 {
        CatchupStage::Finished(Err(MembershipError::InitialStakeTableMissing))
    } else {
        CatchupStage::CheckRoot
    }
}

/// The stage a catchup to `epoch` moves to from `stage` on `ev`. An event that
/// does not answer the stage's action leaves the stage as it is.
pub open spec fn next_stage(
    epoch: u64,
    store_drb: bool,
    stage: CatchupStage,
    ev: CatchupEvent,
) -> CatchupStage {
    let root = (epoch - 2) as u64;
    match stage {
        CatchupStage::CheckRoot => match ev {
            CatchupEvent::StakeTable(true) => CatchupStage::FetchRoot { membership_epoch: root },
            CatchupEvent::StakeTable(false) => CatchupStage::AwaitRoot,
            _ => stage,
        },
        CatchupStage::AwaitRoot => match ev {
            CatchupEvent::Membership(Ok(Some(m))) => CatchupStage::FetchRoot {
                membership_epoch: m,
            },
            CatchupEvent::Membership(Ok(None)) => CatchupStage::Finished(
                Err(MembershipError::EpochRootUnavailable { root_epoch: root }),
            ),
            CatchupEvent::Membership(Err(e)) => CatchupStage::Finished(Err(e)),
            _ => stage,
        },
        CatchupStage::FetchRoot { membership_epoch } => match ev {
            CatchupEvent::EpochRoot(true) => CatchupStage::AddRoot { membership_epoch },
            CatchupEvent::EpochRoot(false) => CatchupStage::Finished(
                Err(MembershipError::EpochRootUnavailable { root_epoch: root }),
            ),
            _ => stage,
        },
        CatchupStage::AddRoot { membership_epoch } => match ev {
            CatchupEvent::EpochRootAdded(true) => CatchupStage::NextStakeTable {
                epoch: (membership_epoch + 1) as u64,
            },
            CatchupEvent::EpochRootAdded(false) => CatchupStage::Finished(
                Err(MembershipError::AddEpochRootFailed),
            ),
            _ => stage,
        },
        CatchupStage::NextStakeTable { .. } => match ev {
            CatchupEvent::Membership(Ok(d)) => after_drb_membership(d),
            CatchupEvent::Membership(Err(_)) => CatchupStage::AwaitDrbEpoch,
            _ => stage,
        },
        CatchupStage::AwaitDrbEpoch => match ev {
            CatchupEvent::Membership(Ok(d)) => after_drb_membership(d),
            CatchupEvent::Membership(Err(e)) => CatchupStage::Finished(Err(e)),
            _ => stage,
        },
        CatchupStage::FetchDrb { .. } => match ev {
            CatchupEvent::EpochDrb(Some(drb)) => after_drb(store_drb, drb),
            CatchupEvent::EpochDrb(None) => CatchupStage::SerializeQc,
            _ => stage,
        },
        CatchupStage::SerializeQc => match ev {
            CatchupEvent::QcSignatures(Some(bytes)) => CatchupStage::ComputeDrb {
                seed: drb_seed_of(bytes@),
            },
            CatchupEvent::QcSignatures(None) => CatchupStage::Finished(
                Err(MembershipError::QcSerializationFailed),
            ),
            _ => stage,
        },
        CatchupStage::ComputeDrb { .. } => match ev {
            CatchupEvent::DrbComputed(drb) => after_drb(store_drb, drb),
            _ => stage,
        },
        CatchupStage::StoreDrb { drb } => match ev {
            CatchupEvent::Done => CatchupStage::AddDrb { drb },
            _ => stage,
        },
        CatchupStage::AddDrb { .. } => match ev {
            CatchupEvent::Done => CatchupStage::Finished(Ok(epoch)),
            _ => stage,
        },
        CatchupStage::Finished(_) => stage,
    }
}

/// The action a catchup to `epoch` asks for in `stage`.
pub open spec fn stage_action(epoch: u64, stage: CatchupStage) -> CatchupAction {
    let root = (epoch - 2) as u64;
    match stage {
        CatchupStage::CheckRoot => CatchupAction::QueryStakeTable { epoch: root },
        CatchupStage::AwaitRoot => CatchupAction::WaitForCatchup { epoch: root },
        CatchupStage::FetchRoot { membership_epoch } => CatchupAction::FetchEpochRoot {
            root_epoch: root,
            membership_epoch,
        },
        CatchupStage::AddRoot { .. } => CatchupAction::AddEpochRoot { epoch },
        CatchupStage::NextStakeTable { epoch: e } => CatchupAction::StakeTableForEpoch { epoch: e },
        CatchupStage::AwaitDrbEpoch => CatchupAction::WaitForCatchup { epoch: (root + 1) as u64 },
        CatchupStage::FetchDrb { membership_epoch } => CatchupAction::FetchEpochDrb {
            transition_epoch: (root + 1) as u64,
            membership_epoch,
        },
        CatchupStage::SerializeQc => CatchupAction::SerializeQcSignatures,
        CatchupStage::ComputeDrb { seed } => CatchupAction::ComputeDrb { seed },
        CatchupStage::StoreDrb { drb } => CatchupAction::StoreDrbResult { epoch, drb },
        CatchupStage::AddDrb { drb } => CatchupAction::AddDrbResult { epoch, drb },
        CatchupStage::Finished(r) => CatchupAction::Finish(r),
    }
}

/// What holds of every stage a catchup to `epoch` passes through.
pub open spec fn stage_inv(epoch: u64, stage: CatchupStage) -> bool {
    match stage {
        CatchupStage::Finished(Ok(e)) => e == epoch && epoch >= 2,
        CatchupStage::Finished(Err(_)) => true,
        CatchupStage::FetchRoot { membership_epoch } => epoch >= 2 && membership_epoch
            < u64::MAX,
        CatchupStage::AddRoot { membership_epoch } => epoch >= 2 && membership_epoch < u64::MAX,
        _ => epoch >= 2,
    }
}

/// Whether `ev` may be handed to a catchup in `stage`: a membership a wait
/// gives for the root must have an epoch after which there is another.
pub open spec fn event_allowed(stage: CatchupStage, ev: CatchupEvent) -> bool {
    stage is AwaitRoot ==> (ev matches CatchupEvent::Membership(Ok(Some(m))) ==> m < u64::MAX)
}

/// A catchup to one epoch, in progress or finished.
pub struct CatchupRun {
    epoch: u64,
    store_drb: bool,
    stage: CatchupStage,
}

impl CatchupRun {
    #[verifier::type_invariant]
    spec fn inv(self) -> bool {
        stage_inv(self.epoch, self.stage)
    }

    /// The epoch caught up to.
    pub closed spec fn spec_epoch(self) -> u64 {
        self.epoch
    }

    /// Whether the DRB result is handed to the storage callback.
    pub closed spec fn spec_store_drb(self) -> bool {
        self.store_drb
    }

    pub closed spec fn spec_stage(self) -> CatchupStage {
        self.stage
    }

    /// Start a catchup to `epoch`; `store_drb` is whether there is a callback
    /// that stores DRB results.
    pub fn start(epoch: u64, store_drb: bool) -> (r: Self)
        ensures
            r.spec_epoch() == epoch,
            r.spec_store_drb() == store_drb,
            r.spec_stage() == start_stage(epoch),
            stage_inv(epoch, r.spec_stage()),
    {
        if epoch < 2 {
            CatchupRun {
                epoch,
                store_drb,
                stage: CatchupStage::Finished(Err(MembershipError::InitialStakeTableMissing)),
            }
        } else {
            CatchupRun { epoch, store_drb, stage: CatchupStage::CheckRoot }
        }
    }

    /// The epoch caught up to.
    pub fn epoch(&self) -> (r: u64)
        ensures
            r == self.spec_epoch(),
    {
        self.epoch
    }

    /// Where the catchup stands.
    pub fn stage(&self) -> (r: CatchupStage)
        ensures
            r == self.spec_stage(),
            stage_inv(self.spec_epoch(), r),
    {
        proof {
            use_type_invariant(self);
        }
        self.stage
    }

    /// The outcome, once the catchup is finished.
    pub fn result(&self) -> (r: Option<Result<u64, MembershipError>>)
        ensures
            match self.spec_stage() {
                CatchupStage::Finished(res) => r == Some(res),
                _ => r is None,
            },
    {
        match self.stage {
            CatchupStage::Finished(res) => Some(res),
            _ => None,
        }
    }

    /// The outside work to do next.
    pub fn action(&self) -> (r: CatchupAction)
        ensures
            r == stage_action(self.spec_epoch(), self.spec_stage()),
    {
        proof {
            use_type_invariant(self);
        }
        let root: u64 = match self.stage {
            CatchupStage::Finished(_) => 0,
            _ => self.epoch - 2,
        };
        match self.stage {
            CatchupStage::CheckRoot => CatchupAction::QueryStakeTable { epoch: root },
            CatchupStage::AwaitRoot => CatchupAction::WaitForCatchup { epoch: root },
            CatchupStage::FetchRoot { membership_epoch } => CatchupAction::FetchEpochRoot {
                root_epoch: root,
                membership_epoch,
            },
            CatchupStage::AddRoot { .. } => CatchupAction::AddEpochRoot { epoch: self.epoch },
            CatchupStage::NextStakeTable { epoch } => CatchupAction::StakeTableForEpoch { epoch },
            CatchupStage::AwaitDrbEpoch => CatchupAction::WaitForCatchup { epoch: root + 1 },
            CatchupStage::FetchDrb { membership_epoch } => CatchupAction::FetchEpochDrb {
                transition_epoch: root + 1,
                membership_epoch,
            },
            CatchupStage::SerializeQc => CatchupAction::SerializeQcSignatures,
            CatchupStage::ComputeDrb { seed } => CatchupAction::ComputeDrb { seed },
            CatchupStage::StoreDrb { drb } => CatchupAction::StoreDrbResult {
                epoch: self.epoch,
                drb,
            },
            CatchupStage::AddDrb { drb } => CatchupAction::AddDrbResult { epoch: self.epoch, drb },
            CatchupStage::Finished(r) => CatchupAction::Finish(r),
        }
    }

    /// Hand the catchup what came of its last action.
    pub fn step(self, ev: CatchupEvent) -> (r: Self)
        requires
            event_allowed(self.spec_stage(), ev),
        ensures
            r.spec_epoch() == self.spec_epoch(),
            r.spec_store_drb() == self.spec_store_drb(),
            r.spec_stage() == next_stage(
                self.spec_epoch(),
                self.spec_store_drb(),
                self.spec_stage(),
                ev,
            ),
    {
        proof {
            use_type_invariant(&self);
        }
        let epoch = self.epoch;
        let store_drb = self.store_drb;
        let stage = self.stage;
        let new_stage = match stage {
            CatchupStage::CheckRoot => match ev {
                CatchupEvent::StakeTable(true) => CatchupStage::FetchRoot {
                    membership_epoch: epoch - 2,
                },
                CatchupEvent::StakeTable(false) => CatchupStage::AwaitRoot,
                _ => stage,
            },
            CatchupStage::AwaitRoot => match ev {
                CatchupEvent::Membership(Ok(Some(m))) => CatchupStage::FetchRoot {
                    membership_epoch: m,
                },
                CatchupEvent::Membership(Ok(None)) => CatchupStage::Finished(
                    Err(MembershipError::EpochRootUnavailable { root_epoch: epoch - 2 }),
                ),
                CatchupEvent::Membership(Err(e)) => CatchupStage::Finished(Err(e)),
                _ => stage,
            },
            CatchupStage::FetchRoot { membership_epoch } => match ev {
                CatchupEvent::EpochRoot(true) => CatchupStage::AddRoot { membership_epoch },
                CatchupEvent::EpochRoot(false) => CatchupStage::Finished(
                    Err(MembershipError::EpochRootUnavailable { root_epoch: epoch - 2 }),
                ),
                _ => stage,
            },
            CatchupStage::AddRoot { membership_epoch } => match ev {
                CatchupEvent::EpochRootAdded(true) => CatchupStage::NextStakeTable {
                    epoch: membership_epoch + 1,
                },
                CatchupEvent::EpochRootAdded(false) => CatchupStage::Finished(
                    Err(MembershipError::AddEpochRootFailed),
                ),
                _ => stage,
            },
            CatchupStage::NextStakeTable { .. } => match ev {
                CatchupEvent::Membership(Ok(Some(m))) => CatchupStage::FetchDrb {
                    membership_epoch: m,
                },
                CatchupEvent::Membership(Ok(None)) => CatchupStage::SerializeQc,
                CatchupEvent::Membership(Err(_)) => CatchupStage::AwaitDrbEpoch,
                _ => stage,
            },
            CatchupStage::AwaitDrbEpoch => match ev {
                CatchupEvent::Membership(Ok(Some(m))) => CatchupStage::FetchDrb {
                    membership_epoch: m,
                },
                CatchupEvent::Membership(Ok(None)) => CatchupStage::SerializeQc,
                CatchupEvent::Membership(Err(e)) => CatchupStage::Finished(Err(e)),
                _ => stage,
            },
            CatchupStage::FetchDrb { .. } => match ev {
                CatchupEvent::EpochDrb(Some(drb)) => {
                    if store_drb {
                        CatchupStage::StoreDrb { drb }
                    } else {
                        CatchupStage::AddDrb { drb }
                    }
                },
                CatchupEvent::EpochDrb(None) => CatchupStage::SerializeQc,
                _ => stage,
            },
            CatchupStage::SerializeQc => match ev {
                CatchupEvent::QcSignatures(Some(bytes)) => CatchupStage::ComputeDrb {
                    seed: drb_seed_input(&bytes),
                },
                CatchupEvent::QcSignatures(None) => CatchupStage::Finished(
                    Err(MembershipError::QcSerializationFailed),
                ),
                _ => stage,
            },
            CatchupStage::ComputeDrb { .. } => match ev {
                CatchupEvent::DrbComputed(drb) => {
                    if store_drb {
                        CatchupStage::StoreDrb { drb }
                    } else {
                        CatchupStage::AddDrb { drb }
                    }
                },
                _ => stage,
            },
            CatchupStage::StoreDrb { drb } => match ev {
                CatchupEvent::Done => CatchupStage::AddDrb { drb },
                _ => stage,
            },
            CatchupStage::AddDrb { .. } => match ev {
                CatchupEvent::Done => CatchupStage::Finished(Ok(epoch)),
                _ => stage,
            },
            CatchupStage::Finished(_) => stage,
        };
        CatchupRun { epoch, store_drb, stage: new_stage }
    }
}

/// What a caller that waits for the catchup of an epoch does.
pub enum CatchupWait<M, C, S> {
    /// Join the membership that a catchup in progress handed out.
    Joined(EpochMembership<M, C, S>),
    /// Run the catchup, registered under `ticket`.
    Catchup { run: CatchupRun, ticket: u64 },
    /// Another catchup took the epoch's entry meanwhile: wait for that one.
    Rejoin,
}

impl<M: Clone, C: Clone, S: Clone> EpochMembershipCoordinator<M, C, S> {
    /// A catchup to `epoch`; the DRB result is handed to the storage callback
    /// when there is one.
    fn catchup(&self, epoch: u64) -> (r: CatchupRun)
        ensures
            r.spec_epoch() == epoch,
            r.spec_store_drb() == self.spec_storage_fn() is Some,
            r.spec_stage() == start_stage(epoch),
    {
        CatchupRun::start(epoch, self.storage_add_drb_result_fn().is_some())
    }

    /// Start a catchup to `epoch` under a new entry of `registry` with
    /// `handle`, unless one for the epoch is already in progress. The run is
    /// registered under the ticket it comes with.
    pub fn spawn_catchup<R>(&self, registry: &mut CatchupRegistry<R>, epoch: u64, handle: R) -> (r:
        Option<(CatchupRun, u64)>)
        requires
            old(registry).wf(),
            old(registry).spec_next_ticket() < u64::MAX,
        ensures
            final(registry).wf(),
            final(registry)@ == registered(
                old(registry)@,
                epoch,
                old(registry).spec_next_ticket(),
                handle,
            ),
            final(registry).spec_next_ticket() == (if r is Some {
                old(registry).spec_next_ticket() + 1
            } else {
                old(registry).spec_next_ticket() as int
            }),
            match r {
                None => old(registry)@.contains_key(epoch),
                Some((run, ticket)) => {
                    &&& !old(registry)@.contains_key(epoch)
                    &&& ticket == old(registry).spec_next_ticket()
                    &&& ticket_of(final(registry)@, epoch) == Some(ticket)
                    &&& run.spec_epoch() == epoch
                    &&& run.spec_store_drb() == self.spec_storage_fn() is Some
                    &&& run.spec_stage() == start_stage(epoch)
                },
            },
    {
        match registry.register(epoch, handle) {
            Some(ticket) => Some((self.catchup(epoch), ticket)),
            None => None,
        }
    }

    /// Wait for the catchup of `epoch`. `seen` is the ticket of the entry the
    /// caller found for the epoch (`None` for none) and `received` what its
    /// run broadcast, or `None` when there was no entry or its channel closed.
    /// A membership received is joined. Otherwise the caller runs the catchup
    /// itself, registered under a new entry with `handle` in place of the one
    /// it saw; if the entry changed meanwhile, it waits again instead.
    pub fn wait_for_catchup<R>(
        &self,
        registry: &mut CatchupRegistry<R>,
        epoch: u64,
        seen: Option<u64>,
        received: Option<Result<EpochMembership<M, C, S>, MembershipError>>,
        handle: R,
    ) -> (r: CatchupWait<M, C, S>)
        requires
            old(registry).wf(),
            old(registry).spec_next_ticket() < u64::MAX,
        ensures
            final(registry).wf(),
            match received {
                Some(Ok(m)) => {
                    &&& r matches CatchupWait::Joined(j) && j == m
                    &&& final(registry)@ == old(registry)@
                    &&& final(registry).spec_next_ticket() == old(registry).spec_next_ticket()
                },
                _ => {
                    &&& final(registry)@ == taken_over(
                        old(registry)@,
                        epoch,
                        seen,
                        old(registry).spec_next_ticket(),
                        handle,
                    )
                    &&& if ticket_of(old(registry)@, epoch) == seen {
                        &&& r matches CatchupWait::Catchup { run, ticket } && ticket == old(
                            registry,
                        ).spec_next_ticket() && ticket_of(final(registry)@, epoch) == Some(ticket)
                            && run.spec_epoch() == epoch && run.spec_store_drb()
                            == self.spec_storage_fn() is Some && run.spec_stage() == start_stage(
                            epoch,
                        )
                        &&& final(registry).spec_next_ticket() == old(registry).spec_next_ticket()
                            + 1
                    } else {
                        &&& r is Rejoin
                        &&& final(registry).spec_next_ticket() == old(registry).spec_next_ticket()
                    }
                },
            },
    {
        match received {
            Some(Ok(m)) => CatchupWait::Joined(m),
            _ => match registry.take_over(epoch, seen, handle) {
                Some(ticket) => CatchupWait::Catchup { run: self.catchup(epoch), ticket },
                None => CatchupWait::Rejoin,
            },
        }
    }

    /// The membership a finished catchup hands out: the one for its epoch, or
    /// the reason it failed; `None` while it is still running.
    pub fn caught_up(&self, run: &CatchupRun) -> (r: Option<Result<EpochMembership<M, C, S>, MembershipError>>)
        ensures
            match run.spec_stage() {
                CatchupStage::Finished(Ok(e)) => r matches Some(Ok(m)) && m.epoch == Some(e)
                    && m.coordinator.is_clone_of(*self),
                CatchupStage::Finished(Err(err)) => r == Some(
                    Err::<EpochMembership<M, C, S>, MembershipError>(err),
                ),
                _ => r is None,
            },
    {
        match run.result() {
            Some(Ok(e)) => Some(Ok(EpochMembership { epoch: Some(e), coordinator: self.clone() })),
            Some(Err(err)) => Some(Err(err)),
            None => None,
        }
    }
}

/// The stage a catchup to `epoch` is in after the events `evs`, from `stage`.
pub open spec fn run_events(
    epoch: u64,
    store_drb: bool,
    stage: CatchupStage,
    evs: Seq<CatchupEvent>,
) -> CatchupStage
    decreases evs.len(),
{
    if evs.len() == 0 {
        stage
    } else {
        run_events(epoch, store_drb, next_stage(epoch, store_drb, stage, evs[0]), evs.drop_first())
    }
}

/// A catchup for epoch 0 or 1 is refused at once: their stake tables must be
/// there from the start.
pub proof fn initial_epochs_refused(epoch: u64)
    requires
        epoch < 2,
    ensures
        start_stage(epoch) == CatchupStage::Finished(
            Err::<u64, MembershipError>(MembershipError::InitialStakeTableMissing),
        ),
{
}

/// A finished catchup stays finished with the same result, whatever it is
/// handed, and asks for nothing but to finish with that result.
pub proof fn finished_is_final(
    epoch: u64,
    store_drb: bool,
    result: Result<u64, MembershipError>,
    ev: CatchupEvent,
)
    ensures
        next_stage(epoch, store_drb, CatchupStage::Finished(result), ev)
            == CatchupStage::Finished(result),
        stage_action(epoch, CatchupStage::Finished(result)) == CatchupAction::Finish(result),
{
}

/// Every step keeps what holds of the stages of a catchup.
pub proof fn steps_keep_invariant(epoch: u64, store_drb: bool, stage: CatchupStage, ev: CatchupEvent)
    requires
        stage_inv(epoch, stage),
        event_allowed(stage, ev),
    ensures
        stage_inv(epoch, next_stage(epoch, store_drb, stage, ev)),
{
}

/// A catchup succeeds only by adding its DRB result to the store: the step
/// into success is the acknowledgement of `AddDrbResult` for its own epoch.
pub proof fn success_only_after_drb_added(
    epoch: u64,
    store_drb: bool,
    stage: CatchupStage,
    ev: CatchupEvent,
    e: u64,
)
    requires
        !(stage is Finished),
        next_stage(epoch, store_drb, stage, ev) == CatchupStage::Finished(
            Ok::<u64, MembershipError>(e),
        ),
    ensures
        stage is AddDrb,
        stage_action(epoch, stage) == (CatchupAction::AddDrbResult {
            epoch,
            drb: stage->AddDrb_drb,
        }),
        ev is Done,
        e == epoch,
{
}

/// With a storage callback, a DRB result is added to the store only after it
/// was handed to the callback.
pub proof fn stored_before_added(
    epoch: u64,
    stage: CatchupStage,
    ev: CatchupEvent,
    drb: DrbResult,
)
    requires
        next_stage(epoch, true, stage, ev) == (CatchupStage::AddDrb { drb }),
        stage != (CatchupStage::AddDrb { drb }),
    ensures
        stage == (CatchupStage::StoreDrb { drb }),
        stage_action(epoch, stage) == (CatchupAction::StoreDrbResult { epoch, drb }),
{
}

/// The DRB result a catchup adds is the one it fetched or the one computed
/// from the seed it asked to compute from.
pub proof fn drb_comes_from_fetch_or_compute(
    epoch: u64,
    store_drb: bool,
    stage: CatchupStage,
    ev: CatchupEvent,
    drb: DrbResult,
)
    requires
        next_stage(epoch, store_drb, stage, ev) == after_drb(store_drb, drb),
        stage != after_drb(store_drb, drb),
        !(stage is StoreDrb),
    ensures
        (stage is FetchDrb && ev == CatchupEvent::EpochDrb(Some(drb))) || (stage is ComputeDrb
            && ev == CatchupEvent::DrbComputed(drb)),
{
}

proof fn run_keeps_epoch(epoch: u64, store_drb: bool, stage: CatchupStage, evs: Seq<CatchupEvent>)
    requires
        stage matches CatchupStage::Finished(Ok(e)) ==> e == epoch && epoch >= 2,
        !(stage is Finished) ==> epoch >= 2,
    ensures
        run_events(epoch, store_drb, stage, evs) matches CatchupStage::Finished(Ok(e)) ==> e
            == epoch && epoch >= 2,
    decreases evs.len(),
{
    if evs.len() > 0 {
        run_keeps_epoch(
            epoch,
            store_drb,
            next_stage(epoch, store_drb, stage, evs[0]),
            evs.drop_first(),
        );
    }
}

/// Whatever events it is handed, a catchup to `epoch` that succeeds hands out
/// the membership of `epoch` itself, and never one of epoch 0 or 1.
pub proof fn catchup_succeeds_only_for_its_epoch(
    epoch: u64,
    store_drb: bool,
    evs: Seq<CatchupEvent>,
    e: u64,
)
    requires
        run_events(epoch, store_drb, start_stage(epoch), evs) == CatchupStage::Finished(
            Ok::<u64, MembershipError>(e),
        ),
    ensures
        e == epoch,
        epoch >= 2,
{
    run_keeps_epoch(epoch, store_drb, start_stage(epoch), evs);
}

/// A catchup is refused at its start exactly for epochs 0 and 1; a catchup to
/// any later epoch begins by asking whether the store has the stake table of
/// its root epoch, two epochs before it.
pub proof fn catchup_begins_at_root_epoch(epoch: u64)
    ensures
        (start_stage(epoch) is Finished) <==> epoch < 2,
        epoch >= 2 ==> start_stage(epoch) == CatchupStage::CheckRoot && stage_action(
            epoch,
            start_stage(epoch),
        ) == (CatchupAction::QueryStakeTable { epoch: (epoch - 2) as u64 }),
{
}

/// The seed a DRB result is computed from begins with the serialized
/// signatures, as far as they go and at most 32 bytes, and is zero after them;
/// so two serializations that agree on their first 32 bytes give one seed.
pub proof fn seed_is_zero_padded_prefix(bytes: Seq<u8>, other: Seq<u8>)
    ensures
        drb_seed_of(bytes)@.len() == 32,
        forall|i: int| 0 <= i < 32 && i < bytes.len() ==> drb_seed_of(bytes)@[i] == bytes[i],
        forall|i: int| bytes.len() <= i < 32 ==> drb_seed_of(bytes)@[i] == 0u8,
        (forall|i: int| 0 <= i < 32 ==> (i < bytes.len() <==> i < other.len()) && (i
            < bytes.len() ==> bytes[i] == other[i])) ==> drb_seed_of(bytes) == drb_seed_of(other),
{
    lemma_seed_exists(bytes);
    lemma_seed_exists(other);
    let a = drb_seed_of(bytes);
    let b = drb_seed_of(other);
    if forall|i: int| 0 <= i < 32 ==> (i < bytes.len() <==> i < other.len()) && (i < bytes.len()
        ==> bytes[i] == other[i]) {
        assert(a@ =~= b@);
        broadcast use vstd::array::axiom_array_ext_equal;
        assert(a =~= b);
    }
}

proof fn lemma_seed_exists(bytes: Seq<u8>)
    ensures
        drb_seed_of(bytes)@ == drb_seed_seq(bytes),
{
    let a = array_with_view(drb_seed_seq(bytes));
    assert(a@ == drb_seed_seq(bytes));
}

proof fn array_with_view(v: Seq<u8>) -> (a: DrbResult)
    requires
        v.len() == 32,
    ensures
        a@ == v,
{
    let a = array_prefix(v, 32);
    assert(a@ =~= v);
    a
}

proof fn array_prefix(v: Seq<u8>, k: int) -> (a: DrbResult)
    requires
        v.len() == 32,
        0 <= k <= 32,
    ensures
        a@.len() == 32,
        forall|j: int| 0 <= j < k ==> a@[j] == v[j],
    decreases k,
{
    broadcast use vstd::array::group_array_axioms;
    if k == 0 {
        vstd::array::spec_array_fill_for_copy_type::<u8, 32>(0u8)
    } else {
        let prev = array_prefix(v, k - 1);
        let a = vstd::array::spec_array_update(prev, k - 1, v[k - 1]);
        assert(forall|j: int| 0 <= j < k - 1 ==> a@[j] == prev@[j]);
        a
    }
}

/// The root membership is the root epoch's own when the store has its stake
/// table, and otherwise the one the wait for the root's catchup handed out;
/// the root leaf is fetched at the root epoch through that membership, and
/// the stake table looked up next is that of the epoch after it.
pub proof fn root_comes_from_store_or_wait(epoch: u64, store_drb: bool, m: u64)
    requires
        epoch >= 2,
        m < u64::MAX,
    ensures
        ({
            let root = (epoch - 2) as u64;
            let present = next_stage(epoch, store_drb, CatchupStage::CheckRoot, CatchupEvent::StakeTable(true));
            let waiting = next_stage(epoch, store_drb, CatchupStage::CheckRoot, CatchupEvent::StakeTable(false));
            let joined = next_stage(epoch, store_drb, waiting, CatchupEvent::Membership(Ok(Some(m))));
            let added = next_stage(
                epoch,
                store_drb,
                next_stage(epoch, store_drb, joined, CatchupEvent::EpochRoot(true)),
                CatchupEvent::EpochRootAdded(true),
            );
            &&& stage_action(epoch, present) == (CatchupAction::FetchEpochRoot {
                root_epoch: root,
                membership_epoch: root,
            })
            &&& stage_action(epoch, waiting) == (CatchupAction::WaitForCatchup { epoch: root })
            &&& stage_action(epoch, joined) == (CatchupAction::FetchEpochRoot {
                root_epoch: root,
                membership_epoch: m,
            })
            &&& stage_action(
                epoch,
                next_stage(epoch, store_drb, joined, CatchupEvent::EpochRoot(true)),
            ) == (CatchupAction::AddEpochRoot { epoch })
            &&& stage_action(epoch, added) == (CatchupAction::StakeTableForEpoch {
                epoch: (m + 1) as u64,
            })
        }),
{
}

/// The DRB result is fetched through the membership that the lookup of the
/// epoch after the root (or, when that lookup failed, the wait for its
/// catchup) handed out, at the transition block of that epoch; when none was
/// handed out, or the fetch fails, it is computed from the root's quorum
/// certificate instead.
pub proof fn drb_fetched_through_membership_handed_out(
    epoch: u64,
    store_drb: bool,
    e: u64,
    m: u64,
    err: MembershipError,
)
    requires
        epoch >= 2,
    ensures
        ({
            let after_root = (epoch - 1) as u64;
            let direct = next_stage(
                epoch,
                store_drb,
                CatchupStage::NextStakeTable { epoch: e },
                CatchupEvent::Membership(Ok(Some(m))),
            );
            let waiting = next_stage(
                epoch,
                store_drb,
                CatchupStage::NextStakeTable { epoch: e },
                CatchupEvent::Membership(Err(err)),
            );
            let joined = next_stage(epoch, store_drb, waiting, CatchupEvent::Membership(Ok(Some(m))));
            &&& direct == (CatchupStage::FetchDrb { membership_epoch: m })
            &&& stage_action(epoch, direct) == (CatchupAction::FetchEpochDrb {
                transition_epoch: after_root,
                membership_epoch: m,
            })
            &&& stage_action(epoch, waiting) == (CatchupAction::WaitForCatchup { epoch: after_root })
            &&& joined == (CatchupStage::FetchDrb { membership_epoch: m })
            &&& stage_action(epoch, joined) == (CatchupAction::FetchEpochDrb {
                transition_epoch: after_root,
                membership_epoch: m,
            })
            &&& stage_action(
                epoch,
                next_stage(
                    epoch,
                    store_drb,
                    CatchupStage::NextStakeTable { epoch: e },
                    CatchupEvent::Membership(Ok(None)),
                ),
            ) == CatchupAction::SerializeQcSignatures
            &&& stage_action(
                epoch,
                next_stage(epoch, store_drb, waiting, CatchupEvent::Membership(Ok(None))),
            ) == CatchupAction::SerializeQcSignatures
            &&& stage_action(
                epoch,
                next_stage(
                    epoch,
                    store_drb,
                    CatchupStage::FetchDrb { membership_epoch: m },
                    CatchupEvent::EpochDrb(None),
                ),
            ) == CatchupAction::SerializeQcSignatures
        }),
{
}

/// The DRB result in hand (fetched or computed) is handed to the storage
/// callback when there is one, then added to the store, both for the epoch
/// caught up to; and computing it uses the seed of the serialized signatures.
pub proof fn drb_result_goes_to_store(
    epoch: u64,
    store_drb: bool,
    m: u64,
    drb: DrbResult,
    bytes: Vec<u8>,
)
    requires
        epoch >= 2,
    ensures
        ({
            let fetched = next_stage(
                epoch,
                store_drb,
                CatchupStage::FetchDrb { membership_epoch: m },
                CatchupEvent::EpochDrb(Some(drb)),
            );
            let compute = next_stage(
                epoch,
                store_drb,
                CatchupStage::SerializeQc,
                CatchupEvent::QcSignatures(Some(bytes)),
            );
            let computed = next_stage(epoch, store_drb, compute, CatchupEvent::DrbComputed(drb));
            let added = if store_drb {
                next_stage(epoch, store_drb, fetched, CatchupEvent::Done)
            } else {
                fetched
            };
            &&& stage_action(epoch, compute) == (CatchupAction::ComputeDrb {
                seed: drb_seed_of(bytes@),
            })
            &&& computed == fetched
            &&& store_drb ==> stage_action(epoch, fetched) == (CatchupAction::StoreDrbResult {
                epoch,
                drb,
            })
            &&& stage_action(epoch, added) == (CatchupAction::AddDrbResult { epoch, drb })
            &&& next_stage(epoch, store_drb, added, CatchupEvent::Done) == CatchupStage::Finished(
                Ok::<u64, MembershipError>(epoch),
            )
        }),
{
}

/// How a catchup fails: a root leaf that cannot be had (or a root wait that
/// hands out no epoch) names the root epoch; an error from waiting on another
/// catchup is passed on unchanged; a refused epoch root and a failed
/// serialization have their own errors.
pub proof fn catchup_failures(epoch: u64, store_drb: bool, m: u64, err: MembershipError)
    requires
        epoch >= 2,
    ensures
        ({
            let unavailable = CatchupStage::Finished(
                Err::<u64, MembershipError>(
                    MembershipError::EpochRootUnavailable { root_epoch: (epoch - 2) as u64 },
                ),
            );
            &&& next_stage(
                epoch,
                store_drb,
                CatchupStage::FetchRoot { membership_epoch: m },
                CatchupEvent::EpochRoot(false),
            ) == unavailable
            &&& next_stage(
                epoch,
                store_drb,
                CatchupStage::AwaitRoot,
                CatchupEvent::Membership(Ok(None)),
            ) == unavailable
            &&& next_stage(
                epoch,
                store_drb,
                CatchupStage::AwaitRoot,
                CatchupEvent::Membership(Err(err)),
            ) == CatchupStage::Finished(Err::<u64, MembershipError>(err))
            &&& next_stage(
                epoch,
                store_drb,
                CatchupStage::AwaitDrbEpoch,
                CatchupEvent::Membership(Err(err)),
            ) == CatchupStage::Finished(Err::<u64, MembershipError>(err))
            &&& next_stage(
                epoch,
                store_drb,
                CatchupStage::AddRoot { membership_epoch: m },
                CatchupEvent::EpochRootAdded(false),
            ) == CatchupStage::Finished(
                Err::<u64, MembershipError>(MembershipError::AddEpochRootFailed),
            )
            &&& next_stage(
                epoch,
                store_drb,
                CatchupStage::SerializeQc,
                CatchupEvent::QcSignatures(None),
            ) == CatchupStage::Finished(
                Err::<u64, MembershipError>(MembershipError::QcSerializationFailed),
            )
        }),
{
}

/// The events of a catchup whose root stake table and DRB result are at hand.
pub open spec fn events_with_all_at_hand(epoch: u64, store_drb: bool, drb: DrbResult) -> Seq<
    CatchupEvent,
> {
    seq![
        CatchupEvent::StakeTable(true),
        CatchupEvent::EpochRoot(true),
        CatchupEvent::EpochRootAdded(true),
        CatchupEvent::Membership(Ok(Some((epoch - 1) as u64))),
        CatchupEvent::EpochDrb(Some(drb)),
    ] + if store_drb {
        seq![CatchupEvent::Done, CatchupEvent::Done]
    } else {
        seq![CatchupEvent::Done]
    }
}

/// Every epoch from 2 on can be caught up: when the store has the root
/// epoch's stake table and every fetch succeeds, the catchup ends with the
/// membership of the epoch.
pub proof fn every_later_epoch_can_be_caught_up(epoch: u64, store_drb: bool, drb: DrbResult)
    requires
        epoch >= 2,
    ensures
        run_events(epoch, store_drb, start_stage(epoch), events_with_all_at_hand(epoch, store_drb, drb))
            == CatchupStage::Finished(Ok::<u64, MembershipError>(epoch)),
{
    let evs = events_with_all_at_hand(epoch, store_drb, drb);
    let root = (epoch - 2) as u64;
    let after = (epoch - 1) as u64;
    let fin = CatchupStage::Finished(Ok::<u64, MembershipError>(epoch));
    let s1 = CatchupStage::FetchRoot { membership_epoch: root };
    let s2 = CatchupStage::AddRoot { membership_epoch: root };
    let s3 = CatchupStage::NextStakeTable { epoch: after };
    let s4 = CatchupStage::FetchDrb { membership_epoch: after };
    let s5 = after_drb(store_drb, drb);
    let e1 = evs.drop_first();
    let e2 = e1.drop_first();
    let e3 = e2.drop_first();
    let e4 = e3.drop_first();
    let e5 = e4.drop_first();
    assert(evs[0] == CatchupEvent::StakeTable(true));
    assert(e1[0] == CatchupEvent::EpochRoot(true));
    assert(e2[0] == CatchupEvent::EpochRootAdded(true));
    assert(e3[0] == CatchupEvent::Membership(Ok(Some(after))));
    assert(e4[0] == CatchupEvent::EpochDrb(Some(drb)));
    assert(e5[0] == CatchupEvent::Done);
    let e6 = e5.drop_first();
    if store_drb {
        assert(e6[0] == CatchupEvent::Done);
        assert(e6.drop_first().len() == 0);
        assert(run_events(epoch, store_drb, fin, e6.drop_first()) == fin);
        assert(run_events(epoch, store_drb, CatchupStage::AddDrb { drb }, e6) == fin);
    } else {
        assert(e6.len() == 0);
        assert(run_events(epoch, store_drb, fin, e6) == fin);
    }
    assert(run_events(epoch, store_drb, s5, e5) == fin);
    assert(run_events(epoch, store_drb, s4, e4) == fin);
    assert(run_events(epoch, store_drb, s3, e3) == fin);
    assert(run_events(epoch, store_drb, s2, e2) == fin);
    assert(run_events(epoch, store_drb, s1, e1) == fin);
    assert(run_events(epoch, store_drb, CatchupStage::CheckRoot, evs) == fin);
}

} // verus!
