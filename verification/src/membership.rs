//! Epoch memberships and the coordinator that hands them out.
//!
//! The coordinator owns three handles that the runtime shares between its
//! clones: the membership store (`M`), the registry of catchups in progress
//! (`C`) and an optional callback that stores DRB results (`S`). Every
//! decision the coordinator takes is made here, from the answers that the
//! runtime read from those handles.

use vstd::prelude::*;

verus! {

/// The result of the distributed random beacon for an epoch.
pub type DrbResult = [u8; 32];

/// Why a membership could not be handed out.
#[derive(Clone, Copy, Debug, PartialEq, Eq, Structural)]
pub enum MembershipError {
    /// The stake table of `epoch` is missing and a catchup for it is already
    /// running; `randomized` tells whether the randomized table was asked for.
    CatchupInProgress { epoch: u64, randomized: bool },
    /// The stake table of `epoch` is missing and a catchup for it was started.
    CatchupStarted { epoch: u64, randomized: bool },
    /// A membership without an epoch has no next epoch.
    NoNextEpoch,
    /// A root or DRB lookup was asked of a membership without an epoch.
    NoEpoch,
    /// A catchup was asked for epoch 0 or 1, whose stake tables must be known
    /// from the start.
    InitialStakeTableMissing,
    /// The root leaf of `root_epoch` could not be fetched.
    EpochRootUnavailable { root_epoch: u64 },
    /// The membership store refused the epoch root.
    AddEpochRootFailed,
    /// The signatures of the root's quorum certificate could not be serialized.
    QcSerializationFailed,
}

/// What a lookup of a stake table for an optional epoch gives: the epoch of the
/// membership handed out, or the reason for refusing it.
///
/// `has_table` is whether the store holds the table asked for and
/// `in_progress` whether the registry holds a catchup for the epoch.
pub open spec fn lookup_result(
    maybe_epoch: Option<u64>,
    randomized: bool,
    has_table: bool,
    in_progress: bool,
) -> Result<Option<u64>, MembershipError> {
    match maybe_epoch {
        None => Ok(None),
        Some(epoch) => if has_table {
            Ok(Some(epoch))
        } else if in_progress {
            Err(MembershipError::CatchupInProgress { epoch, randomized })
        } else {
            Err(MembershipError::CatchupStarted { epoch, randomized })
        },
    }
}

/// Coordinates the catchup of memberships across epochs.
pub struct EpochMembershipCoordinator<M, C, S> {
    /// The underlying membership store.
    membership: M,
    /// The catchups in progress, shared between the clones.
    catchup_map: C,
    /// Stores a DRB result computed during catchup.
    storage_add_drb_result_fn: Option<S>,
    /// Number of blocks in an epoch.
    pub epoch_height: u64,
}

impl<M, C, S> EpochMembershipCoordinator<M, C, S> {
    pub closed spec fn spec_membership(self) -> M {
        self.membership
    }

    pub closed spec fn spec_catchup_map(self) -> C {
        self.catchup_map
    }

    pub closed spec fn spec_storage_fn(self) -> Option<S> {
        self.storage_add_drb_result_fn
    }

    pub closed spec fn spec_epoch_height(self) -> u64 {
        self.epoch_height
    }
}

impl<M: Clone, C: Clone, S: Clone> EpochMembershipCoordinator<M, C, S> {
    /// `self` was cloned from `orig`: the handles are clones of `orig`'s and
    /// the epoch height is the same.
    pub open spec fn is_clone_of(self, orig: Self) -> bool {
        &&& cloned(orig.spec_membership(), self.spec_membership())
        &&& cloned(orig.spec_catchup_map(), self.spec_catchup_map())
        &&& orig.spec_storage_fn() is Some == self.spec_storage_fn() is Some
        &&& orig.spec_storage_fn() is Some ==> cloned(
            orig.spec_storage_fn().unwrap(),
            self.spec_storage_fn().unwrap(),
        )
        &&& self.spec_epoch_height() == orig.spec_epoch_height()
    }
}

impl<M: Clone, C: Clone, S: Clone> Clone for EpochMembershipCoordinator<M, C, S> {
    fn clone(&self) -> (r: Self)
        ensures
            r.is_clone_of(*self),
    {
        EpochMembershipCoordinator {
            membership: self.membership.clone(),
            catchup_map: self.catchup_map.clone(),
            storage_add_drb_result_fn: self.storage_add_drb_result_fn.clone(),
            epoch_height: self.epoch_height,
        }
    }
}

impl<M: Clone, C: Clone + Default, S: Clone> EpochMembershipCoordinator<M, C, S> {
    /// Create a coordinator over `membership`, with no catchup in progress.
    pub fn new(membership: M, storage_add_drb_result_fn: Option<S>, epoch_height: u64) -> (r: Self)
        ensures
            r.spec_membership() == membership,
            call_ensures(C::default, (), r.spec_catchup_map()),
            r.spec_storage_fn() == storage_add_drb_result_fn,
            r.spec_epoch_height() == epoch_height,
    {
        EpochMembershipCoordinator {
            membership,
            catchup_map: C::default(),
            storage_add_drb_result_fn,
            epoch_height,
        }
    }
}

impl<M: Clone, C: Clone, S: Clone> EpochMembershipCoordinator<M, C, S> {
    /// The membership store.
    pub fn membership(&self) -> (r: &M)
        ensures
            *r == self.spec_membership(),
    {
        &self.membership
    }

    /// The registry of catchups in progress.
    pub fn catchup_map(&self) -> (r: &C)
        ensures
            *r == self.spec_catchup_map(),
    {
        &self.catchup_map
    }

    /// The callback that stores DRB results, if there is one.
    pub fn storage_add_drb_result_fn(&self) -> (r: &Option<S>)
        ensures
            *r == self.spec_storage_fn(),
    {
        &self.storage_add_drb_result_fn
    }

    fn lookup(
        &self,
        maybe_epoch: Option<u64>,
        randomized: bool,
        has_table: bool,
        catchup_in_progress: bool,
    ) -> (r: Result<EpochMembership<M, C, S>, MembershipError>)
        ensures
            match r {
                Ok(m) => lookup_result(maybe_epoch, randomized, has_table, catchup_in_progress)
                    == Ok::<Option<u64>, MembershipError>(m.epoch) && m.coordinator.is_clone_of(
                    *self,
                ),
                Err(e) => lookup_result(maybe_epoch, randomized, has_table, catchup_in_progress)
                    == Err::<Option<u64>, MembershipError>(e),
            },
    {
        let ret_val = EpochMembership { epoch: maybe_epoch, coordinator: self.clone() };
        match maybe_epoch {
            None => Ok(ret_val),
            Some(epoch) => {
                if has_table {
                    Ok(ret_val)
                } else if catchup_in_progress {
                    Err(MembershipError::CatchupInProgress { epoch, randomized })
                } else {
                    Err(MembershipError::CatchupStarted { epoch, randomized })
                }
            },
        }
    }

    /// A membership for `maybe_epoch` that is guaranteed to have a randomized
    /// stake table.
    ///
    /// `has_randomized_stake_table` is the store's answer for the epoch and
    /// `catchup_in_progress` the registry's; neither is read for a `None`
    /// epoch, nor the registry's when the table is there. On
    /// `Err(CatchupStarted { .. })` the caller starts a catchup for the epoch.
    pub fn membership_for_epoch(
        &self,
        maybe_epoch: Option<u64>,
        has_randomized_stake_table: bool,
        catchup_in_progress: bool,
    ) -> (r: Result<EpochMembership<M, C, S>, MembershipError>)
        ensures
            match r {
                Ok(m) => lookup_result(
                    maybe_epoch,
                    true,
                    has_randomized_stake_table,
                    catchup_in_progress,
                ) == Ok::<Option<u64>, MembershipError>(m.epoch) && m.coordinator.is_clone_of(
                    *self,
                ),
                Err(e) => lookup_result(
                    maybe_epoch,
                    true,
                    has_randomized_stake_table,
                    catchup_in_progress,
                ) == Err::<Option<u64>, MembershipError>(e),
            },
    {
        self.lookup(maybe_epoch, true, has_randomized_stake_table, catchup_in_progress)
    }

    /// A membership for `maybe_epoch` that is guaranteed to have a stake table
    /// (not necessarily randomized). Answers as `membership_for_epoch` does.
    pub fn stake_table_for_epoch(
        &self,
        maybe_epoch: Option<u64>,
        has_stake_table: bool,
        catchup_in_progress: bool,
    ) -> (r: Result<EpochMembership<M, C, S>, MembershipError>)
        ensures
            match r {
                Ok(m) => lookup_result(maybe_epoch, false, has_stake_table, catchup_in_progress)
                    == Ok::<Option<u64>, MembershipError>(m.epoch) && m.coordinator.is_clone_of(
                    *self,
                ),
                Err(e) => lookup_result(maybe_epoch, false, has_stake_table, catchup_in_progress)
                    == Err::<Option<u64>, MembershipError>(e),
            },
    {
        self.lookup(maybe_epoch, false, has_stake_table, catchup_in_progress)
    }
}

/// A membership that is guaranteed to have a stake table for its epoch.
pub struct EpochMembership<M, C, S> {
    /// Epoch the membership is guaranteed to have a stake table for.
    pub epoch: Option<u64>,
    /// The coordinator it came from.
    pub coordinator: EpochMembershipCoordinator<M, C, S>,
}

impl<M: Clone, C: Clone, S: Clone> Clone for EpochMembership<M, C, S> {
    fn clone(&self) -> (r: Self)
        ensures
            r.epoch == self.epoch,
            r.coordinator.is_clone_of(self.coordinator),
    {
        EpochMembership { coordinator: self.coordinator.clone(), epoch: self.epoch }
    }
}

/// The block height and epoch that a root or DRB lookup is made with.
#[derive(Clone, Copy, Debug, PartialEq, Eq, Structural)]
pub struct EpochQuery {
    pub block_height: u64,
    pub epoch: u64,
}

impl<M: Clone, C: Clone, S: Clone> EpochMembership<M, C, S> {
    /// The epoch this membership is good for.
    pub fn epoch(&self) -> (r: Option<u64>)
        ensures
            r == self.epoch,
    {
        self.epoch
    }

    /// The epoch after this one, which `next_epoch` and
    /// `next_epoch_stake_table` look up.
    pub fn next_epoch_number(&self) -> (r: Result<u64, MembershipError>)
        requires
            self.epoch matches Some(e) ==> e < u64::MAX,
        ensures
            match self.epoch {
                None => r == Err::<u64, MembershipError>(MembershipError::NoNextEpoch),
                Some(e) => r == Ok::<u64, MembershipError>((e + 1) as u64),
            },
    {
        match self.epoch {
            None => Err(MembershipError::NoNextEpoch),
            Some(e) => Ok(e + 1),
        }
    }

    /// A membership for the next epoch, with a randomized stake table.
    /// The answers are those for the next epoch, as in
    /// `membership_for_epoch`.
    pub fn next_epoch(&self, has_randomized_stake_table: bool, catchup_in_progress: bool) -> (r:
        Result<Self, MembershipError>)
        requires
            self.epoch matches Some(e) ==> e < u64::MAX,
        ensures
            match self.epoch {
                None => r is Err && r->Err_0 == MembershipError::NoNextEpoch,
                Some(e) => match r {
                    Ok(m) => lookup_result(
                        Some((e + 1) as u64),
                        true,
                        has_randomized_stake_table,
                        catchup_in_progress,
                    ) == Ok::<Option<u64>, MembershipError>(m.epoch) && m.coordinator.is_clone_of(
                        self.coordinator,
                    ),
                    Err(err) => lookup_result(
                        Some((e + 1) as u64),
                        true,
                        has_randomized_stake_table,
                        catchup_in_progress,
                    ) == Err::<Option<u64>, MembershipError>(err),
                },
            },
    {
        match self.epoch {
            None => Err(MembershipError::NoNextEpoch),
            Some(e) => self.coordinator.membership_for_epoch(
                Some(e + 1),
                has_randomized_stake_table,
                catchup_in_progress,
            ),
        }
    }

    /// A membership for the next epoch, with a stake table.
    pub fn next_epoch_stake_table(&self, has_stake_table: bool, catchup_in_progress: bool) -> (r:
        Result<Self, MembershipError>)
        requires
            self.epoch matches Some(e) ==> e < u64::MAX,
        ensures
            match self.epoch {
                None => r is Err && r->Err_0 == MembershipError::NoNextEpoch,
                Some(e) => match r {
                    Ok(m) => lookup_result(
                        Some((e + 1) as u64),
                        false,
                        has_stake_table,
                        catchup_in_progress,
                    ) == Ok::<Option<u64>, MembershipError>(m.epoch) && m.coordinator.is_clone_of(
                        self.coordinator,
                    ),
                    Err(err) => lookup_result(
                        Some((e + 1) as u64),
                        false,
                        has_stake_table,
                        catchup_in_progress,
                    ) == Err::<Option<u64>, MembershipError>(err),
                },
            },
    {
        match self.epoch {
            None => Err(MembershipError::NoNextEpoch),
            Some(e) => self.coordinator.stake_table_for_epoch(
                Some(e + 1),
                has_stake_table,
                catchup_in_progress,
            ),
        }
    }

    /// A membership for another epoch, from the same coordinator.
    pub fn get_new_epoch(
        &self,
        epoch: Option<u64>,
        has_randomized_stake_table: bool,
        catchup_in_progress: bool,
    ) -> (r: Result<Self, MembershipError>)
        ensures
            match r {
                Ok(m) => lookup_result(epoch, true, has_randomized_stake_table, catchup_in_progress)
                    == Ok::<Option<u64>, MembershipError>(m.epoch) && m.coordinator.is_clone_of(
                    self.coordinator,
                ),
                Err(err) => lookup_result(
                    epoch,
                    true,
                    has_randomized_stake_table,
                    catchup_in_progress,
                ) == Err::<Option<u64>, MembershipError>(err),
            },
    {
        self.coordinator.membership_for_epoch(epoch, has_randomized_stake_table, catchup_in_progress)
    }

    /// The query that fetches the epoch root at `block_height` from the store.
    pub fn get_epoch_root(&self, block_height: u64) -> (r: Result<EpochQuery, MembershipError>)
        ensures
            match self.epoch {
                None => r == Err::<EpochQuery, MembershipError>(MembershipError::NoEpoch),
                Some(e) => r == Ok::<EpochQuery, MembershipError>(
                    EpochQuery { block_height, epoch: e },
                ),
            },
    {
        match self.epoch {
            None => Err(MembershipError::NoEpoch),
            Some(epoch) => Ok(EpochQuery { block_height, epoch }),
        }
    }

    /// The query that fetches the DRB result at `block_height` from the store.
    pub fn get_epoch_drb(&self, block_height: u64) -> (r: Result<EpochQuery, MembershipError>)
        ensures
            match self.epoch {
                None => r == Err::<EpochQuery, MembershipError>(MembershipError::NoEpoch),
                Some(e) => r == Ok::<EpochQuery, MembershipError>(
                    EpochQuery { block_height, epoch: e },
                ),
            },
    {
        match self.epoch {
            None => Err(MembershipError::NoEpoch),
            Some(epoch) => Ok(EpochQuery { block_height, epoch }),
        }
    }

    /// The epoch a DRB result is added for: the membership's own, if it has one.
    pub fn add_drb_result(&self, drb_result: DrbResult) -> (r: Option<(u64, DrbResult)>)
        ensures
            match self.epoch {
                None => r is None,
                Some(e) => r == Some((e, drb_result)),
            },
    {
        match self.epoch {
            None => None,
            Some(epoch) => Some((epoch, drb_result)),
        }
    }
}

/// A lookup without an epoch always succeeds, whatever the store and the
/// registry would answer.
pub proof fn lookup_without_epoch_succeeds(
    randomized: bool,
    has_table: bool,
    in_progress: bool,
)
    ensures
        lookup_result(None, randomized, has_table, in_progress) == Ok::<
            Option<u64>,
            MembershipError,
        >(None),
{
}

/// When the store has the table, the lookup hands out the epoch whatever the
/// registry holds: the registry need not be read.
pub proof fn lookup_with_table_ignores_registry(
    epoch: u64,
    randomized: bool,
    in_progress: bool,
)
    ensures
        lookup_result(Some(epoch), randomized, true, in_progress) == Ok::<
            Option<u64>,
            MembershipError,
        >(Some(epoch)),
{
}

/// A lookup starts a catchup exactly when the table is missing and no catchup
/// for the epoch is in progress; it never starts a second one.
pub proof fn catchup_started_iff_missing_and_idle(
    epoch: u64,
    randomized: bool,
    has_table: bool,
    in_progress: bool,
)
    ensures
        (lookup_result(Some(epoch), randomized, has_table, in_progress) == Err::<
            Option<u64>,
            MembershipError,
        >(MembershipError::CatchupStarted { epoch, randomized })) <==> (!has_table
            && !in_progress),
        in_progress ==> !(lookup_result(Some(epoch), randomized, has_table, in_progress) matches Err(
            MembershipError::CatchupStarted { .. },
        )),
{
}

/// A lookup that succeeds hands out a membership for the epoch asked for,
/// and for an epoch only when the store has the table asked for.
pub proof fn lookup_hands_out_the_epoch_asked_for(
    maybe_epoch: Option<u64>,
    randomized: bool,
    has_table: bool,
    in_progress: bool,
    got: Option<u64>,
)
    requires
        lookup_result(maybe_epoch, randomized, has_table, in_progress) == Ok::<
            Option<u64>,
            MembershipError,
        >(got),
    ensures
        got == maybe_epoch,
        maybe_epoch is Some ==> has_table,
{
}

/// A refused lookup names the epoch asked for and which table was asked for
/// (randomized or not); it refuses only when the table is missing.
pub proof fn refusal_names_epoch_and_table(
    epoch: u64,
    randomized: bool,
    has_table: bool,
    in_progress: bool,
    err: MembershipError,
)
    requires
        lookup_result(Some(epoch), randomized, has_table, in_progress) == Err::<
            Option<u64>,
            MembershipError,
        >(err),
    ensures
        !has_table,
        err == (if in_progress {
            MembershipError::CatchupInProgress { epoch, randomized }
        } else {
            MembershipError::CatchupStarted { epoch, randomized }
        }),
{
}

} // verus!
