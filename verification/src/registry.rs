//! The registry of catchups in progress, keyed by epoch.
//!
//! Every catchup is run under an entry of the registry: the entry holds a
//! ticket, unique to the run, and the handle that later callers wait on. A
//! catchup is started only by registering a fresh entry for its epoch, either
//! when there is none (`register`) or in place of one whose run the caller
//! saw end without a membership (`take_over`). While a run's entry is there,
//! neither succeeds for its epoch, so later callers join it instead of
//! starting a second catchup. The entry goes only when its own run concludes
//! in failure, so that a later caller can retry; after a success it stays.

use vstd::prelude::*;
use std::collections::HashMap;

verus! {

broadcast use vstd::std_specs::hash::group_hash_axioms;

/// Catchups in progress: for each epoch, the ticket of its run and the handle
/// (`R`) its waiters join on.
pub struct CatchupRegistry<R> {
    entries: HashMap<u64, (u64, R)>,
    next_ticket: u64,
}

/// The ticket of the run registered for `epoch` in `m`, if there is one.
pub open spec fn ticket_of<R>(m: Map<u64, (u64, R)>, epoch: u64) -> Option<u64> {
    if m.contains_key(epoch) {
        Some(m[epoch].0)
    } else {
        None
    }
}

/// The registry `m` after a registration of `epoch` under `ticket` with
/// `handle`: it takes only when the epoch has no entry.
pub open spec fn registered<R>(m: Map<u64, (u64, R)>, epoch: u64, ticket: u64, handle: R) -> Map<
    u64,
    (u64, R),
> {
    if m.contains_key(epoch) {
        m
    } else {
        m.insert(epoch, (ticket, handle))
    }
}

/// The registry `m` after a caller that saw the entry `seen` of `epoch` (by
/// its ticket, `None` for no entry) end without a membership tries to run the
/// catchup itself under `ticket`: it takes only when the entry is still the
/// one it saw.
pub open spec fn taken_over<R>(
    m: Map<u64, (u64, R)>,
    epoch: u64,
    seen: Option<u64>,
    ticket: u64,
    handle: R,
) -> Map<u64, (u64, R)> {
    if ticket_of(m, epoch) == seen {
        m.insert(epoch, (ticket, handle))
    } else {
        m
    }
}

/// The registry `m` after the run under `ticket` for `epoch` ended: a failed
/// run takes its own entry out; anything else leaves the registry as it is.
pub open spec fn concluded<R>(m: Map<u64, (u64, R)>, epoch: u64, ticket: u64, succeeded: bool) -> Map<
    u64,
    (u64, R),
> {
    if !succeeded && ticket_of(m, epoch) == Some(ticket) {
        m.remove(epoch)
    } else {
        m
    }
}

impl<R> View for CatchupRegistry<R> {
    type V = Map<u64, (u64, R)>;

    closed spec fn view(&self) -> Map<u64, (u64, R)> {
        self.entries@
    }
}

impl<R> CatchupRegistry<R> {
    /// Every ticket in the registry is below the next one.
    pub closed spec fn wf(self) -> bool {
        forall|e: u64| #[trigger] self.entries@.contains_key(e) ==> self.entries@[e].0 < self.next_ticket
    }

    /// The ticket the next registration gets; every ticket in the registry
    /// is below it.
    pub closed spec fn spec_next_ticket(&self) -> u64 {
        self.next_ticket
    }

    /// An empty registry.
    pub fn new() -> (r: Self)
        ensures
            r@ == Map::<u64, (u64, R)>::empty(),
            r.spec_next_ticket() == 0,
            r.wf(),
    {
        CatchupRegistry { entries: HashMap::new(), next_ticket: 0 }
    }

    /// Whether another ticket can be handed out.
    pub fn has_tickets_left(&self) -> (r: bool)
        ensures
            r == (self.spec_next_ticket() < u64::MAX),
    {
        self.next_ticket < u64::MAX
    }

    /// Whether a catchup for `epoch` is in progress.
    pub fn contains_key(&self, epoch: u64) -> (r: bool)
        ensures
            r == self@.contains_key(epoch),
    {
        self.entries.contains_key(&epoch)
    }

    /// The ticket and handle of the catchup for `epoch`, if one is in progress.
    pub fn get(&self, epoch: u64) -> (r: Option<&(u64, R)>)
        requires
            self.wf(),
        ensures
            match r {
                Some(entry) => self@.contains_key(epoch) && *entry == self@[epoch] && entry.0
                    < self.spec_next_ticket(),
                None => !self@.contains_key(epoch),
            },
    {
        self.entries.get(&epoch)
    }

    /// Register a catchup for `epoch` with `handle`, unless one is already in
    /// progress; gives the ticket of the new run.
    pub fn register(&mut self, epoch: u64, handle: R) -> (ticket: Option<u64>)
        requires
            old(self).wf(),
            old(self).spec_next_ticket() < u64::MAX,
        ensures
            final(self).wf(),
            ticket == (if old(self)@.contains_key(epoch) {
                None
            } else {
                Some(old(self).spec_next_ticket())
            }),
            final(self)@ == registered(
                old(self)@,
                epoch,
                old(self).spec_next_ticket(),
                handle,
            ),
            final(self).spec_next_ticket() == (if ticket is Some {
                old(self).spec_next_ticket() + 1
            } else {
                old(self).spec_next_ticket() as int
            }),
    {
        if self.entries.contains_key(&epoch) {
            None
        } else {
            let t = self.next_ticket;
            self.entries.insert(epoch, (t, handle));
            self.next_ticket = t + 1;
            Some(t)
        }
    }

    /// Run the catchup of `epoch` under a new entry with `handle`, in place of
    /// the entry `seen` (by its ticket; `None` for none) whose run the caller
    /// saw end without a membership; refused when the entry is no longer the
    /// one seen. Gives the ticket of the new run.
    pub fn take_over(&mut self, epoch: u64, seen: Option<u64>, handle: R) -> (ticket: Option<u64>)
        requires
            old(self).wf(),
            old(self).spec_next_ticket() < u64::MAX,
        ensures
            final(self).wf(),
            ticket == (if ticket_of(old(self)@, epoch) == seen {
                Some(old(self).spec_next_ticket())
            } else {
                None
            }),
            final(self)@ == taken_over(
                old(self)@,
                epoch,
                seen,
                old(self).spec_next_ticket(),
                handle,
            ),
            final(self).spec_next_ticket() == (if ticket is Some {
                old(self).spec_next_ticket() + 1
            } else {
                old(self).spec_next_ticket() as int
            }),
    {
        let current: Option<u64> = match self.entries.get(&epoch) {
            Some(entry) => Some(entry.0),
            None => None,
        };
        if current == seen {
            let t = self.next_ticket;
            self.entries.insert(epoch, (t, handle));
            self.next_ticket = t + 1;
            Some(t)
        } else {
            None
        }
    }

    /// Record the end of the run under `ticket` for `epoch`: a failed run
    /// takes its own entry out; a successful one leaves it.
    pub fn conclude(&mut self, epoch: u64, ticket: u64, succeeded: bool)
        requires
            old(self).wf(),
        ensures
            final(self).wf(),
            final(self)@ == concluded(old(self)@, epoch, ticket, succeeded),
            final(self).spec_next_ticket() == old(self).spec_next_ticket(),
    {
        if !succeeded {
            let current: Option<u64> = match self.entries.get(&epoch) {
                Some(entry) => Some(entry.0),
                None => None,
            };
            if current == Some(ticket) {
                self.entries.remove(&epoch);
            }
        }
    }
}

impl<R> Default for CatchupRegistry<R> {
    fn default() -> (r: Self)
        ensures
            r@ == Map::<u64, (u64, R)>::empty(),
            r.spec_next_ticket() == 0,
            r.wf(),
    {
        CatchupRegistry::new()
    }
}

/// What can be done to the registry: a registration, a take-over, or the
/// conclusion of a run.
pub enum RegistryOp<R> {
    Register { epoch: u64, ticket: u64, handle: R },
    TakeOver { epoch: u64, seen: Option<u64>, ticket: u64, handle: R },
    Conclude { epoch: u64, ticket: u64, succeeded: bool },
}

/// The registry `m` after `op`.
pub open spec fn apply_op<R>(m: Map<u64, (u64, R)>, op: RegistryOp<R>) -> Map<u64, (u64, R)> {
    match op {
        RegistryOp::Register { epoch, ticket, handle } => registered(m, epoch, ticket, handle),
        RegistryOp::TakeOver { epoch, seen, ticket, handle } => taken_over(
            m,
            epoch,
            seen,
            ticket,
            handle,
        ),
        RegistryOp::Conclude { epoch, ticket, succeeded } => concluded(m, epoch, ticket, succeeded),
    }
}

/// The registry `m` after the operations `ops`, in order.
pub open spec fn apply_ops<R>(m: Map<u64, (u64, R)>, ops: Seq<RegistryOp<R>>) -> Map<
    u64,
    (u64, R),
>
    decreases ops.len(),
{
    if ops.len() == 0 {
        m
    } else {
        apply_ops(apply_op(m, ops[0]), ops.drop_first())
    }
}

/// Whether `op` is one that may end the run under `ticket` for `epoch`: its
/// own conclusion, or a take-over by a caller that saw that run end.
pub open spec fn ends_run<R>(op: RegistryOp<R>, epoch: u64, ticket: u64) -> bool {
    match op {
        RegistryOp::Conclude { epoch: e, ticket: t, .. } => e == epoch && t == ticket,
        RegistryOp::TakeOver { epoch: e, seen, .. } => e == epoch && seen == Some(ticket),
        RegistryOp::Register { .. } => false,
    }
}

/// No catchup is duplicated: while the run under `ticket` has the entry of
/// `epoch`, a registration or a take-over of `epoch` by anyone else starts
/// nothing and changes nothing, and the conclusion of any other run leaves the
/// entry in place.
pub proof fn no_second_catchup_while_one_runs<R>(
    m: Map<u64, (u64, R)>,
    epoch: u64,
    ticket: u64,
    seen: Option<u64>,
    other: u64,
    handle: R,
    succeeded: bool,
)
    requires
        ticket_of(m, epoch) == Some(ticket),
    ensures
        registered(m, epoch, other, handle) == m,
        seen != Some(ticket) ==> taken_over(m, epoch, seen, other, handle) == m,
        other != ticket ==> concluded(m, epoch, other, succeeded) == m,
        concluded(m, epoch, ticket, true) == m,
        !concluded(m, epoch, ticket, false).contains_key(epoch),
{
}

/// A run's entry stays in the registry, with its ticket, through any sequence
/// of operations that neither concludes that run nor takes over from it: every
/// catchup in progress can be found, and joined, by later callers.
pub proof fn entry_stays_until_run_ends<R>(
    m: Map<u64, (u64, R)>,
    ops: Seq<RegistryOp<R>>,
    epoch: u64,
    ticket: u64,
)
    requires
        ticket_of(m, epoch) == Some(ticket),
        forall|i: int| 0 <= i < ops.len() ==> !ends_run(#[trigger] ops[i], epoch, ticket),
    ensures
        ticket_of(apply_ops(m, ops), epoch) == Some(ticket),
        apply_ops(m, ops)[epoch] == m[epoch],
    decreases ops.len(),
{
    if ops.len() > 0 {
        assert(!ends_run(ops[0], epoch, ticket));
        let m1 = apply_op(m, ops[0]);
        assert(ticket_of(m1, epoch) == Some(ticket) && m1[epoch] == m[epoch]);
        let rest = ops.drop_first();
        assert forall|i: int| 0 <= i < rest.len() implies !ends_run(#[trigger] rest[i], epoch, ticket) by {
            assert(rest[i] == ops[i + 1]);
        }
        entry_stays_until_run_ends(m1, rest, epoch, ticket);
    }
}

/// A registration takes exactly when the epoch has no entry, and then the
/// epoch's entry is the new run's: the first registration stays.
pub proof fn register_keeps_first<R>(
    m: Map<u64, (u64, R)>,
    epoch: u64,
    first: u64,
    h1: R,
    second: u64,
    h2: R,
)
    ensures
        registered(registered(m, epoch, first, h1), epoch, second, h2) == registered(
            m,
            epoch,
            first,
            h1,
        ),
        !m.contains_key(epoch) ==> ticket_of(registered(m, epoch, first, h1), epoch) == Some(
            first,
        ),
{
}

/// After a failed run, its epoch is free, and a new registration takes the
/// new run; after a successful one, the entry stays.
pub proof fn failed_catchup_can_restart<R>(
    m: Map<u64, (u64, R)>,
    epoch: u64,
    first: u64,
    h1: R,
    second: u64,
    h2: R,
)
    requires
        !m.contains_key(epoch),
    ensures
        !concluded(registered(m, epoch, first, h1), epoch, first, false).contains_key(epoch),
        ticket_of(
            registered(concluded(registered(m, epoch, first, h1), epoch, first, false), epoch, second, h2),
            epoch,
        ) == Some(second),
        concluded(registered(m, epoch, first, h1), epoch, first, true).contains_key(epoch),
{
}

/// Any operation on one epoch leaves every other epoch's entry as it was.
pub proof fn other_epochs_untouched<R>(m: Map<u64, (u64, R)>, op: RegistryOp<R>, other: u64)
    requires
        match op {
            RegistryOp::Register { epoch, .. } => epoch != other,
            RegistryOp::TakeOver { epoch, .. } => epoch != other,
            RegistryOp::Conclude { epoch, .. } => epoch != other,
        },
    ensures
        apply_op(m, op).contains_key(other) == m.contains_key(other),
        m.contains_key(other) ==> apply_op(m, op)[other] == m[other],
{
}

/// A take-over succeeds exactly when the epoch's entry is still the one the
/// caller saw (or there is none, when it saw none); it then gives the epoch to
/// the new run, and otherwise changes nothing.
pub proof fn take_over_only_from_the_entry_seen<R>(
    m: Map<u64, (u64, R)>,
    epoch: u64,
    seen: Option<u64>,
    ticket: u64,
    handle: R,
)
    ensures
        (ticket_of(taken_over(m, epoch, seen, ticket, handle), epoch) == Some(ticket)
            && taken_over(m, epoch, seen, ticket, handle)[epoch] == (ticket, handle))
            <== (ticket_of(m, epoch) == seen),
        ticket_of(m, epoch) != seen ==> taken_over(m, epoch, seen, ticket, handle) == m,
        seen is None && !m.contains_key(epoch) ==> taken_over(m, epoch, seen, ticket, handle)
            == m.insert(epoch, (ticket, handle)),
{
}

} // verus!
