//! The checks of the fee bridge: moving ETH from the L1 into Espresso and
//! looking up balances.
//!
//! A deposit is validated against the fee contract's limits, sent, and
//! waited for twice: until the L1 mines it, then until an Espresso header
//! reports the L1 block it was mined in as finalized. The Espresso balance is
//! then expected to have grown by the amount.

use vstd::prelude::*;
use crate::amount::{amount_bound, wrapped_sum, TokenAmount};

verus! {

/// Why a bridge command failed.
#[derive(Clone, Copy, Debug, PartialEq, Eq)]
pub enum BridgeError {
    /// The amount is below the contract's minimum deposit.
    AmountTooSmall { min_deposit: TokenAmount },
    /// The amount is above the contract's maximum deposit.
    AmountTooLarge { max_deposit: TokenAmount },
    /// The deposit transaction's receipt has no block number.
    NotMined,
    /// The deposit transaction reverted.
    Reverted,
    /// The stream of Espresso headers ended before the deposit was finalized.
    HeaderStreamEnded,
    /// Neither an address nor a mnemonic was given.
    MissingAccount,
}

/// Whether a deposit of `amount` is within the contract's limits.
pub fn check_deposit_amount(amount: u64, min_deposit: &TokenAmount, max_deposit: &TokenAmount) -> (r:
    Result<(), BridgeError>)
    ensures
        r is Ok <==> min_deposit@ <= amount && amount <= max_deposit@,
        r == Err::<(), BridgeError>(BridgeError::AmountTooSmall { min_deposit: *min_deposit })
            <==> amount < min_deposit@,
        r == Err::<(), BridgeError>(BridgeError::AmountTooLarge { max_deposit: *max_deposit })
            <==> min_deposit@ <= amount && amount > max_deposit@,
{
    let a = TokenAmount::from_u64(amount);
    if !min_deposit.le(&a) {
        Err(BridgeError::AmountTooSmall { min_deposit: *min_deposit })
    } else if !a.le(max_deposit) {
        Err(BridgeError::AmountTooLarge { max_deposit: *max_deposit })
    } else {
        Ok(())
    }
}

/// The L1 block a deposit was mined in, from its receipt's block number and
/// status.
pub fn check_deposit_receipt(block_number: Option<u64>, succeeded: bool) -> (r: Result<
    u64,
    BridgeError,
>)
    ensures
        match block_number {
            None => r == Err::<u64, BridgeError>(BridgeError::NotMined),
            Some(n) => if succeeded {
                r == Ok::<u64, BridgeError>(n)
            } else {
                r == Err::<u64, BridgeError>(BridgeError::Reverted)
            },
        },
{
    match block_number {
        None => Err(BridgeError::NotMined),
        Some(n) => if succeeded {
            Ok(n)
        } else {
            Err(BridgeError::Reverted)
        },
    }
}

/// What the stream of Espresso headers gave next.
#[derive(Clone, Copy, Debug, PartialEq, Eq)]
pub enum HeaderEvent {
    /// The stream ended.
    End,
    /// The stream gave an error instead of a header.
    Error,
    /// A header at `height`, with the number of the L1 block it reports as
    /// finalized, if any.
    Header { height: u64, l1_finalized: Option<u64> },
}

/// What to do after a header event.
#[derive(Clone, Copy, Debug, PartialEq, Eq)]
pub enum HeaderDecision {
    /// Keep reading headers.
    Wait,
    /// The deposit is finalized on Espresso at this height.
    Finalized(u64),
}

/// The decision on a header event, while waiting for the L1 block `l1_block`.
pub open spec fn header_decision(ev: HeaderEvent, l1_block: u64) -> Result<HeaderDecision, BridgeError> {
    match ev {
        HeaderEvent::End => Err(BridgeError::HeaderStreamEnded),
        HeaderEvent::Error => Ok(HeaderDecision::Wait),
        HeaderEvent::Header { height, l1_finalized } => match l1_finalized {
            Some(n) => if n >= l1_block {
                Ok(HeaderDecision::Finalized(height))
            } else {
                Ok(HeaderDecision::Wait)
            },
            None => Ok(HeaderDecision::Wait),
        },
    }
}

/// Decide on a header event while waiting for Espresso to finalize the L1
/// block `l1_block`: a header that reports it (or a later one) finalized ends
/// the wait at the header's height; errors and other headers are skipped.
pub fn on_header(ev: HeaderEvent, l1_block: u64) -> (r: Result<HeaderDecision, BridgeError>)
    ensures
        r == header_decision(ev, l1_block),
{
    match ev {
        HeaderEvent::End => Err(BridgeError::HeaderStreamEnded),
        HeaderEvent::Error => Ok(HeaderDecision::Wait),
        HeaderEvent::Header { height, l1_finalized } => match l1_finalized {
            Some(n) => if n >= l1_block {
                Ok(HeaderDecision::Finalized(height))
            } else {
                Ok(HeaderDecision::Wait)
            },
            None => Ok(HeaderDecision::Wait),
        },
    }
}

/// Where waiting over the header events `evs` ends: `None` while it still
/// waits after all of them.
pub open spec fn wait_outcome(evs: Seq<HeaderEvent>, l1_block: u64) -> Option<Result<u64, BridgeError>>
    decreases evs.len(),
{
    if evs.len() == 0 {
        None
    } else {
        match header_decision(evs[0], l1_block) {
            Err(e) => Some(Err(e)),
            Ok(HeaderDecision::Finalized(h)) => Some(Ok(h)),
            Ok(HeaderDecision::Wait) => wait_outcome(evs.drop_first(), l1_block),
        }
    }
}

/// Whether `ev` is a header that reports `l1_block` (or a later block)
/// finalized.
pub open spec fn finalizes(ev: HeaderEvent, l1_block: u64) -> bool {
    ev matches HeaderEvent::Header { l1_finalized: Some(n), .. } && n >= l1_block
}

/// Waiting ends at the height of the first header that reports the deposit's
/// L1 block finalized, provided the stream did not end before it.
pub proof fn wait_ends_at_first_finalizing_header(evs: Seq<HeaderEvent>, l1_block: u64, h: u64)
    requires
        wait_outcome(evs, l1_block) == Some(Ok::<u64, BridgeError>(h)),
    ensures
        exists|i: int|
            0 <= i < evs.len() && finalizes(#[trigger] evs[i], l1_block) && evs[i]
                ->Header_height == h && forall|j: int|
                0 <= j < i ==> !finalizes(#[trigger] evs[j], l1_block) && evs[j] != HeaderEvent::End,
    decreases evs.len(),
{
    if header_decision(evs[0], l1_block) == Ok::<HeaderDecision, BridgeError>(
        HeaderDecision::Wait,
    ) {
        let rest = evs.drop_first();
        wait_ends_at_first_finalizing_header(rest, l1_block, h);
        let i = choose|i: int|
            0 <= i < rest.len() && finalizes(#[trigger] rest[i], l1_block) && rest[i]
                ->Header_height == h && forall|j: int|
                0 <= j < i ==> !finalizes(#[trigger] rest[j], l1_block) && rest[j]
                    != HeaderEvent::End;
        assert(evs[i + 1] == rest[i]);
        assert forall|j: int| 0 <= j < i + 1 implies !finalizes(#[trigger] evs[j], l1_block)
            && evs[j] != HeaderEvent::End by {
            if j > 0 {
                assert(evs[j] == rest[j - 1]);
            }
        }
    } else {
        assert(finalizes(evs[0], l1_block));
    }
}

/// A stream that ends before any header finalizes the deposit's L1 block ends
/// the wait with `HeaderStreamEnded`.
pub proof fn wait_fails_when_stream_ends_first(evs: Seq<HeaderEvent>, l1_block: u64, i: int)
    requires
        0 <= i < evs.len(),
        evs[i] == HeaderEvent::End,
        forall|j: int| 0 <= j < i ==> !finalizes(#[trigger] evs[j], l1_block),
    ensures
        wait_outcome(evs, l1_block) == Some(
            Err::<u64, BridgeError>(BridgeError::HeaderStreamEnded),
        ),
    decreases i,
{
    if i > 0 {
        assert(!finalizes(evs[0], l1_block));
        let rest = evs.drop_first();
        assert forall|j: int| 0 <= j < i - 1 implies !finalizes(#[trigger] rest[j], l1_block) by {
            assert(rest[j] == evs[j + 1]);
        }
        wait_fails_when_stream_ends_first(rest, l1_block, i - 1);
    }
}

/// Whether the Espresso balance grew by at least the amount deposited: the
/// final balance is at least the initial one plus the amount, the sum taken
/// as 256-bit amounts add (wrapping around at 2^256).
pub fn deposit_confirmed(
    initial_balance: &TokenAmount,
    final_balance: &TokenAmount,
    amount: u64,
) -> (r: bool)
    ensures
        r == (final_balance@ >= wrapped_sum(initial_balance@, amount as nat)),
        r == (final_balance@ >= (initial_balance@ + amount) % (amount_bound() as int)),
{
    let expected = initial_balance.wrapping_add_u64(amount);
    expected.le(final_balance)
}

/// Where the account of a balance lookup comes from.
#[derive(Clone, Debug, PartialEq, Eq)]
pub enum AccountSource {
    /// The address given.
    Address([u8; 20]),
    /// The account derived from a mnemonic, at an index.
    Mnemonic { mnemonic: String, account_index: u32 },
}

/// The account a balance is looked up for: the address when one is given,
/// else the one derived from the mnemonic.
pub fn account_source(address: Option<[u8; 20]>, mnemonic: Option<String>, account_index: u32) -> (r:
    Result<AccountSource, BridgeError>)
    ensures
        match address {
            Some(a) => r == Ok::<AccountSource, BridgeError>(AccountSource::Address(a)),
            None => match mnemonic {
                Some(m) => r == Ok::<AccountSource, BridgeError>(
                    AccountSource::Mnemonic { mnemonic: m, account_index },
                ),
                None => r == Err::<AccountSource, BridgeError>(BridgeError::MissingAccount),
            },
        },
{
    match address {
        Some(a) => Ok(AccountSource::Address(a)),
        None => match mnemonic {
            Some(m) => Ok(AccountSource::Mnemonic { mnemonic: m, account_index }),
            None => Err(BridgeError::MissingAccount),
        },
    }
}

/// The L1 block a balance is read at.
#[derive(Clone, Copy, Debug, PartialEq, Eq)]
pub enum BlockTag {
    Number(u64),
    Latest,
}

/// The block a balance lookup reads at: the one given, else the latest.
pub fn balance_block(block: Option<u64>) -> (r: BlockTag)
    ensures
        match block {
            Some(n) => r == BlockTag::Number(n),
            None => r == BlockTag::Latest,
        },
{
    match block {
        Some(n) => BlockTag::Number(n),
        None => BlockTag::Latest,
    }
}

/// What a deposit that went through found.
#[derive(Clone, Copy, Debug, PartialEq, Eq)]
pub struct DepositReport {
    /// The L1 block the deposit was mined in.
    pub l1_block: u64,
    /// The Espresso block that finalized it.
    pub espresso_block: u64,
    pub initial_balance: TokenAmount,
    pub final_balance: TokenAmount,
    /// Whether the Espresso balance grew by at least the amount. When it did
    /// not, the deposit may still have gone through while something else
    /// changed the balance: it is reported, not failed.
    pub confirmed: bool,
}

/// Where a deposit stands.
#[derive(Clone, Copy, Debug, PartialEq, Eq)]
pub enum DepositStage {
    /// Reading the fee contract's minimum and maximum deposit.
    QueryLimits,
    /// Reading the account's Espresso balance before the deposit.
    QueryInitialBalance,
    /// Sending the deposit transaction.
    Send { initial: TokenAmount },
    /// Waiting for the L1 receipt.
    AwaitReceipt { initial: TokenAmount },
    /// Reading Espresso headers until one finalizes `l1_block`.
    AwaitFinalization { initial: TokenAmount, l1_block: u64 },
    /// Reading the Espresso balance at `espresso_block`.
    QueryFinalBalance { initial: TokenAmount, l1_block: u64, espresso_block: u64 },
    /// Done.
    Finished(Result<DepositReport, BridgeError>),
}

/// The outside work a deposit asks for next.
#[derive(Clone, Copy, Debug, PartialEq, Eq)]
pub enum DepositAction {
    /// Read the minimum and maximum deposit from the fee contract.
    QueryLimits,
    /// Read the account's Espresso balance, at `block` or the latest.
    QueryBalance { block: Option<u64> },
    /// Send `amount` WEI to the fee contract for the account.
    SendDeposit { amount: u64 },
    /// Wait for the transaction's receipt after `confirmations` blocks.
    AwaitReceipt { confirmations: u64 },
    /// Read the next Espresso header (subscribing from the current height
    /// first).
    NextHeader,
    /// Nothing more to do.
    Finish(Result<DepositReport, BridgeError>),
}

/// What came of the last action.
#[derive(Clone, Copy, Debug, PartialEq, Eq)]
pub enum DepositEvent {
    Limits { min_deposit: TokenAmount, max_deposit: TokenAmount },
    Balance(TokenAmount),
    Sent,
    Receipt { block_number: Option<u64>, succeeded: bool },
    Header(HeaderEvent),
}

/// The stage a deposit of `amount` moves to from `stage` on `ev`; an event
/// that does not answer the stage's action leaves it as it is.
pub open spec fn deposit_next(amount: u64, stage: DepositStage, ev: DepositEvent) -> DepositStage {
    match stage {
        DepositStage::QueryLimits => match ev {
            DepositEvent::Limits { min_deposit, max_deposit } => if min_deposit@ <= amount
                && amount <= max_deposit@ {
                DepositStage::QueryInitialBalance
            } else if amount < min_deposit@ {
                DepositStage::Finished(Err(BridgeError::AmountTooSmall { min_deposit }))
            } else {
                DepositStage::Finished(Err(BridgeError::AmountTooLarge { max_deposit }))
            },
            _ => stage,
        },
        DepositStage::QueryInitialBalance => match ev {
            DepositEvent::Balance(b) => DepositStage::Send { initial: b },
            _ => stage,
        },
        DepositStage::Send { initial } => match ev {
            DepositEvent::Sent => DepositStage::AwaitReceipt { initial },
            _ => stage,
        },
        DepositStage::AwaitReceipt { initial } => match ev {
            DepositEvent::Receipt { block_number, succeeded } => match block_number {
                None => DepositStage::Finished(Err(BridgeError::NotMined)),
                Some(n) => if succeeded {
                    DepositStage::AwaitFinalization { initial, l1_block: n }
                } else {
                    DepositStage::Finished(Err(BridgeError::Reverted))
                },
            },
            _ => stage,
        },
        DepositStage::AwaitFinalization { initial, l1_block } => match ev {
            DepositEvent::Header(h) => match header_decision(h, l1_block) {
                Err(e) => DepositStage::Finished(Err(e)),
                Ok(HeaderDecision::Wait) => stage,
                Ok(HeaderDecision::Finalized(height)) => DepositStage::QueryFinalBalance {
                    initial,
                    l1_block,
                    espresso_block: height,
                },
            },
            _ => stage,
        },
        DepositStage::QueryFinalBalance { initial, l1_block, espresso_block } => match ev {
            DepositEvent::Balance(f) => DepositStage::Finished(
                Ok(
                    DepositReport {
                        l1_block,
                        espresso_block,
                        initial_balance: initial,
                        final_balance: f,
                        confirmed: f@ >= wrapped_sum(initial@, amount as nat),
                    },
                ),
            ),
            _ => stage,
        },
        DepositStage::Finished(_) => stage,
    }
}

/// The action a deposit asks for in `stage`.
pub open spec fn deposit_action(amount: u64, confirmations: u64, stage: DepositStage) -> DepositAction {
    match stage {
        DepositStage::QueryLimits => DepositAction::QueryLimits,
        DepositStage::QueryInitialBalance => DepositAction::QueryBalance { block: None },
        DepositStage::Send { .. } => DepositAction::SendDeposit { amount },
        DepositStage::AwaitReceipt { .. } => DepositAction::AwaitReceipt { confirmations },
        DepositStage::AwaitFinalization { .. } => DepositAction::NextHeader,
        DepositStage::QueryFinalBalance { espresso_block, .. } => DepositAction::QueryBalance {
            block: Some(espresso_block),
        },
        DepositStage::Finished(r) => DepositAction::Finish(r),
    }
}

/// A deposit of `amount` WEI, waiting for `confirmations` L1 blocks.
pub struct DepositRun {
    amount: u64,
    confirmations: u64,
    stage: DepositStage,
}

impl DepositRun {
    pub closed spec fn spec_amount(self) -> u64 {
        self.amount
    }

    pub closed spec fn spec_confirmations(self) -> u64 {
        self.confirmations
    }

    pub closed spec fn spec_stage(self) -> DepositStage {
        self.stage
    }

    /// Start a deposit of `amount` WEI.
    pub fn start(amount: u64, confirmations: u64) -> (r: Self)
        ensures
            r.spec_amount() == amount,
            r.spec_confirmations() == confirmations,
            r.spec_stage() == DepositStage::QueryLimits,
    {
        DepositRun { amount, confirmations, stage: DepositStage::QueryLimits }
    }

    /// Where the deposit stands.
    pub fn stage(&self) -> (r: DepositStage)
        ensures
            r == self.spec_stage(),
    {
        self.stage
    }

    /// The outside work to do next.
    pub fn action(&self) -> (r: DepositAction)
        ensures
            r == deposit_action(self.spec_amount(), self.spec_confirmations(), self.spec_stage()),
    {
        match self.stage {
            DepositStage::QueryLimits => DepositAction::QueryLimits,
            DepositStage::QueryInitialBalance => DepositAction::QueryBalance { block: None },
            DepositStage::Send { .. } => DepositAction::SendDeposit { amount: self.amount },
            DepositStage::AwaitReceipt { .. } => DepositAction::AwaitReceipt {
                confirmations: self.confirmations,
            },
            DepositStage::AwaitFinalization { .. } => DepositAction::NextHeader,
            DepositStage::QueryFinalBalance { espresso_block, .. } => DepositAction::QueryBalance {
                block: Some(espresso_block),
            },
            DepositStage::Finished(r) => DepositAction::Finish(r),
        }
    }

    /// Hand the deposit what came of its last action.
    pub fn step(self, ev: DepositEvent) -> (r: Self)
        ensures
            r.spec_amount() == self.spec_amount(),
            r.spec_confirmations() == self.spec_confirmations(),
            r.spec_stage() == deposit_next(self.spec_amount(), self.spec_stage(), ev),
    {
        let amount = self.amount;
        let stage = self.stage;
        let new_stage = match stage {
            DepositStage::QueryLimits => match ev {
                DepositEvent::Limits { min_deposit, max_deposit } => match check_deposit_amount(
                    amount,
                    &min_deposit,
                    &max_deposit,
                ) {
                    Ok(()) => DepositStage::QueryInitialBalance,
                    Err(e) => DepositStage::Finished(Err(e)),
                },
                _ => stage,
            },
            DepositStage::QueryInitialBalance => match ev {
                DepositEvent::Balance(b) => DepositStage::Send { initial: b },
                _ => stage,
            },
            DepositStage::Send { initial } => match ev {
                DepositEvent::Sent => DepositStage::AwaitReceipt { initial },
                _ => stage,
            },
            DepositStage::AwaitReceipt { initial } => match ev {
                DepositEvent::Receipt { block_number, succeeded } => match check_deposit_receipt(
                    block_number,
                    succeeded,
                ) {
                    Ok(n) => DepositStage::AwaitFinalization { initial, l1_block: n },
                    Err(e) => DepositStage::Finished(Err(e)),
                },
                _ => stage,
            },
            DepositStage::AwaitFinalization { initial, l1_block } => match ev {
                DepositEvent::Header(h) => match on_header(h, l1_block) {
                    Err(e) => DepositStage::Finished(Err(e)),
                    Ok(HeaderDecision::Wait) => stage,
                    Ok(HeaderDecision::Finalized(height)) => DepositStage::QueryFinalBalance {
                        initial,
                        l1_block,
                        espresso_block: height,
                    },
                },
                _ => stage,
            },
            DepositStage::QueryFinalBalance { initial, l1_block, espresso_block } => match ev {
                DepositEvent::Balance(f) => DepositStage::Finished(
                    Ok(
                        DepositReport {
                            l1_block,
                            espresso_block,
                            initial_balance: initial,
                            final_balance: f,
                            confirmed: deposit_confirmed(&initial, &f, amount),
                        },
                    ),
                ),
                _ => stage,
            },
            DepositStage::Finished(_) => stage,
        };
        DepositRun { amount, confirmations: self.confirmations, stage: new_stage }
    }
}

/// The deposit transaction is sent only for an amount within the contract's
/// limits: the only way into sending is through the limits check.
pub proof fn deposit_sent_only_within_limits(
    amount: u64,
    stage: DepositStage,
    ev: DepositEvent,
)
    requires
        stage != DepositStage::QueryInitialBalance,
        deposit_next(amount, stage, ev) == DepositStage::QueryInitialBalance,
    ensures
        stage == DepositStage::QueryLimits,
        ev matches DepositEvent::Limits { min_deposit, max_deposit } && min_deposit@ <= amount
            && amount <= max_deposit@,
{
}

/// A deposit succeeds only through a header that finalized the L1 block its
/// transaction was mined in, and reports the balances it read.
pub proof fn deposit_succeeds_only_after_finalization(
    amount: u64,
    stage: DepositStage,
    ev: DepositEvent,
    report: DepositReport,
)
    requires
        !(stage is Finished),
        deposit_next(amount, stage, ev) == DepositStage::Finished(
            Ok::<DepositReport, BridgeError>(report),
        ),
    ensures
        stage matches DepositStage::QueryFinalBalance { initial, l1_block, espresso_block }
            && report.l1_block == l1_block && report.espresso_block == espresso_block
            && report.initial_balance == initial,
        ev == DepositEvent::Balance(report.final_balance),
        report.confirmed == (report.final_balance@ >= wrapped_sum(report.initial_balance@, amount as nat)),
{
}

/// The wait for finalization moves on exactly at a header that reports the
/// deposit's L1 block (or a later one) finalized.
pub proof fn finalization_waits_for_l1_block(
    amount: u64,
    initial: TokenAmount,
    l1_block: u64,
    h: HeaderEvent,
)
    ensures
        deposit_next(amount, DepositStage::AwaitFinalization { initial, l1_block }, DepositEvent::Header(h))
            is QueryFinalBalance <==> finalizes(h, l1_block),
{
}

/// The limits check lets through exactly the amounts within the contract's
/// limits, both included; an amount below the minimum is refused as too
/// small, one above the maximum (and not below the minimum) as too large.
pub proof fn deposit_limits_decide_exactly(
    amount: u64,
    min_deposit: TokenAmount,
    max_deposit: TokenAmount,
)
    ensures
        ({
            let next = deposit_next(
                amount,
                DepositStage::QueryLimits,
                DepositEvent::Limits { min_deposit, max_deposit },
            );
            &&& (next == DepositStage::QueryInitialBalance) <==> (min_deposit@ <= amount
                && amount <= max_deposit@)
            &&& amount < min_deposit@ ==> next == DepositStage::Finished(
                Err::<DepositReport, BridgeError>(BridgeError::AmountTooSmall { min_deposit }),
            )
            &&& (min_deposit@ <= amount && amount > max_deposit@) ==> next
                == DepositStage::Finished(
                Err::<DepositReport, BridgeError>(BridgeError::AmountTooLarge { max_deposit }),
            )
            &&& deposit_action(amount, 0, DepositStage::QueryLimits) == DepositAction::QueryLimits
        }),
{
}

/// After the limits, the balance read (at the latest block) is recorded as the
/// initial one and the whole amount is sent; the receipt is awaited after the
/// confirmations asked for, and the L1 block waited for is the one the receipt
/// names. A receipt without a block is `NotMined`; a failed one `Reverted`.
pub proof fn deposit_sends_amount_and_waits_for_its_block(
    amount: u64,
    confirmations: u64,
    initial: TokenAmount,
    block: Option<u64>,
    succeeded: bool,
)
    ensures
        deposit_action(amount, confirmations, DepositStage::QueryInitialBalance)
            == (DepositAction::QueryBalance { block: None }),
        deposit_next(amount, DepositStage::QueryInitialBalance, DepositEvent::Balance(initial))
            == (DepositStage::Send { initial }),
        deposit_action(amount, confirmations, DepositStage::Send { initial })
            == (DepositAction::SendDeposit { amount }),
        deposit_next(amount, DepositStage::Send { initial }, DepositEvent::Sent)
            == (DepositStage::AwaitReceipt { initial }),
        deposit_action(amount, confirmations, DepositStage::AwaitReceipt { initial })
            == (DepositAction::AwaitReceipt { confirmations }),
        ({
            let next = deposit_next(
                amount,
                DepositStage::AwaitReceipt { initial },
                DepositEvent::Receipt { block_number: block, succeeded },
            );
            match block {
                None => next == DepositStage::Finished(
                    Err::<DepositReport, BridgeError>(BridgeError::NotMined),
                ),
                Some(n) => if succeeded {
                    next == (DepositStage::AwaitFinalization { initial, l1_block: n })
                } else {
                    next == DepositStage::Finished(
                        Err::<DepositReport, BridgeError>(BridgeError::Reverted),
                    )
                },
            }
        }),
{
}

/// While waiting for finalization, errors in the stream and headers that do
/// not report the deposit's L1 block finalized are skipped; a header that
/// does ends the wait at its own height, where the final balance is read; the
/// end of the stream fails the deposit.
pub proof fn deposit_header_wait(
    amount: u64,
    confirmations: u64,
    initial: TokenAmount,
    l1_block: u64,
    height: u64,
    finalized: Option<u64>,
)
    ensures
        ({
            let waiting = DepositStage::AwaitFinalization { initial, l1_block };
            let next = deposit_next(
                amount,
                waiting,
                DepositEvent::Header(HeaderEvent::Header { height, l1_finalized: finalized }),
            );
            &&& deposit_action(amount, confirmations, waiting) == DepositAction::NextHeader
            &&& deposit_next(amount, waiting, DepositEvent::Header(HeaderEvent::Error)) == waiting
            &&& deposit_next(amount, waiting, DepositEvent::Header(HeaderEvent::End))
                == DepositStage::Finished(
                Err::<DepositReport, BridgeError>(BridgeError::HeaderStreamEnded),
            )
            &&& if finalized matches Some(n) && n >= l1_block {
                &&& next == (DepositStage::QueryFinalBalance {
                    initial,
                    l1_block,
                    espresso_block: height,
                })
                &&& deposit_action(amount, confirmations, next) == (DepositAction::QueryBalance {
                    block: Some(height),
                })
            } else {
                next == waiting
            }
        }),
{
}

/// The report of a deposit holds the blocks it went through and the balances
/// read, and calls it confirmed exactly when the final balance is at least the
/// initial one plus the amount, as 256-bit amounts add (modulo 2^256).
pub proof fn deposit_report_is_faithful(
    amount: u64,
    initial: TokenAmount,
    l1_block: u64,
    espresso_block: u64,
    final_balance: TokenAmount,
)
    ensures
        deposit_next(
            amount,
            DepositStage::QueryFinalBalance { initial, l1_block, espresso_block },
            DepositEvent::Balance(final_balance),
        ) == DepositStage::Finished(
            Ok::<DepositReport, BridgeError>(
                DepositReport {
                    l1_block,
                    espresso_block,
                    initial_balance: initial,
                    final_balance,
                    confirmed: final_balance@ >= (initial@ + amount) % (amount_bound() as int),
                },
            ),
        ),
{
    crate::amount::lemma_wrapped_sum_is_mod(initial@, amount as nat);
}

/// The decision on a header: only the end of the stream fails the wait, and
/// only a header reporting the L1 block (or a later one) finalized ends it,
/// at that header's height.
pub proof fn header_decisions(l1_block: u64, height: u64, finalized: Option<u64>)
    ensures
        header_decision(HeaderEvent::End, l1_block) == Err::<HeaderDecision, BridgeError>(
            BridgeError::HeaderStreamEnded,
        ),
        header_decision(HeaderEvent::Error, l1_block) == Ok::<HeaderDecision, BridgeError>(
            HeaderDecision::Wait,
        ),
        header_decision(HeaderEvent::Header { height, l1_finalized: finalized }, l1_block) == if finalized matches Some(n) && n >= l1_block {
            Ok::<HeaderDecision, BridgeError>(HeaderDecision::Finalized(height))
        } else {
            Ok::<HeaderDecision, BridgeError>(HeaderDecision::Wait)
        },
{
}

} // verus!
