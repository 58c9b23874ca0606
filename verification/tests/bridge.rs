use espresso_node::amount::TokenAmount;
use espresso_node::bridge::{
    account_source, balance_block, check_deposit_amount, check_deposit_receipt, deposit_confirmed,
    on_header, AccountSource, BlockTag, BridgeError, DepositAction, DepositEvent, DepositReport,
    DepositRun, DepositStage, HeaderDecision, HeaderEvent,
};

fn amt(x: u64) -> TokenAmount {
    TokenAmount::from_u64(x)
}

#[test]
fn amount_comparisons() {
    assert!(amt(3).le(&amt(3)));
    assert!(amt(3).le(&amt(4)));
    assert!(!amt(5).le(&amt(4)));
    let big = TokenAmount { limbs: [0, 0, 0, 1] };
    assert!(amt(u64::MAX).le(&big));
    assert!(!big.le(&amt(u64::MAX)));
    let mid = TokenAmount { limbs: [7, 1, 0, 0] };
    assert!(!mid.le(&TokenAmount { limbs: [9, 0, 0, 0] }));
}

#[test]
fn amount_addition_carries_and_wraps() {
    assert_eq!(amt(2).wrapping_add_u64(3), amt(5));
    assert_eq!(amt(u64::MAX).wrapping_add_u64(1), TokenAmount { limbs: [0, 1, 0, 0] });
    assert_eq!(
        TokenAmount { limbs: [u64::MAX, u64::MAX, 5, 0] }.wrapping_add_u64(2),
        TokenAmount { limbs: [1, 0, 6, 0] }
    );
    let max = TokenAmount { limbs: [u64::MAX; 4] };
    assert_eq!(max.wrapping_add_u64(1), amt(0));
    assert_eq!(max.wrapping_add_u64(5), amt(4));
    assert_eq!(max.wrapping_add_u64(0), max);
}

#[test]
fn deposit_amount_limits() {
    assert_eq!(check_deposit_amount(5, &amt(1), &amt(10)), Ok(()));
    assert_eq!(check_deposit_amount(1, &amt(1), &amt(10)), Ok(()));
    assert_eq!(check_deposit_amount(10, &amt(1), &amt(10)), Ok(()));
    assert_eq!(
        check_deposit_amount(0, &amt(1), &amt(10)),
        Err(BridgeError::AmountTooSmall { min_deposit: amt(1) })
    );
    assert_eq!(
        check_deposit_amount(11, &amt(1), &amt(10)),
        Err(BridgeError::AmountTooLarge { max_deposit: amt(10) })
    );
}

#[test]
fn deposit_receipt_checks() {
    assert_eq!(check_deposit_receipt(Some(12), true), Ok(12));
    assert_eq!(check_deposit_receipt(Some(12), false), Err(BridgeError::Reverted));
    assert_eq!(check_deposit_receipt(None, true), Err(BridgeError::NotMined));
    assert_eq!(check_deposit_receipt(None, false), Err(BridgeError::NotMined));
}

#[test]
fn header_decisions() {
    assert_eq!(on_header(HeaderEvent::End, 5), Err(BridgeError::HeaderStreamEnded));
    assert_eq!(on_header(HeaderEvent::Error, 5), Ok(HeaderDecision::Wait));
    assert_eq!(
        on_header(HeaderEvent::Header { height: 30, l1_finalized: None }, 5),
        Ok(HeaderDecision::Wait)
    );
    assert_eq!(
        on_header(HeaderEvent::Header { height: 31, l1_finalized: Some(4) }, 5),
        Ok(HeaderDecision::Wait)
    );
    assert_eq!(
        on_header(HeaderEvent::Header { height: 32, l1_finalized: Some(5) }, 5),
        Ok(HeaderDecision::Finalized(32))
    );
    assert_eq!(
        on_header(HeaderEvent::Header { height: 33, l1_finalized: Some(9) }, 5),
        Ok(HeaderDecision::Finalized(33))
    );
}

#[test]
fn deposit_confirmation() {
    assert!(deposit_confirmed(&amt(10), &amt(15), 5));
    assert!(deposit_confirmed(&amt(10), &amt(16), 5));
    assert!(!deposit_confirmed(&amt(10), &amt(14), 5));
    assert!(deposit_confirmed(
        &amt(u64::MAX),
        &TokenAmount { limbs: [0, 1, 0, 0] },
        1
    ));
    // The expected balance wraps around at 2^256, as 256-bit amounts add.
    let max = TokenAmount { limbs: [u64::MAX; 4] };
    assert!(deposit_confirmed(&max, &amt(3), 4));
    assert!(!deposit_confirmed(&max, &amt(2), 4));
}

#[test]
fn account_source_prefers_address() {
    let a = [7u8; 20];
    assert_eq!(
        account_source(Some(a), Some("words".to_string()), 2),
        Ok(AccountSource::Address(a))
    );
    assert_eq!(
        account_source(None, Some("words".to_string()), 2),
        Ok(AccountSource::Mnemonic { mnemonic: "words".to_string(), account_index: 2 })
    );
    assert_eq!(account_source(None, None, 0), Err(BridgeError::MissingAccount));
}

#[test]
fn balance_block_choice() {
    assert_eq!(balance_block(Some(9)), BlockTag::Number(9));
    assert_eq!(balance_block(None), BlockTag::Latest);
}

#[test]
fn deposit_run_happy_path() {
    let run = DepositRun::start(5, 6);
    assert_eq!(run.action(), DepositAction::QueryLimits);
    let run = run.step(DepositEvent::Limits { min_deposit: amt(1), max_deposit: amt(10) });
    assert_eq!(run.action(), DepositAction::QueryBalance { block: None });
    let run = run.step(DepositEvent::Balance(amt(100)));
    assert_eq!(run.action(), DepositAction::SendDeposit { amount: 5 });
    let run = run.step(DepositEvent::Sent);
    assert_eq!(run.action(), DepositAction::AwaitReceipt { confirmations: 6 });
    let run = run.step(DepositEvent::Receipt { block_number: Some(40), succeeded: true });
    assert_eq!(run.action(), DepositAction::NextHeader);
    let run = run.step(DepositEvent::Header(HeaderEvent::Error));
    let run = run.step(DepositEvent::Header(HeaderEvent::Header { height: 7, l1_finalized: None }));
    let run = run.step(DepositEvent::Header(HeaderEvent::Header { height: 8, l1_finalized: Some(39) }));
    assert_eq!(run.action(), DepositAction::NextHeader);
    let run = run.step(DepositEvent::Header(HeaderEvent::Header { height: 9, l1_finalized: Some(40) }));
    assert_eq!(run.action(), DepositAction::QueryBalance { block: Some(9) });
    let run = run.step(DepositEvent::Balance(amt(105)));
    assert_eq!(
        run.stage(),
        DepositStage::Finished(Ok(DepositReport {
            l1_block: 40,
            espresso_block: 9,
            initial_balance: amt(100),
            final_balance: amt(105),
            confirmed: true,
        }))
    );
}

#[test]
fn deposit_run_reports_unconfirmed_balance() {
    let run = DepositRun::start(5, 1)
        .step(DepositEvent::Limits { min_deposit: amt(1), max_deposit: amt(10) })
        .step(DepositEvent::Balance(amt(100)))
        .step(DepositEvent::Sent)
        .step(DepositEvent::Receipt { block_number: Some(3), succeeded: true })
        .step(DepositEvent::Header(HeaderEvent::Header { height: 2, l1_finalized: Some(3) }))
        .step(DepositEvent::Balance(amt(104)));
    match run.stage() {
        DepositStage::Finished(Ok(report)) => assert!(!report.confirmed),
        other => panic!("unexpected stage {:?}", other),
    }
}

#[test]
fn deposit_run_errors() {
    let small = DepositRun::start(0, 1)
        .step(DepositEvent::Limits { min_deposit: amt(1), max_deposit: amt(10) });
    assert_eq!(
        small.action(),
        DepositAction::Finish(Err(BridgeError::AmountTooSmall { min_deposit: amt(1) }))
    );
    let large = DepositRun::start(11, 1)
        .step(DepositEvent::Limits { min_deposit: amt(1), max_deposit: amt(10) });
    assert_eq!(
        large.stage(),
        DepositStage::Finished(Err(BridgeError::AmountTooLarge { max_deposit: amt(10) }))
    );
    let sent = || {
        DepositRun::start(5, 1)
            .step(DepositEvent::Limits { min_deposit: amt(1), max_deposit: amt(10) })
            .step(DepositEvent::Balance(amt(0)))
            .step(DepositEvent::Sent)
    };
    assert_eq!(
        sent().step(DepositEvent::Receipt { block_number: None, succeeded: true }).stage(),
        DepositStage::Finished(Err(BridgeError::NotMined))
    );
    assert_eq!(
        sent().step(DepositEvent::Receipt { block_number: Some(2), succeeded: false }).stage(),
        DepositStage::Finished(Err(BridgeError::Reverted))
    );
    assert_eq!(
        sent()
            .step(DepositEvent::Receipt { block_number: Some(2), succeeded: true })
            .step(DepositEvent::Header(HeaderEvent::End))
            .stage(),
        DepositStage::Finished(Err(BridgeError::HeaderStreamEnded))
    );
}

#[test]
fn deposit_run_ignores_unexpected_events() {
    let run = DepositRun::start(5, 1).step(DepositEvent::Sent);
    assert_eq!(run.stage(), DepositStage::QueryLimits);
}
