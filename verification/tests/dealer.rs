use token_dealer::dealer::DispatchError;
use token_dealer::dealer::Event;
use token_dealer::dealer::LedgerConfig;
use token_dealer::dealer::Origin;
use token_dealer::dealer::TokenDealer;
use token_dealer::ledger::Ledger;
use token_dealer::ledger::LedgerError;
use token_dealer::messages::DownwardMessage;
use token_dealer::messages::XCMPMessage;
use token_dealer::messages::decode_remark_asset;
use token_dealer::rates::ExchangeRateConfig;
use token_dealer::sovereign::Address;
use token_dealer::sovereign::ChainId;

fn addr(b: u8) -> Address {
    Address::from_bytes(vec![b; 32])
}

fn default_rates() -> ExchangeRateConfig {
    ExchangeRateConfig { spending_to_relay_rate: 1000, generic_to_spending_rate: 1 }
}

/// A dealer over the unified asset ledger with spending asset 0 and the
/// default rates, with `who` holding `amount` of asset 0.
fn unified_dealer(who: &Address, amount: u128) -> TokenDealer {
    let mut ledger = Ledger::new(0, 1);
    ledger.register_asset(0);
    ledger.endow(Some(0), who, amount);
    TokenDealer::new(ledger, LedgerConfig::UnifiedAsset(default_rates()))
}

fn remark_for(asset: Option<u32>) -> [u8; 32] {
    let mut remark = [0u8; 32];
    if let Some(id) = asset {
        remark[0] = 1;
        remark[1..5].copy_from_slice(&id.to_le_bytes());
    }
    remark
}

#[test]
fn transfer_to_relay_chain_settles_accounts_on_parachain_with_event() {
    let initial_para_amount = 10000;
    let transfer_amount = 1000;
    let from = addr(0);
    let to = addr(1);
    let relay_account = token_dealer::sovereign::derive(&ChainId::Relay);
    let expected_balance = initial_para_amount - transfer_amount;
    let expected_event = Event::TransferredTokensToRelayChain(
        from.clone(),
        Some(0),
        to.clone(),
        transfer_amount,
    );

    let mut dealer = unified_dealer(&from, initial_para_amount);
    assert!(dealer
        .transfer_tokens_to_relay_chain(&Origin::Signed(from.clone()), &to, transfer_amount, Some(0))
        .is_ok());
    assert_eq!(dealer.ledger().balance(Some(0), &from), expected_balance);
    assert_eq!(dealer.ledger().balance(Some(0), &relay_account), transfer_amount);
    assert!(dealer.events().iter().any(|record| *record == expected_event));
}

#[test]
fn relay_transfer_hands_one_upward_message_to_the_broker() {
    let from = addr(0);
    let to = addr(1);
    let mut dealer = unified_dealer(&from, 10000);
    assert!(dealer
        .transfer_tokens_to_relay_chain(&Origin::Signed(from.clone()), &to, 1000, Some(0))
        .is_ok());
    let upward = dealer.broker().upward_messages();
    assert_eq!(upward.len(), 1);
    assert_eq!(upward[0].dest, to);
    assert_eq!(upward[0].amount, 1000);
    assert_eq!(dealer.broker().xcmp_messages().len(), 0);
}

#[test]
fn relay_transfer_beyond_balance_changes_nothing() {
    let from = addr(0);
    let to = addr(1);
    let relay_account = token_dealer::sovereign::derive(&ChainId::Relay);
    let mut dealer = unified_dealer(&from, 10000);
    let r = dealer.transfer_tokens_to_relay_chain(
        &Origin::Signed(from.clone()),
        &to,
        20000,
        Some(0),
    );
    assert_eq!(r, Err(DispatchError::Ledger(LedgerError::InsufficientBalance)));
    assert_eq!(dealer.ledger().balance(Some(0), &from), 10000);
    assert_eq!(dealer.ledger().balance(Some(0), &relay_account), 0);
    assert_eq!(dealer.events().len(), 0);
    assert_eq!(dealer.broker().upward_messages().len(), 0);
}

#[test]
fn unsigned_origin_is_rejected_before_any_state_change() {
    let from = addr(0);
    let to = addr(1);
    let mut dealer = unified_dealer(&from, 10000);
    let r = dealer.transfer_tokens_to_relay_chain(&Origin::Unsigned, &to, 1000, Some(0));
    assert_eq!(r, Err(DispatchError::BadOrigin));
    assert_eq!(dealer.ledger().balance(Some(0), &from), 10000);
    assert_eq!(dealer.events().len(), 0);
    assert_eq!(dealer.broker().upward_messages().len(), 0);
}

#[test]
fn unknown_asset_is_rejected_atomically() {
    let from = addr(0);
    let to = addr(1);
    let mut dealer = unified_dealer(&from, 10000);
    let r = dealer.transfer_tokens_to_relay_chain(&Origin::Signed(from.clone()), &to, 10, Some(9));
    assert_eq!(r, Err(DispatchError::Ledger(LedgerError::AssetNotFound)));
    assert_eq!(dealer.events().len(), 0);
    assert_eq!(dealer.broker().upward_messages().len(), 0);
}

#[test]
fn transfer_to_parachain_settles_accounts_and_sends_sibling_message() {
    let from = addr(0);
    let dest = addr(3);
    let para_account = token_dealer::sovereign::derive(&ChainId::Parachain(200));
    let mut dealer = unified_dealer(&from, 10000);
    let r = dealer.transfer_assets_to_parachain_chain(
        &Origin::Signed(from.clone()),
        200,
        &dest,
        Some(5),
        9000,
        Some(0),
    );
    assert!(r.is_ok());
    assert_eq!(dealer.ledger().balance(Some(0), &from), 1000);
    assert_eq!(dealer.ledger().balance(Some(0), &para_account), 9000);

    let sent = dealer.broker().xcmp_messages();
    assert_eq!(sent.len(), 1);
    assert_eq!(sent[0].dest_para, 200);
    let XCMPMessage::TransferToken(ref d, m, da) = sent[0].msg;
    assert_eq!(*d, dest);
    assert_eq!(m, 9000);
    assert_eq!(da, Some(5));

    let expected_event = Event::TransferredTokensToParachain(
        from.clone(),
        Some(0),
        200,
        dest.clone(),
        Some(5),
        9000,
    );
    assert!(dealer.events().iter().any(|record| *record == expected_event));
}

#[test]
fn downward_transfer_converts_and_credits_with_event() {
    let dest = addr(4);
    let relay_account = token_dealer::sovereign::derive(&ChainId::Relay);
    let mut ledger = Ledger::new(0, 1);
    ledger.register_asset(0);
    ledger.endow(Some(0), &relay_account, 10000);
    let mut dealer = TokenDealer::new(ledger, LedgerConfig::UnifiedAsset(default_rates()));

    let msg = DownwardMessage::TransferInto(dest.clone(), 9, remark_for(Some(0)));
    dealer.handle_downward_message(&msg);

    assert_eq!(dealer.ledger().balance(Some(0), &dest), 9000);
    assert_eq!(dealer.ledger().balance(Some(0), &relay_account), 1000);
    let expected_event =
        Event::TransferredTokensFromRelayChain(dest.clone(), 9000, Some(0), Ok(()));
    assert_eq!(dealer.events().len(), 1);
    assert!(dealer.events().iter().any(|record| *record == expected_event));
}

#[test]
fn downward_credit_failure_is_recorded_not_propagated() {
    let dest = addr(4);
    let relay_account = token_dealer::sovereign::derive(&ChainId::Relay);
    let mut ledger = Ledger::new(0, 1);
    ledger.register_asset(0);
    ledger.endow(Some(0), &relay_account, 10000);
    let mut dealer = TokenDealer::new(ledger, LedgerConfig::UnifiedAsset(default_rates()));

    // Asset 5 is unknown to the ledger: the credit fails, the event is
    // appended anyway, and no balance moves.
    let msg = DownwardMessage::TransferInto(dest.clone(), 9, remark_for(Some(5)));
    dealer.handle_downward_message(&msg);

    assert_eq!(dealer.ledger().balance(Some(0), &relay_account), 10000);
    assert_eq!(dealer.ledger().balance(Some(5), &dest), 0);
    assert_eq!(dealer.events().len(), 1);
    let expected_event = Event::TransferredTokensFromRelayChain(
        dest.clone(),
        9000,
        Some(5),
        Err(LedgerError::AssetNotFound),
    );
    assert!(dealer.events().iter().any(|record| *record == expected_event));
}

#[test]
fn downward_conversion_overflow_fails_closed_with_event() {
    let dest = addr(4);
    let relay_account = token_dealer::sovereign::derive(&ChainId::Relay);
    let mut ledger = Ledger::new(0, 1);
    ledger.register_asset(0);
    ledger.endow(Some(0), &relay_account, 10000);
    let rates = ExchangeRateConfig {
        spending_to_relay_rate: u128::MAX,
        generic_to_spending_rate: 1,
    };
    let mut dealer = TokenDealer::new(ledger, LedgerConfig::UnifiedAsset(rates));

    let msg = DownwardMessage::TransferInto(dest.clone(), 2, remark_for(Some(0)));
    dealer.handle_downward_message(&msg);

    assert_eq!(dealer.ledger().balance(Some(0), &relay_account), 10000);
    assert_eq!(dealer.ledger().balance(Some(0), &dest), 0);
    assert_eq!(dealer.events().len(), 1);
    let expected_event = Event::TransferredTokensFromRelayChain(
        dest.clone(),
        2,
        Some(0),
        Err(LedgerError::Overflow),
    );
    assert!(dealer.events().iter().any(|record| *record == expected_event));
}

#[test]
fn other_downward_traffic_is_ignored() {
    let from = addr(0);
    let mut dealer = unified_dealer(&from, 10000);
    dealer.handle_downward_message(&DownwardMessage::Opaque(vec![1, 2, 3]));
    assert_eq!(dealer.events().len(), 0);
    assert_eq!(dealer.ledger().balance(Some(0), &from), 10000);
}

#[test]
fn sibling_token_variant_credits_the_spending_asset() {
    let dest = addr(6);
    let para_account = token_dealer::sovereign::derive(&ChainId::Parachain(200));
    let mut ledger = Ledger::new(0, 1);
    ledger.register_asset(0);
    ledger.register_asset(7);
    ledger.endow(Some(0), &para_account, 10000);
    ledger.endow(Some(7), &para_account, 10000);
    let mut dealer = TokenDealer::new(ledger, LedgerConfig::UnifiedAsset(default_rates()));

    let msg = XCMPMessage::TransferToken(dest.clone(), 9000, None);
    dealer.handle_xcmp_message(200, &msg);

    // The no-asset-id variant moves the designated spending asset, not
    // any other asset the sibling also holds.
    assert_eq!(dealer.ledger().balance(Some(0), &dest), 9000);
    assert_eq!(dealer.ledger().balance(Some(0), &para_account), 1000);
    assert_eq!(dealer.ledger().balance(Some(7), &para_account), 10000);
    let expected_event =
        Event::TransferredTokensViaXCMP(200, dest.clone(), 9000, None, Ok(()));
    assert!(dealer.events().iter().any(|record| *record == expected_event));
}

#[test]
fn sibling_asset_variant_credits_the_named_asset() {
    let dest = addr(6);
    let para_account = token_dealer::sovereign::derive(&ChainId::Parachain(300));
    let mut ledger = Ledger::new(0, 1);
    ledger.register_asset(0);
    ledger.register_asset(7);
    ledger.endow(Some(7), &para_account, 500);
    let mut dealer = TokenDealer::new(ledger, LedgerConfig::UnifiedAsset(default_rates()));

    let msg = XCMPMessage::TransferToken(dest.clone(), 200, Some(7));
    dealer.handle_xcmp_message(300, &msg);

    assert_eq!(dealer.ledger().balance(Some(7), &dest), 200);
    assert_eq!(dealer.ledger().balance(Some(7), &para_account), 300);
    let expected_event =
        Event::TransferredTokensViaXCMP(300, dest.clone(), 200, Some(7), Ok(()));
    assert!(dealer.events().iter().any(|record| *record == expected_event));
}

#[test]
fn sibling_credit_failure_is_recorded_not_propagated() {
    let dest = addr(6);
    let mut ledger = Ledger::new(0, 1);
    ledger.register_asset(0);
    let mut dealer = TokenDealer::new(ledger, LedgerConfig::UnifiedAsset(default_rates()));

    // The sovereign account of parachain 200 holds nothing.
    let msg = XCMPMessage::TransferToken(dest.clone(), 100, None);
    dealer.handle_xcmp_message(200, &msg);

    assert_eq!(dealer.ledger().balance(Some(0), &dest), 0);
    assert_eq!(dealer.events().len(), 1);
    let expected_event = Event::TransferredTokensViaXCMP(
        200,
        dest.clone(),
        100,
        None,
        Err(LedgerError::InsufficientBalance),
    );
    assert!(dealer.events().iter().any(|record| *record == expected_event));
}

#[test]
fn currency_configuration_moves_native_balances_unconverted() {
    let dest = addr(4);
    let relay_account = token_dealer::sovereign::derive(&ChainId::Relay);
    let mut ledger = Ledger::new(0, 1);
    ledger.endow(None, &relay_account, 10000);
    let mut dealer = TokenDealer::new(ledger, LedgerConfig::CurrencyWithAssets);

    let msg = DownwardMessage::TransferInto(dest.clone(), 9, remark_for(None));
    dealer.handle_downward_message(&msg);

    // No rates are configured, so the relay amount crosses unchanged and
    // lands on the native currency.
    assert_eq!(dealer.ledger().balance(None, &dest), 9);
    assert_eq!(dealer.ledger().balance(None, &relay_account), 9991);
    let expected_event = Event::TransferredTokensFromRelayChain(dest.clone(), 9, None, Ok(()));
    assert!(dealer.events().iter().any(|record| *record == expected_event));
}

#[test]
fn events_are_appended_in_call_order() {
    let from = addr(0);
    let to = addr(1);
    let mut dealer = unified_dealer(&from, 10000);
    assert!(dealer
        .transfer_tokens_to_relay_chain(&Origin::Signed(from.clone()), &to, 100, Some(0))
        .is_ok());
    assert!(dealer
        .transfer_tokens_to_relay_chain(&Origin::Signed(from.clone()), &to, 200, Some(0))
        .is_ok());
    assert_eq!(dealer.events().len(), 2);
    assert_eq!(
        dealer.events()[0],
        Event::TransferredTokensToRelayChain(from.clone(), Some(0), to.clone(), 100)
    );
    assert_eq!(
        dealer.events()[1],
        Event::TransferredTokensToRelayChain(from.clone(), Some(0), to.clone(), 200)
    );
}

#[test]
fn remark_decodes_to_the_carried_asset() {
    assert_eq!(decode_remark_asset(&remark_for(None)), None);
    assert_eq!(decode_remark_asset(&remark_for(Some(5))), Some(5));
    assert_eq!(decode_remark_asset(&remark_for(Some(0x0102_0304))), Some(0x0102_0304));
}
