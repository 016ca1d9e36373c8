//! The token dealer: dispatch of outbound transfers and handling of
//! inbound transfer messages.
//!
//! An outbound transfer debits the signed caller, credits the remote
//! chain's sovereign account, hands one message to the transport, and
//! appends one outcome event — atomically: a failing check aborts the
//! whole call with a typed reason and leaves no trace. An inbound message
//! is consumed exactly once: the credit may fail, but the failure is only
//! recorded in the appended event's result field, never propagated.

use crate::ledger::Ledger;
use crate::ledger::LedgerError;
use crate::messages::DownwardMessage;
use crate::messages::MessageBrokerMock;
use crate::messages::TestUpwardMessage;
use crate::messages::XCMPMessage;
use crate::messages::XcmpEnvelope;
use crate::messages::decode_remark_asset;
use crate::messages::remark_wf;
use crate::messages::spec_remark_asset;
use crate::rates::ExchangeRateConfig;
use crate::sovereign::Address;
use crate::sovereign::ChainId;
use crate::sovereign::RelayId;
use crate::sovereign::spec_derive;
use vstd::prelude::*;

verus! {

/// The provenance of a dispatch call.
pub enum Origin {
    /// A call signed by a local account.
    Signed(Address),
    /// Anything else; every dispatch rejects it.
    Unsigned,
}

/// Why a dispatch call was rejected. The call leaves no trace when it
/// returns one of these.
#[derive(Clone, Copy, PartialEq, Eq, Structural, Debug)]
pub enum DispatchError {
    /// The call was not signed by a local account.
    BadOrigin,
    /// The ledger refused the debit.
    Ledger(LedgerError),
}

/// Which ledger backend stands behind the dealer.
#[derive(Clone, Copy, PartialEq, Eq, Structural, Debug)]
pub enum LedgerConfig {
    /// A native currency beside individually registered assets; amounts
    /// cross chain boundaries unchanged.
    CurrencyWithAssets,
    /// One unified asset ledger with a designated spending asset; inbound
    /// amounts convert with the configured rates.
    UnifiedAsset(ExchangeRateConfig),
}

/// One record appended after every dispatch or handled message; never
/// mutated afterwards.
#[derive(PartialEq, Debug)]
pub enum Event {
    /// Transferred tokens to an account on the relay chain:
    /// (sender, source asset, destination account, amount).
    TransferredTokensToRelayChain(Address, Option<u32>, Address, u128),
    /// Transferred tokens to an account on a sibling parachain: (sender,
    /// source asset, destination chain, destination account, destination
    /// asset, amount).
    TransferredTokensToParachain(Address, Option<u32>, u32, Address, Option<u32>, u128),
    /// Handled a transfer requested by the relay chain: (destination
    /// account, amount, asset, credit result).
    TransferredTokensFromRelayChain(Address, u128, Option<u32>, Result<(), LedgerError>),
    /// Handled a transfer requested by a sibling parachain: (source
    /// chain, destination account, amount, asset, credit result).
    TransferredTokensViaXCMP(u32, Address, u128, Option<u32>, Result<(), LedgerError>),
}

/// Whether an event records an outbound relay transfer with these fields.
pub open spec fn is_relay_out_event(
    e: Event,
    sender: Seq<u8>,
    asset: Option<u32>,
    dest: Seq<u8>,
    amount: u128,
) -> bool {
    match e {
        Event::TransferredTokensToRelayChain(s, a, d, m) => s@ == sender && a == asset && d@
            == dest && m == amount,
        _ => false,
    }
}

/// Whether an event records an outbound sibling transfer with these
/// fields.
pub open spec fn is_para_out_event(
    e: Event,
    sender: Seq<u8>,
    asset: Option<u32>,
    para_id: u32,
    dest: Seq<u8>,
    dest_asset: Option<u32>,
    amount: u128,
) -> bool {
    match e {
        Event::TransferredTokensToParachain(s, a, p, d, da, m) => s@ == sender && a == asset && p
            == para_id && d@ == dest && da == dest_asset && m == amount,
        _ => false,
    }
}

/// Whether an event records a handled downward transfer with these
/// fields.
pub open spec fn is_relay_in_event(
    e: Event,
    dest: Seq<u8>,
    amount: u128,
    asset: Option<u32>,
    res: Result<(), LedgerError>,
) -> bool {
    match e {
        Event::TransferredTokensFromRelayChain(d, m, a, r) => d@ == dest && m == amount && a
            == asset && r == res,
        _ => false,
    }
}

/// Whether an event records a handled sibling transfer with these fields.
pub open spec fn is_xcmp_in_event(
    e: Event,
    src: u32,
    dest: Seq<u8>,
    amount: u128,
    asset: Option<u32>,
    res: Result<(), LedgerError>,
) -> bool {
    match e {
        Event::TransferredTokensViaXCMP(p, d, m, a, r) => p == src && d@ == dest && m == amount
            && a == asset && r == res,
        _ => false,
    }
}

/// The token dealer: the ledger, the outbound transport, the event log,
/// and the ledger configuration fixed at initialization.
pub struct TokenDealer {
    ledger: Ledger,
    broker: MessageBrokerMock,
    events: Vec<Event>,
    config: LedgerConfig,
}

impl TokenDealer {
    /// The dealer's ledger.
    pub closed spec fn spec_ledger(self) -> Ledger {
        self.ledger
    }

    /// The dealer's outbound transport.
    pub closed spec fn spec_broker(self) -> MessageBrokerMock {
        self.broker
    }

    /// The outcome events appended so far, oldest first.
    pub closed spec fn spec_events(self) -> Seq<Event> {
        self.events@
    }

    /// The ledger configuration.
    pub closed spec fn spec_config(self) -> LedgerConfig {
        self.config
    }

    /// The configured exchange rates, if any, are positive.
    pub open spec fn wf(self) -> bool {
        match self.spec_config() {
            LedgerConfig::CurrencyWithAssets => true,
            LedgerConfig::UnifiedAsset(rates) => rates.wf(),
        }
    }

    /// The asset the ledger actually moves for a requested asset
    /// reference: the unified configuration keeps all value in the asset
    /// ledger and reads `None` as the designated spending asset.
    pub open spec fn spec_effective_asset(self, asset: Option<u32>) -> Option<u32> {
        match self.spec_config() {
            LedgerConfig::CurrencyWithAssets => asset,
            LedgerConfig::UnifiedAsset(_) => match asset {
                Some(id) => Some(id),
                None => Some(self.spec_ledger().spec_spending_asset()),
            },
        }
    }

    /// The local amount an inbound relay-denominated amount credits:
    /// converted under the unified configuration, unchanged otherwise;
    /// nothing when the conversion overflows.
    pub open spec fn spec_inbound_amount(self, relay_amount: u128, asset: Option<u32>) -> Option<
        u128,
    > {
        match self.spec_config() {
            LedgerConfig::CurrencyWithAssets => Some(relay_amount),
            LedgerConfig::UnifiedAsset(rates) => {
                let dest_is_spending = self.spec_effective_asset(asset) == Some(
                    self.spec_ledger().spec_spending_asset(),
                );
                if rates.spec_local_units(relay_amount, dest_is_spending) <= u128::MAX {
                    Some(rates.spec_local_units(relay_amount, dest_is_spending) as u128)
                } else {
                    None
                }
            },
        }
    }

    /// The outcome a dispatch has: rejected unsigned, or exactly the
    /// ledger's verdict on the debit.
    pub open spec fn spec_dispatch_outcome(
        self,
        origin: Origin,
        eff_asset: Option<u32>,
        sovereign: Seq<u8>,
        amount: u128,
    ) -> Result<(), DispatchError> {
        match origin {
            Origin::Unsigned => Err(DispatchError::BadOrigin),
            Origin::Signed(who) => match self.spec_ledger().transfer_check(
                eff_asset,
                who@,
                sovereign,
                amount,
            ) {
                Ok(u) => Ok(u),
                Err(e) => Err(DispatchError::Ledger(e)),
            },
        }
    }

    /// A dealer over a ledger and a configuration, with nothing sent and
    /// nothing logged yet.
    pub fn new(ledger: Ledger, config: LedgerConfig) -> (r: TokenDealer)
        requires
            (match config {
                LedgerConfig::CurrencyWithAssets => true,
                LedgerConfig::UnifiedAsset(rates) => rates.wf(),
            }),
        ensures
            r.wf(),
            r.spec_ledger() == ledger,
            r.spec_config() == config,
            r.spec_events() == Seq::<Event>::empty(),
            r.spec_broker().upward_log() == Seq::<TestUpwardMessage>::empty(),
            r.spec_broker().xcmp_log() == Seq::<XcmpEnvelope>::empty(),
    {
        TokenDealer { ledger, broker: MessageBrokerMock::new(), events: Vec::new(), config }
    }

    /// The ledger, for reading balances.
    pub fn ledger(&self) -> (r: &Ledger)
        ensures
            *r == self.spec_ledger(),
    {
        &self.ledger
    }

    /// The outbound transport, for reading what was sent.
    pub fn broker(&self) -> (r: &MessageBrokerMock)
        ensures
            *r == self.spec_broker(),
    {
        &self.broker
    }

    /// The outcome events appended so far.
    pub fn events(&self) -> (r: &Vec<Event>)
        ensures
            r@ == self.spec_events(),
    {
        &self.events
    }

    /// The asset the ledger actually moves for a requested asset
    /// reference.
    fn effective_asset(&self, asset: Option<u32>) -> (r: Option<u32>)
        ensures
            r == self.spec_effective_asset(asset),
    {
        match &self.config {
            LedgerConfig::CurrencyWithAssets => asset,
            LedgerConfig::UnifiedAsset(_) => match asset {
                Some(id) => Some(id),
                None => Some(self.ledger.spending_asset()),
            },
        }
    }

    /// Converts an inbound relay-denominated amount into local units.
    fn inbound_amount(&self, relay_amount: u128, asset: Option<u32>) -> (r: Option<u128>)
        requires
            self.wf(),
        ensures
            r == self.spec_inbound_amount(relay_amount, asset),
    {
        match &self.config {
            LedgerConfig::CurrencyWithAssets => Some(relay_amount),
            LedgerConfig::UnifiedAsset(rates) => {
                let dest_is_spending = match self.effective_asset(asset) {
                    Some(id) => id == self.ledger.spending_asset(),
                    None => false,
                };
                rates.convert_to_local(relay_amount, dest_is_spending)
            },
        }
    }
}

/// Whether `post` is `pre` with one event appended whose earlier records
/// are untouched.
pub open spec fn event_appended(pre: TokenDealer, post: TokenDealer) -> bool {
    &&& post.spec_events().len() == pre.spec_events().len() + 1
    &&& forall|i: int|
        0 <= i < pre.spec_events().len() ==> #[trigger] post.spec_events()[i]
            == pre.spec_events()[i]
}

/// What a completed relay-bound transfer leaves behind: the debit moved
/// to the relay sovereign account, one upward message, one event, and
/// nothing else.
pub open spec fn relay_transfer_applied(
    pre: TokenDealer,
    post: TokenDealer,
    sender: Seq<u8>,
    dest: Seq<u8>,
    amount: u128,
    asset_id: Option<u32>,
) -> bool {
    let eff = pre.spec_effective_asset(asset_id);
    let sovereign = spec_derive(ChainId::Relay);
    &&& forall|a: Option<u32>, w: Seq<u8>| #[trigger] post.spec_ledger().balance_of(a, w)
        == pre.spec_ledger().moved_balance(eff, sender, sovereign, amount, a, w)
    &&& event_appended(pre, post)
    &&& is_relay_out_event(post.spec_events().last(), sender, asset_id, dest, amount)
    &&& post.spec_broker().upward_log().len() == pre.spec_broker().upward_log().len() + 1
    &&& forall|i: int|
        0 <= i < pre.spec_broker().upward_log().len() ==> #[trigger] post.spec_broker().upward_log()[i]
            == pre.spec_broker().upward_log()[i]
    &&& post.spec_broker().upward_log().last().dest@ == dest
    &&& post.spec_broker().upward_log().last().amount == amount
    &&& post.spec_broker().xcmp_log() == pre.spec_broker().xcmp_log()
}

/// What a completed sibling-bound transfer leaves behind: the debit moved
/// to the destination parachain's sovereign account, one sibling message
/// carrying the destination asset, one event, and nothing else.
pub open spec fn para_transfer_applied(
    pre: TokenDealer,
    post: TokenDealer,
    sender: Seq<u8>,
    para_id: u32,
    dest: Seq<u8>,
    dest_asset_id: Option<u32>,
    amount: u128,
    asset_id: Option<u32>,
) -> bool {
    let eff = pre.spec_effective_asset(asset_id);
    let sovereign = spec_derive(ChainId::Parachain(para_id));
    &&& forall|a: Option<u32>, w: Seq<u8>| #[trigger] post.spec_ledger().balance_of(a, w)
        == pre.spec_ledger().moved_balance(eff, sender, sovereign, amount, a, w)
    &&& event_appended(pre, post)
    &&& is_para_out_event(
        post.spec_events().last(),
        sender,
        asset_id,
        para_id,
        dest,
        dest_asset_id,
        amount,
    )
    &&& post.spec_broker().xcmp_log().len() == pre.spec_broker().xcmp_log().len() + 1
    &&& forall|i: int|
        0 <= i < pre.spec_broker().xcmp_log().len() ==> #[trigger] post.spec_broker().xcmp_log()[i]
            == pre.spec_broker().xcmp_log()[i]
    &&& post.spec_broker().xcmp_log().last().dest_para == para_id
    &&& (post.spec_broker().xcmp_log().last().msg matches XCMPMessage::TransferToken(d, m, da)
        && d@ == dest && m == amount && da == dest_asset_id)
    &&& post.spec_broker().upward_log() == pre.spec_broker().upward_log()
}

/// What handling a downward transfer leaves behind: the message is
/// consumed exactly once, one event is always appended, and the ledger
/// changed only if the converted credit succeeded, whose result the event
/// records.
pub open spec fn downward_handled(
    pre: TokenDealer,
    post: TokenDealer,
    dest: Seq<u8>,
    relay_amount: u128,
    remark: Seq<u8>,
) -> bool {
    let asset = spec_remark_asset(remark);
    let eff = pre.spec_effective_asset(asset);
    let sovereign = spec_derive(ChainId::Relay);
    &&& event_appended(pre, post)
    &&& post.spec_broker() == pre.spec_broker()
    &&& match pre.spec_inbound_amount(relay_amount, asset) {
        None => {
            &&& post.spec_ledger() == pre.spec_ledger()
            &&& is_relay_in_event(
                post.spec_events().last(),
                dest,
                relay_amount,
                asset,
                Err(LedgerError::Overflow),
            )
        },
        Some(local) => {
            let res = pre.spec_ledger().transfer_check(eff, sovereign, dest, local);
            &&& (res is Ok ==> forall|a: Option<u32>, w: Seq<u8>| #[trigger] post.spec_ledger().balance_of(a, w)
                == pre.spec_ledger().moved_balance(eff, sovereign, dest, local, a, w))
            &&& (res is Err ==> post.spec_ledger() == pre.spec_ledger())
            &&& is_relay_in_event(post.spec_events().last(), dest, local, asset, res)
        },
    }
}

/// What handling a sibling transfer leaves behind: one event always, the
/// ledger changed only if the credit from the source chain's sovereign
/// account succeeded, whose result the event records.
pub open spec fn xcmp_handled(
    pre: TokenDealer,
    post: TokenDealer,
    src: u32,
    dest: Seq<u8>,
    amount: u128,
    asset_id: Option<u32>,
) -> bool {
    let eff = pre.spec_effective_asset(asset_id);
    let sovereign = spec_derive(ChainId::Parachain(src));
    let res = pre.spec_ledger().transfer_check(eff, sovereign, dest, amount);
    &&& event_appended(pre, post)
    &&& post.spec_broker() == pre.spec_broker()
    &&& (res is Ok ==> forall|a: Option<u32>, w: Seq<u8>| #[trigger] post.spec_ledger().balance_of(a, w)
        == pre.spec_ledger().moved_balance(eff, sovereign, dest, amount, a, w))
    &&& (res is Err ==> post.spec_ledger() == pre.spec_ledger())
    &&& is_xcmp_in_event(post.spec_events().last(), src, dest, amount, asset_id, res)
}

impl TokenDealer {
    /// Transfers `amount` of the local asset from the signed caller to
    /// the relay chain's sovereign account and asks the relay chain, by
    /// one upward message, to pay `dest` the same amount in its own unit.
    /// Atomic: a rejected call changes nothing at all.
    pub fn transfer_tokens_to_relay_chain(
        &mut self,
        origin: &Origin,
        dest: &Address,
        amount: u128,
        asset_id: Option<u32>,
    ) -> (r: Result<(), DispatchError>)
        requires
            old(self).wf(),
        ensures
            final(self).wf(),
            final(self).spec_config() == old(self).spec_config(),
            old(self).spec_ledger().same_config(final(self).spec_ledger()),
            r == old(self).spec_dispatch_outcome(
                *origin,
                old(self).spec_effective_asset(asset_id),
                spec_derive(ChainId::Relay),
                amount,
            ),
            r is Err ==> *final(self) == *old(self),
            *origin matches Origin::Signed(who) ==> (r is Ok ==> relay_transfer_applied(
                *old(self),
                *final(self),
                who@,
                dest@,
                amount,
                asset_id,
            )),
    {
        let who = match origin {
            Origin::Signed(w) => w,
            Origin::Unsigned => {
                return Err(DispatchError::BadOrigin);
            },
        };
        let relay_account = RelayId::default().into_account();
        let eff = self.effective_asset(asset_id);
        match self.ledger.make_transfer(who, eff, &relay_account, amount) {
            Err(e) => {
                return Err(DispatchError::Ledger(e));
            },
            Ok(u) => u,
        };
        match &self.config {
            LedgerConfig::UnifiedAsset(rates) => {
                // Computed for information only; the transferred amount
                // crosses unchanged.
                let _relay_equivalent = rates.convert_to_relay(amount);
            },
            LedgerConfig::CurrencyWithAssets => {},
        }
        let msg = TestUpwardMessage::transfer(dest.clone(), amount);
        let _ = self.broker.send_upward_message(msg);
        self.events.push(
            Event::TransferredTokensToRelayChain(who.clone(), asset_id, dest.clone(), amount),
        );
        Ok(())
    }

    /// Transfers `amount` of the local asset from the signed caller to
    /// the destination parachain's sovereign account and sends that chain
    /// one sibling message asking it to pay `dest` in `dest_asset_id`.
    /// Atomic: a rejected call changes nothing at all.
    pub fn transfer_assets_to_parachain_chain(
        &mut self,
        origin: &Origin,
        para_id: u32,
        dest: &Address,
        dest_asset_id: Option<u32>,
        amount: u128,
        asset_id: Option<u32>,
    ) -> (r: Result<(), DispatchError>)
        requires
            old(self).wf(),
        ensures
            final(self).wf(),
            final(self).spec_config() == old(self).spec_config(),
            old(self).spec_ledger().same_config(final(self).spec_ledger()),
            r == old(self).spec_dispatch_outcome(
                *origin,
                old(self).spec_effective_asset(asset_id),
                spec_derive(ChainId::Parachain(para_id)),
                amount,
            ),
            r is Err ==> *final(self) == *old(self),
            *origin matches Origin::Signed(who) ==> (r is Ok ==> para_transfer_applied(
                *old(self),
                *final(self),
                who@,
                para_id,
                dest@,
                dest_asset_id,
                amount,
                asset_id,
            )),
    {
        let who = match origin {
            Origin::Signed(w) => w,
            Origin::Unsigned => {
                return Err(DispatchError::BadOrigin);
            },
        };
        let para_account = crate::sovereign::derive(&ChainId::Parachain(para_id));
        let eff = self.effective_asset(asset_id);
        match self.ledger.make_transfer(who, eff, &para_account, amount) {
            Err(e) => {
                return Err(DispatchError::Ledger(e));
            },
            Ok(u) => u,
        };
        let msg = XCMPMessage::TransferToken(dest.clone(), amount, dest_asset_id);
        let _ = self.broker.send_xcmp_message(para_id, msg);
        self.events.push(
            Event::TransferredTokensToParachain(
                who.clone(),
                asset_id,
                para_id,
                dest.clone(),
                dest_asset_id,
                amount,
            ),
        );
        Ok(())
    }

    /// Handles a message from the downward channel. Only the transfer
    /// kind is acted on; everything else is ignored. The transfer kind
    /// credits the destination from the relay chain's sovereign account,
    /// converting the amount under the unified configuration, and always
    /// appends one event carrying the credit's result: a failed credit is
    /// recorded, never propagated, and the message is consumed either
    /// way.
    pub fn handle_downward_message(&mut self, msg: &DownwardMessage)
        requires
            old(self).wf(),
            (*msg matches DownwardMessage::TransferInto(dest, relay_amount, remark) ==> remark_wf(
                remark@,
            )),
        ensures
            final(self).wf(),
            final(self).spec_config() == old(self).spec_config(),
            old(self).spec_ledger().same_config(final(self).spec_ledger()),
            (*msg matches DownwardMessage::Opaque(bytes) ==> *final(self) == *old(self)),
            (*msg matches DownwardMessage::TransferInto(dest, relay_amount, remark)
                ==> downward_handled(*old(self), *final(self), dest@, relay_amount, remark@)),
    {
        match msg {
            DownwardMessage::Opaque(_) => {},
            DownwardMessage::TransferInto(dest, relay_amount, remark) => {
                let asset_id = decode_remark_asset(remark);
                let eff = self.effective_asset(asset_id);
                let relay_account = RelayId::default().into_account();
                match self.inbound_amount(*relay_amount, asset_id) {
                    None => {
                        self.events.push(
                            Event::TransferredTokensFromRelayChain(
                                dest.clone(),
                                *relay_amount,
                                asset_id,
                                Err(LedgerError::Overflow),
                            ),
                        );
                    },
                    Some(local) => {
                        let res = self.ledger.make_transfer(&relay_account, eff, dest, local);
                        self.events.push(
                            Event::TransferredTokensFromRelayChain(
                                dest.clone(),
                                local,
                                asset_id,
                                res,
                            ),
                        );
                    },
                }
            },
        }
    }

    /// Handles a transfer received over the cross-chain channel from
    /// sibling parachain `src`: credits the destination from that chain's
    /// sovereign account and always appends one event carrying the
    /// credit's result. A variant without an asset id credits the
    /// ledger's designated spending asset under the unified
    /// configuration.
    pub fn handle_xcmp_message(&mut self, src: u32, msg: &XCMPMessage)
        requires
            old(self).wf(),
        ensures
            final(self).wf(),
            final(self).spec_config() == old(self).spec_config(),
            old(self).spec_ledger().same_config(final(self).spec_ledger()),
            (*msg matches XCMPMessage::TransferToken(dest, amount, asset_id) ==> xcmp_handled(
                *old(self),
                *final(self),
                src,
                dest@,
                amount,
                asset_id,
            )),
    {
        match msg {
            XCMPMessage::TransferToken(dest, amount, asset_id) => {
                let para_account = crate::sovereign::derive(&ChainId::Parachain(src));
                let eff = self.effective_asset(*asset_id);
                let res = self.ledger.make_transfer(&para_account, eff, dest, *amount);
                self.events.push(
                    Event::TransferredTokensViaXCMP(
                        src,
                        dest.clone(),
                        *amount,
                        *asset_id,
                        res,
                    ),
                );
            },
        }
    }
}

/// Under the unified-asset configuration, a transfer that names no asset
/// always moves the ledger's designated spending asset, whatever else is
/// configured.
pub proof fn lemma_token_variant_uses_spending_asset(d: TokenDealer)
    requires
        d.spec_config() matches LedgerConfig::UnifiedAsset(rates),
    ensures
        d.spec_effective_asset(None) == Some(d.spec_ledger().spec_spending_asset()),
{
}

} // verus!
