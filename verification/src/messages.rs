//! Cross-chain transfer messages and the outbound transport surface.
//!
//! Outbound, the dealer builds an upward message for the relay chain from
//! a destination and an amount, and a sibling message that also carries
//! the destination asset. Inbound, the relay chain sends a downward
//! transfer whose 32-byte remark is reinterpreted as an asset reference —
//! a wire-format contract with the relay chain, not independently
//! validated. The transport collaborator here records every message it is
//! handed, in order, and never refuses one: after a successful debit the
//! surrounding system guarantees channel capacity.

use crate::sovereign::Address;
use crate::sovereign::spec_le_u32;
use vstd::prelude::*;

verus! {

/// The message handed to the upward transport for a relay-bound transfer.
/// The relay chain reads the amount in its own native unit, so no asset
/// identity crosses with it.
pub struct TestUpwardMessage {
    /// The account on the relay chain that receives the amount.
    pub dest: Address,
    /// The amount, in the relay chain's unit.
    pub amount: u128,
}

impl TestUpwardMessage {
    /// Builds the upward message for a transfer to the given destination.
    pub fn transfer(dest: Address, amount: u128) -> (r: Self)
        ensures
            r.dest@ == dest@,
            r.amount == amount,
    {
        TestUpwardMessage { dest, amount }
    }
}

/// A message sent to, or received from, a sibling parachain over the
/// cross-chain channel.
pub enum XCMPMessage {
    /// Transfer tokens to the given account from the sending chain's
    /// sovereign account. Carries the destination asset, or `None` for
    /// the receiving ledger's designated default.
    TransferToken(Address, u128, Option<u32>),
}

/// A message received from the relay chain over the downward channel.
pub enum DownwardMessage {
    /// Credit the given account with a relay-denominated amount. The
    /// 32-byte remark encodes the destination asset reference.
    TransferInto(Address, u128, [u8; 32]),
    /// Any other downward traffic; the dealer ignores it.
    Opaque(Vec<u8>),
}

/// The asset reference carried in a downward transfer's remark: a leading
/// zero byte means the native asset, a leading one byte is followed by a
/// little-endian asset id.
pub open spec fn spec_remark_asset(remark: Seq<u8>) -> Option<u32> {
    if remark[0] == 0u8 {
        None
    } else {
        Some(spec_le_u32(remark[1], remark[2], remark[3], remark[4]))
    }
}

/// Whether a remark is a well-formed asset reference: the leading tag
/// byte is zero or one.
pub open spec fn remark_wf(remark: Seq<u8>) -> bool {
    remark[0] == 0u8 || remark[0] == 1u8
}

/// Reads the asset reference out of a downward transfer's remark.
pub fn decode_remark_asset(remark: &[u8; 32]) -> (r: Option<u32>)
    requires
        remark_wf(remark@),
    ensures
        r == spec_remark_asset(remark@),
{
    if remark[0] == 0 {
        None
    } else {
        let id = (remark[1] as u32) | ((remark[2] as u32) << 8u32) | ((remark[3] as u32) << 16u32)
            | ((remark[4] as u32) << 24u32);
        Some(id)
    }
}

/// One sibling-bound message with its destination parachain.
pub struct XcmpEnvelope {
    /// The parachain the message is addressed to.
    pub dest_para: u32,
    /// The message itself.
    pub msg: XCMPMessage,
}

/// The outbound transport collaborator. It records every message handed
/// to it, in order, and never refuses one: the enqueue after a successful
/// debit is infallible by contract with the surrounding system.
pub struct MessageBrokerMock {
    upward: Vec<TestUpwardMessage>,
    xcmp: Vec<XcmpEnvelope>,
}

impl MessageBrokerMock {
    /// Every upward message handed over so far, oldest first.
    pub closed spec fn upward_log(self) -> Seq<TestUpwardMessage> {
        self.upward@
    }

    /// Every sibling-bound message handed over so far, oldest first.
    pub closed spec fn xcmp_log(self) -> Seq<XcmpEnvelope> {
        self.xcmp@
    }

    /// A transport that has carried nothing yet.
    pub fn new() -> (r: Self)
        ensures
            r.upward_log() == Seq::<TestUpwardMessage>::empty(),
            r.xcmp_log() == Seq::<XcmpEnvelope>::empty(),
    {
        MessageBrokerMock { upward: Vec::new(), xcmp: Vec::new() }
    }

    /// Hands an upward message to the relay chain's queue.
    pub fn send_upward_message(&mut self, msg: TestUpwardMessage) -> (r: Result<(), ()>)
        ensures
            r is Ok,
            final(self).upward_log() == old(self).upward_log().push(msg),
            final(self).xcmp_log() == old(self).xcmp_log(),
    {
        self.upward.push(msg);
        Ok(())
    }

    /// Hands a message to the cross-chain channel for a sibling parachain.
    pub fn send_xcmp_message(&mut self, dest_para: u32, msg: XCMPMessage) -> (r: Result<(), ()>)
        ensures
            r is Ok,
            final(self).xcmp_log() == old(self).xcmp_log().push(
                (XcmpEnvelope { dest_para, msg }),
            ),
            final(self).upward_log() == old(self).upward_log(),
    {
        self.xcmp.push(XcmpEnvelope { dest_para, msg });
        Ok(())
    }

    /// The recorded upward messages.
    pub fn upward_messages(&self) -> (r: &Vec<TestUpwardMessage>)
        ensures
            r@ == self.upward_log(),
    {
        &self.upward
    }

    /// The recorded sibling-bound messages.
    pub fn xcmp_messages(&self) -> (r: &Vec<XcmpEnvelope>)
        ensures
            r@ == self.xcmp_log(),
    {
        &self.xcmp
    }
}

} // verus!
