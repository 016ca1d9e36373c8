//! The local balance ledger.
//!
//! Balances are kept per asset and account, with `None` standing for the
//! native currency. A transfer debits the source and credits the
//! destination atomically: it either moves exactly the requested amount or
//! refuses with a typed reason and changes nothing. A native-currency
//! debit is existence preserving: it may not leave the source below the
//! ledger's minimum balance.
//!
//! The store appends one entry per write and reads the most recent entry
//! for a key, so an update never disturbs any other balance.

use crate::sovereign::Address;
use vstd::prelude::*;

verus! {

/// Why the ledger refused a transfer.
#[derive(Clone, Copy, PartialEq, Eq, Structural, Debug)]
pub enum LedgerError {
    /// The referenced asset id is unknown to the ledger.
    AssetNotFound,
    /// The source account holds less than the transfer amount.
    InsufficientBalance,
    /// A native-currency debit would leave the source below the minimum
    /// balance.
    ExistentialDeposit,
    /// Crediting the destination would overflow its balance.
    Overflow,
}

/// One balance record: an asset (`None` is the native currency), an
/// account, and the amount it holds.
struct BalanceEntry {
    asset: Option<u32>,
    who: Address,
    amount: u128,
}

/// The balance a key holds according to a record sequence: the amount of
/// the most recent matching record, or zero if there is none.
spec fn balance_in(entries: Seq<BalanceEntry>, asset: Option<u32>, who: Seq<u8>) -> u128
    decreases entries.len(),
{
    if entries.len() == 0 {
        0u128
    } else if entries.last().asset == asset && entries.last().who@ == who {
        entries.last().amount
    } else {
        balance_in(entries.drop_last(), asset, who)
    }
}

/// The ledger: per-asset account balances, the set of registered assets,
/// the designated spending asset, and the minimum balance that a
/// native-currency debit must leave behind.
pub struct Ledger {
    entries: Vec<BalanceEntry>,
    assets: Vec<u32>,
    spending_asset_id: u32,
    minimum_balance: u128,
}

impl Ledger {
    /// The balance an account holds of an asset.
    pub closed spec fn balance_of(self, asset: Option<u32>, who: Seq<u8>) -> u128 {
        balance_in(self.entries@, asset, who)
    }

    /// The asset ids registered with the ledger, in registration order.
    pub closed spec fn known_assets(self) -> Seq<u32> {
        self.assets@
    }

    /// The designated spending asset.
    pub closed spec fn spec_spending_asset(self) -> u32 {
        self.spending_asset_id
    }

    /// The minimum balance a native-currency debit must leave behind.
    pub closed spec fn spec_minimum_balance(self) -> u128 {
        self.minimum_balance
    }

    /// Whether an asset reference can be debited: the native currency
    /// always, a named asset only once registered.
    pub open spec fn asset_known(self, asset: Option<u32>) -> bool {
        match asset {
            Some(id) => self.known_assets().contains(id),
            None => true,
        }
    }

    /// Whether the destination can absorb the amount without overflowing.
    /// A self-transfer debits first, so it never overflows.
    pub open spec fn credit_fits(self, asset: Option<u32>, from: Seq<u8>, to: Seq<u8>, amount: u128) -> bool {
        from == to || self.balance_of(asset, to) + amount <= u128::MAX
    }

    /// The exact outcome a transfer request would have on this ledger:
    /// success, or the first failing check in debit order.
    pub open spec fn transfer_check(
        self,
        asset: Option<u32>,
        from: Seq<u8>,
        to: Seq<u8>,
        amount: u128,
    ) -> Result<(), LedgerError> {
        if !self.asset_known(asset) {
            Err(LedgerError::AssetNotFound)
        } else if self.balance_of(asset, from) < amount {
            Err(LedgerError::InsufficientBalance)
        } else if asset is None && self.balance_of(asset, from) - amount
            < self.spec_minimum_balance() {
            Err(LedgerError::ExistentialDeposit)
        } else if !self.credit_fits(asset, from, to, amount) {
            Err(LedgerError::Overflow)
        } else {
            Ok(())
        }
    }

    /// Each balance after a successful transfer: the source loses exactly
    /// the amount, the destination gains exactly the amount, and every
    /// other balance is untouched.
    pub open spec fn moved_balance(
        self,
        asset: Option<u32>,
        from: Seq<u8>,
        to: Seq<u8>,
        amount: u128,
        a: Option<u32>,
        w: Seq<u8>,
    ) -> u128 {
        if a == asset && w == from && w != to {
            (self.balance_of(asset, from) - amount) as u128
        } else if a == asset && w == to && w != from {
            (self.balance_of(asset, to) + amount) as u128
        } else {
            self.balance_of(a, w)
        }
    }

    /// Whether the ledger's configuration is the same in both states.
    pub open spec fn same_config(self, other: Ledger) -> bool {
        self.known_assets() == other.known_assets() && self.spec_spending_asset()
            == other.spec_spending_asset() && self.spec_minimum_balance()
            == other.spec_minimum_balance()
    }

    /// An empty ledger with the given spending asset and minimum balance.
    pub fn new(spending_asset_id: u32, minimum_balance: u128) -> (r: Ledger)
        ensures
            forall|a: Option<u32>, w: Seq<u8>| #[trigger] r.balance_of(a, w) == 0u128,
            r.known_assets() == Seq::<u32>::empty(),
            r.spec_spending_asset() == spending_asset_id,
            r.spec_minimum_balance() == minimum_balance,
    {
        Ledger {
            entries: Vec::new(),
            assets: Vec::new(),
            spending_asset_id,
            minimum_balance,
        }
    }

    /// Registers an asset id. Balances are untouched.
    pub fn register_asset(&mut self, id: u32)
        ensures
            final(self).known_assets() == old(self).known_assets().push(id),
            forall|a: Option<u32>, w: Seq<u8>| #[trigger] final(self).balance_of(a, w) == old(
                self,
            ).balance_of(a, w),
            final(self).spec_spending_asset() == old(self).spec_spending_asset(),
            final(self).spec_minimum_balance() == old(self).spec_minimum_balance(),
    {
        self.assets.push(id);
    }

    /// The designated spending asset id.
    pub fn spending_asset(&self) -> (r: u32)
        ensures
            r == self.spec_spending_asset(),
    {
        self.spending_asset_id
    }

    /// Whether an asset id is registered.
    pub fn contains_asset(&self, id: u32) -> (r: bool)
        ensures
            r == self.known_assets().contains(id),
    {
        let mut i: usize = 0;
        while i < self.assets.len()
            invariant
                i <= self.assets@.len(),
                forall|j: int| 0 <= j < i ==> self.assets@[j] != id,
            decreases self.assets@.len() - i,
        {
            if self.assets[i] == id {
                proof {
                    assert(self.assets@[i as int] == id);
                }
                return true;
            }
            i = i + 1;
        }
        false
    }

    /// The balance an account holds of an asset.
    pub fn balance(&self, asset: Option<u32>, who: &Address) -> (r: u128)
        ensures
            r == self.balance_of(asset, who@),
    {
        let mut i: usize = self.entries.len();
        proof {
            assert(self.entries@.take(i as int) =~= self.entries@);
        }
        while i > 0
            invariant
                i <= self.entries@.len(),
                balance_in(self.entries@, asset, who@) == balance_in(
                    self.entries@.take(i as int),
                    asset,
                    who@,
                ),
            decreases i,
        {
            i = i - 1;
            let e = &self.entries[i];
            proof {
                assert(self.entries@.take(i as int + 1).last() == self.entries@[i as int]);
                assert(self.entries@.take(i as int + 1).drop_last() =~= self.entries@.take(
                    i as int,
                ));
            }
            if same_asset(&e.asset, &asset) && e.who == *who {
                return e.amount;
            }
        }
        0
    }

    /// Writes a balance record. Only the written key's balance changes.
    fn record(&mut self, asset: Option<u32>, who: &Address, amount: u128)
        ensures
            forall|a: Option<u32>, w: Seq<u8>| #[trigger] final(self).balance_of(a, w) == (if a
                == asset && w == who@ {
                amount
            } else {
                old(self).balance_of(a, w)
            }),
            old(self).same_config(*final(self)),
    {
        let entry = BalanceEntry { asset, who: who.clone(), amount };
        self.entries.push(entry);
        proof {
            assert(self.entries@.drop_last() =~= old(self).entries@);
            assert forall|a: Option<u32>, w: Seq<u8>| #[trigger] self.balance_of(a, w) == (if a
                == asset && w == who@ {
                amount
            } else {
                old(self).balance_of(a, w)
            }) by {
                assert(self.entries@.last().asset == asset);
                assert(self.entries@.last().who@ == who@);
            }
        }
    }

    /// Sets an account's opening balance of an asset, as the genesis
    /// configuration of the surrounding runtime does.
    pub fn endow(&mut self, asset: Option<u32>, who: &Address, amount: u128)
        ensures
            forall|a: Option<u32>, w: Seq<u8>| #[trigger] final(self).balance_of(a, w) == (if a
                == asset && w == who@ {
                amount
            } else {
                old(self).balance_of(a, w)
            }),
            old(self).same_config(*final(self)),
    {
        self.record(asset, who, amount);
    }

    /// Moves an amount of an asset between two accounts, atomically.
    /// On success the source is debited and the destination credited by
    /// exactly the amount; on failure the ledger is exactly as before.
    /// The result is success if and only if the asset is known, the source
    /// balance suffices, a native-currency debit keeps the source at or
    /// above the minimum balance, and the credit does not overflow.
    pub fn make_transfer(
        &mut self,
        from: &Address,
        asset: Option<u32>,
        to: &Address,
        amount: u128,
    ) -> (r: Result<(), LedgerError>)
        ensures
            r == old(self).transfer_check(asset, from@, to@, amount),
            r is Ok ==> forall|a: Option<u32>, w: Seq<u8>| #[trigger] final(self).balance_of(a, w)
                == old(self).moved_balance(asset, from@, to@, amount, a, w),
            r is Err ==> *final(self) == *old(self),
            old(self).same_config(*final(self)),
    {
        if let Some(id) = asset {
            if !self.contains_asset(id) {
                return Err(LedgerError::AssetNotFound);
            }
        }
        let from_bal = self.balance(asset, from);
        if from_bal < amount {
            return Err(LedgerError::InsufficientBalance);
        }
        if asset.is_none() && from_bal - amount < self.minimum_balance {
            return Err(LedgerError::ExistentialDeposit);
        }
        if *from == *to {
            return Ok(());
        }
        let to_bal = self.balance(asset, to);
        if to_bal > u128::MAX - amount {
            return Err(LedgerError::Overflow);
        }
        self.record(asset, from, from_bal - amount);
        self.record(asset, to, to_bal + amount);
        Ok(())
    }
}

/// Whether two asset references name the same asset.
fn same_asset(a: &Option<u32>, b: &Option<u32>) -> (r: bool)
    ensures
        r == (*a == *b),
{
    match (a, b) {
        (Some(x), Some(y)) => *x == *y,
        (None, None) => true,
        _ => false,
    }
}

/// Value conservation: a permitted transfer between distinct accounts
/// debits the source by exactly the amount it credits to the destination,
/// so their combined holdings of the asset are unchanged.
pub proof fn lemma_transfer_conserves_value(
    l: Ledger,
    asset: Option<u32>,
    from: Seq<u8>,
    to: Seq<u8>,
    amount: u128,
)
    requires
        l.transfer_check(asset, from, to, amount) is Ok,
        from != to,
    ensures
        l.moved_balance(asset, from, to, amount, asset, from) == l.balance_of(asset, from)
            - amount,
        l.moved_balance(asset, from, to, amount, asset, to) == l.balance_of(asset, to) + amount,
        l.moved_balance(asset, from, to, amount, asset, from) + l.moved_balance(
            asset,
            from,
            to,
            amount,
            asset,
            to,
        ) == l.balance_of(asset, from) + l.balance_of(asset, to),
{
}

} // verus!
