//! Asset-unit conversion between relay and local denominations.
//!
//! One ledger configuration keeps all value in a unified asset ledger and
//! converts amounts at chain boundaries with two fixed positive integer
//! rates: one from the designated spending asset to the relay chain's
//! unit, and one from every other local asset to the spending asset.
//! Conversion multiplies with checked arithmetic and fails closed on
//! overflow, since silent wraparound in a token system would create or
//! destroy value.

use vstd::prelude::*;

verus! {

/// The two exchange rates, fixed at initialization and read-only
/// thereafter.
#[derive(Clone, Copy, PartialEq, Eq, Structural, Debug)]
pub struct ExchangeRateConfig {
    /// How many spending-asset units one relay unit is worth.
    pub spending_to_relay_rate: u128,
    /// How many generic-asset units one spending-asset unit is worth.
    pub generic_to_spending_rate: u128,
}

impl ExchangeRateConfig {
    /// Both rates must be positive.
    pub open spec fn wf(self) -> bool {
        self.spending_to_relay_rate >= 1 && self.generic_to_spending_rate >= 1
    }

    /// The exact mathematical value of a relay-denominated amount in local
    /// units of the destination asset.
    pub open spec fn spec_local_units(self, relay_amount: u128, dest_is_spending: bool) -> int {
        if dest_is_spending {
            relay_amount * self.spending_to_relay_rate
        } else {
            relay_amount * self.spending_to_relay_rate * self.generic_to_spending_rate
        }
    }

    /// Converts a relay-denominated amount into local units of the
    /// destination asset. Returns the exact product when it fits the
    /// balance width, and nothing on overflow.
    pub fn convert_to_local(&self, relay_amount: u128, dest_is_spending: bool) -> (r: Option<
        u128,
    >)
        requires
            self.wf(),
        ensures
            r == (if self.spec_local_units(relay_amount, dest_is_spending) <= u128::MAX {
                Some(self.spec_local_units(relay_amount, dest_is_spending) as u128)
            } else {
                None::<u128>
            }),
    {
        match relay_amount.checked_mul(self.spending_to_relay_rate) {
            None => {
                proof {
                    assert(relay_amount * self.spending_to_relay_rate
                        * self.generic_to_spending_rate >= relay_amount
                        * self.spending_to_relay_rate) by (nonlinear_arith)
                        requires
                            self.generic_to_spending_rate >= 1,
                            relay_amount * self.spending_to_relay_rate >= 0,
                    ;
                }
                None
            },
            Some(v) => {
                if dest_is_spending {
                    Some(v)
                } else {
                    v.checked_mul(self.generic_to_spending_rate)
                }
            },
        }
    }

    /// The relay-denominated equivalent of a local spending-asset amount:
    /// the quotient by the spending-to-relay rate, rounded down. Computed
    /// for information beside a relay-bound transfer; it never alters the
    /// amount actually moved.
    pub fn convert_to_relay(&self, local_amount: u128) -> (r: u128)
        requires
            self.wf(),
        ensures
            r == local_amount / self.spending_to_relay_rate,
    {
        local_amount / self.spending_to_relay_rate
    }
}

} // verus!
