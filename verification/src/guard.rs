use vstd::prelude::*;

use crate::contract::{read_amount, value_or_zero};
use crate::dict::Dict;
use crate::types::StakeError;
use crate::u256::U256;

verus! {

/// The liquidity guard: a table of inflation values by rate, filled once.
pub struct LiquidityGuard {
    pub inflations: Dict<u64, U256>,
    pub is_ready: bool,
}

impl LiquidityGuard {
    /// A guard with an empty table.
    pub fn new() -> (r: LiquidityGuard)
        ensures
            r.inflations@ == Map::<u64, U256>::empty(),
            !r.is_ready,
    {
        LiquidityGuard { inflations: Dict::new(), is_ready: false }
    }

    /// The inflation listed for a rate, zero when none is.
    pub fn get_inflation(&self, amount: u64) -> (r: U256)
        ensures
            r@ == value_or_zero(self.inflations@, amount),
    {
        read_amount(&self.inflations, &amount)
    }

    /// Fills the table once, each rate with the value beside it (a later
    /// entry for the same rate wins); refused, with no change, when it was
    /// filled before or the lists differ in length.
    pub fn assign_inflation(&mut self, rates: &Vec<u64>, values: &Vec<U256>) -> (r: Result<
        (),
        StakeError,
    >)
        ensures
            r is Err <==> (old(self).is_ready || rates.len() != values.len()),
            r is Err ==> *final(self) == *old(self),
            r is Ok ==> final(self).is_ready,
            r is Ok ==> forall|k: u64|
                #![trigger final(self).inflations@.contains_key(k)]
                (final(self).inflations@.contains_key(k) <==> (old(self).inflations@.contains_key(
                    k,
                ) || rates@.contains(k))),
            r is Ok ==> forall|i: int|
                0 <= i < rates.len() && (forall|j: int| i < j < rates.len() ==> rates@[j]
                    != rates@[i]) ==> final(self).inflations@[rates@[i]] == values@[i],
    {
        if self.is_ready {
            return Err(StakeError::InflationAlreadyAssigned);
        }
        if rates.len() != values.len() {
            return Err(StakeError::InvalidArgument);
        }
        let ghost start = self.inflations@;
        let mut i: usize = 0;
        while i < rates.len()
            invariant
                rates.len() == values.len(),
                0 <= i <= rates.len(),
                forall|k: u64|
                    #![trigger self.inflations@.contains_key(k)]
                    (self.inflations@.contains_key(k) <==> (start.contains_key(k) || exists|j: int|
                        0 <= j < i && rates@[j] == k)),
                forall|a: int|
                    0 <= a < i && (forall|j: int| a < j < i ==> rates@[j] != rates@[a])
                        ==> self.inflations@[rates@[a]] == values@[a],
            decreases rates.len() - i,
        {
            self.inflations.set(rates[i], values[i]);
            i = i + 1;
        }
        assert forall|k: u64|
            #![trigger self.inflations@.contains_key(k)]
            (self.inflations@.contains_key(k) <==> (start.contains_key(k) || rates@.contains(k))) by {
            if rates@.contains(k) {
                let w = choose|w: int| 0 <= w < rates.len() && rates@[w] == k;
                assert(exists|j: int| 0 <= j < rates.len() && rates@[j] == k);
            }
        }
        self.is_ready = true;
        Ok(())
    }
}

} // verus!
