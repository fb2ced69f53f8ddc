use vstd::prelude::*;

use crate::contract::{read_amount, value_or_zero, StakeableToken};
use crate::key::{spec_zero_address, zero_address, Key};
use crate::types::{minus, plus, StakeError};
use crate::u256::{u256_max, U256};

verus! {

/// The contract after `amount` tokens were minted to `to`: the supply and
/// that balance grown by it, all else as it was.
pub open spec fn minted(t: StakeableToken, u: StakeableToken, to: Key, amount: nat) -> bool {
    &&& u.total_supply@ == t.total_supply@ + amount
    &&& u.balances@ == t.balances@.insert(to, u.balances@[to])
    &&& u.balances@[to]@ == value_or_zero(t.balances@, to) + amount
    &&& u == (StakeableToken { balances: u.balances, total_supply: u.total_supply, ..t })
}

/// The contract after `amount` tokens of `from` were burnt: the supply and
/// that balance taken down by it, all else as it was.
pub open spec fn burnt(t: StakeableToken, u: StakeableToken, from: Key, amount: nat) -> bool {
    &&& u.total_supply@ == t.total_supply@ - amount
    &&& u.balances@ == t.balances@.insert(from, u.balances@[from])
    &&& u.balances@[from]@ == value_or_zero(t.balances@, from) - amount
    &&& u == (StakeableToken { balances: u.balances, total_supply: u.total_supply, ..t })
}

impl StakeableToken {
    /// The balance of an address.
    pub fn balance_of(&self, owner: &Key) -> (r: U256)
        ensures
            r@ == value_or_zero(self.balances@, *owner),
    {
        read_amount(&self.balances, owner)
    }

    /// Creates tokens for an address; refused, with no change, when the
    /// supply or the balance would pass 2^256 - 1.
    pub fn mint(&mut self, to: &Key, amount: U256) -> (r: Result<(), StakeError>)
        ensures
            r is Ok <==> (old(self).total_supply@ + amount@ <= u256_max() && value_or_zero(
                old(self).balances@,
                *to,
            ) + amount@ <= u256_max()),
            r is Err ==> *final(self) == *old(self),
            r is Ok ==> minted(*old(self), *final(self), *to, amount@),
            r is Ok ==> final(self).total_supply@ == old(self).total_supply@ + amount@,
            r is Ok ==> final(self).balances@.contains_key(*to) && final(self).balances@[*to]@
                == value_or_zero(old(self).balances@, *to) + amount@,
            r is Ok ==> forall|k: Key| k != *to ==> value_or_zero(final(self).balances@, k) == value_or_zero(old(self).balances@, k),
            r is Ok ==> final(self).balances@ == old(self).balances@.insert(*to, final(self).balances@[*to]),
            *final(self) == (StakeableToken { balances: final(self).balances, total_supply: final(self).total_supply, ..*old(self) }),
            final(self).stakes == old(self).stakes,
            final(self).globals == old(self).globals,
            final(self).params == old(self).params,
            final(self).snapshots == old(self).snapshots,
    {
        let bal = read_amount(&self.balances, to);
        let new_supply = plus(self.total_supply, amount)?;
        let new_bal = plus(bal, amount)?;
        self.total_supply = new_supply;
        self.balances.set(*to, new_bal);
        Ok(())
    }

    /// Destroys tokens of an address; refused, with no change, when it or
    /// the supply holds fewer.
    pub fn burn(&mut self, from: &Key, amount: U256) -> (r: Result<(), StakeError>)
        ensures
            r is Ok <==> (amount@ <= value_or_zero(old(self).balances@, *from) && amount@
                <= old(self).total_supply@),
            r is Err ==> *final(self) == *old(self),
            r is Ok ==> burnt(*old(self), *final(self), *from, amount@),
            r is Ok ==> final(self).total_supply@ == old(self).total_supply@ - amount@,
            r is Ok ==> final(self).balances@.contains_key(*from) && final(self).balances@[*from]@
                == value_or_zero(old(self).balances@, *from) - amount@,
            r is Ok ==> final(self).balances@ == old(self).balances@.insert(*from, final(self).balances@[*from]),
            *final(self) == (StakeableToken { balances: final(self).balances, total_supply: final(self).total_supply, ..*old(self) }),
            final(self).stakes == old(self).stakes,
            final(self).globals == old(self).globals,
            final(self).params == old(self).params,
            final(self).snapshots == old(self).snapshots,
    {
        let bal = read_amount(&self.balances, from);
        let new_bal = minus(bal, amount)?;
        let new_supply = minus(self.total_supply, amount)?;
        self.total_supply = new_supply;
        self.balances.set(*from, new_bal);
        Ok(())
    }
}

} // verus!
