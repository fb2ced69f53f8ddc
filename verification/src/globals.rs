use vstd::prelude::*;

use crate::types::{opt_add, plus, sat_sub, saturating_sub, GlobalField, Globals, StakeError};
use crate::u256::{u256_max, U256};

verus! {

/// The totals after `increase`, field by field, when no sum passes 2^256 - 1.
pub open spec fn increase_fits(g: Globals, staked: nat, shares: nat, rshares: nat) -> bool {
    &&& g.total_staked@ + staked <= u256_max()
    &&& g.total_shares@ + shares <= u256_max()
    &&& (rshares > 0 ==> g.referral_shares@ + rshares <= u256_max())
}

/// The value of a field of the globals.
pub open spec fn spec_global(g: Globals, field: GlobalField) -> nat {
    match field {
        GlobalField::TotalStaked => g.total_staked@,
        GlobalField::TotalShares => g.total_shares@,
        GlobalField::SharePrice => g.share_price@,
        GlobalField::ReferralShares => g.referral_shares@,
        GlobalField::LiquidityShares => g.liquidity_shares@,
        GlobalField::CurrentStakeableDay => g.current_stakeable_day@,
    }
}

/// The totals after `decrease`: each taken down, but not below zero.
pub open spec fn decreased(g: Globals, h: Globals, staked: nat, shares: nat, rshares: nat) -> bool {
    &&& h.total_staked@ == sat_sub(g.total_staked@, staked)
    &&& h.total_shares@ == sat_sub(g.total_shares@, shares)
    &&& h.referral_shares@ == (if rshares > 0 {
        sat_sub(g.referral_shares@, rshares)
    } else {
        g.referral_shares@
    })
    &&& h.share_price == g.share_price
    &&& h.liquidity_shares == g.liquidity_shares
    &&& h.current_stakeable_day == g.current_stakeable_day
}

/// The totals after `increase`.
pub open spec fn increased(g: Globals, h: Globals, staked: nat, shares: nat, rshares: nat) -> bool {
    &&& h.total_staked@ == g.total_staked@ + staked
    &&& h.total_shares@ == g.total_shares@ + shares
    &&& h.referral_shares@ == (if rshares > 0 {
        g.referral_shares@ + rshares
    } else {
        g.referral_shares@
    })
    &&& h.share_price == g.share_price
    &&& h.liquidity_shares == g.liquidity_shares
    &&& h.current_stakeable_day == g.current_stakeable_day
}

impl Globals {
    /// The totals of a new contract: nothing staked, a share price of 100 * 10^15.
    pub fn init() -> (r: Globals)
        ensures
            r.total_staked@ == 0,
            r.total_shares@ == 0,
            r.share_price@ == 100_000_000_000_000_000,
            r.referral_shares@ == 0,
            r.liquidity_shares@ == 0,
            r.current_stakeable_day@ == 0,
    {
        Globals {
            total_staked: U256::zero(),
            total_shares: U256::zero(),
            share_price: U256::from_u64(100_000_000_000_000_000),
            referral_shares: U256::zero(),
            liquidity_shares: U256::zero(),
            current_stakeable_day: U256::zero(),
        }
    }

    /// Adds a stake's amount and shares to the totals; referral shares only
    /// when there are some. Refused, with nothing changed, when a sum overflows.
    pub fn increase_globals(&mut self, staked: U256, shares: U256, rshares: U256) -> (r: Result<
        (),
        StakeError,
    >)
        ensures
            r is Ok <==> increase_fits(*old(self), staked@, shares@, rshares@),
            r is Ok ==> increased(*old(self), *final(self), staked@, shares@, rshares@),
            r is Err ==> *final(self) == *old(self),
            r matches Err(e) ==> e == StakeError::Overflow,
    {
        let new_staked = plus(self.total_staked, staked)?;
        let new_shares = plus(self.total_shares, shares)?;
        let new_rshares = if rshares.is_zero() {
            self.referral_shares
        } else {
            plus(self.referral_shares, rshares)?
        };
        self.total_staked = new_staked;
        self.total_shares = new_shares;
        self.referral_shares = new_rshares;
        Ok(())
    }

    /// Takes a stake's amount and shares off the totals, stopping at zero.
    pub fn decrease_globals(&mut self, staked: U256, shares: U256, rshares: U256)
        ensures
            decreased(*old(self), *final(self), staked@, shares@, rshares@),
    {
        self.total_staked = saturating_sub(self.total_staked, staked);
        self.total_shares = saturating_sub(self.total_shares, shares);
        if !rshares.is_zero() {
            self.referral_shares = saturating_sub(self.referral_shares, rshares);
        }
    }

    /// The value of a field.
    pub fn get_globals(&self, field: GlobalField) -> (r: U256)
        ensures
            r@ == spec_global(*self, field),
    {
        match field {
            GlobalField::TotalStaked => self.total_staked,
            GlobalField::TotalShares => self.total_shares,
            GlobalField::SharePrice => self.share_price,
            GlobalField::ReferralShares => self.referral_shares,
            GlobalField::LiquidityShares => self.liquidity_shares,
            GlobalField::CurrentStakeableDay => self.current_stakeable_day,
        }
    }

    /// Sets a field; the others keep their values.
    pub fn set_globals(&mut self, field: GlobalField, value: U256)
        ensures
            spec_global(*final(self), field) == value@,
            forall|f: GlobalField| f != field ==> spec_global(*final(self), f) == spec_global(
                *old(self),
                f,
            ),
    {
        match field {
            GlobalField::TotalStaked => self.total_staked = value,
            GlobalField::TotalShares => self.total_shares = value,
            GlobalField::SharePrice => self.share_price = value,
            GlobalField::ReferralShares => self.referral_shares = value,
            GlobalField::LiquidityShares => self.liquidity_shares = value,
            GlobalField::CurrentStakeableDay => self.current_stakeable_day = value,
        }
    }
}

/// Law: taking off what was just added gives the totals back.
pub proof fn law_decrease_undoes_increase(
    g: Globals,
    h: Globals,
    k: Globals,
    staked: nat,
    shares: nat,
    rshares: nat,
)
    requires
        increased(g, h, staked, shares, rshares),
        decreased(h, k, staked, shares, rshares),
    ensures
        k.total_staked@ == g.total_staked@,
        k.total_shares@ == g.total_shares@,
        k.referral_shares@ == g.referral_shares@,
        k.share_price == g.share_price,
        k.liquidity_shares == g.liquidity_shares,
        k.current_stakeable_day == g.current_stakeable_day,
{
}

/// Law: the totals never go below zero and never grow on a decrease.
pub proof fn law_decrease_never_grows(g: Globals, h: Globals, staked: nat, shares: nat, rshares: nat)
    requires
        decreased(g, h, staked, shares, rshares),
    ensures
        h.total_staked@ <= g.total_staked@,
        h.total_shares@ <= g.total_shares@,
        h.referral_shares@ <= g.referral_shares@,
{
}

} // verus!
