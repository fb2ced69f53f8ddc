use vstd::prelude::*;

use crate::contract::StakeableToken;
use crate::dict::Dict;
use crate::guard::LiquidityGuard;
use crate::snapshot::{snapshot_taken, spec_contract_run, PairReserves};
use crate::timing::{spec_day_at, spec_now};
use crate::types::{Globals, Snapshot, StakeError};
use crate::u256::U256;

verus! {

/// What a snapshot run changes, set aside so that a call refused after the
/// run can leave the contract as it was.
pub(crate) struct SetAside {
    pub(crate) snapshots: Dict<u64, Snapshot>,
    pub(crate) rsnapshots: Dict<u64, Snapshot>,
    pub(crate) lsnapshots: Dict<u64, Snapshot>,
    pub(crate) globals: Globals,
    pub(crate) status: bool,
    pub(crate) inflation_rate: U256,
    pub(crate) liquidity_rate: U256,
}

/// Whether `u` is `t` with its three snapshot books replaced by books that
/// hold the same snapshots.
pub open spec fn same_but_copied_books(t: StakeableToken, u: StakeableToken) -> bool {
    &&& u == (StakeableToken {
        snapshots: u.snapshots,
        rsnapshots: u.rsnapshots,
        lsnapshots: u.lsnapshots,
        ..t
    })
    &&& u.snapshots@ == t.snapshots@
    &&& u.rsnapshots@ == t.rsnapshots@
    &&& u.lsnapshots@ == t.lsnapshots@
}

/// A snapshot run reads the books only through what they hold.
pub proof fn lemma_taken_from_copied_books(
    t: StakeableToken,
    t1: StakeableToken,
    u: StakeableToken,
    pair: PairReserves,
    guard: Map<u64, U256>,
    update_day: u64,
)
    requires
        same_but_copied_books(t, t1),
        snapshot_taken(t1, u, pair, guard, update_day),
    ensures
        snapshot_taken(t, u, pair, guard, update_day),
        spec_contract_run(t, pair, guard, update_day) == spec_contract_run(t1, pair, guard, update_day),
{
    reveal(snapshot_taken);
    assert(spec_contract_run(t, pair, guard, update_day) == spec_contract_run(t1, pair, guard, update_day));
}

impl StakeableToken {
    /// Moves the three snapshot books aside, leaving copies in their place,
    /// and notes the globals, the guard status and the rates.
    fn set_aside(&mut self) -> (b: SetAside)
        ensures
            same_but_copied_books(*old(self), *final(self)),
            b.snapshots == old(self).snapshots,
            b.rsnapshots == old(self).rsnapshots,
            b.lsnapshots == old(self).lsnapshots,
            b.globals == old(self).globals,
            b.status == old(self).liquidity_guard_status,
            b.inflation_rate == old(self).inflation_rate,
            b.liquidity_rate == old(self).liquidity_rate,
    {
        let mut s0 = self.snapshots.duplicate();
        let mut s1 = self.rsnapshots.duplicate();
        let mut s2 = self.lsnapshots.duplicate();
        std::mem::swap(&mut s0, &mut self.snapshots);
        std::mem::swap(&mut s1, &mut self.rsnapshots);
        std::mem::swap(&mut s2, &mut self.lsnapshots);
        SetAside {
            snapshots: s0,
            rsnapshots: s1,
            lsnapshots: s2,
            globals: self.globals,
            status: self.liquidity_guard_status,
            inflation_rate: self.inflation_rate,
            liquidity_rate: self.liquidity_rate,
        }
    }

    /// Puts back what was set aside.
    pub(crate) fn put_back(&mut self, b: SetAside)
        ensures
            *final(self) == (StakeableToken {
                snapshots: b.snapshots,
                rsnapshots: b.rsnapshots,
                lsnapshots: b.lsnapshots,
                globals: b.globals,
                liquidity_guard_status: b.status,
                inflation_rate: b.inflation_rate,
                liquidity_rate: b.liquidity_rate,
                ..*old(self)
            }),
    {
        self.snapshots = b.snapshots;
        self.rsnapshots = b.rsnapshots;
        self.lsnapshots = b.lsnapshots;
        self.globals = b.globals;
        self.liquidity_guard_status = b.status;
        self.inflation_rate = b.inflation_rate;
        self.liquidity_rate = b.liquidity_rate;
    }

    /// Takes the daily snapshots up to `update_day` on copies of the books,
    /// with the originals set aside.
    pub(crate) fn snapshot_aside(&mut self, update_day: u64, pair: &PairReserves, guard: &LiquidityGuard) -> (r: Result<SetAside, StakeError>)
        ensures
            r is Ok <==> spec_contract_run(*old(self), *pair, guard.inflations@, update_day) is Some,
            r is Err ==> *final(self) == *old(self),
            r matches Ok(b) ==> {
                &&& snapshot_taken(*old(self), *final(self), *pair, guard.inflations@, update_day)
                &&& (StakeableToken {
                    snapshots: b.snapshots,
                    rsnapshots: b.rsnapshots,
                    lsnapshots: b.lsnapshots,
                    globals: b.globals,
                    liquidity_guard_status: b.status,
                    inflation_rate: b.inflation_rate,
                    liquidity_rate: b.liquidity_rate,
                    ..*final(self)
                }) == *old(self)
            },
    {
        let ghost t0 = *self;
        let b = self.set_aside();
        let ghost t1 = *self;
        match self.daily_snapshot_point(update_day, pair, guard) {
            Ok(()) => {
                proof {
                    lemma_taken_from_copied_books(t0, t1, *self, *pair, guard.inflations@, update_day);
                    reveal(snapshot_taken);
                }
                Ok(b)
            },
            Err(e) => {
                proof {
                    assert(spec_contract_run(t0, *pair, guard.inflations@, update_day)
                        == spec_contract_run(t1, *pair, guard.inflations@, update_day));
                }
                self.put_back(b);
                assert(*self == t0);
                Err(e)
            },
        }
    }

    /// Takes the daily snapshots up to the current day.
    pub fn snapshot_trigger(&mut self, blocktime_ms: u64, pair: &PairReserves, guard: &LiquidityGuard) -> (r: Result<(), StakeError>)
        ensures
            ({
                let today = spec_day_at(old(self).launch_time@, blocktime_ms, old(self).params.seconds_in_day);
                &&& r is Err ==> *final(self) == *old(self)
                &&& r is Ok <==> (today is Some && spec_contract_run(*old(self), *pair, guard.inflations@, today.unwrap() as u64) is Some)
                &&& r is Ok ==> snapshot_taken(*old(self), *final(self), *pair, guard.inflations@, today.unwrap() as u64)
            }),
    {
        let today = self.current_stakeable_day_only(blocktime_ms)?;
        self.daily_snapshot_point(today, pair, guard)
    }

    /// Takes the daily snapshots up to the current day, on request.
    pub fn manual_daily_snapshot(&mut self, blocktime_ms: u64, pair: &PairReserves, guard: &LiquidityGuard) -> (r: Result<(), StakeError>)
        ensures
            ({
                let today = spec_day_at(old(self).launch_time@, blocktime_ms, old(self).params.seconds_in_day);
                &&& r is Err ==> *final(self) == *old(self)
                &&& r is Ok <==> (today is Some && spec_contract_run(*old(self), *pair, guard.inflations@, today.unwrap() as u64) is Some)
                &&& r is Ok ==> snapshot_taken(*old(self), *final(self), *pair, guard.inflations@, today.unwrap() as u64)
            }),
    {
        self.snapshot_trigger(blocktime_ms, pair, guard)
    }

    /// Takes the daily snapshots up to `update_day`, which must lie after the
    /// day the snapshots reached and before the current day. Refused, with no
    /// change, with `Underflow` before launch and with `InvalidArgument` for a
    /// day out of that range.
    pub fn manual_daily_snapshot_point(&mut self, update_day: u64, blocktime_ms: u64, pair: &PairReserves, guard: &LiquidityGuard) -> (r: Result<(), StakeError>)
        ensures
            ({
                let today = spec_day_at(old(self).launch_time@, blocktime_ms, old(self).params.seconds_in_day);
                let in_range = today is Some && 0 < update_day && update_day < today.unwrap();
                let allowed = in_range
                    && old(self).globals.current_stakeable_day@ <= u64::MAX
                    && update_day > old(self).globals.current_stakeable_day@;
                &&& r is Err ==> *final(self) == *old(self)
                &&& r is Ok <==> (allowed && spec_contract_run(*old(self), *pair, guard.inflations@, update_day) is Some)
                &&& r is Ok ==> snapshot_taken(*old(self), *final(self), *pair, guard.inflations@, update_day)
                &&& spec_now(blocktime_ms) < old(self).launch_time@ ==> r == Err::<(), StakeError>(StakeError::Underflow)
                &&& (today is Some && !in_range) ==> r == Err::<(), StakeError>(StakeError::InvalidArgument)
                &&& (in_range && old(self).globals.current_stakeable_day@ <= u64::MAX
                    && update_day <= old(self).globals.current_stakeable_day@)
                    ==> r == Err::<(), StakeError>(StakeError::InvalidArgument)
            }),
    {
        let today = self.current_stakeable_day_only(blocktime_ms)?;
        if update_day > 0 && update_day < today {
            if !self.globals.current_stakeable_day.fits_u64() {
                return Err(StakeError::Overflow);
            }
            if update_day > self.globals.current_stakeable_day.as_u64() {
                self.daily_snapshot_point(update_day, pair, guard)
            } else {
                Err(StakeError::InvalidArgument)
            }
        } else {
            Err(StakeError::InvalidArgument)
        }
    }
}
} // verus!
