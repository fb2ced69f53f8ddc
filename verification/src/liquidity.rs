use vstd::prelude::*;

use crate::contract::{read_amount, value_or_zero, StakeableToken};
use crate::dict::RecordKey;
use crate::helper::{days_diff, spec_days_diff};
use crate::ids::spec_generate_id;
use crate::key::Key;
use crate::rewards::inflation_of;
use crate::guard::LiquidityGuard;
use crate::snapshot::{read_snapshot, snapshot_taken, spec_contract_run, spec_guard_status, spec_on_pair, PairReserves};
use crate::timing::spec_day_at;
use crate::types::{
    as_value, minus, opt_add, opt_div, opt_mul, over, plus, times, LiquidityStake, StakeError,
};
use crate::u256::{u256_max, U256};

verus! {

/// `n` days of the liquidity reward: each day adds the staked amount times
/// the precision rate over the inflation.
pub open spec fn spec_liquidity_loop(staked: nat, precision: nat, inflation: nat, n: nat) -> Option<nat>
    decreases n,
{
    if n == 0 {
        Some(0)
    } else {
        opt_add(
            spec_liquidity_loop(staked, precision, inflation, (n - 1) as nat),
            opt_div(opt_mul(Some(staked), Some(precision)), Some(inflation)),
        )
    }
}

/// The day a liquidity stake's reward is counted to: the day the snapshots
/// reached, at most `min_referral_days` after the stake's start.
pub open spec fn spec_liquidity_calculation_day(t: StakeableToken, ls: LiquidityStake) -> nat {
    let max_day = ls.start_day + t.params.min_referral_days;
    if t.globals.current_stakeable_day@ < max_day {
        t.globals.current_stakeable_day@
    } else {
        max_day as nat
    }
}

/// The reward of a liquidity stake: one day's share for each day from its start to
/// its calculation day, by the inflation of the liquidity snapshot of its
/// start day.
pub open spec fn spec_liquidity_reward(t: StakeableToken, ls: LiquidityStake) -> Option<nat> {
    spec_liquidity_loop(
        ls.staked_amount@,
        t.params.precision_rate@,
        inflation_of(t.lsnapshots@, ls.start_day as nat),
        spec_days_diff(ls.start_day as nat, spec_liquidity_calculation_day(t, ls)),
    )
}

/// Once the sum fails, every longer sum fails.
proof fn lemma_liquidity_fails_onward(staked: nat, precision: nat, inflation: nat, k: nat, m: nat)
    requires
        k <= m,
        spec_liquidity_loop(staked, precision, inflation, k) is None,
    ensures
        spec_liquidity_loop(staked, precision, inflation, m) is None,
    decreases m - k,
{
    if k < m {
        lemma_liquidity_fails_onward(staked, precision, inflation, k, (m - 1) as nat);
    }
}

/// When a liquidity stake of `caller` can be created: the guard is on, the
/// pair tokens came in, the contract has launched, and the liquidity shares
/// and the caller's count can grow.
pub open spec fn spec_create_liquidity_ok(t: StakeableToken, caller: Key, tokens: nat, transferred: Result<(), u32>, blocktime_ms: u64) -> bool {
    &&& t.liquidity_guard_status
    &&& transferred is Ok
    &&& spec_day_at(t.launch_time@, blocktime_ms, t.params.seconds_in_day) is Some
    &&& t.globals.liquidity_shares@ + tokens <= u256_max()
    &&& value_or_zero(t.liquidity_stake_count@, caller) + 1 <= u256_max()
}

/// When a liquidity stake of `caller` can be ended: it exists and is active,
/// the contract has launched, its reward can be computed and minted, the pair
/// tokens went back, and the liquidity shares hold its amount.
pub open spec fn spec_end_liquidity_ok(t: StakeableToken, caller: Key, id: Seq<u32>, transferred: Result<(), u32>, blocktime_ms: u64) -> bool {
    let ls = t.liquidity_stakes@[(caller, id)];
    let reward = spec_liquidity_reward(t, ls);
    &&& t.liquidity_stakes@.contains_key((caller, id))
    &&& ls.is_active
    &&& spec_day_at(t.launch_time@, blocktime_ms, t.params.seconds_in_day) is Some
    &&& reward is Some
    &&& t.total_supply@ + reward.unwrap() <= u256_max()
    &&& value_or_zero(t.balances@, caller) + reward.unwrap() <= u256_max()
    &&& transferred is Ok
    &&& ls.staked_amount@ <= t.globals.liquidity_shares@
}

/// The contract after `caller` created the liquidity stake `id` of
/// `tokens_value` pair tokens at a block time: the stake stored, starting the
/// next day, the liquidity shares and the caller's count grown, all else as
/// it was.
pub open spec fn liquidity_stake_created(t: StakeableToken, u: StakeableToken, caller: Key, tokens_value: nat, blocktime_ms: u64, id: Seq<u32>) -> bool {
    let today = spec_day_at(t.launch_time@, blocktime_ms, t.params.seconds_in_day).unwrap();
    let k = (caller, id);
    &&& id == spec_generate_id(caller, value_or_zero(t.liquidity_stake_count@, caller), 3)
    &&& u.liquidity_stakes@ == t.liquidity_stakes@.insert(k, u.liquidity_stakes@[k])
    &&& u.liquidity_stakes@[k].staked_amount@ == tokens_value
    &&& u.liquidity_stakes@[k].reward_amount@ == 0
    &&& u.liquidity_stakes@[k].start_day == today + 1
    &&& u.liquidity_stakes@[k].close_day == 0
    &&& u.liquidity_stakes@[k].is_active
    &&& u.globals.liquidity_shares@ == t.globals.liquidity_shares@ + tokens_value
    &&& u.liquidity_stake_count@ == t.liquidity_stake_count@.insert(caller, u.liquidity_stake_count@[caller])
    &&& u.liquidity_stake_count@[caller]@ == value_or_zero(t.liquidity_stake_count@, caller) + 1
    &&& u == (StakeableToken {
        liquidity_stakes: u.liquidity_stakes,
        liquidity_stake_count: u.liquidity_stake_count,
        globals: u.globals,
        ..t
    })
    &&& u.globals == (crate::types::Globals { liquidity_shares: u.globals.liquidity_shares, ..t.globals })
}

/// The contract after `caller` ended its liquidity stake `id` at a block
/// time with the reward `reward_value`: the stake closed with that reward,
/// the reward minted to the caller, the stake's amount taken off the
/// liquidity shares, all else as it was.
pub open spec fn liquidity_stake_ended(t: StakeableToken, u: StakeableToken, caller: Key, id: Seq<u32>, blocktime_ms: u64, reward_value: nat) -> bool {
    let today = spec_day_at(t.launch_time@, blocktime_ms, t.params.seconds_in_day).unwrap();
    let k = (caller, id);
    let ls = t.liquidity_stakes@[k];
    &&& Some(reward_value) == spec_liquidity_reward(t, ls)
    &&& u.liquidity_stakes@ == t.liquidity_stakes@.insert(k, u.liquidity_stakes@[k])
    &&& u.liquidity_stakes@[k] == (LiquidityStake { is_active: false, close_day: today as u64, reward_amount: u.liquidity_stakes@[k].reward_amount, ..ls })
    &&& u.balances@ == t.balances@.insert(caller, u.balances@[caller])
    &&& u.balances@[caller]@ == value_or_zero(t.balances@, caller) + reward_value
    &&& u.total_supply@ == t.total_supply@ + reward_value
    &&& u.globals.liquidity_shares@ == t.globals.liquidity_shares@ - ls.staked_amount@
    &&& u.globals == (crate::types::Globals { liquidity_shares: u.globals.liquidity_shares, ..t.globals })
    &&& u == (StakeableToken {
        liquidity_stakes: u.liquidity_stakes,
        balances: u.balances,
        total_supply: u.total_supply,
        globals: u.globals,
        ..t
    })
    &&& u.liquidity_stakes@[k].reward_amount@ == reward_value
}

impl StakeableToken {
    /// The reward of a liquidity stake.
    pub fn calculate_liquidity_reward(&self, ls: &LiquidityStake) -> (r: Result<U256, StakeError>)
        ensures
            as_value(r) == spec_liquidity_reward(*self, *ls),
    {
        let start = U256::from_u64(ls.start_day);
        let max_day = plus(start, U256::from_u64(self.params.min_referral_days))?;
        let calc_day = if self.globals.current_stakeable_day.lt(&max_day) {
            self.globals.current_stakeable_day
        } else {
            max_day
        };
        let days = days_diff(start, calc_day);
        assert(days@ <= self.params.min_referral_days);
        let n = days.as_u64();
        assert(n as nat == spec_days_diff(ls.start_day as nat, spec_liquidity_calculation_day(*self, *ls)));
        let snap = read_snapshot(&self.lsnapshots, ls.start_day);
        let ghost infl = inflation_of(self.lsnapshots@, ls.start_day as nat);
        assert(snap.inflation_amount@ == infl);
        let ghost staked = ls.staked_amount@;
        let ghost precision = self.params.precision_rate@;
        let mut reward = U256::zero();
        let mut i: u64 = 0;
        while i < n
            invariant
                0 <= i <= n,
                spec_liquidity_loop(staked, precision, infl, i as nat) == Some(reward@),
                staked == ls.staked_amount@,
                precision == self.params.precision_rate@,
                snap.inflation_amount@ == infl,
                infl == inflation_of(self.lsnapshots@, ls.start_day as nat),
                n as nat == spec_days_diff(ls.start_day as nat, spec_liquidity_calculation_day(*self, *ls)),
            decreases n - i,
        {
            let step = match times(ls.staked_amount, self.params.precision_rate) {
                Ok(a) => match over(a, snap.inflation_amount) {
                    Ok(b) => plus(reward, b),
                    Err(e) => Err(e),
                },
                Err(e) => Err(e),
            };
            match step {
                Ok(v) => {
                    reward = v;
                },
                Err(e) => {
                    proof {
                        assert(spec_liquidity_loop(staked, precision, infl, (i + 1) as nat) is None);
                        lemma_liquidity_fails_onward(staked, precision, infl, (i + 1) as nat, n as nat);
                    }
                    return Err(e);
                },
            }
            i = i + 1;
        }
        Ok(reward)
    }

    /// The liquidity stake of `staker` under an id; refused when there is none.
    pub fn check_liquidity_stake_by_id(&self, staker: Key, liquidity_stake_id: &Vec<u32>) -> (r: Result<LiquidityStake, StakeError>)
        ensures
            r is Ok <==> self.liquidity_stakes@.contains_key((staker, liquidity_stake_id@)),
            r matches Ok(ls) ==> ls == self.liquidity_stakes@[(staker, liquidity_stake_id@)],
            r matches Err(e) ==> e == StakeError::MissingRecord,
    {
        match self.liquidity_stakes.get(&RecordKey::new(staker, liquidity_stake_id)) {
            Some(ls) => Ok(*ls),
            None => Err(StakeError::MissingRecord),
        }
    }

    /// Creates a liquidity stake of `caller` for `tokens` pair tokens, which
    /// the caller moved to the contract (`transferred` is how that went): the
    /// daily snapshots are first taken up to the current day, which sets the
    /// guard by the pair's reserves; then the stake starts the day after the
    /// current day, the liquidity shares grow by its amount and the caller's
    /// count by one. Returns its id. All or nothing: refused, with no change,
    /// before launch, when a snapshot day's arithmetic fails, while the guard
    /// is off after the snapshots, when the tokens did not come, or on
    /// overflow.
    pub fn create_liquidity_stake(
        &mut self,
        caller: Key,
        tokens: U256,
        transferred: Result<(), u32>,
        blocktime_ms: u64,
        pair: &PairReserves,
        guard: &LiquidityGuard,
    ) -> (r: Result<Vec<u32>, StakeError>)
        ensures
            ({
                let today = spec_day_at(old(self).launch_time@, blocktime_ms, old(self).params.seconds_in_day);
                let run_ok = today is Some && spec_contract_run(*old(self), *pair, guard.inflations@, today.unwrap() as u64) is Some;
                let status = spec_guard_status(old(self).liquidity_guard_status, spec_on_pair(*pair, old(self).addresses.scspr), old(self).total_supply@);
                &&& r is Err ==> *final(self) == *old(self)
                &&& r is Ok <==> (run_ok && spec_create_liquidity_ok(
                    StakeableToken { liquidity_guard_status: status, ..*old(self) },
                    caller,
                    tokens@,
                    transferred,
                    blocktime_ms,
                ))
                &&& (run_ok && !status) ==> r == Err::<Vec<u32>, StakeError>(StakeError::LiquidityGuardDisabled)
                &&& (run_ok && status && transferred is Err) ==> r == Err::<Vec<u32>, StakeError>(StakeError::TransferFailed(transferred->Err_0))
                &&& r matches Ok(id) ==> exists|mid: StakeableToken| #[trigger] snapshot_taken(*old(self), mid, *pair, guard.inflations@, today.unwrap() as u64)
                    && liquidity_stake_created(mid, *final(self), caller, tokens@, blocktime_ms, id@)
            }),
    {
        let today = self.current_stakeable_day_only(blocktime_ms)?;
        let ghost t0 = *self;
        let b = self.snapshot_aside(today, pair, guard)?;
        let ghost mid = *self;
        proof {
            reveal(snapshot_taken);
            assert(spec_create_liquidity_ok(mid, caller, tokens@, transferred, blocktime_ms) == spec_create_liquidity_ok(
                StakeableToken {
                    liquidity_guard_status: spec_guard_status(t0.liquidity_guard_status, spec_on_pair(*pair, t0.addresses.scspr), t0.total_supply@),
                    ..t0
                },
                caller,
                tokens@,
                transferred,
                blocktime_ms,
            ));
        }
        match self.open_liquidity_stake(caller, tokens, transferred, blocktime_ms) {
            Ok(id) => {
                proof {
                    assert(spec_day_at(mid.launch_time@, blocktime_ms, mid.params.seconds_in_day)
                        == spec_day_at(t0.launch_time@, blocktime_ms, t0.params.seconds_in_day));
                }
                Ok(id)
            },
            Err(e) => {
                self.put_back(b);
                assert(*self == t0);
                Err(e)
            },
        }
    }

    /// Creates the liquidity stake once the snapshots are up to date.
    fn open_liquidity_stake(&mut self, caller: Key, tokens: U256, transferred: Result<(), u32>, blocktime_ms: u64) -> (r: Result<Vec<u32>, StakeError>)
        ensures
            r is Ok <==> spec_create_liquidity_ok(*old(self), caller, tokens@, transferred, blocktime_ms),
            r is Err ==> *final(self) == *old(self),
            !old(self).liquidity_guard_status ==> r == Err::<Vec<u32>, StakeError>(StakeError::LiquidityGuardDisabled),
            (old(self).liquidity_guard_status && transferred is Err) ==> r == Err::<Vec<u32>, StakeError>(StakeError::TransferFailed(transferred->Err_0)),
            r matches Ok(id) ==> liquidity_stake_created(*old(self), *final(self), caller, tokens@, blocktime_ms, id@),
    {
        if !self.liquidity_guard_status {
            return Err(StakeError::LiquidityGuardDisabled);
        }
        if let Err(code) = transferred {
            return Err(StakeError::TransferFailed(code));
        }
        let id = self.generate_liquidity_stake_id(&caller);
        let start = self.next_stakeable_day(blocktime_ms)?;
        let shares = plus(self.globals.liquidity_shares, tokens)?;
        let count = plus(read_amount(&self.liquidity_stake_count, &caller), U256::from_u64(1))?;
        let ls = LiquidityStake {
            staked_amount: tokens,
            reward_amount: U256::zero(),
            start_day: start,
            close_day: 0,
            is_active: true,
        };
        self.globals.liquidity_shares = shares;
        self.liquidity_stakes.set(RecordKey::new(caller, &id), ls);
        self.liquidity_stake_count.set(caller, count);
        Ok(id)
    }

    /// Ends a liquidity stake of `caller` on the current day: closes it with
    /// its reward, mints the reward to the caller, and takes its amount off
    /// the liquidity shares; the pair tokens went back to the caller
    /// (`transferred` is how that went). Returns the reward. All or nothing:
    /// refused with no change otherwise.
    pub fn end_liquidity_stake(&mut self, caller: Key, liquidity_stake_id: &Vec<u32>, transferred: Result<(), u32>, blocktime_ms: u64) -> (r: Result<U256, StakeError>)
        ensures
            r is Ok <==> spec_end_liquidity_ok(*old(self), caller, liquidity_stake_id@, transferred, blocktime_ms),
            r is Err ==> *final(self) == *old(self),
            !old(self).liquidity_stakes@.contains_key((caller, liquidity_stake_id@))
                ==> r == Err::<U256, StakeError>(StakeError::MissingRecord),
            (old(self).liquidity_stakes@.contains_key((caller, liquidity_stake_id@))
                && !old(self).liquidity_stakes@[(caller, liquidity_stake_id@)].is_active)
                ==> r == Err::<U256, StakeError>(StakeError::StakeInactive),
            r matches Ok(reward) ==> liquidity_stake_ended(*old(self), *final(self), caller, liquidity_stake_id@, blocktime_ms, reward@),
    {
        let key = RecordKey::new(caller, liquidity_stake_id);
        let ls0 = match self.liquidity_stakes.get(&key) {
            Some(ls) => *ls,
            None => return Err(StakeError::MissingRecord),
        };
        if !ls0.is_active {
            return Err(StakeError::StakeInactive);
        }
        let today = self.current_stakeable_day_only(blocktime_ms)?;
        let reward = self.calculate_liquidity_reward(&ls0)?;
        let bal = read_amount(&self.balances, &caller);
        let _ = plus(bal, reward)?;
        let _ = plus(self.total_supply, reward)?;
        if let Err(code) = transferred {
            return Err(StakeError::TransferFailed(code));
        }
        let shares = minus(self.globals.liquidity_shares, ls0.staked_amount)?;
        let ls = LiquidityStake { is_active: false, close_day: today, reward_amount: reward, ..ls0 };
        let minted = self.mint(&caller, reward);
        assert(minted is Ok);
        self.globals.liquidity_shares = shares;
        self.liquidity_stakes.set(key, ls);
        Ok(reward)
    }
}

} // verus!
