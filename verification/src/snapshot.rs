use vstd::prelude::*;

use crate::contract::{read_amount, value_or_zero, StakeableToken};
use crate::guard::LiquidityGuard;
use crate::key::Key;
use crate::types::{
    as_value, minus, opt_add, opt_div, opt_mul, opt_sub, over, plus, sat_sub, saturating_sub,
    times, ConstantParameters, Snapshot, StakeError,
};
use crate::u256::{u256_max, U256};

verus! {

/// What the liquidity pair reports: its two reserves and its second token.
#[derive(Clone, Copy, Debug)]
pub struct PairReserves {
    pub reserve_a: u128,
    pub reserve_b: u128,
    pub token1: Key,
}

/// The inflation base of a day: stake and supply, times 10000, over the
/// rate, plus the day's penalties.
pub open spec fn spec_inflation_amount(staked: nat, supply: nat, penalties: nat, rate: Option<nat>) -> Option<nat> {
    opt_add(opt_div(opt_mul(opt_add(Some(staked), Some(supply)), Some(10000)), rate), Some(penalties))
}

/// The inflation base of referral rewards.
pub open spec fn spec_referral_inflation(staked: nat, supply: nat, referrals_rate: nat) -> Option<nat> {
    opt_div(opt_mul(opt_add(Some(staked), Some(supply)), Some(10000)), Some(referrals_rate))
}

/// The inflation base of liquidity rewards.
pub open spec fn spec_liquidity_inflation(staked: nat, supply: nat, rate: Option<nat>) -> Option<nat> {
    opt_div(opt_mul(opt_add(Some(staked), Some(supply)), Some(10000)), rate)
}

/// The rates after one daily adjustment: with the guard on and the liquidity
/// rate below the maximum, six move from inflation to liquidity; with the guard
/// off and the inflation rate below the maximum, six move back.
pub open spec fn spec_adjust_rates(status: bool, inflation: nat, liquidity: nat, max: nat) -> Option<(nat, nat)> {
    if status && liquidity < max {
        match (opt_add(Some(liquidity), Some(6)), opt_sub(Some(inflation), Some(6))) {
            (Some(l), Some(i)) => Some((i, l)),
            _ => None,
        }
    } else if !status && inflation < max {
        match (opt_add(Some(inflation), Some(6)), opt_sub(Some(liquidity), Some(6))) {
            (Some(i), Some(l)) => Some((i, l)),
            _ => None,
        }
    } else {
        Some((inflation, liquidity))
    }
}

/// The guard status after looking at the pair: on below a ratio of 40, off above 60.
pub open spec fn spec_guard_status(status: bool, on_pair: nat, supply: nat) -> bool {
    let ratio = if supply == 0 { 0 } else { on_pair * 200 / supply };
    if ratio < 40 && !status {
        true
    } else if ratio > 60 && status {
        false
    } else {
        status
    }
}

/// The pair's reserve of the stakeable token: the first reserve when the
/// synthetic token is the pair's second token.
pub open spec fn spec_on_pair(pair: PairReserves, scspr: Key) -> nat {
    if pair.token1 == scspr {
        pair.reserve_a as nat
    } else {
        pair.reserve_b as nat
    }
}

/// What a daily snapshot reads, fixed for the whole run.
pub struct SnapshotInputs {
    pub params: ConstantParameters,
    pub scheduled_to_end: Map<u64, U256>,
    pub referral_shares_to_end: Map<u64, U256>,
    pub total_penalties: Map<u64, U256>,
    pub guard: Map<u64, U256>,
    pub total_shares: nat,
    pub referral_shares: nat,
    pub liquidity_shares: nat,
    pub total_staked: nat,
    pub total_supply: nat,
    pub status: bool,
}

/// The three snapshots of one day and the rates after it.
pub struct DayRecord {
    pub scheduled: nat,
    pub total_shares: nat,
    pub inflation_amount: nat,
    pub r_total_shares: nat,
    pub r_inflation_amount: nat,
    pub l_total_shares: nat,
    pub l_inflation_amount: nat,
    pub inflation_rate: nat,
    pub liquidity_rate: nat,
}

/// The guard's inflation for a liquidity rate; `None` when the rate does not
/// fit in a `u64`.
pub open spec fn spec_guard_value(guard: Map<u64, U256>, rate: nat) -> Option<nat> {
    if rate <= u64::MAX {
        Some(value_or_zero(guard, rate as u64))
    } else {
        None
    }
}

/// The snapshots of `day`, given what ended before it and the rates in force.
#[verifier::opaque]
pub open spec fn spec_day_record(
    c: SnapshotInputs,
    day: u64,
    prev_scheduled: nat,
    prev_r_scheduled: nat,
    inflation: nat,
    liquidity: nat,
) -> Option<DayRecord> {
    let sched = opt_add(Some(value_or_zero(c.scheduled_to_end, day)), Some(prev_scheduled));
    let rsched = opt_add(Some(value_or_zero(c.referral_shares_to_end, day)), Some(prev_r_scheduled));
    let g = spec_guard_value(c.guard, liquidity);
    match (sched, rsched) {
        (Some(s), Some(rs)) => {
            let total = sat_sub(c.total_shares, s);
            let infl = opt_div(
                opt_mul(Some(total), Some(c.params.precision_rate@)),
                spec_inflation_amount(c.total_staked, c.total_supply, value_or_zero(c.total_penalties, day), g),
            );
            let rtotal = sat_sub(c.referral_shares, rs);
            let rinfl = opt_div(
                opt_mul(Some(rtotal), Some(c.params.precision_rate@)),
                spec_referral_inflation(c.total_staked, c.total_supply, c.params.referrals_rate@),
            );
            let linfl = opt_div(
                opt_mul(Some(c.liquidity_shares), Some(c.params.precision_rate@)),
                spec_liquidity_inflation(c.total_staked, c.total_supply, g),
            );
            let rates = spec_adjust_rates(c.status, inflation, liquidity, c.params.inflation_rate_max@);
            match (infl, rinfl, linfl, rates) {
                (Some(i), Some(ri), Some(li), Some((ni, nl))) => Some(DayRecord {
                    scheduled: s,
                    total_shares: total,
                    inflation_amount: i,
                    r_total_shares: rtotal,
                    r_inflation_amount: ri,
                    l_total_shares: c.liquidity_shares,
                    l_inflation_amount: li,
                    inflation_rate: ni,
                    liquidity_rate: nl,
                }),
                _ => None,
            }
        },
        _ => None,
    }
}

/// The records of `k` days of snapshots from `start`: each day's scheduled
/// shares carry over from the day before (from the stored day before `start`
/// for the first), and each day's rates are those left by the day before.
#[verifier::opaque]
pub open spec fn spec_snapshot_run(
    c: SnapshotInputs,
    start: u64,
    first_prev: nat,
    first_prev_r: nat,
    inflation: nat,
    liquidity: nat,
    k: nat,
) -> Option<Seq<DayRecord>>
    decreases k,
{
    if k == 0 {
        Some(Seq::empty())
    } else {
        match spec_snapshot_run(c, start, first_prev, first_prev_r, inflation, liquidity, (k - 1) as nat) {
            Some(rs) => {
                let (ps, pr, pi, pl) = if k == 1 {
                    (first_prev, first_prev_r, inflation, liquidity)
                } else {
                    (rs.last().scheduled, 0, rs.last().inflation_rate, rs.last().liquidity_rate)
                };
                if start + k - 1 <= u64::MAX {
                    match spec_day_record(c, (start + k - 1) as u64, ps, pr, pi, pl) {
                        Some(rec) => Some(rs.push(rec)),
                        None => None,
                    }
                } else {
                    None
                }
            },
            None => None,
        }
    }
}

/// Whether a stored snapshot holds a day's record of the given kind.
pub open spec fn snapshot_holds(s: Snapshot, scheduled: nat, total: nat, inflation: nat) -> bool {
    &&& s.scheduled_to_end@ == scheduled
    &&& s.total_shares@ == total
    &&& s.inflation_amount@ == inflation
}

/// The inflation base of a day.
pub fn inflation_amount(staked: U256, supply: U256, penalties: U256, rate: U256) -> (r: Result<U256, StakeError>)
    ensures
        as_value(r) == spec_inflation_amount(staked@, supply@, penalties@, Some(rate@)),
{
    let sum = plus(staked, supply)?;
    let scaled = times(sum, U256::from_u64(10000))?;
    let base = over(scaled, rate)?;
    plus(base, penalties)
}

/// The inflation base of referral rewards.
pub fn referral_inflation(p: &ConstantParameters, staked: U256, supply: U256) -> (r: Result<U256, StakeError>)
    ensures
        as_value(r) == spec_referral_inflation(staked@, supply@, p.referrals_rate@),
{
    let sum = plus(staked, supply)?;
    let scaled = times(sum, U256::from_u64(10000))?;
    over(scaled, p.referrals_rate)
}

/// The inflation base of liquidity rewards.
pub fn liquidity_inflation(staked: U256, supply: U256, rate: U256) -> (r: Result<U256, StakeError>)
    ensures
        as_value(r) == spec_liquidity_inflation(staked@, supply@, Some(rate@)),
{
    let sum = plus(staked, supply)?;
    let scaled = times(sum, U256::from_u64(10000))?;
    over(scaled, rate)
}

/// The rates after one daily adjustment.
pub fn adjusted_rates(status: bool, inflation: U256, liquidity: U256, max: U256) -> (r: Result<(U256, U256), StakeError>)
    ensures
        r matches Ok((i, l)) ==> spec_adjust_rates(status, inflation@, liquidity@, max@) == Some((i@, l@)),
        r is Err <==> spec_adjust_rates(status, inflation@, liquidity@, max@) is None,
{
    if status && liquidity.lt(&max) {
        let l = plus(liquidity, U256::from_u64(6))?;
        let i = minus(inflation, U256::from_u64(6))?;
        Ok((i, l))
    } else if !status && inflation.lt(&max) {
        let i = plus(inflation, U256::from_u64(6))?;
        let l = minus(liquidity, U256::from_u64(6))?;
        Ok((i, l))
    } else {
        Ok((inflation, liquidity))
    }
}

/// Law: a daily adjustment keeps the sum of the two rates.
pub proof fn law_adjust_keeps_rate_sum(status: bool, inflation: nat, liquidity: nat, max: nat)
    requires
        spec_adjust_rates(status, inflation, liquidity, max) is Some,
    ensures
        ({
            let (i, l) = spec_adjust_rates(status, inflation, liquidity, max).unwrap();
            i + l == inflation + liquidity
        }),
{
}

/// Law: a daily adjustment moves the rates by six at most, toward liquidity
/// while the guard is on and toward inflation while it is off.
pub proof fn law_adjust_direction(status: bool, inflation: nat, liquidity: nat, max: nat)
    requires
        spec_adjust_rates(status, inflation, liquidity, max) is Some,
    ensures
        ({
            let (i, l) = spec_adjust_rates(status, inflation, liquidity, max).unwrap();
            &&& status ==> l >= liquidity && l <= liquidity + 6
            &&& !status ==> i >= inflation && i <= inflation + 6
        }),
{
}

/// The guard status after looking at the pair.
pub fn guard_status(status: bool, on_pair: u128, supply: U256) -> (r: bool)
    ensures
        r == spec_guard_status(status, on_pair as nat, supply@),
{
    let ratio: U256 = if supply.is_zero() {
        U256::zero()
    } else {
        let on = U256::from_u128(on_pair);
        assert(on@ * 200 <= u256_max()) by (nonlinear_arith)
            requires on@ <= u128::MAX, u256_max() == 0x1_0000_0000_0000_0000_0000_0000_0000_0000_0000_0000_0000_0000_0000_0000_0000_0000_0000_0000_0000_0000nat - 1;
        match times(on, U256::from_u64(200)) {
            Ok(scaled) => match over(scaled, supply) {
                Ok(v) => v,
                Err(_) => U256::zero(),
            },
            Err(_) => U256::zero(),
        }
    };
    if ratio.lt(&U256::from_u64(40)) && !status {
        true
    } else if ratio.gt(&U256::from_u64(60)) && status {
        false
    } else {
        status
    }
}

impl StakeableToken {
    /// Switches the liquidity guard by the pair's share of the supply: on when
    /// the pair holds less than 20% of it, off above 30%.
    pub fn liquidity_guard_trigger(&mut self, pair: &PairReserves)
        ensures
            final(self).liquidity_guard_status == spec_guard_status(
                old(self).liquidity_guard_status,
                spec_on_pair(*pair, old(self).addresses.scspr),
                old(self).total_supply@,
            ),
            *final(self) == (StakeableToken { liquidity_guard_status: final(self).liquidity_guard_status, ..*old(self) }),
    {
        let on_pair: u128 = if pair.token1.same(&self.addresses.scspr) {
            pair.reserve_a
        } else {
            pair.reserve_b
        };
        self.liquidity_guard_status = guard_status(self.liquidity_guard_status, on_pair, self.total_supply);
    }

    /// Moves six from one rate to the other, by the guard status.
    pub fn adjust_liquidity_rates(&mut self) -> (r: Result<(), StakeError>)
        ensures
            r is Err <==> spec_adjust_rates(
                old(self).liquidity_guard_status,
                old(self).inflation_rate@,
                old(self).liquidity_rate@,
                old(self).params.inflation_rate_max@,
            ) is None,
            r is Ok ==> spec_adjust_rates(
                old(self).liquidity_guard_status,
                old(self).inflation_rate@,
                old(self).liquidity_rate@,
                old(self).params.inflation_rate_max@,
            ) == Some((final(self).inflation_rate@, final(self).liquidity_rate@)),
            r is Err ==> *final(self) == *old(self),
            *final(self) == (StakeableToken { inflation_rate: final(self).inflation_rate, liquidity_rate: final(self).liquidity_rate, ..*old(self) }),
    {
        let (i, l) = adjusted_rates(
            self.liquidity_guard_status,
            self.inflation_rate,
            self.liquidity_rate,
            self.params.inflation_rate_max,
        )?;
        self.inflation_rate = i;
        self.liquidity_rate = l;
        Ok(())
    }
}


/// The day before `day`, wrapping around at zero.
pub open spec fn spec_prev_day(day: u64) -> u64 {
    if day == 0 {
        u64::MAX
    } else {
        (day - 1) as u64
    }
}

/// The scheduled shares a stored snapshot carries, zero when none is stored.
pub open spec fn stored_scheduled(m: Map<u64, Snapshot>, day: u64) -> nat {
    if m.contains_key(day) {
        m[day].scheduled_to_end@
    } else {
        0
    }
}

/// The number of days a run from `start` to `update_day` covers.
pub open spec fn spec_run_days(start: nat, update_day: u64) -> nat {
    if update_day > start {
        (update_day - start) as nat
    } else {
        0
    }
}

/// The inputs of a snapshot run of the contract, with the guard status it
/// runs under.
pub open spec fn spec_inputs(t: StakeableToken, guard: Map<u64, U256>, status: bool) -> SnapshotInputs {
    SnapshotInputs {
        params: t.params,
        scheduled_to_end: t.scheduled_to_end@,
        referral_shares_to_end: t.referral_shares_to_end@,
        total_penalties: t.total_penalties@,
        guard,
        total_shares: t.globals.total_shares@,
        referral_shares: t.globals.referral_shares@,
        liquidity_shares: t.globals.liquidity_shares@,
        total_staked: t.globals.total_staked@,
        total_supply: t.total_supply@,
        status,
    }
}

/// The snapshot run of the contract from its current day to `update_day`,
/// after the guard has looked at the pair.
pub open spec fn spec_contract_run(t: StakeableToken, pair: PairReserves, guard: Map<u64, U256>, update_day: u64) -> Option<Seq<DayRecord>> {
    let start = t.globals.current_stakeable_day@;
    let status = spec_guard_status(t.liquidity_guard_status, spec_on_pair(pair, t.addresses.scspr), t.total_supply@);
    if start <= u64::MAX {
        spec_snapshot_run(
            spec_inputs(t, guard, status),
            start as u64,
            stored_scheduled(t.snapshots@, spec_prev_day(start as u64)),
            stored_scheduled(t.rsnapshots@, spec_prev_day(start as u64)),
            t.inflation_rate@,
            t.liquidity_rate@,
            spec_run_days(start, update_day),
        )
    } else {
        None
    }
}

/// Once a run fails, every longer run fails.
pub proof fn lemma_run_fails_onward(
    c: SnapshotInputs,
    start: u64,
    fp: nat,
    fpr: nat,
    i: nat,
    l: nat,
    k: nat,
    m: nat,
)
    requires
        k <= m,
        spec_snapshot_run(c, start, fp, fpr, i, l, k) is None,
    ensures
        spec_snapshot_run(c, start, fp, fpr, i, l, m) is None,
    decreases m - k,
{
    reveal(spec_snapshot_run);
    if k < m {
        lemma_run_fails_onward(c, start, fp, fpr, i, l, k, (m - 1) as nat);
    }
}

/// A run's records have one entry per day.
pub proof fn lemma_run_len(c: SnapshotInputs, start: u64, fp: nat, fpr: nat, i: nat, l: nat, k: nat)
    requires
        spec_snapshot_run(c, start, fp, fpr, i, l, k) is Some,
    ensures
        spec_snapshot_run(c, start, fp, fpr, i, l, k).unwrap().len() == k,
    decreases k,
{
    reveal(spec_snapshot_run);
    if k > 0 {
        lemma_run_len(c, start, fp, fpr, i, l, (k - 1) as nat);
    }
}

/// The three snapshots computed for one day.
#[derive(Clone, Copy, Debug)]
pub struct DaySnapshots {
    pub day: u64,
    pub snapshot: Snapshot,
    pub rsnapshot: Snapshot,
    pub lsnapshot: Snapshot,
}

/// Whether computed snapshots hold a day's record.
pub open spec fn day_holds(d: DaySnapshots, day: nat, rec: DayRecord) -> bool {
    &&& d.day == day
    &&& snapshot_holds(d.snapshot, rec.scheduled, rec.total_shares, rec.inflation_amount)
    &&& snapshot_holds(d.rsnapshot, 0, rec.r_total_shares, rec.r_inflation_amount)
    &&& snapshot_holds(d.lsnapshot, 0, rec.l_total_shares, rec.l_inflation_amount)
}

/// Reads a stored snapshot, the all-zero snapshot when none is stored.
pub fn read_snapshot(d: &crate::dict::Dict<u64, Snapshot>, day: u64) -> (r: Snapshot)
    ensures
        d@.contains_key(day) ==> r == d@[day],
        !d@.contains_key(day) ==> r.total_shares@ == 0 && r.inflation_amount@ == 0 && r.scheduled_to_end@ == 0,
        r.scheduled_to_end@ == stored_scheduled(d@, day),
{
    match d.get(&day) {
        Some(s) => *s,
        None => Snapshot::new(),
    }
}

/// The day before `day`, wrapping around at zero.
pub fn prev_day(day: u64) -> (r: u64)
    ensures
        r == spec_prev_day(day),
{
    if day == 0 {
        u64::MAX
    } else {
        day - 1
    }
}

/// The snapshots of one day, and the rates after it.
pub fn compute_day(
    c: Ghost<SnapshotInputs>,
    p: &ConstantParameters,
    scheduled_today: U256,
    r_scheduled_today: U256,
    penalties_today: U256,
    guard: &LiquidityGuard,
    totals: (U256, U256, U256),
    staked_today: U256,
    supply: U256,
    status: bool,
    day: u64,
    prev_scheduled: U256,
    prev_r_scheduled: U256,
    inflation: U256,
    liquidity: U256,
) -> (r: Result<(DaySnapshots, U256, U256), StakeError>)
    requires
        c@.params == *p,
        c@.guard == guard.inflations@,
        scheduled_today@ == value_or_zero(c@.scheduled_to_end, day),
        r_scheduled_today@ == value_or_zero(c@.referral_shares_to_end, day),
        penalties_today@ == value_or_zero(c@.total_penalties, day),
        totals.0@ == c@.total_shares,
        totals.1@ == c@.referral_shares,
        totals.2@ == c@.liquidity_shares,
        staked_today@ == c@.total_staked,
        supply@ == c@.total_supply,
        status == c@.status,
    ensures
        r is Err <==> spec_day_record(c@, day, prev_scheduled@, prev_r_scheduled@, inflation@, liquidity@) is None,
        r matches Ok((d, i, l)) ==> ({
            let rec = spec_day_record(c@, day, prev_scheduled@, prev_r_scheduled@, inflation@, liquidity@).unwrap();
            &&& day_holds(d, day as nat, rec)
            &&& i@ == rec.inflation_rate
            &&& l@ == rec.liquidity_rate
        }),
{
    reveal(spec_day_record);
    let sched = plus(scheduled_today, prev_scheduled)?;
    let rsched = plus(r_scheduled_today, prev_r_scheduled)?;
    if !liquidity.fits_u64() {
        return Err(StakeError::Overflow);
    }
    let g = guard.get_inflation(liquidity.as_u64());
    let total = saturating_sub(totals.0, sched);
    let scaled = times(total, p.precision_rate)?;
    let base = inflation_amount(staked_today, supply, penalties_today, g)?;
    let infl = over(scaled, base)?;
    let rtotal = saturating_sub(totals.1, rsched);
    let rscaled = times(rtotal, p.precision_rate)?;
    let rbase = referral_inflation(p, staked_today, supply)?;
    let rinfl = over(rscaled, rbase)?;
    let lscaled = times(totals.2, p.precision_rate)?;
    let lbase = liquidity_inflation(staked_today, supply, g)?;
    let linfl = over(lscaled, lbase)?;
    let (ni, nl) = adjusted_rates(status, inflation, liquidity, p.inflation_rate_max)?;
    let d = DaySnapshots {
        day,
        snapshot: Snapshot { total_shares: total, inflation_amount: infl, scheduled_to_end: sched },
        rsnapshot: Snapshot { total_shares: rtotal, inflation_amount: rinfl, scheduled_to_end: U256::zero() },
        lsnapshot: Snapshot { total_shares: totals.2, inflation_amount: linfl, scheduled_to_end: U256::zero() },
    };
    Ok((d, ni, nl))
}


/// Whether a dictionary of snapshots, after a run from `start`, holds the
/// run's snapshots on its days and is unchanged on all other days.
pub open spec fn run_stored(
    old_m: Map<u64, Snapshot>,
    new_m: Map<u64, Snapshot>,
    start: nat,
    recs: Seq<DayRecord>,
    kind: int,
) -> bool {
    &&& forall|d: u64|
        #![trigger new_m.contains_key(d)]
        start <= d < start + recs.len() ==> new_m.contains_key(d) && (if kind == 0 {
            snapshot_holds(
                new_m[d],
                recs[d - start].scheduled,
                recs[d - start].total_shares,
                recs[d - start].inflation_amount,
            )
        } else if kind == 1 {
            snapshot_holds(new_m[d], 0, recs[d - start].r_total_shares, recs[d - start].r_inflation_amount)
        } else {
            snapshot_holds(new_m[d], 0, recs[d - start].l_total_shares, recs[d - start].l_inflation_amount)
        })
    &&& forall|d: u64|
        #![trigger new_m.contains_key(d)]
        !(start <= d < start + recs.len()) ==> (new_m.contains_key(d) == old_m.contains_key(d) && (
        old_m.contains_key(d) ==> new_m[d] == old_m[d]))
}

/// The contract after the daily snapshots up to `update_day` were taken: the
/// run's snapshots stored on its days, every other day unchanged, the guard
/// status set by the pair, the current day moved on by the run's length, the
/// rates those the run left, and all else as it was.
#[verifier::opaque]
pub open spec fn snapshot_taken(t: StakeableToken, u: StakeableToken, pair: PairReserves, guard: Map<u64, U256>, update_day: u64) -> bool {
    let recs = spec_contract_run(t, pair, guard, update_day).unwrap();
    let start = t.globals.current_stakeable_day@;
    &&& spec_contract_run(t, pair, guard, update_day) is Some
    &&& recs.len() == spec_run_days(start, update_day)
    &&& run_stored(t.snapshots@, u.snapshots@, start, recs, 0)
    &&& run_stored(t.rsnapshots@, u.rsnapshots@, start, recs, 1)
    &&& run_stored(t.lsnapshots@, u.lsnapshots@, start, recs, 2)
    &&& u.liquidity_guard_status == spec_guard_status(t.liquidity_guard_status, spec_on_pair(pair, t.addresses.scspr), t.total_supply@)
    &&& u.globals.current_stakeable_day@ == start + recs.len()
    &&& (recs.len() == 0 ==> u.inflation_rate == t.inflation_rate && u.liquidity_rate == t.liquidity_rate)
    &&& (recs.len() > 0 ==> u.inflation_rate@ == recs.last().inflation_rate && u.liquidity_rate@ == recs.last().liquidity_rate)
    &&& u.globals.total_staked == t.globals.total_staked
    &&& u.globals.total_shares == t.globals.total_shares
    &&& u.globals.share_price == t.globals.share_price
    &&& u.globals.referral_shares == t.globals.referral_shares
    &&& u.globals.liquidity_shares == t.globals.liquidity_shares
    &&& u.params == t.params
    &&& u.addresses == t.addresses
    &&& u.launch_time == t.launch_time
    &&& u.total_supply == t.total_supply
    &&& u.balances == t.balances
    &&& u.stakes == t.stakes
    &&& u.scheduled_to_end == t.scheduled_to_end
    &&& u.referral_shares_to_end == t.referral_shares_to_end
    &&& u.total_penalties == t.total_penalties
    &&& u.critical_mass == t.critical_mass
    &&& u.referrer_links == t.referrer_links
    &&& u.liquidity_stakes == t.liquidity_stakes
    &&& u.scrapes == t.scrapes
    &&& u.stake_count == t.stake_count
    &&& u.referral_count == t.referral_count
    &&& u.liquidity_stake_count == t.liquidity_stake_count
    &&& u.lt_balance == t.lt_balance
    &&& u.transformer_gate_keeper == t.transformer_gate_keeper
    &&& u.liquidity_transformer == t.liquidity_transformer
    &&& u.liquidity_transformer_purse == t.liquidity_transformer_purse
    &&& u.stable_usd_equivalent == t.stable_usd_equivalent
    &&& u.uniswap_pair == t.uniswap_pair
}

/// The snapshot of a kind among a day's three.
pub open spec fn spec_pick(d: DaySnapshots, kind: u8) -> Snapshot {
    if kind == 0 {
        d.snapshot
    } else if kind == 1 {
        d.rsnapshot
    } else {
        d.lsnapshot
    }
}

/// The snapshot of a kind among a day's three.
pub fn pick(d: &DaySnapshots, kind: u8) -> (r: Snapshot)
    ensures
        r == spec_pick(*d, kind),
{
    if kind == 0 {
        d.snapshot
    } else if kind == 1 {
        d.rsnapshot
    } else {
        d.lsnapshot
    }
}

/// Stores one kind of a run's snapshots under their days.
pub fn store_run(m: &mut crate::dict::Dict<u64, Snapshot>, out: &Vec<DaySnapshots>, kind: u8, start: u64)
    requires
        forall|q: int| 0 <= q < out.len() ==> (#[trigger] out@[q]).day == start + q,
    ensures
        forall|d: u64|
            #![trigger final(m)@.contains_key(d)]
            start <= d < start + out.len() ==> final(m)@.contains_key(d) && final(m)@[d] == spec_pick(out@[d - start], kind),
        forall|d: u64|
            #![trigger final(m)@.contains_key(d)]
            !(start <= d < start + out.len()) ==> (final(m)@.contains_key(d) == old(m)@.contains_key(d)
                && (old(m)@.contains_key(d) ==> final(m)@[d] == old(m)@[d])),
{
    let ghost m0 = m@;
    let mut j: usize = 0;
    while j < out.len()
        invariant
            0 <= j <= out.len(),
            forall|q: int| 0 <= q < out.len() ==> (#[trigger] out@[q]).day == start + q,
            forall|d: u64|
                #![trigger m@.contains_key(d)]
                start <= d < start + j ==> m@.contains_key(d) && m@[d] == spec_pick(out@[d - start], kind),
            forall|d: u64|
                #![trigger m@.contains_key(d)]
                !(start <= d < start + j) ==> (m@.contains_key(d) == m0.contains_key(d)
                    && (m0.contains_key(d) ==> m@[d] == m0[d])),
        decreases out.len() - j,
    {
        let d = out[j];
        assert(out@[j as int].day == start + j);
        m.set(d.day, pick(&d, kind));
        j = j + 1;
    }
}

/// What `store_run` leaves, for a run whose snapshots hold its records, is
/// the run stored.
pub proof fn lemma_stored_run(
    old_m: Map<u64, Snapshot>,
    new_m: Map<u64, Snapshot>,
    start: u64,
    out: Seq<DaySnapshots>,
    recs: Seq<DayRecord>,
    kind: u8,
)
    requires
        out.len() == recs.len(),
        forall|q: int| 0 <= q < out.len() ==> day_holds(#[trigger] out[q], (start + q) as nat, recs[q]),
        forall|d: u64|
            #![trigger new_m.contains_key(d)]
            start <= d < start + out.len() ==> new_m.contains_key(d) && new_m[d] == spec_pick(out[d - start], kind),
        forall|d: u64|
            #![trigger new_m.contains_key(d)]
            !(start <= d < start + out.len()) ==> (new_m.contains_key(d) == old_m.contains_key(d)
                && (old_m.contains_key(d) ==> new_m[d] == old_m[d])),
    ensures
        run_stored(old_m, new_m, start as nat, recs, kind as int),
{
    assert forall|d: u64|
        #![trigger new_m.contains_key(d)]
        start <= d < start + recs.len() implies new_m.contains_key(d) && (if kind == 0 {
            snapshot_holds(new_m[d], recs[d - start].scheduled, recs[d - start].total_shares, recs[d - start].inflation_amount)
        } else if kind == 1 {
            snapshot_holds(new_m[d], 0, recs[d - start].r_total_shares, recs[d - start].r_inflation_amount)
        } else {
            snapshot_holds(new_m[d], 0, recs[d - start].l_total_shares, recs[d - start].l_inflation_amount)
        }) by {
        let q: int = d - start;
        assert(0 <= q < out.len());
        assert(new_m.contains_key(d));
        assert(day_holds(out[q], (start + q) as nat, recs[q]));
        assert(new_m[d] == spec_pick(out[q], kind));
        if kind == 0 {
            assert(new_m[d] == out[q].snapshot);
        } else if kind == 1 {
            assert(new_m[d] == out[q].rsnapshot);
        } else {
            assert(new_m[d] == out[q].lsnapshot);
        }
    }
}

/// Whether `r` is what a run computes: refused exactly when the run fails,
/// else the run's snapshots, one per day, and the rates the last day left
/// (those in force when there are no days).
#[verifier::opaque]
pub open spec fn run_result_holds(
    run: Option<Seq<DayRecord>>,
    n: nat,
    start: u64,
    inflation: U256,
    liquidity: U256,
    r: Result<(Vec<DaySnapshots>, U256, U256), StakeError>,
) -> bool {
    &&& r is Ok <==> run is Some
    &&& r matches Ok((out, i, l)) ==> {
        let recs = run.unwrap();
        &&& out.len() == recs.len()
        &&& recs.len() == n
        &&& forall|q: int| 0 <= q < out.len() ==> day_holds(#[trigger] out@[q], (start + q) as nat, recs[q])
        &&& (recs.len() == 0 ==> i == inflation && l == liquidity)
        &&& (recs.len() > 0 ==> i@ == recs.last().inflation_rate && l@ == recs.last().liquidity_rate)
    }
}

/// A failed run is answered by a refusal.
proof fn lemma_result_refused(run: Option<Seq<DayRecord>>, n: nat, start: u64, inflation: U256, liquidity: U256, e: StakeError)
    requires
        run is None,
    ensures
        run_result_holds(run, n, start, inflation, liquidity, Err(e)),
{
    reveal(run_result_holds);
}

/// A run that went through is answered by its snapshots and the rates after it.
proof fn lemma_result_computed(
    run: Option<Seq<DayRecord>>,
    n: nat,
    start: u64,
    inflation: U256,
    liquidity: U256,
    out: Vec<DaySnapshots>,
    i: U256,
    l: U256,
)
    requires
        run is Some,
        out.len() == run.unwrap().len(),
        run.unwrap().len() == n,
        forall|q: int| 0 <= q < out.len() ==> day_holds(#[trigger] out@[q], (start + q) as nat, run.unwrap()[q]),
        run.unwrap().len() == 0 ==> i == inflation && l == liquidity,
        run.unwrap().len() > 0 ==> i@ == run.unwrap().last().inflation_rate && l@ == run.unwrap().last().liquidity_rate,
    ensures
        run_result_holds(run, n, start, inflation, liquidity, Ok((out, i, l))),
{
    reveal(run_result_holds);
}

/// One more day of a run: the run so far with that day's record pushed, or
/// `None` when the day's record fails.
proof fn lemma_run_step(
    c: SnapshotInputs,
    start: u64,
    fp: nat,
    fpr: nat,
    i0: nat,
    l0: nat,
    recs: Seq<DayRecord>,
    day: u64,
    ps: nat,
    pr: nat,
    pi: nat,
    pl: nat,
)
    requires
        start <= day,
        recs.len() == day - start,
        spec_snapshot_run(c, start, fp, fpr, i0, l0, (day - start) as nat) == Some(recs),
        ps == (if day == start { fp } else { recs.last().scheduled }),
        pr == (if day == start { fpr } else { 0 }),
        pi == (if day == start { i0 } else { recs.last().inflation_rate }),
        pl == (if day == start { l0 } else { recs.last().liquidity_rate }),
    ensures
        spec_snapshot_run(c, start, fp, fpr, i0, l0, (day - start + 1) as nat) == (match spec_day_record(c, day, ps, pr, pi, pl) {
            Some(rec) => Some(recs.push(rec)),
            None => None,
        }),
{
    reveal(spec_snapshot_run);
}

/// The snapshots of `n` days from `start` on the inputs `c`, with the
/// scheduled shares carried into the first day and the rates in force, and
/// the rates after them.
#[verifier::rlimit(100)]
#[verifier::spinoff_prover]
fn compute_run_over(
    c: Ghost<SnapshotInputs>,
    p: &ConstantParameters,
    scheduled: &crate::dict::Dict<u64, U256>,
    r_scheduled: &crate::dict::Dict<u64, U256>,
    penalties: &crate::dict::Dict<u64, U256>,
    guard: &LiquidityGuard,
    totals: (U256, U256, U256),
    staked_today: U256,
    supply: U256,
    status: bool,
    start: u64,
    update_day: u64,
    first_prev: U256,
    first_prev_r: U256,
    inflation: U256,
    liquidity: U256,
) -> (r: Result<(Vec<DaySnapshots>, U256, U256), StakeError>)
    requires
        c@.params == *p,
        c@.guard == guard.inflations@,
        c@.scheduled_to_end == scheduled@,
        c@.referral_shares_to_end == r_scheduled@,
        c@.total_penalties == penalties@,
        totals.0@ == c@.total_shares,
        totals.1@ == c@.referral_shares,
        totals.2@ == c@.liquidity_shares,
        staked_today@ == c@.total_staked,
        supply@ == c@.total_supply,
        status == c@.status,
    ensures
        run_result_holds(
            spec_snapshot_run(c@, start, first_prev@, first_prev_r@, inflation@, liquidity@, spec_run_days(start as nat, update_day)),
            spec_run_days(start as nat, update_day),
            start,
            inflation,
            liquidity,
            r,
        ),
{
    let ghost fp = first_prev@;
    let ghost fpr = first_prev_r@;
    let ghost i0 = inflation@;
    let ghost l0 = liquidity@;
    let ghost n = spec_run_days(start as nat, update_day);
    let mut prev_sched = first_prev;
    let mut prev_r = first_prev_r;
    let mut infl = inflation;
    let mut liq = liquidity;
    let mut out: Vec<DaySnapshots> = Vec::new();
    let mut day: u64 = start;
    let ghost mut recs: Seq<DayRecord> = Seq::empty();
    assert(spec_snapshot_run(c@, start, fp, fpr, i0, l0, 0) == Some(recs)) by {
        reveal(spec_snapshot_run);
    }
    while day < update_day
        invariant
            start <= day,
            day <= update_day || day == start,
            n == spec_run_days(start as nat, update_day),
            c@.params == *p,
            c@.guard == guard.inflations@,
            c@.scheduled_to_end == scheduled@,
            c@.referral_shares_to_end == r_scheduled@,
            c@.total_penalties == penalties@,
            totals.0@ == c@.total_shares,
            totals.1@ == c@.referral_shares,
            totals.2@ == c@.liquidity_shares,
            staked_today@ == c@.total_staked,
            supply@ == c@.total_supply,
            status == c@.status,
            out.len() == day - start,
            recs.len() == day - start,
            spec_snapshot_run(c@, start, fp, fpr, i0, l0, (day - start) as nat) == Some(recs),
            forall|j: int| 0 <= j < out.len() ==> day_holds(#[trigger] out@[j], (start + j) as nat, recs[j]),
            prev_sched@ == (if day == start { fp } else { recs.last().scheduled }),
            prev_r@ == (if day == start { fpr } else { 0 }),
            infl@ == (if day == start { i0 } else { recs.last().inflation_rate }),
            liq@ == (if day == start { l0 } else { recs.last().liquidity_rate }),
            i0 == inflation@,
            l0 == liquidity@,
            day == start ==> infl == inflation && liq == liquidity,
            fp == first_prev@,
            fpr == first_prev_r@,
        decreases update_day - day,
    {
        let sched_today = read_amount(scheduled, &day);
        let rsched_today = read_amount(r_scheduled, &day);
        let pen_today = read_amount(penalties, &day);
        let res = compute_day(
            c,
            p,
            sched_today,
            rsched_today,
            pen_today,
            guard,
            totals,
            staked_today,
            supply,
            status,
            day,
            prev_sched,
            prev_r,
            infl,
            liq,
        );
        let ghost k = (day - start) as nat;
        proof {
            lemma_run_step(c@, start, fp, fpr, i0, l0, recs, day, prev_sched@, prev_r@, infl@, liq@);
        }
        match res {
            Err(e) => {
                proof {
                    lemma_run_fails_onward(c@, start, fp, fpr, i0, l0, k + 1, n);
                    lemma_result_refused(spec_snapshot_run(c@, start, fp, fpr, i0, l0, n), n, start, inflation, liquidity, e);
                }
                return Err(e);
            },
            Ok((d, ni, nl)) => {
                proof {
                    recs = recs.push(spec_day_record(c@, day, prev_sched@, prev_r@, infl@, liq@).unwrap());
                }
                out.push(d);
                prev_sched = d.snapshot.scheduled_to_end;
                prev_r = U256::zero();
                infl = ni;
                liq = nl;
            },
        }
        day = day + 1;
    }
    proof {
        assert((day - start) as nat == n);
        let run = spec_snapshot_run(c@, start, fp, fpr, i0, l0, n);
        assert(run == Some(recs));
        assert(run.unwrap() == recs);
        lemma_result_computed(run, n, start, inflation, liquidity, out, infl, liq);
    }
    Ok((out, infl, liq))
}

impl StakeableToken {
    /// The snapshots of the days from the current day up to `update_day`
    /// under a guard status, and the rates after them.
    fn compute_run(&self, update_day: u64, status: bool, guard: &LiquidityGuard, start: u64) -> (r: Result<(Vec<DaySnapshots>, U256, U256), StakeError>)
        requires
            self.globals.current_stakeable_day@ == start,
        ensures
            ({
                let c = spec_inputs(*self, guard.inflations@, status);
                let run = spec_snapshot_run(
                    c,
                    start,
                    stored_scheduled(self.snapshots@, spec_prev_day(start)),
                    stored_scheduled(self.rsnapshots@, spec_prev_day(start)),
                    self.inflation_rate@,
                    self.liquidity_rate@,
                    spec_run_days(start as nat, update_day),
                );
                &&& r is Ok <==> run is Some
                &&& r matches Ok((out, i, l)) ==> {
                    let recs = run.unwrap();
                    &&& out.len() == recs.len()
                    &&& recs.len() == spec_run_days(start as nat, update_day)
                    &&& forall|q: int| 0 <= q < out.len() ==> day_holds(#[trigger] out@[q], (start + q) as nat, recs[q])
                    &&& (recs.len() == 0 ==> i == self.inflation_rate && l == self.liquidity_rate)
                    &&& (recs.len() > 0 ==> i@ == recs.last().inflation_rate && l@ == recs.last().liquidity_rate)
                }
            }),
    {
        let first = read_snapshot(&self.snapshots, prev_day(start));
        let first_r = read_snapshot(&self.rsnapshots, prev_day(start));
        let r = compute_run_over(
            Ghost(spec_inputs(*self, guard.inflations@, status)),
            &self.params,
            &self.scheduled_to_end,
            &self.referral_shares_to_end,
            &self.total_penalties,
            guard,
            (self.globals.total_shares, self.globals.referral_shares, self.globals.liquidity_shares),
            self.globals.total_staked,
            self.total_supply,
            status,
            start,
            update_day,
            first.scheduled_to_end,
            first_r.scheduled_to_end,
            self.inflation_rate,
            self.liquidity_rate,
        );
        proof {
            reveal(run_result_holds);
        }
        r
    }

    /// Takes the daily snapshots from the current day up to, not including,
    /// `update_day`, after the guard has looked at the pair: each day's total
    /// and referral shares less those scheduled to end, the liquidity shares,
    /// and their inflation; the rates adjust after each day and the current
    /// day moves to `update_day`. All or nothing: refused with no change when
    /// a day's arithmetic fails.
    #[verifier::rlimit(80)]
    #[verifier::spinoff_prover]
    pub fn daily_snapshot_point(&mut self, update_day: u64, pair: &PairReserves, guard: &LiquidityGuard) -> (r: Result<(), StakeError>)
        ensures
            r is Ok <==> spec_contract_run(*old(self), *pair, guard.inflations@, update_day) is Some,
            r is Err ==> *final(self) == *old(self),
            r is Ok ==> snapshot_taken(*old(self), *final(self), *pair, guard.inflations@, update_day),
            final(self).globals.total_staked == old(self).globals.total_staked,
            final(self).globals.total_shares == old(self).globals.total_shares,
            final(self).globals.share_price == old(self).globals.share_price,
            final(self).globals.referral_shares == old(self).globals.referral_shares,
            final(self).globals.liquidity_shares == old(self).globals.liquidity_shares,
            final(self).params == old(self).params,
            final(self).addresses == old(self).addresses,
            final(self).launch_time == old(self).launch_time,
            final(self).total_supply == old(self).total_supply,
            final(self).balances == old(self).balances,
            final(self).stakes == old(self).stakes,
            final(self).scheduled_to_end == old(self).scheduled_to_end,
            final(self).referral_shares_to_end == old(self).referral_shares_to_end,
            final(self).total_penalties == old(self).total_penalties,
            final(self).critical_mass == old(self).critical_mass,
            final(self).referrer_links == old(self).referrer_links,
            final(self).liquidity_stakes == old(self).liquidity_stakes,
            final(self).scrapes == old(self).scrapes,
    {
        let on_pair: u128 = if pair.token1.same(&self.addresses.scspr) {
            pair.reserve_a
        } else {
            pair.reserve_b
        };
        let status = guard_status(self.liquidity_guard_status, on_pair, self.total_supply);
        if !self.globals.current_stakeable_day.fits_u64() {
            return Err(StakeError::Overflow);
        }
        let start = self.globals.current_stakeable_day.as_u64();
        let (out, infl, liq) = self.compute_run(update_day, status, guard, start)?;
        let ghost recs = spec_contract_run(*self, *pair, guard.inflations@, update_day).unwrap();
        proof {
            assert(out.len() == recs.len());
            assert(recs.len() == spec_run_days(start as nat, update_day));
            assert forall|q: int| 0 <= q < out.len() implies (#[trigger] out@[q]).day == start + q by {
                assert(day_holds(out@[q], (start + q) as nat, recs[q]));
            }
        }
        let ghost old_self = *self;
        self.liquidity_guard_status = status;
        store_run(&mut self.snapshots, &out, 0, start);
        proof {
            lemma_stored_run(old_self.snapshots@, self.snapshots@, start, out@, recs, 0);
        }
        store_run(&mut self.rsnapshots, &out, 1, start);
        proof {
            lemma_stored_run(old_self.rsnapshots@, self.rsnapshots@, start, out@, recs, 1);
        }
        store_run(&mut self.lsnapshots, &out, 2, start);
        proof {
            lemma_stored_run(old_self.lsnapshots@, self.lsnapshots@, start, out@, recs, 2);
        }
        self.inflation_rate = infl;
        self.liquidity_rate = liq;
        self.globals.current_stakeable_day = U256::from_u64(start + (out.len() as u64));
        proof {
            reveal(snapshot_taken);
            let u = *self;
            let t = old_self;
            assert(spec_contract_run(t, *pair, guard.inflations@, update_day) is Some);
            assert(recs.len() == spec_run_days(t.globals.current_stakeable_day@, update_day));
            assert(run_stored(t.snapshots@, u.snapshots@, t.globals.current_stakeable_day@, recs, 0));
            assert(run_stored(t.rsnapshots@, u.rsnapshots@, t.globals.current_stakeable_day@, recs, 1));
            assert(run_stored(t.lsnapshots@, u.lsnapshots@, t.globals.current_stakeable_day@, recs, 2));
            assert(u.liquidity_guard_status == spec_guard_status(t.liquidity_guard_status, spec_on_pair(*pair, t.addresses.scspr), t.total_supply@));
            assert(u.globals.current_stakeable_day@ == t.globals.current_stakeable_day@ + recs.len());
        }
        Ok(())
    }
}


} // verus!
