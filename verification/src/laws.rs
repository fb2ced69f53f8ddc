use vstd::prelude::*;

use crate::contract::{value_or_zero, StakeableToken};
use crate::ids::spec_generate_id;
use crate::interest::{referral_collected, spec_collect_ok, spec_determine_start_day};
use crate::key::{Key, KeyKind};
use crate::liquidity::{liquidity_stake_created, liquidity_stake_ended, spec_end_liquidity_ok};
use crate::schedule::{removed_from_schedule, shares_scheduled};
use crate::snapshot::{
    lemma_run_len, snapshot_taken, spec_contract_run, spec_day_record, spec_guard_status, spec_inputs, spec_on_pair,
    spec_prev_day, spec_run_days, spec_snapshot_run, stored_scheduled, PairReserves, SnapshotInputs,
};
use crate::stable::spec_stable_usd_from;
use crate::timing::{spec_day_at, spec_now};
use crate::staking::{interest_scraped, spec_scrape_ok, spec_create_stake_ok, spec_end_stake_ok, stake_closed, stake_created};
use crate::token::{burnt, minted};
use crate::rewards::spec_share_price_after;
use crate::shares::{spec_base_amount, spec_get_bonus, spec_penalty_amount, spec_stake_extra, spec_stakes_shares};
use crate::helper::{spec_days_left, spec_is_mature_stake, spec_stake_ended};
use crate::types::{sat_sub, Snapshot, Stake};
use crate::u256::{u256_max, U256};

verus! {

/// Law: burning what was just minted to an address gives back the supply and
/// every balance.
pub proof fn law_burn_undoes_mint(t: StakeableToken, u: StakeableToken, v: StakeableToken, who: Key, amount: nat)
    requires
        minted(t, u, who, amount),
        burnt(u, v, who, amount),
    ensures
        v.total_supply@ == t.total_supply@,
        forall|k: Key| value_or_zero(v.balances@, k) == value_or_zero(t.balances@, k),
{
}

/// Law: shares scheduled to end on a day and taken off again before that
/// day has passed leave every day's schedule as it was, and the snapshots
/// untouched.
pub proof fn law_schedule_round_trip(
    s0: Map<u64, U256>,
    s1: Map<u64, U256>,
    s2: Map<u64, U256>,
    n0: Map<u64, Snapshot>,
    n1: Map<u64, Snapshot>,
    day: u64,
    shares: nat,
    today: u64,
)
    requires
        shares_scheduled(s0, s1, day, shares),
        removed_from_schedule(s1, s2, n0, n1, day, shares, today),
        day >= today,
    ensures
        forall|d: u64| value_or_zero(s2, d) == value_or_zero(s0, d),
        n1 == n0,
{
    reveal(removed_from_schedule);
}

/// Law: right after a stake is created, the staker's latest stake id is the
/// new stake's id.
pub proof fn law_latest_stake_id_is_new(
    t: StakeableToken,
    u: StakeableToken,
    caller: Key,
    staked: nat,
    lock_days: u64,
    referrer: Key,
    stable_usd: nat,
    blocktime_ms: u64,
    id: Seq<u32>,
    start: nat,
    rid: Seq<u32>,
)
    requires
        stake_created(t, u, caller, staked, lock_days, referrer, stable_usd, blocktime_ms, id, start, rid),
    ensures
        value_or_zero(u.stake_count@, caller) > 0,
        spec_generate_id(caller, (value_or_zero(u.stake_count@, caller) - 1) as nat, 1) == id,
{
}

/// Law: right after a liquidity stake is created, the staker's latest
/// liquidity stake id is the new one's id.
pub proof fn law_latest_liquidity_id_is_new(
    t: StakeableToken,
    u: StakeableToken,
    caller: Key,
    tokens: nat,
    blocktime_ms: u64,
    id: Seq<u32>,
)
    requires
        liquidity_stake_created(t, u, caller, tokens, blocktime_ms, id),
    ensures
        value_or_zero(u.liquidity_stake_count@, caller) > 0,
        spec_generate_id(caller, (value_or_zero(u.liquidity_stake_count@, caller) - 1) as nat, 3) == id,
{
}

/// Law: a stake is ended once; ending it again is refused at any time.
pub proof fn law_stake_ends_once(
    t: StakeableToken,
    u: StakeableToken,
    caller: Key,
    id: Seq<u32>,
    blocktime_ms: u64,
    reward: nat,
    later_ms: u64,
)
    requires
        stake_closed(t, u, caller, id, blocktime_ms, reward),
    ensures
        !spec_end_stake_ok(u, caller, id, later_ms),
{
    assert(u.stakes@.contains_key((caller, id)));
}

/// Law: a liquidity stake is ended once; ending it again is refused at any
/// time, whatever the transfer did.
pub proof fn law_liquidity_stake_ends_once(
    t: StakeableToken,
    u: StakeableToken,
    caller: Key,
    id: Seq<u32>,
    blocktime_ms: u64,
    reward: nat,
    transferred: Result<(), u32>,
    later_ms: u64,
)
    requires
        liquidity_stake_ended(t, u, caller, id, blocktime_ms, reward),
    ensures
        !spec_end_liquidity_ok(u, caller, id, transferred, later_ms),
{
    assert(u.liquidity_stakes@.contains_key((caller, id)));
}

/// Law: ending a liquidity stake right after creating it gives the liquidity
/// shares back.
pub proof fn law_liquidity_shares_round_trip(
    t: StakeableToken,
    u: StakeableToken,
    v: StakeableToken,
    caller: Key,
    tokens: nat,
    created_ms: u64,
    id: Seq<u32>,
    ended_ms: u64,
    reward: nat,
)
    requires
        liquidity_stake_created(t, u, caller, tokens, created_ms, id),
        liquidity_stake_ended(u, v, caller, id, ended_ms, reward),
    ensures
        v.globals.liquidity_shares@ == t.globals.liquidity_shares@,
{
}

/// Law: ending a stake right after creating it gives the staked total, the
/// total shares and the referral shares back.
#[verifier::spinoff_prover]
#[verifier::rlimit(40)]
pub proof fn law_stake_totals_round_trip(
    t: StakeableToken,
    u: StakeableToken,
    v: StakeableToken,
    caller: Key,
    staked: nat,
    lock_days: u64,
    referrer: Key,
    stable_usd: nat,
    created_ms: u64,
    id: Seq<u32>,
    start: nat,
    rid: Seq<u32>,
    ended_ms: u64,
    reward: nat,
)
    requires
        stake_created(t, u, caller, staked, lock_days, referrer, stable_usd, created_ms, id, start, rid),
        stake_closed(u, v, caller, id, ended_ms, reward),
    ensures
        v.globals.total_staked@ == t.globals.total_staked@,
        v.globals.total_shares@ == t.globals.total_shares@,
        v.globals.referral_shares@ == t.globals.referral_shares@,
{
}

/// Law: once the keeper renounced, no account is the keeper.
pub proof fn law_renounced_keeper_is_no_account(t: StakeableToken, u: StakeableToken, account: Key)
    requires
        u == (StakeableToken { transformer_gate_keeper: crate::key::spec_zero_address(), ..t }),
        account.kind == KeyKind::Account,
    ensures
        u.transformer_gate_keeper != account,
{
}

/// Law: a snapshot run from behind brings the day the snapshots reached to
/// the day asked for; from that day or past it, it changes no snapshot.
pub proof fn law_snapshots_reach_update_day(
    t: StakeableToken,
    u: StakeableToken,
    pair: PairReserves,
    guard: Map<u64, U256>,
    update_day: u64,
)
    requires
        snapshot_taken(t, u, pair, guard, update_day),
    ensures
        update_day > t.globals.current_stakeable_day@ ==> u.globals.current_stakeable_day@ == update_day,
        update_day <= t.globals.current_stakeable_day@ ==> {
            &&& u.globals.current_stakeable_day@ == t.globals.current_stakeable_day@
            &&& u.snapshots@ == t.snapshots@
            &&& u.rsnapshots@ == t.rsnapshots@
            &&& u.lsnapshots@ == t.lsnapshots@
        },
{
    reveal(snapshot_taken);
    let recs = spec_contract_run(t, pair, guard, update_day).unwrap();
    let start = t.globals.current_stakeable_day@;
    if update_day <= start {
        assert(recs.len() == 0);
        assert(u.snapshots@ =~= t.snapshots@);
        assert(u.rsnapshots@ =~= t.rsnapshots@);
        assert(u.lsnapshots@ =~= t.lsnapshots@);
    }
}

/// Whether the day the snapshots have reached is not past the contract's day
/// at a block time: what every reachable state of a launched contract keeps.
pub open spec fn snapshots_not_ahead(t: StakeableToken, blocktime_ms: u64) -> bool {
    let today = spec_day_at(t.launch_time@, blocktime_ms, t.params.seconds_in_day);
    today is Some && t.globals.current_stakeable_day@ <= today.unwrap()
}

/// Law: a freshly installed contract has taken no snapshot, so its snapshot
/// day is not ahead at any block time after launch.
pub proof fn law_fresh_contract_not_ahead(t: StakeableToken, blocktime_ms: u64)
    requires
        t.globals.current_stakeable_day@ == 0,
        spec_day_at(t.launch_time@, blocktime_ms, t.params.seconds_in_day) is Some,
    ensures
        snapshots_not_ahead(t, blocktime_ms),
{
}

/// Law: as time goes on, a snapshot day that was not ahead stays not ahead.
pub proof fn law_not_ahead_as_time_goes_on(t: StakeableToken, earlier_ms: u64, later_ms: u64)
    requires
        snapshots_not_ahead(t, earlier_ms),
        earlier_ms <= later_ms,
    ensures
        snapshots_not_ahead(t, later_ms),
{
    let now1 = spec_now(earlier_ms);
    let now2 = spec_now(later_ms);
    assert(now1 <= now2) by (nonlinear_arith)
        requires
            earlier_ms <= later_ms,
            now1 == earlier_ms / 1000,
            now2 == later_ms / 1000,
    ;
    let d = t.params.seconds_in_day as nat;
    let l = t.launch_time@;
    assert((now1 - l) as nat / d <= (now2 - l) as nat / d) by (nonlinear_arith)
        requires
            l <= now1 <= now2,
            d > 0,
    ;
}

/// Law: the day the snapshots have reached never passes the current day: a
/// snapshot run up to the current day or an earlier one, from a state whose
/// snapshot day is not ahead, leaves it not ahead.
pub proof fn law_snapshot_day_never_passes_today(
    t: StakeableToken,
    u: StakeableToken,
    pair: PairReserves,
    guard: Map<u64, U256>,
    update_day: u64,
    blocktime_ms: u64,
)
    requires
        snapshot_taken(t, u, pair, guard, update_day),
        snapshots_not_ahead(t, blocktime_ms),
        update_day <= spec_day_at(t.launch_time@, blocktime_ms, t.params.seconds_in_day).unwrap(),
    ensures
        snapshots_not_ahead(u, blocktime_ms),
{
    reveal(snapshot_taken);
}

/// Law: creating and ending stakes leave the day the snapshots have reached
/// as it was.
pub proof fn law_stakes_keep_snapshot_day(
    t: StakeableToken,
    u: StakeableToken,
    v: StakeableToken,
    caller: Key,
    staked: nat,
    lock_days: u64,
    referrer: Key,
    stable_usd: nat,
    created_ms: u64,
    id: Seq<u32>,
    start: nat,
    rid: Seq<u32>,
    ended_ms: u64,
    reward: nat,
)
    requires
        stake_created(t, u, caller, staked, lock_days, referrer, stable_usd, created_ms, id, start, rid),
        stake_closed(u, v, caller, id, ended_ms, reward),
    ensures
        u.globals.current_stakeable_day == t.globals.current_stakeable_day,
        v.globals.current_stakeable_day == u.globals.current_stakeable_day,
{
}

/// Law: once a collection ends a referral link, every later collection of
/// it collects nothing and changes nothing.
pub proof fn law_ended_referral_collects_nothing(
    t: StakeableToken,
    u: StakeableToken,
    v: StakeableToken,
    referrer: Key,
    rid: Seq<u32>,
    days: nat,
    blocktime_ms: u64,
    interest: nat,
    later_days: nat,
    later_ms: u64,
    later_interest: nat,
)
    requires
        t.referrer_links@.contains_key((referrer, rid)),
        referral_collected(t, u, referrer, rid, days, blocktime_ms, interest),
        !u.referrer_links@[(referrer, rid)].is_active,
        referral_collected(u, v, referrer, rid, later_days, later_ms, later_interest),
    ensures
        v == u,
        later_interest == 0,
{
}

/// Law: after the price is updated from an answer, an empty answer gives
/// back the price kept.
pub proof fn law_price_read_after_update(results: Seq<U256>, latest: nat, kept: nat)
    requires
        spec_stable_usd_from(results, latest) == Some(kept),
    ensures
        spec_stable_usd_from(Seq::empty(), kept) == Some(kept),
{
}

/// Law: ending a running stake before its final day costs at least a tenth
/// and at most nine tenths of what was staked.
pub proof fn law_penalty_within_bounds(stake: Stake, today: u64)
    requires
        stake.is_active,
        stake.close_day == 0,
        stake.final_day == stake.start_day + stake.lock_days,
        stake.start_day <= today < stake.final_day,
        spec_penalty_amount(stake, today) is Some,
    ensures
        ({
            let penalty = spec_penalty_amount(stake, today).unwrap();
            &&& stake.staked_amount@ * 100 / 1000 <= penalty
            &&& penalty <= stake.staked_amount@ * 900 / 1000
        }),
{
    let left = (stake.final_day - today) as nat;
    let d = (left - 1) as nat;
    let lock: nat = if stake.lock_days > 1 { (stake.lock_days - 1) as nat } else { 1 };
    assert(d <= lock);
    let f = 800 * d / lock;
    assert(f <= 800) by (nonlinear_arith)
        requires
            d <= lock,
            lock > 0,
            f == 800 * d / lock,
    ;
    let g = 100 + f;
    let staked = stake.staked_amount@;
    assert(staked * 100 <= staked * g && staked * g <= staked * 900) by (nonlinear_arith)
        requires
            100 <= g <= 900,
    ;
    assert(staked * 100 / 1000 <= staked * g / 1000 && staked * g / 1000 <= staked * 900 / 1000) by (nonlinear_arith)
        requires
            staked * 100 <= staked * g,
            staked * g <= staked * 900,
    ;
}

/// Law: in a reachable state (its snapshot day not ahead of the current
/// day), ending a stake on the day it was created pays no reward and costs
/// no penalty: the staker's balance and the supply are as before the stake.
pub proof fn law_same_day_end_gives_stake_back(
    t: StakeableToken,
    u: StakeableToken,
    v: StakeableToken,
    caller: Key,
    staked: nat,
    lock_days: u64,
    referrer: Key,
    stable_usd: nat,
    created_ms: u64,
    id: Seq<u32>,
    start: nat,
    rid: Seq<u32>,
    ended_ms: u64,
    reward: nat,
)
    requires
        stake_created(t, u, caller, staked, lock_days, referrer, stable_usd, created_ms, id, start, rid),
        stake_closed(u, v, caller, id, ended_ms, reward),
        spec_day_at(t.launch_time@, ended_ms, t.params.seconds_in_day)
            == spec_day_at(t.launch_time@, created_ms, t.params.seconds_in_day),
        snapshots_not_ahead(t, created_ms),
    ensures
        reward == 0,
        v.balances@[caller]@ == value_or_zero(t.balances@, caller),
        v.total_supply@ == t.total_supply@,
{
}

/// Law: a new stake is worth, in the stable coin, the staked amount at the
/// stable coin price per whole token: `stable_usd * staked / yodas_per_wise`;
/// the stake records that value and the referrer's critical mass grows by it.
pub proof fn law_stake_dai_equivalent(
    t: StakeableToken,
    u: StakeableToken,
    caller: Key,
    staked: nat,
    lock_days: u64,
    referrer: Key,
    stable_usd: nat,
    blocktime_ms: u64,
    id: Seq<u32>,
    start: nat,
    rid: Seq<u32>,
)
    requires
        spec_create_stake_ok(t, caller, staked, lock_days, referrer, stable_usd, blocktime_ms),
        stake_created(t, u, caller, staked, lock_days, referrer, stable_usd, blocktime_ms, id, start, rid),
    ensures
        t.params.yodas_per_wise@ > 0,
        u.stakes@[(caller, id)].dai_equivalent@ == stable_usd * staked / t.params.yodas_per_wise@,
        u.critical_mass@[referrer].total_amount@
            == t.critical_mass@[referrer].total_amount@ + stable_usd * staked / t.params.yodas_per_wise@,
{
}

/// Law: past the formula day, when the price a finished stake implies,
/// `(staked + reward) * bonus * 10^8 / shares`, is above the current share
/// price and below 110% of it, the share price becomes that implied price.
pub proof fn law_share_price_follows_implied_price(
    t: StakeableToken,
    staked: nat,
    reward: nat,
    referrer: Key,
    lock: nat,
    stake_shares: nat,
    today: u64,
    bonus: nat,
)
    requires
        today > t.params.formula_day,
        stake_shares > 0,
        spec_get_bonus(t.params, lock, spec_stake_extra(referrer)) == Some(bonus),
        staked + reward <= u256_max(),
        (staked + reward) * bonus <= u256_max(),
        (staked + reward) * bonus * 100_000_000 <= u256_max(),
        t.globals.share_price@ * 110 <= u256_max(),
        t.globals.share_price@ < (staked + reward) * bonus * 100_000_000 / stake_shares,
        (staked + reward) * bonus * 100_000_000 / stake_shares < t.globals.share_price@ * 110 / 100,
    ensures
        spec_share_price_after(t, staked, reward, referrer, lock, stake_shares, today)
            == Some((staked + reward) * bonus * 100_000_000 / stake_shares),
{
}

/// Law: scraping the interest of an immature stake takes off its shares, and
/// returns, exactly the shares a new stake of the scraped amount would get
/// for the days left, with the staker as referrer, at the current share
/// price: at least the amount times the precision rate over the price.
pub proof fn law_scrape_gives_up_bought_shares(
    t: StakeableToken,
    u: StakeableToken,
    caller: Key,
    id: Seq<u32>,
    scrape_days: u64,
    today: u64,
    out: (U256, U256, U256, U256, U256),
)
    requires
        spec_scrape_ok(t, caller, id, scrape_days, today),
        interest_scraped(t, u, caller, id, scrape_days, today, out),
        !spec_is_mature_stake(t.stakes@[(caller, id)], today),
    ensures
        Some(out.3@) == spec_stakes_shares(t.params, out.1@, out.2@, caller, t.globals.share_price@),
        out.2@ == spec_days_left(t.stakes@[(caller, id)], today),
        u.stakes@[(caller, id)].stakes_shares@ + out.3@ == t.stakes@[(caller, id)].stakes_shares@,
        out.3@ >= out.1@ * t.params.precision_rate@ / t.globals.share_price@,
{
    reveal(spec_scrape_ok);
    reveal(interest_scraped);
    let amount = out.1@;
    let p = t.params;
    let price = t.globals.share_price@;
    let base = spec_base_amount(p, amount, price).unwrap();
    let bonus = spec_get_bonus(p, out.2@, spec_stake_extra(caller)).unwrap();
    assert(bonus >= 10_000_000_000);
    assert(base == amount * p.precision_rate@ / price);
    assert(base * bonus / 10_000_000_000 >= base) by (nonlinear_arith)
        requires
            bonus >= 10_000_000_000,
    ;
}

/// Law: collecting referral interest on a running stake, for a referrer
/// active since the stake's start, counts the days from the first unpaid day
/// up to the current day: afterwards the link has processed exactly the days
/// from the stake's start to the current day and stays active, so the next
/// collection starts on the current day and no day is paid twice.
pub proof fn law_running_collection_counts_each_day_once(
    t: StakeableToken,
    u: StakeableToken,
    referrer: Key,
    rid: Seq<u32>,
    process_days: nat,
    blocktime_ms: u64,
    interest: nat,
)
    requires
        spec_collect_ok(t, referrer, rid, process_days, blocktime_ms),
        referral_collected(t, u, referrer, rid, process_days, blocktime_ms, interest),
        ({
            let link = t.referrer_links@[(referrer, rid)];
            let stake = t.stakes@[(link.staker, link.stake_id@)];
            let today = spec_day_at(t.launch_time@, blocktime_ms, t.params.seconds_in_day).unwrap() as u64;
            &&& link.is_active
            &&& !spec_stake_ended(stake, today)
            &&& t.critical_mass@[stake.referrer].activation_day@ <= stake.start_day
            &&& stake.start_day + link.processed_days@ <= today
        }),
    ensures
        ({
            let link = t.referrer_links@[(referrer, rid)];
            let stake = t.stakes@[(link.staker, link.stake_id@)];
            let today = spec_day_at(t.launch_time@, blocktime_ms, t.params.seconds_in_day).unwrap() as u64;
            let after = u.referrer_links@[(referrer, rid)];
            &&& after.processed_days@ == today - stake.start_day
            &&& after.is_active
            &&& after.staker == link.staker
            &&& after.stake_id@ == link.stake_id@
            &&& spec_determine_start_day(u.critical_mass@[stake.referrer], u.stakes@[(after.staker, after.stake_id@)],
                after.processed_days@) == Some(today as nat)
        }),
{
}

/// What the referral snapshot of a day of a run holds as total shares: the
/// referral shares less those scheduled to end that day (and, on the run's
/// first day, those the previous referral snapshot carried), not below zero.
pub open spec fn referral_total_of_day(c: SnapshotInputs, day: nat, first_day: nat, first_prev_r: nat) -> nat {
    sat_sub(
        c.referral_shares,
        value_or_zero(c.referral_shares_to_end, day as u64) + (if day == first_day { first_prev_r } else { 0 }),
    )
}

/// Each record of a snapshot run takes off the referral shares ending on its
/// day.
proof fn lemma_run_referral_totals(
    c: SnapshotInputs,
    start: u64,
    fp: nat,
    fpr: nat,
    i: nat,
    l: nat,
    k: nat,
)
    requires
        spec_snapshot_run(c, start, fp, fpr, i, l, k) is Some,
    ensures
        spec_snapshot_run(c, start, fp, fpr, i, l, k).unwrap().len() == k,
        forall|j: int| 0 <= j < k ==> (#[trigger] spec_snapshot_run(c, start, fp, fpr, i, l, k).unwrap()[j]).r_total_shares
            == referral_total_of_day(c, (start + j) as nat, start as nat, fpr),
    decreases k,
{
    reveal(spec_snapshot_run);
    lemma_run_len(c, start, fp, fpr, i, l, k);
    if k > 0 {
        lemma_run_referral_totals(c, start, fp, fpr, i, l, (k - 1) as nat);
        let rs = spec_snapshot_run(c, start, fp, fpr, i, l, (k - 1) as nat).unwrap();
        let all = spec_snapshot_run(c, start, fp, fpr, i, l, k).unwrap();
        let (ps, pr, pi, pl) = if k == 1 {
            (fp, fpr, i, l)
        } else {
            (rs.last().scheduled, 0nat, rs.last().inflation_rate, rs.last().liquidity_rate)
        };
        let day = (start + k - 1) as u64;
        reveal(spec_day_record);
        assert(all == rs.push(spec_day_record(c, day, ps, pr, pi, pl).unwrap()));
        assert forall|j: int| 0 <= j < k implies (#[trigger] all[j]).r_total_shares
            == referral_total_of_day(c, (start + j) as nat, start as nat, fpr) by {
            if j < k - 1 {
                assert(all[j] == rs[j]);
            }
        }
    }
}

/// Law: each day's referral snapshot taken by a snapshot run holds as total
/// shares the referral shares less the referral shares scheduled to end that
/// day (on the run's first day also less those the previous referral
/// snapshot carried), not below zero: referral shares that ended no longer
/// count.
pub proof fn law_referral_snapshot_drops_ended_shares(
    t: StakeableToken,
    u: StakeableToken,
    pair: PairReserves,
    guard: Map<u64, U256>,
    update_day: u64,
    day: u64,
)
    requires
        snapshot_taken(t, u, pair, guard, update_day),
        t.globals.current_stakeable_day@ <= day < update_day,
    ensures
        u.rsnapshots@.contains_key(day),
        u.rsnapshots@[day].total_shares@ == sat_sub(
            t.globals.referral_shares@,
            value_or_zero(t.referral_shares_to_end@, day) + (if day == t.globals.current_stakeable_day@ {
                stored_scheduled(t.rsnapshots@, spec_prev_day(day))
            } else {
                0
            }),
        ),
{
    reveal(snapshot_taken);
    let start = t.globals.current_stakeable_day@;
    let status = spec_guard_status(t.liquidity_guard_status, spec_on_pair(pair, t.addresses.scspr), t.total_supply@);
    let c = spec_inputs(t, guard, status);
    let fpr = stored_scheduled(t.rsnapshots@, spec_prev_day(start as u64));
    let recs = spec_contract_run(t, pair, guard, update_day).unwrap();
    lemma_run_referral_totals(c, start as u64, stored_scheduled(t.snapshots@, spec_prev_day(start as u64)), fpr,
        t.inflation_rate@, t.liquidity_rate@, spec_run_days(start, update_day));
    let j = day - start;
    assert(recs[j].r_total_shares == referral_total_of_day(c, day as nat, start, fpr));
    assert(u.rsnapshots@.contains_key(day));
}

} // verus!
