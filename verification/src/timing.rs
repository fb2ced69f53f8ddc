use vstd::prelude::*;

use crate::contract::StakeableToken;
use crate::types::{as_value, minus, opt_div, opt_sub, over, StakeError};
use crate::u256::U256;

verus! {

/// The time in seconds of a block time in milliseconds.
pub open spec fn spec_now(blocktime_ms: u64) -> nat {
    (blocktime_ms / 1000) as nat
}

/// The day of the contract at a block time: whole days since launch; `None`
/// before launch or with days of zero seconds.
pub open spec fn spec_day_at(launch_time: nat, blocktime_ms: u64, seconds_in_day: u64) -> Option<
    nat,
> {
    opt_div(opt_sub(Some(spec_now(blocktime_ms)), Some(launch_time)), Some(seconds_in_day as nat))
}

/// The time in seconds of a block time in milliseconds.
pub fn get_now(blocktime_ms: u64) -> (r: U256)
    ensures
        r@ == spec_now(blocktime_ms),
{
    U256::from_u64(blocktime_ms / 1000)
}

impl StakeableToken {
    /// The day of the contract at a time in seconds.
    pub fn stakeable_day_from_stamp(&self, timestamp: U256) -> (r: Result<u64, StakeError>)
        requires
            timestamp@ <= u64::MAX,
        ensures
            r matches Ok(d) ==> Some(d as nat) == opt_div(
                opt_sub(Some(timestamp@), Some(self.launch_time@)),
                Some(self.params.seconds_in_day as nat),
            ),
            r is Err <==> opt_div(
                opt_sub(Some(timestamp@), Some(self.launch_time@)),
                Some(self.params.seconds_in_day as nat),
            ) is None,
            timestamp@ < self.launch_time@ ==> r == Err::<u64, StakeError>(StakeError::Underflow),
    {
        let elapsed = minus(timestamp, self.launch_time)?;
        let days = over(elapsed, U256::from_u64(self.params.seconds_in_day))?;
        assert(days@ <= elapsed@) by (nonlinear_arith)
            requires
                days@ == elapsed@ / (self.params.seconds_in_day as nat),
                self.params.seconds_in_day > 0,
        ;
        Ok(days.as_u64())
    }

    /// The day of the contract at a block time.
    pub fn current_stakeable_day_only(&self, blocktime_ms: u64) -> (r: Result<u64, StakeError>)
        ensures
            r matches Ok(d) ==> Some(d as nat) == spec_day_at(
                self.launch_time@,
                blocktime_ms,
                self.params.seconds_in_day,
            ),
            r is Err <==> spec_day_at(
                self.launch_time@,
                blocktime_ms,
                self.params.seconds_in_day,
            ) is None,
            r matches Ok(d) ==> d <= u64::MAX / 1000,
            spec_now(blocktime_ms) < self.launch_time@ ==> r == Err::<u64, StakeError>(StakeError::Underflow),
    {
        let now = get_now(blocktime_ms);
        let r = self.stakeable_day_from_stamp(now);
        proof {
            if let Ok(d) = r {
                assert(d <= spec_now(blocktime_ms));
            }
        }
        r
    }

    /// The day of the contract at a block time, zero before launch.
    pub fn current_stakeable_day(&self, blocktime_ms: u64) -> (r: Result<u64, StakeError>)
        ensures
            spec_now(blocktime_ms) < self.launch_time@ ==> r == Ok::<u64, StakeError>(0),
            spec_now(blocktime_ms) >= self.launch_time@ ==> (r matches Ok(d) ==> Some(d as nat)
                == spec_day_at(self.launch_time@, blocktime_ms, self.params.seconds_in_day)),
            r is Err <==> (spec_now(blocktime_ms) >= self.launch_time@
                && self.params.seconds_in_day == 0),
    {
        let now = get_now(blocktime_ms);
        if now.ge(&self.launch_time) {
            self.current_stakeable_day_only(blocktime_ms)
        } else {
            Ok(0)
        }
    }

    /// The day after the current one.
    pub fn next_stakeable_day(&self, blocktime_ms: u64) -> (r: Result<u64, StakeError>)
        ensures
            r matches Ok(d) ==> Some((d - 1) as nat) == spec_day_at(
                self.launch_time@,
                blocktime_ms,
                self.params.seconds_in_day,
            ) && d >= 1,
            r is Err <==> spec_day_at(
                self.launch_time@,
                blocktime_ms,
                self.params.seconds_in_day,
            ) is None,
    {
        let d = self.current_stakeable_day_only(blocktime_ms)?;
        Ok(d + 1)
    }

    /// The day before the current one; refused on the launch day.
    pub fn previous_stakeable_day(&self, blocktime_ms: u64) -> (r: Result<u64, StakeError>)
        ensures
            r matches Ok(d) ==> Some((d + 1) as nat) == spec_day_at(
                self.launch_time@,
                blocktime_ms,
                self.params.seconds_in_day,
            ),
            r is Err <==> (spec_day_at(self.launch_time@, blocktime_ms, self.params.seconds_in_day)
                is None || spec_day_at(
                self.launch_time@,
                blocktime_ms,
                self.params.seconds_in_day,
            ) == Some(0nat)),
    {
        let d = self.current_stakeable_day_only(blocktime_ms)?;
        if d == 0 {
            Err(StakeError::Underflow)
        } else {
            Ok(d - 1)
        }
    }
}

} // verus!
