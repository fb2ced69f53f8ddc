use vstd::prelude::*;

use crate::contract::{read_amount, value_or_zero, StakeableToken};
use crate::dict::RecordKey;
use crate::ids::{generate_id, spec_generate_id};
use crate::key::{non_zero_address, spec_zero_address, Key};
use crate::types::{minus, StakeError};
use crate::u256::U256;

verus! {

/// The window of record indices a page covers, newest first: it starts
/// `offset` below the count (at the count when `offset` is zero or not below
/// it) and reaches `length` further down (to zero when `length` is zero or
/// not below the start). The start is excluded, the finish included.
pub open spec fn spec_page_window(count: nat, offset: nat, length: nat) -> (nat, nat) {
    let start = if offset > 0 && count > offset { (count - offset) as nat } else { count };
    let finish = if length > 0 && start > length { (start - length) as nat } else { 0 };
    (start, finish)
}

/// Whether every stake of `staker` in the window is stored, and the window
/// fits 32 bits.
pub open spec fn stakes_page_ok(t: StakeableToken, staker: Key, start: nat, finish: nat) -> bool {
    &&& start <= u32::MAX
    &&& forall|idx: nat| finish <= idx < start ==> t.stakes@.contains_key((staker, #[trigger] spec_generate_id(staker, idx, 1)))
}

/// The ids of the stakes of `staker` with indices from `hi - 1` down to
/// `lo` that hold tokens, newest first.
pub open spec fn spec_stakes_page(t: StakeableToken, staker: Key, hi: nat, lo: nat) -> Seq<Seq<u32>>
    decreases hi - lo,
{
    if lo >= hi {
        Seq::empty()
    } else {
        let rest = spec_stakes_page(t, staker, hi, lo + 1);
        let id = spec_generate_id(staker, lo, 1);
        if t.stakes@[(staker, id)].staked_amount@ > 0 {
            rest.push(id)
        } else {
            rest
        }
    }
}

/// Whether every referral of `referrer` in the window is stored, and the
/// window fits 32 bits.
pub open spec fn referrals_page_ok(t: StakeableToken, referrer: Key, start: nat, finish: nat) -> bool {
    &&& start <= u32::MAX
    &&& forall|idx: nat| finish <= idx < start ==> t.referrer_links@.contains_key((referrer, #[trigger] spec_generate_id(referrer, idx, 2)))
}

/// The ids of the referrals of `referrer` with indices from `hi - 1` down to
/// `lo` that link a staker, newest first.
pub open spec fn spec_referrals_page(t: StakeableToken, referrer: Key, hi: nat, lo: nat) -> Seq<Seq<u32>>
    decreases hi - lo,
{
    if lo >= hi {
        Seq::empty()
    } else {
        let rest = spec_referrals_page(t, referrer, hi, lo + 1);
        let id = spec_generate_id(referrer, lo, 2);
        if t.referrer_links@[(referrer, id)].staker != spec_zero_address() {
            rest.push(id)
        } else {
            rest
        }
    }
}

/// Whether a list of ids holds exactly the given ids, in order.
pub open spec fn ids_are(v: Seq<Vec<u32>>, ids: Seq<Seq<u32>>) -> bool {
    &&& v.len() == ids.len()
    &&& forall|j: int| 0 <= j < v.len() ==> (#[trigger] v[j])@ == ids[j]
}

/// The window of a page, computed.
fn page_window(count: U256, offset: U256, length: U256) -> (r: (U256, U256))
    ensures
        (r.0@, r.1@) == spec_page_window(count@, offset@, length@),
{
    let start = if !offset.is_zero() && count.gt(&offset) {
        match minus(count, offset) {
            Ok(v) => v,
            Err(_) => count,
        }
    } else {
        count
    };
    let finish = if !length.is_zero() && start.gt(&length) {
        match minus(start, length) {
            Ok(v) => v,
            Err(_) => U256::zero(),
        }
    } else {
        U256::zero()
    };
    (start, finish)
}

impl StakeableToken {
    /// The page of stake ids of `staker` from the newest, `offset` back and
    /// `length` long, keeping those that hold tokens, newest first. Refused
    /// when a stake in the window is missing, or when the window passes
    /// 2^32 - 1.
    pub fn stakes_pagination(&self, staker: Key, offset: U256, length: U256) -> (r: Result<Vec<Vec<u32>>, StakeError>)
        ensures
            ({
                let w = spec_page_window(value_or_zero(self.stake_count@, staker), offset@, length@);
                &&& r is Ok <==> stakes_page_ok(*self, staker, w.0, w.1)
                &&& w.0 > u32::MAX ==> r == Err::<Vec<Vec<u32>>, StakeError>(StakeError::Overflow)
                &&& (w.0 <= u32::MAX && r is Err) ==> r == Err::<Vec<Vec<u32>>, StakeError>(StakeError::MissingRecord)
                &&& r matches Ok(v) ==> ids_are(v@, spec_stakes_page(*self, staker, w.0, w.1))
            }),
    {
        let count = read_amount(&self.stake_count, &staker);
        let (start, finish) = page_window(count, offset, length);
        if !start.fits_u64() || start.as_u64() > 0xffff_ffff {
            return Err(StakeError::Overflow);
        }
        let s = start.as_u64();
        let f = finish.as_u64();
        let mut page: Vec<Vec<u32>> = Vec::new();
        let mut idx = s;
        while idx > f
            invariant
                f <= idx <= s,
                s == start@,
                f == finish@,
                s <= u32::MAX,
                (start@, finish@) == spec_page_window(value_or_zero(self.stake_count@, staker), offset@, length@),
                forall|j: nat| idx <= j < s ==> self.stakes@.contains_key((staker, #[trigger] spec_generate_id(staker, j, 1))),
                ids_are(page@, spec_stakes_page(*self, staker, s as nat, idx as nat)),
            decreases idx,
        {
            let i = idx - 1;
            let id = generate_id(&staker, U256::from_u64(i), 1);
            let ghost k = (staker, spec_generate_id(staker, i as nat, 1));
            let ghost before = page@;
            match self.stakes.get(&RecordKey::new(staker, &id)) {
                Some(stake) => {
                    if !stake.staked_amount.is_zero() {
                        page.push(id);
                    }
                },
                None => {
                    proof {
                        assert(!self.stakes@.contains_key(k));
                    }
                    return Err(StakeError::MissingRecord);
                },
            }
            proof {
                assert(spec_stakes_page(*self, staker, s as nat, i as nat) == {
                    let rest = spec_stakes_page(*self, staker, s as nat, idx as nat);
                    if self.stakes@[k].staked_amount@ > 0 { rest.push(k.1) } else { rest }
                });
                assert forall|j: int| 0 <= j < page@.len() implies (#[trigger] page@[j])@ == spec_stakes_page(*self, staker, s as nat, i as nat)[j] by {
                    if j < before.len() {
                        assert(page@[j] == before[j]);
                    }
                }
            }
            idx = i;
        }
        Ok(page)
    }

    /// The page of referral ids of `referrer` from the newest, `offset` back
    /// and `length` long, keeping those that link a staker, newest first.
    /// Refused when a referral in the window is missing, or when the window
    /// passes 2^32 - 1.
    pub fn referrals_pagination(&self, referrer: Key, offset: U256, length: U256) -> (r: Result<Vec<Vec<u32>>, StakeError>)
        ensures
            ({
                let w = spec_page_window(value_or_zero(self.referral_count@, referrer), offset@, length@);
                &&& r is Ok <==> referrals_page_ok(*self, referrer, w.0, w.1)
                &&& w.0 > u32::MAX ==> r == Err::<Vec<Vec<u32>>, StakeError>(StakeError::Overflow)
                &&& (w.0 <= u32::MAX && r is Err) ==> r == Err::<Vec<Vec<u32>>, StakeError>(StakeError::MissingRecord)
                &&& r matches Ok(v) ==> ids_are(v@, spec_referrals_page(*self, referrer, w.0, w.1))
            }),
    {
        let count = read_amount(&self.referral_count, &referrer);
        let (start, finish) = page_window(count, offset, length);
        if !start.fits_u64() || start.as_u64() > 0xffff_ffff {
            return Err(StakeError::Overflow);
        }
        let s = start.as_u64();
        let f = finish.as_u64();
        let mut page: Vec<Vec<u32>> = Vec::new();
        let mut idx = s;
        while idx > f
            invariant
                f <= idx <= s,
                s == start@,
                f == finish@,
                s <= u32::MAX,
                (start@, finish@) == spec_page_window(value_or_zero(self.referral_count@, referrer), offset@, length@),
                forall|j: nat| idx <= j < s ==> self.referrer_links@.contains_key((referrer, #[trigger] spec_generate_id(referrer, j, 2))),
                ids_are(page@, spec_referrals_page(*self, referrer, s as nat, idx as nat)),
            decreases idx,
        {
            let i = idx - 1;
            let id = generate_id(&referrer, U256::from_u64(i), 2);
            let ghost k = (referrer, spec_generate_id(referrer, i as nat, 2));
            let ghost before = page@;
            match self.referrer_links.get(&RecordKey::new(referrer, &id)) {
                Some(link) => {
                    if non_zero_address(&link.staker) {
                        page.push(id);
                    }
                },
                None => {
                    proof {
                        assert(!self.referrer_links@.contains_key(k));
                    }
                    return Err(StakeError::MissingRecord);
                },
            }
            proof {
                assert(spec_referrals_page(*self, referrer, s as nat, i as nat) == {
                    let rest = spec_referrals_page(*self, referrer, s as nat, idx as nat);
                    if self.referrer_links@[k].staker != spec_zero_address() { rest.push(k.1) } else { rest }
                });
                assert forall|j: int| 0 <= j < page@.len() implies (#[trigger] page@[j])@ == spec_referrals_page(*self, referrer, s as nat, i as nat)[j] by {
                    if j < before.len() {
                        assert(page@[j] == before[j]);
                    }
                }
            }
            idx = i;
        }
        Ok(page)
    }
}

} // verus!
