use vstd::prelude::*;

use crate::contract::{value_or_zero, StakeableToken};
use crate::helper::prepare_path;
use crate::key::{contract_hash_of, spec_contract_hash_of, spec_zero_address, zero_address, Key, Purse};
use crate::staking::{spec_create_stake_ok, stake_created};
use crate::timing::spec_day_at;
use crate::types::{minus, plus, StakeError};
use crate::u256::{u256_max, U256};

verus! {

/// What the factory is asked to create the pair with: the factory's contract
/// hash (all zero when its key is not a contract's), the two tokens, and the
/// pair contract to initialize.
pub struct PairCreation {
    pub factory_hash: [u8; 32],
    pub token_a: Key,
    pub token_b: Key,
    pub pair: Key,
}

/// A swap the router is asked for: `amount_in` along `path`, at least
/// `amount_out_min` out, to `to`, before `deadline`.
pub struct SwapRequest {
    pub router: Key,
    pub amount_in: U256,
    pub amount_out_min: U256,
    pub path: Vec<Key>,
    pub to: Key,
    pub deadline: U256,
}

/// Two hours in milliseconds: how long a swap may wait.
pub open spec fn swap_window_ms() -> u64 {
    7_200_000
}

/// The deadline of a swap asked at a block time, wrapping around 2^64 as the
/// contract's 64-bit arithmetic does.
pub open spec fn spec_deadline(blocktime_ms: u64) -> u64 {
    vstd::wrapping::u64_specs::wrapping_add(blocktime_ms, swap_window_ms())
}

/// The lowest top-up of the transformer's purse, in motes, that extends the
/// auction: ten coins, 10^10 motes.
pub open spec fn lt_top_up_motes() -> nat {
    10_000_000_000
}

/// The launch time and the transformer balance after `extend_lt_auction` at
/// a block time, with the transformer purse holding `balance` and
/// `configured` the configured launch time. On day 15, within ten minutes of
/// the launch time plus sixteen days (in milliseconds, wrapping around 2^64),
/// a top-up of at least `lt_top_up_motes` moves the launch ten minutes on and
/// records the balance; past day 15 the launch time goes back to the
/// configured one. `None` when the call is refused: before launch, with a
/// launch time past 2^64 - 1 on day 15, or a balance below the recorded one.
pub open spec fn spec_extend_lt_auction(t: StakeableToken, blocktime_ms: u64, balance: nat, configured: nat) -> Option<(nat, nat)> {
    match spec_day_at(t.launch_time@, blocktime_ms, t.params.seconds_in_day) {
        None => None,
        Some(today) => if today == 15 {
            if t.launch_time@ > u64::MAX {
                None
            } else if vstd::wrapping::u64_specs::wrapping_sub(
                vstd::wrapping::u64_specs::wrapping_add(t.launch_time@ as u64, 1_382_400_000),
                blocktime_ms,
            ) <= 600_000 {
                if balance < t.lt_balance@ {
                    None
                } else if balance - t.lt_balance@ >= lt_top_up_motes() {
                    Some((t.launch_time@ + 600_000, balance))
                } else {
                    Some((t.launch_time@, t.lt_balance@))
                }
            } else {
                Some((t.launch_time@, t.lt_balance@))
            }
        } else if today > 15 {
            Some((configured, t.lt_balance@))
        } else {
            Some((t.launch_time@, t.lt_balance@))
        },
    }
}

impl StakeableToken {
    /// Whether `sender` is the keeper.
    pub fn only_keeper(&self, sender: &Key) -> (r: bool)
        ensures
            r == (*sender == self.transformer_gate_keeper),
    {
        sender.same(&self.transformer_gate_keeper)
    }

    /// The keeper names the liquidity transformer and its purse, and gives up
    /// its role to the zero address, so the transformer is set once. Refused,
    /// with no change, for anyone else.
    pub fn set_liquidity_transfomer(&mut self, caller: Key, immutable_transformer: Key, transformer_purse: Purse) -> (r: Result<(), StakeError>)
        ensures
            r is Ok <==> caller == old(self).transformer_gate_keeper,
            r matches Err(e) ==> e == StakeError::TransformerDefined && *final(self) == *old(self),
            r is Ok ==> *final(self) == (StakeableToken {
                liquidity_transformer: Some(immutable_transformer),
                liquidity_transformer_purse: Some(transformer_purse),
                transformer_gate_keeper: spec_zero_address(),
                ..*old(self)
            }),
    {
        if !self.only_keeper(&caller) {
            return Err(StakeError::TransformerDefined);
        }
        self.liquidity_transformer = Some(immutable_transformer);
        self.liquidity_transformer_purse = Some(transformer_purse);
        self.transformer_gate_keeper = zero_address();
        Ok(())
    }

    /// The keeper names the stable coin price feed; refused, with no change,
    /// for anyone else.
    pub fn set_stable_usd_equivalent(&mut self, caller: Key, equalizer_address: Key) -> (r: Result<(), StakeError>)
        ensures
            r is Ok <==> caller == old(self).transformer_gate_keeper,
            r matches Err(e) ==> e == StakeError::NotKeeper && *final(self) == *old(self),
            r is Ok ==> *final(self) == (StakeableToken { stable_usd_equivalent: Some(equalizer_address), ..*old(self) }),
    {
        if !self.only_keeper(&caller) {
            return Err(StakeError::NotKeeper);
        }
        self.stable_usd_equivalent = Some(equalizer_address);
        Ok(())
    }

    /// The keeper gives up its role: the zero address becomes the keeper.
    /// Refused, with no change, for anyone else.
    pub fn renounce_keeper(&mut self, caller: Key) -> (r: Result<(), StakeError>)
        ensures
            r is Ok <==> caller == old(self).transformer_gate_keeper,
            r matches Err(e) ==> e == StakeError::NotKeeper && *final(self) == *old(self),
            r is Ok ==> *final(self) == (StakeableToken { transformer_gate_keeper: spec_zero_address(), ..*old(self) }),
    {
        if !self.only_keeper(&caller) {
            return Err(StakeError::NotKeeper);
        }
        self.transformer_gate_keeper = zero_address();
        Ok(())
    }

    /// The keeper hands its role to `new_keeper`; refused, with no change,
    /// for anyone else.
    pub fn change_keeper(&mut self, caller: Key, new_keeper: Key) -> (r: Result<(), StakeError>)
        ensures
            r is Ok <==> caller == old(self).transformer_gate_keeper,
            r matches Err(e) ==> e == StakeError::NotKeeper && *final(self) == *old(self),
            r is Ok ==> *final(self) == (StakeableToken { transformer_gate_keeper: new_keeper, ..*old(self) }),
    {
        if !self.only_keeper(&caller) {
            return Err(StakeError::NotKeeper);
        }
        self.transformer_gate_keeper = new_keeper;
        Ok(())
    }

    /// The liquidity transformer mints tokens to an investor. Refused, with no
    /// change, for anyone else, before a transformer is named, or when the
    /// supply or the balance would pass 2^256 - 1.
    pub fn mint_supply(&mut self, caller: Key, investor_address: Key, amount: U256) -> (r: Result<(), StakeError>)
        ensures
            ({
                let allowed = old(self).liquidity_transformer == Some(caller);
                &&& r is Ok <==> (allowed && old(self).total_supply@ + amount@ <= u256_max()
                    && value_or_zero(old(self).balances@, investor_address) + amount@ <= u256_max())
                &&& !allowed ==> r == Err::<(), StakeError>(StakeError::NotLiquidityTransformer)
                &&& r is Err ==> *final(self) == *old(self)
                &&& r is Ok ==> final(self).total_supply@ == old(self).total_supply@ + amount@
                &&& r is Ok ==> final(self).balances@ == old(self).balances@.insert(investor_address, final(self).balances@[investor_address])
                &&& r is Ok ==> final(self).balances@[investor_address]@ == value_or_zero(old(self).balances@, investor_address) + amount@
                &&& *final(self) == (StakeableToken { balances: final(self).balances, total_supply: final(self).total_supply, ..*old(self) })
            }),
    {
        let allowed = match self.liquidity_transformer {
            Some(t) => t.same(&caller),
            None => false,
        };
        if !allowed {
            return Err(StakeError::NotLiquidityTransformer);
        }
        self.mint(&investor_address, amount)
    }

    /// Records the pair as the contract's liquidity pair, and returns what the
    /// factory is asked to initialize it with.
    pub fn create_pair(&mut self) -> (r: PairCreation)
        ensures
            r.factory_hash == spec_contract_hash_of(old(self).addresses.factory),
            r.token_a == old(self).addresses.scspr,
            r.token_b == old(self).addresses.self_hash,
            r.pair == old(self).addresses.pair,
            *final(self) == (StakeableToken { uniswap_pair: Some(old(self).addresses.pair), ..*old(self) }),
    {
        let factory_hash = contract_hash_of(&self.addresses.factory);
        let pair = self.addresses.pair;
        self.uniswap_pair = Some(pair);
        PairCreation { factory_hash, token_a: self.addresses.scspr, token_b: self.addresses.self_hash, pair }
    }

    /// The liquidity pair; refused before it was created.
    pub fn get_pair_address(&self) -> (r: Result<Key, StakeError>)
        ensures
            r is Ok <==> self.uniswap_pair is Some,
            r matches Ok(k) ==> self.uniswap_pair == Some(k),
    {
        match self.uniswap_pair {
            Some(p) => Ok(p),
            None => Err(StakeError::MissingRecord),
        }
    }

    /// The amount staked in total.
    pub fn get_total_staked(&self) -> (r: U256)
        ensures
            r == self.globals.total_staked,
    {
        self.globals.total_staked
    }

    /// The liquidity transformer; refused before one was named.
    pub fn get_liquidity_transformer(&self) -> (r: Result<Key, StakeError>)
        ensures
            r is Ok <==> self.liquidity_transformer is Some,
            r matches Ok(k) ==> self.liquidity_transformer == Some(k),
    {
        match self.liquidity_transformer {
            Some(k) => Ok(k),
            None => Err(StakeError::MissingRecord),
        }
    }

    /// The synthetic coin's token.
    pub fn get_synthetic_token_address(&self) -> (r: Key)
        ensures
            r == self.addresses.scspr,
    {
        self.addresses.scspr
    }

    /// Extends the liquidity transformer's auction while it is still being
    /// topped up, given the balance of the transformer's purse and the
    /// configured launch time; see `spec_extend_lt_auction`.
    pub fn extend_lt_auction(&mut self, blocktime_ms: u64, transformer_balance: u128, configured_launch_time: U256) -> (r: Result<(), StakeError>)
        ensures
            ({
                let out = spec_extend_lt_auction(*old(self), blocktime_ms, transformer_balance as nat, configured_launch_time@);
                &&& r is Ok <==> out is Some
                &&& r is Err ==> *final(self) == *old(self)
                &&& r is Ok ==> final(self).launch_time@ == out.unwrap().0 && final(self).lt_balance@ == out.unwrap().1
                    && *final(self) == (StakeableToken {
                        launch_time: final(self).launch_time,
                        lt_balance: final(self).lt_balance,
                        ..*old(self)
                    })
            }),
    {
        let today = self.current_stakeable_day_only(blocktime_ms)?;
        if today == 15 {
            if !self.launch_time.fits_u64() {
                return Err(StakeError::Overflow);
            }
            let launch_ms = self.launch_time.as_u64();
            let gap = launch_ms.wrapping_add(1_382_400_000).wrapping_sub(blocktime_ms);
            if gap <= 600_000 {
                let balance = U256::from_u128(transformer_balance);
                let top_up = minus(balance, self.lt_balance)?;
                if top_up.ge(&U256::from_u64(10_000_000_000)) {
                    let launch = plus(self.launch_time, U256::from_u64(600_000))?;
                    self.lt_balance = balance;
                    self.launch_time = launch;
                }
            }
        } else if today > 15 {
            self.launch_time = configured_launch_time;
        }
        Ok(())
    }

    /// The swap that turns coins sent by `caller` into the token: `amount`
    /// along the wrapped coin, the synthetic coin and this token, at least one
    /// whole token out, to the caller, within two hours. Refused when the
    /// amount does not fit a purse transfer (2^128 - 1).
    pub fn cspr_swap_request(&self, caller: Key, amount: U256, blocktime_ms: u64, router: Key) -> (r: Result<SwapRequest, StakeError>)
        ensures
            r is Ok <==> amount@ <= u128::MAX,
            r matches Ok(q) ==> q.router == router && q.amount_in == amount
                && q.amount_out_min == self.params.yodas_per_wise
                && q.path@ == seq![self.addresses.wcspr, self.addresses.scspr, self.addresses.self_hash]
                && q.to == caller && q.deadline@ == spec_deadline(blocktime_ms),
    {
        if !amount.fits_u128() {
            return Err(StakeError::Overflow);
        }
        let path = prepare_path(self.addresses.wcspr, self.addresses.scspr, self.addresses.self_hash);
        Ok(SwapRequest {
            router,
            amount_in: amount,
            amount_out_min: self.params.yodas_per_wise,
            path,
            to: caller,
            deadline: U256::from_u64(blocktime_ms.wrapping_add(7_200_000)),
        })
    }

    /// The swap that turns tokens of `token_address` sent by `caller` into
    /// the token: along the wrapped coin, the synthetic coin and this token,
    /// at least one whole token out, to the caller, within two hours.
    pub fn token_swap_request(&self, caller: Key, token_address: Key, token_amount: U256, blocktime_ms: u64, router: Key) -> (r: SwapRequest)
        ensures
            r.router == router && r.amount_in == token_amount
                && r.amount_out_min == self.params.yodas_per_wise
                && r.path@ == seq![token_address, self.addresses.wcspr, self.addresses.scspr, self.addresses.self_hash]
                && r.to == caller && r.deadline@ == spec_deadline(blocktime_ms),
    {
        let mut path: Vec<Key> = Vec::new();
        path.push(token_address);
        path.push(self.addresses.wcspr);
        path.push(self.addresses.scspr);
        path.push(self.addresses.self_hash);
        assert(path@ =~= seq![token_address, self.addresses.wcspr, self.addresses.scspr, self.addresses.self_hash]);
        SwapRequest {
            router,
            amount_in: token_amount,
            amount_out_min: self.params.yodas_per_wise,
            path,
            to: caller,
            deadline: U256::from_u64(blocktime_ms.wrapping_add(7_200_000)),
        }
    }
    /// Creates a stake of `caller` with the tokens a swap of coins bought: the
    /// router's amounts `amounts` along the three-token path, the last of
    /// which is staked. Refused, with no change, when the router answered
    /// with fewer than three amounts; otherwise as `create_stake`.
    pub fn create_stake_with_cspr(
        &mut self,
        caller: Key,
        lock_days: u64,
        referrer: Key,
        amounts: &Vec<U256>,
        stable_usd_equivalent: U256,
        blocktime_ms: u64,
    ) -> (r: Result<(Vec<u32>, U256, Vec<u32>), StakeError>)
        ensures
            amounts.len() < 3 ==> r == Err::<(Vec<u32>, U256, Vec<u32>), StakeError>(StakeError::InvalidArgument) && *final(self) == *old(self),
            amounts.len() >= 3 ==> (r is Ok <==> spec_create_stake_ok(*old(self), caller, amounts@[2]@, lock_days, referrer, stable_usd_equivalent@, blocktime_ms)),
            r is Err ==> *final(self) == *old(self),
            r matches Ok((id, start, rid)) ==> stake_created(*old(self), *final(self), caller, amounts@[2]@, lock_days, referrer,
                stable_usd_equivalent@, blocktime_ms, id@, start@, rid@),
    {
        if amounts.len() < 3 {
            return Err(StakeError::InvalidArgument);
        }
        self.create_stake(caller, amounts[2], lock_days, referrer, stable_usd_equivalent, blocktime_ms)
    }

    /// Creates a stake of `caller` with the tokens a swap of another token
    /// bought: the router's amounts `amounts` along the four-token path, the
    /// last of which is staked. Refused, with no change, when the router
    /// answered with fewer than four amounts; otherwise as `create_stake`.
    pub fn create_stake_with_token(
        &mut self,
        caller: Key,
        lock_days: u64,
        referrer: Key,
        amounts: &Vec<U256>,
        stable_usd_equivalent: U256,
        blocktime_ms: u64,
    ) -> (r: Result<(Vec<u32>, U256, Vec<u32>), StakeError>)
        ensures
            amounts.len() < 4 ==> r == Err::<(Vec<u32>, U256, Vec<u32>), StakeError>(StakeError::InvalidArgument) && *final(self) == *old(self),
            amounts.len() >= 4 ==> (r is Ok <==> spec_create_stake_ok(*old(self), caller, amounts@[3]@, lock_days, referrer, stable_usd_equivalent@, blocktime_ms)),
            r is Err ==> *final(self) == *old(self),
            r matches Ok((id, start, rid)) ==> stake_created(*old(self), *final(self), caller, amounts@[3]@, lock_days, referrer,
                stable_usd_equivalent@, blocktime_ms, id@, start@, rid@),
    {
        if amounts.len() < 4 {
            return Err(StakeError::InvalidArgument);
        }
        self.create_stake(caller, amounts[3], lock_days, referrer, stable_usd_equivalent, blocktime_ms)
    }
}

} // verus!
