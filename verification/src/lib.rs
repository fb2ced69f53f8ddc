//! A verified model of the stakeable token: staking, referral and liquidity
//! rewards, daily snapshots and the liquidity guard, with the 256-bit amounts of
//! the ledger and contracts that state what every operation does.

pub mod u256;
pub mod key;
pub mod dict;
pub mod types;
pub mod helper;
pub mod shares;
pub mod globals;
pub mod contract;
pub mod timing;
pub mod guard;
pub mod snapshot;
pub mod token;
pub mod ids;
pub mod rewards;
pub mod interest;
pub mod liquidity;
pub mod stable;
pub mod admin;
pub mod batch;
pub mod pages;
pub mod transfer;
pub mod bytes;
pub mod laws;

pub mod referral;
pub mod schedule;
pub mod staking;
pub mod daily;
