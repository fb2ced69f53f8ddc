use vstd::prelude::*;

use crate::key::{contract_hash_of, spec_contract_hash_of, Key};
use crate::types::StakeError;
use crate::u256::U256;

verus! {

/// A contract that forwards tokens it holds to the one account allowed to
/// ask for them.
pub struct TransferHelper {
    pub self_hash: Key,
    pub transfer_invoker: Key,
}

/// A token transfer to make: `amount` of the token at `token_hash` to `recipient`.
pub struct TokenTransfer {
    pub token_hash: [u8; 32],
    pub recipient: Key,
    pub amount: U256,
}

impl TransferHelper {
    /// A helper that forwards to `transfer_invoker`.
    pub fn new(self_hash: Key, transfer_invoker: Key) -> (r: TransferHelper)
        ensures
            r.self_hash == self_hash,
            r.transfer_invoker == transfer_invoker,
    {
        TransferHelper { self_hash, transfer_invoker }
    }

    /// The transfer that forwards `forward_amount` of a token to the invoker,
    /// when the invoker asks; refused for anyone else.
    pub fn forward_funds(&self, caller: Key, token_address: Key, forward_amount: U256) -> (r: Result<TokenTransfer, StakeError>)
        ensures
            r is Ok <==> caller == self.transfer_invoker,
            r matches Err(e) ==> e == StakeError::NoAccessRights,
            r matches Ok(t) ==> t.token_hash == spec_contract_hash_of(token_address) && t.recipient == self.transfer_invoker
                && t.amount == forward_amount,
    {
        if !caller.same(&self.transfer_invoker) {
            return Err(StakeError::NoAccessRights);
        }
        Ok(TokenTransfer { token_hash: contract_hash_of(&token_address), recipient: self.transfer_invoker, amount: forward_amount })
    }

    /// The account the helper forwards to.
    pub fn get_transfer_invoker_address(&self) -> (r: Key)
        ensures
            r == self.transfer_invoker,
    {
        self.transfer_invoker
    }
}

} // verus!
