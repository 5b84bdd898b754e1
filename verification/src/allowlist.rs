//! The custody services that an account trusts.

use crate::index::{index_group, index_lists};
use crate::market::Contract;
use crate::model::MarketState;
use crate::types::MarketError;
use vstd::prelude::*;

verus! {

/// The number of bytes that the deposit for one trusted custody service pays for.
pub const CONTRACT_ID_BYTES: u128 = 10;

/// Why `add_contract_for_account` is refused, if it is: the deposit does not
/// pay for [`CONTRACT_ID_BYTES`] bytes at `storage_byte_cost` each.
pub open spec fn add_contract_refusal(attached_deposit: u128, storage_byte_cost: u128) -> Option<
    MarketError,
> {
    if attached_deposit < CONTRACT_ID_BYTES * storage_byte_cost {
        Some(MarketError::ContractDepositTooLow)
    } else {
        None
    }
}

/// Why `remove_contract_for_account` is refused in the state `s`, if it is.
pub open spec fn remove_contract_refusal(
    s: MarketState,
    account_id: Seq<char>,
    attached_deposit: u128,
    nft_contract_id: Seq<char>,
) -> Option<MarketError> {
    if attached_deposit != 1 {
        Some(MarketError::RequiresOneYocto)
    } else if !s.contract_ids_by_account_id.contains_key(account_id) {
        Some(MarketError::UnknownAccount)
    } else if !index_lists(s.contract_ids_by_account_id, account_id, nft_contract_id) {
        Some(MarketError::UnknownContract)
    } else {
        None
    }
}

impl Contract {
    /// Records that `account_id` trusts the custody service `nft_contract_id`.
    ///
    /// `storage_byte_cost` is what the host charges for storing one byte. Fails
    /// with `ContractDepositTooLow`, changing nothing, where `attached_deposit`
    /// does not pay for [`CONTRACT_ID_BYTES`] bytes.
    pub fn add_contract_for_account(
        &mut self,
        nft_contract_id: String,
        account_id: &String,
        attached_deposit: u128,
        storage_byte_cost: u128,
    ) -> (res: Result<(), MarketError>)
        requires
            old(self).wf(),
        ensures
            final(self).wf(),
            match res {
                Ok(()) => {
                    &&& add_contract_refusal(attached_deposit, storage_byte_cost) is None
                    &&& final(self)@ == old(self)@.trust(account_id@, nft_contract_id@)
                },
                Err(e) => {
                    &&& add_contract_refusal(attached_deposit, storage_byte_cost) == Some(e)
                    &&& final(self)@ == old(self)@
                },
            },
    {
        let paid = match CONTRACT_ID_BYTES.checked_mul(storage_byte_cost) {
            Some(needed) => attached_deposit >= needed,
            None => false,
        };
        if !paid {
            return Err(MarketError::ContractDepositTooLow);
        }
        self.trust(account_id, nft_contract_id);
        Ok(())
    }

    /// Records that `account_id` no longer trusts the custody service
    /// `nft_contract_id`; an account that trusts none is forgotten.
    pub fn remove_contract_for_account(
        &mut self,
        nft_contract_id: &String,
        account_id: &String,
        attached_deposit: u128,
    ) -> (res: Result<(), MarketError>)
        requires
            old(self).wf(),
        ensures
            final(self).wf(),
            match res {
                Ok(()) => {
                    &&& remove_contract_refusal(
                        old(self)@,
                        account_id@,
                        attached_deposit,
                        nft_contract_id@,
                    ) is None
                    &&& final(self)@ == old(self)@.distrust(account_id@, nft_contract_id@)
                },
                Err(e) => {
                    &&& remove_contract_refusal(
                        old(self)@,
                        account_id@,
                        attached_deposit,
                        nft_contract_id@,
                    ) == Some(e)
                    &&& final(self)@ == old(self)@
                },
            },
    {
        if attached_deposit != 1 {
            return Err(MarketError::RequiresOneYocto);
        }
        if !self.trusted().contains_group(account_id) {
            return Err(MarketError::UnknownAccount);
        }
        if !self.trusted().lists(account_id, nft_contract_id) {
            return Err(MarketError::UnknownContract);
        }
        self.distrust(account_id, nft_contract_id);
        Ok(())
    }

    /// The custody services that `account_id` trusts, in the order of the index.
    pub fn get_contract_ids_for_account(&self, account_id: &String) -> (ids: Vec<String>)
        requires
            self.wf(),
        ensures
            ids@.map_values(|id: String| id@) == index_group(
                self@.contract_ids_by_account_id,
                account_id@,
            ),
    {
        self.trusted().members(account_id)
    }
}

} // verus!
