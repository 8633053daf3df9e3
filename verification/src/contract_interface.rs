use vstd::prelude::*;
use crate::contract::{Address, ContractView};
use crate::entry::{
    claim_outcome, preview_outcome, stake_outcome, unstake_outcome, Host, Receipt,
};
use crate::error::Error;
use crate::stake::StakeView;
use crate::transfer::{claim_transfers, stake_transfers, unstake_transfers};

verus! {

/// The entry points of the staking contract. An entry point takes what the
/// host reports to the invocation, decides, updates the position and
/// returns the token calls to make; a refused call changes nothing.
pub trait ChrysalisContractTrait: View<V = ContractView> + Sized {
    /// Stores the addresses of the two token contracts. A later call
    /// replaces the earlier configuration.
    fn initialize_contract(&mut self, staked_token_address: Address, steth_address: Address)
        ensures
            final(self)@ == old(self)@.configured(staked_token_address, steth_address),
    ;

    /// The amount that `user` has staked, zero for a user without a
    /// position.
    fn get_stake_amount(&self, user: Address) -> (amount: i128)
        ensures
            amount == self@.position(user).amount,
    ;

    /// Locks `amount` of the staked asset for `user` and issues the same
    /// amount of the derivative. `balance` is the answer of the staked-asset
    /// contract to the balance query for `user`, `None` if that call failed.
    fn stake_eth(&mut self, host: &Host, user: Address, amount: i128, balance: Option<i128>)
        -> (result: Result<Receipt, Error>)
        ensures
            match result {
                Ok(receipt) => {
                    &&& stake_outcome(
                        *host,
                        old(self)@.initialized(),
                        old(self)@.position(user),
                        amount as int,
                        balance,
                    ) == Ok::<StakeView, Error>(receipt.position@)
                    &&& final(self)@ == old(self)@.with_position(user, receipt.position@)
                    &&& receipt.reward == 0
                    &&& receipt.transfers@ == stake_transfers(amount)
                },
                Err(e) => {
                    &&& stake_outcome(
                        *host,
                        old(self)@.initialized(),
                        old(self)@.position(user),
                        amount as int,
                        balance,
                    ) == Err::<StakeView, Error>(e)
                    &&& final(self)@ == old(self)@
                },
            },
    ;

    /// Takes `amount` of the derivative back from `user` and releases the
    /// same amount of the staked asset.
    fn unstake_eth(&mut self, host: &Host, user: Address, amount: i128) -> (result: Result<
        Receipt,
        Error,
    >)
        ensures
            match result {
                Ok(receipt) => {
                    &&& unstake_outcome(
                        *host,
                        old(self)@.initialized(),
                        old(self)@.position(user),
                        amount as int,
                    ) == Ok::<StakeView, Error>(receipt.position@)
                    &&& final(self)@ == old(self)@.with_position(user, receipt.position@)
                    &&& receipt.reward == 0
                    &&& receipt.transfers@ == unstake_transfers(amount)
                },
                Err(e) => {
                    &&& unstake_outcome(
                        *host,
                        old(self)@.initialized(),
                        old(self)@.position(user),
                        amount as int,
                    ) == Err::<StakeView, Error>(e)
                    &&& final(self)@ == old(self)@
                },
            },
    ;

    /// Pays `user` the reward accrued since the last update at `rate`
    /// percent per `TIME_UNIT`, credits it to the position and restarts the
    /// accrual clock at the ledger time.
    fn claim(&mut self, host: &Host, user: Address, rate: i128) -> (result: Result<
        Receipt,
        Error,
    >)
        ensures
            match result {
                Ok(receipt) => {
                    &&& claim_outcome(
                        *host,
                        old(self)@.initialized(),
                        old(self)@.position(user),
                        rate as int,
                    ) == Ok::<(StakeView, int), Error>((receipt.position@, receipt.reward as int))
                    &&& final(self)@ == old(self)@.with_position(user, receipt.position@)
                    &&& receipt.reward >= 0
                    &&& receipt.transfers@ == claim_transfers(receipt.reward)
                },
                Err(e) => {
                    &&& claim_outcome(
                        *host,
                        old(self)@.initialized(),
                        old(self)@.position(user),
                        rate as int,
                    ) == Err::<(StakeView, int), Error>(e)
                    &&& final(self)@ == old(self)@
                },
            },
    ;

    /// The reward that `claim` would pay `user` at ledger time `now`. Reads
    /// only: the instance stays as it is.
    fn vclaim(&self, user: Address, rate: i128, now: u64) -> (result: Result<i128, Error>)
        ensures
            match result {
                Ok(reward) => preview_outcome(self@.position(user), rate as int, now as int)
                    == Ok::<int, Error>(reward as int) && reward >= 0,
                Err(e) => preview_outcome(self@.position(user), rate as int, now as int) == Err::<
                    int,
                    Error,
                >(e),
            },
    ;
}

} // verus!
