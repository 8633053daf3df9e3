use vstd::prelude::*;
use crate::error::Error;
use crate::stake::{Stake, StakeView};
use crate::transfer::{
    claim_transfers, stake_transfers, unstake_transfers, Party, Token, Transfer,
};

verus! {

/// What the host reports to one invocation.
#[derive(Clone, Copy, Debug, PartialEq, Eq, Structural)]
pub struct Host {
    /// Whether the authorization subsystem accepted the caller as the user
    /// that the call names.
    pub authorized: bool,
    /// The ledger clock.
    pub timestamp: u64,
}

/// What a successful entry point hands back to the host: the position to
/// persist, the reward that the call pays, and the token calls to make, in
/// order. If one of the calls fails the host drops the whole transaction,
/// the position included.
#[derive(Debug, PartialEq, Eq)]
pub struct Receipt {
    pub position: Stake,
    pub reward: i128,
    pub transfers: Vec<Transfer>,
}

/// The position that a storage entry stands for: a user without an entry
/// has the empty position.
pub open spec fn position_of(stored: Option<Stake>) -> StakeView {
    match stored {
        Some(stake) => stake@,
        None => StakeView::empty(),
    }
}

/// The check that opens every entry point which changes state:
/// authorization comes first, then the configuration.
pub open spec fn admission(host: Host, initialized: bool) -> Result<(), Error> {
    if !host.authorized {
        Err(Error::Unauthorized)
    } else if !initialized {
        Err(Error::NotInitialized)
    } else {
        Ok(())
    }
}

/// The position after `stake`, or the error that refuses the call.
/// `balance` is the answer of the staked-asset contract to the balance
/// query for the user, `None` if that call failed.
pub open spec fn stake_outcome(
    host: Host,
    initialized: bool,
    position: StakeView,
    amount: int,
    balance: Option<i128>,
) -> Result<StakeView, Error> {
    match admission(host, initialized) {
        Err(e) => Err(e),
        Ok(_) => if amount <= 0 {
            Err(Error::InvalidAmount)
        } else if balance is None {
            Err(Error::ExternalCallFailed)
        } else if balance.unwrap() < amount {
            Err(Error::InsufficientBalance)
        } else {
            position.credit(amount, host.timestamp as int)
        },
    }
}

/// The position after `unstake`, or the error that refuses the call.
pub open spec fn unstake_outcome(
    host: Host,
    initialized: bool,
    position: StakeView,
    amount: int,
) -> Result<StakeView, Error> {
    match admission(host, initialized) {
        Err(e) => Err(e),
        Ok(_) => position.debit(amount),
    }
}

/// The position after `claim` together with the reward, or the error that
/// refuses the call.
pub open spec fn claim_outcome(
    host: Host,
    initialized: bool,
    position: StakeView,
    rate: int,
) -> Result<(StakeView, int), Error> {
    match admission(host, initialized) {
        Err(e) => Err(e),
        Ok(_) => position.settle(rate, host.timestamp as int),
    }
}

/// What `preview_claim` returns: the reward that `claim` would pay at
/// `now`. It needs neither authorization nor the configuration.
pub open spec fn preview_outcome(position: StakeView, rate: int, now: int) -> Result<int, Error> {
    match position.settle(rate, now) {
        Err(e) => Err(e),
        Ok((_, reward)) => Ok(reward),
    }
}

fn check_admission(host: &Host, initialized: bool) -> (result: Result<(), Error>)
    ensures
        result == admission(*host, initialized),
{
    if !host.authorized {
        Err(Error::Unauthorized)
    } else if !initialized {
        Err(Error::NotInitialized)
    } else {
        Ok(())
    }
}

fn load(stored: Option<Stake>) -> (stake: Stake)
    ensures
        stake@ == position_of(stored),
{
    match stored {
        Some(stake) => stake,
        None => Stake::default(),
    }
}

/// The amount staked in a storage entry, zero where there is none.
pub fn get_stake(stored: Option<Stake>) -> (amount: i128)
    ensures
        amount == position_of(stored).amount,
        amount >= 0,
{
    load(stored).amount()
}

/// Locks `amount` of the staked asset for the user and issues the same
/// amount of the derivative.
pub fn stake(
    host: &Host,
    initialized: bool,
    stored: Option<Stake>,
    amount: i128,
    balance: Option<i128>,
) -> (result: Result<Receipt, Error>)
    ensures
        match result {
            Ok(receipt) => {
                &&& stake_outcome(*host, initialized, position_of(stored), amount as int, balance)
                    == Ok::<StakeView, Error>(receipt.position@)
                &&& receipt.reward == 0
                &&& receipt.transfers@ == stake_transfers(amount)
            },
            Err(e) => stake_outcome(*host, initialized, position_of(stored), amount as int, balance)
                == Err::<StakeView, Error>(e),
        },
{
    check_admission(host, initialized)?;
    if amount <= 0 {
        return Err(Error::InvalidAmount);
    }
    let available = match balance {
        None => {
            return Err(Error::ExternalCallFailed);
        },
        Some(available) => available,
    };
    if available < amount {
        return Err(Error::InsufficientBalance);
    }
    let position = load(stored).credit(amount, host.timestamp)?;
    let mut transfers: Vec<Transfer> = Vec::new();
    transfers.push(
        Transfer { token: Token::Staked, from: Party::User, to: Party::Contract, amount },
    );
    transfers.push(
        Transfer { token: Token::Reward, from: Party::Contract, to: Party::User, amount },
    );
    Ok(Receipt { position, reward: 0, transfers })
}

/// Takes the derivative back from the user and releases the same amount
/// of the staked asset.
pub fn unstake(host: &Host, initialized: bool, stored: Option<Stake>, amount: i128) -> (result:
    Result<Receipt, Error>)
    ensures
        match result {
            Ok(receipt) => {
                &&& unstake_outcome(*host, initialized, position_of(stored), amount as int)
                    == Ok::<StakeView, Error>(receipt.position@)
                &&& receipt.reward == 0
                &&& receipt.transfers@ == unstake_transfers(amount)
            },
            Err(e) => unstake_outcome(*host, initialized, position_of(stored), amount as int)
                == Err::<StakeView, Error>(e),
        },
{
    check_admission(host, initialized)?;
    let position = load(stored).debit(amount)?;
    let mut transfers: Vec<Transfer> = Vec::new();
    transfers.push(
        Transfer { token: Token::Reward, from: Party::User, to: Party::Contract, amount },
    );
    transfers.push(
        Transfer { token: Token::Staked, from: Party::Contract, to: Party::User, amount },
    );
    Ok(Receipt { position, reward: 0, transfers })
}

/// Pays the reward accrued since the last update, credits it to the
/// position and restarts the accrual clock at the ledger time, whether or
/// not the reward is zero.
pub fn claim(host: &Host, initialized: bool, stored: Option<Stake>, rate: i128) -> (result: Result<
    Receipt,
    Error,
>)
    ensures
        match result {
            Ok(receipt) => {
                &&& claim_outcome(*host, initialized, position_of(stored), rate as int) == Ok::<
                    (StakeView, int),
                    Error,
                >((receipt.position@, receipt.reward as int))
                &&& receipt.reward >= 0
                &&& receipt.transfers@ == claim_transfers(receipt.reward)
            },
            Err(e) => claim_outcome(*host, initialized, position_of(stored), rate as int) == Err::<
                (StakeView, int),
                Error,
            >(e),
        },
{
    check_admission(host, initialized)?;
    let (position, reward) = load(stored).settle(rate, host.timestamp)?;
    let mut transfers: Vec<Transfer> = Vec::new();
    if reward > 0 {
        transfers.push(
            Transfer { token: Token::Reward, from: Party::Contract, to: Party::User, amount: reward },
        );
    }
    Ok(Receipt { position, reward, transfers })
}

/// The reward that `claim` would pay at `now`. Reads only.
pub fn preview_claim(stored: Option<Stake>, rate: i128, now: u64) -> (result: Result<i128, Error>)
    ensures
        match result {
            Ok(reward) => preview_outcome(position_of(stored), rate as int, now as int) == Ok::<
                int,
                Error,
            >(reward as int) && reward >= 0,
            Err(e) => preview_outcome(position_of(stored), rate as int, now as int) == Err::<
                int,
                Error,
            >(e),
        },
{
    match load(stored).settle(rate, now) {
        Err(e) => Err(e),
        Ok((_, reward)) => Ok(reward),
    }
}

} // verus!
