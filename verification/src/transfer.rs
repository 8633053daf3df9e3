use vstd::prelude::*;

verus! {

/// The two token contracts that the staking contract talks to.
#[derive(Clone, Copy, Debug, PartialEq, Eq, Structural)]
pub enum Token {
    /// The asset that users lock.
    Staked,
    /// The derivative asset that stands for a staked position and in which
    /// rewards are paid.
    Reward,
}

/// The two holders between which an entry point moves tokens.
#[derive(Clone, Copy, Debug, PartialEq, Eq, Structural)]
pub enum Party {
    /// The user on whose behalf the entry point runs.
    User,
    /// The staking contract's own custody.
    Contract,
}

/// One `transfer(from, to, amount)` call that the host is to make on a
/// token contract. The derivative token is held in custody and moved by
/// transfer in both directions; nothing is minted or burnt.
#[derive(Clone, Copy, Debug, PartialEq, Eq, Structural)]
pub struct Transfer {
    pub token: Token,
    pub from: Party,
    pub to: Party,
    pub amount: i128,
}

/// The call that moves `amount` of `token` from the user into custody.
pub open spec fn deposit(token: Token, amount: i128) -> Transfer {
    Transfer { token, from: Party::User, to: Party::Contract, amount }
}

/// The call that moves `amount` of `token` out of custody to the user.
pub open spec fn payout(token: Token, amount: i128) -> Transfer {
    Transfer { token, from: Party::Contract, to: Party::User, amount }
}

/// The calls of a stake, in order: the staked asset goes into custody, the
/// same amount of the derivative goes to the user.
pub open spec fn stake_transfers(amount: i128) -> Seq<Transfer> {
    seq![deposit(Token::Staked, amount), payout(Token::Reward, amount)]
}

/// The calls of an unstake, in order: the derivative comes back into
/// custody, the same amount of the staked asset goes to the user.
pub open spec fn unstake_transfers(amount: i128) -> Seq<Transfer> {
    seq![deposit(Token::Reward, amount), payout(Token::Staked, amount)]
}

/// The calls of a claim: the reward is paid out in the derivative; nothing
/// is moved for a reward of zero.
pub open spec fn claim_transfers(reward: i128) -> Seq<Transfer> {
    if reward > 0 {
        seq![payout(Token::Reward, reward)]
    } else {
        Seq::empty()
    }
}

/// What `token` gains in the user's hands through `calls`, custody
/// losing the same.
pub open spec fn user_gain(calls: Seq<Transfer>, token: Token) -> int
    decreases calls.len(),
{
    if calls.len() == 0 {
        0
    } else {
        let call = calls.last();
        let rest = user_gain(calls.drop_last(), token);
        if call.token != token || call.from == call.to {
            rest
        } else if call.to == Party::User {
            rest + call.amount
        } else {
            rest - call.amount
        }
    }
}

} // verus!
