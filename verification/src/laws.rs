//! What holds of the ledger over every input: statements that relate
//! several entry points, each proved from the spec functions that the
//! entry points' own contracts are written in.

use vstd::prelude::*;
use crate::contract::{Address, ContractView};
use crate::entry::{claim_outcome, preview_outcome, stake_outcome, unstake_outcome, Host};
use crate::error::Error;
use crate::reward::{lemma_reward_monotonic, lemma_reward_nonnegative, valid_rate};
use crate::stake::StakeView;
use crate::transfer::{
    claim_transfers, stake_transfers, unstake_transfers, user_gain, Token,
};

verus! {

/// One call of `stake_eth` or `unstake_eth`, with what the host reported
/// to it.
pub enum Call {
    Stake { host: Host, amount: int, balance: Option<i128> },
    Unstake { host: Host, amount: int },
}

/// The position that `call` leaves `user` with, if the call is carried
/// out.
pub open spec fn outcome(contract: ContractView, user: Address, call: Call) -> Result<
    StakeView,
    Error,
> {
    match call {
        Call::Stake { host, amount, balance } => stake_outcome(
            host,
            contract.initialized(),
            contract.position(user),
            amount,
            balance,
        ),
        Call::Unstake { host, amount } => unstake_outcome(
            host,
            contract.initialized(),
            contract.position(user),
            amount,
        ),
    }
}

/// The instance after `user` has made `call`: as `stake_eth` and
/// `unstake_eth` leave it, unchanged where the call is refused.
pub open spec fn step(contract: ContractView, user: Address, call: Call) -> ContractView {
    match outcome(contract, user, call) {
        Ok(position) => contract.with_position(user, position),
        Err(_) => contract,
    }
}

/// What `call` adds to the stake of `user`: the amount of a stake that is
/// carried out, minus the amount of an unstake that is carried out, zero
/// for a call that is refused.
pub open spec fn moved(contract: ContractView, user: Address, call: Call) -> int {
    if outcome(contract, user, call) is Err {
        0
    } else {
        match call {
            Call::Stake { amount, .. } => amount,
            Call::Unstake { amount, .. } => -amount,
        }
    }
}

/// The instance after `user` has made `calls` one after the other.
pub open spec fn run(contract: ContractView, user: Address, calls: Seq<Call>) -> ContractView
    decreases calls.len(),
{
    if calls.len() == 0 {
        contract
    } else {
        step(run(contract, user, calls.drop_last()), user, calls.last())
    }
}

/// The sum of the stakes minus the sum of the unstakes that were carried
/// out as `user` made `calls` one after the other.
pub open spec fn net(contract: ContractView, user: Address, calls: Seq<Call>) -> int
    decreases calls.len(),
{
    if calls.len() == 0 {
        0
    } else {
        net(contract, user, calls.drop_last()) + moved(
            run(contract, user, calls.drop_last()),
            user,
            calls.last(),
        )
    }
}

/// Conservation. After any sequence of stakes and unstakes by one user,
/// the user's stake is what it was plus the stakes minus the unstakes that
/// were carried out, and it is not negative. Nobody else's position and no
/// configuration has changed, and every position is still well formed.
pub proof fn law_conservation(contract: ContractView, user: Address, calls: Seq<Call>)
    requires
        contract.wf(),
    ensures
        run(contract, user, calls).position(user).amount == contract.position(user).amount + net(
            contract,
            user,
            calls,
        ),
        run(contract, user, calls).position(user).amount >= 0,
        run(contract, user, calls).wf(),
        run(contract, user, calls).config == contract.config,
        forall|other: Address|
            other != user ==> #[trigger] run(contract, user, calls).stakes.contains_key(other)
                == contract.stakes.contains_key(other) && run(contract, user, calls).position(
                other,
            ) == contract.position(other),
    decreases calls.len(),
{
    if calls.len() > 0 {
        law_conservation(contract, user, calls.drop_last());
        let before = run(contract, user, calls.drop_last());
        law_one_call(before, user, calls.last());
    }
}

/// One stake adds exactly its amount to the position, one unstake takes
/// exactly its amount away, and a refused call leaves the instance as it
/// was. An unstake of more than the position holds is refused.
pub proof fn law_one_call(contract: ContractView, user: Address, call: Call)
    requires
        contract.wf(),
    ensures
        step(contract, user, call).position(user).amount == contract.position(user).amount
            + moved(contract, user, call),
        step(contract, user, call).position(user).amount >= 0,
        step(contract, user, call).wf(),
        step(contract, user, call).config == contract.config,
        outcome(contract, user, call) is Err ==> step(contract, user, call) == contract,
        call matches Call::Unstake { amount, .. } && amount > contract.position(user).amount
            ==> outcome(contract, user, call) is Err,
        forall|other: Address|
            other != user ==> #[trigger] step(contract, user, call).stakes.contains_key(other)
                == contract.stakes.contains_key(other) && step(contract, user, call).position(
                other,
            ) == contract.position(other),
{
}

/// Reward monotonicity. For one position and one rate, a later preview
/// never shows less than an earlier one; and where the later preview can
/// be computed, so can every earlier one that does not lie before the
/// position's last update.
pub proof fn law_reward_monotonic(position: StakeView, rate: int, earlier: int, later: int)
    requires
        position.wf(),
        earlier <= later,
    ensures
        preview_outcome(position, rate, later) is Ok && position.timestamp <= earlier
            ==> preview_outcome(position, rate, earlier) is Ok,
        preview_outcome(position, rate, earlier) is Ok && preview_outcome(position, rate, later)
            is Ok ==> preview_outcome(position, rate, earlier)->Ok_0 <= preview_outcome(
            position,
            rate,
            later,
        )->Ok_0,
{
    if valid_rate(rate) && position.timestamp <= earlier {
        lemma_reward_monotonic(
            position.amount,
            rate,
            earlier - position.timestamp,
            later - position.timestamp,
        );
    }
}

/// No double accrual. A claim that follows a claim at the same ledger time
/// pays nothing and leaves the position as the first claim left it.
pub proof fn law_no_double_accrual(
    contract: ContractView,
    host: Host,
    user: Address,
    rate: int,
)
    requires
        contract.wf(),
        claim_outcome(host, contract.initialized(), contract.position(user), rate) is Ok,
    ensures
        ({
            let first = claim_outcome(
                host,
                contract.initialized(),
                contract.position(user),
                rate,
            )->Ok_0;
            let after = contract.with_position(user, first.0);
            claim_outcome(host, after.initialized(), after.position(user), rate) == Ok::<
                (StakeView, int),
                Error,
            >((first.0, 0))
        }),
{
    let first = claim_outcome(host, contract.initialized(), contract.position(user), rate)->Ok_0;
    lemma_reward_nonnegative(
        contract.position(user).amount,
        rate,
        host.timestamp - contract.position(user).timestamp,
    );
    lemma_reward_nonnegative(first.0.amount, rate, 0);
}

/// A preview shows what a claim pays. For an authorized call on a
/// configured instance, `claim` succeeds exactly where the preview at the
/// ledger time does, and pays the reward that the preview shows.
pub proof fn law_preview_matches_claim(position: StakeView, host: Host, rate: int)
    requires
        host.authorized,
    ensures
        match claim_outcome(host, true, position, rate) {
            Ok((_, reward)) => preview_outcome(position, rate, host.timestamp as int) == Ok::<
                int,
                Error,
            >(reward),
            Err(e) => preview_outcome(position, rate, host.timestamp as int) == Err::<int, Error>(
                e,
            ),
        },
{
}

/// Authorization gating. Without authorization no entry point that
/// changes state goes ahead, whatever else holds.
pub proof fn law_authorization_gates(
    host: Host,
    initialized: bool,
    position: StakeView,
    amount: int,
    balance: Option<i128>,
    rate: int,
)
    requires
        !host.authorized,
    ensures
        stake_outcome(host, initialized, position, amount, balance) == Err::<StakeView, Error>(
            Error::Unauthorized,
        ),
        unstake_outcome(host, initialized, position, amount) == Err::<StakeView, Error>(
            Error::Unauthorized,
        ),
        claim_outcome(host, initialized, position, rate) == Err::<(StakeView, int), Error>(
            Error::Unauthorized,
        ),
{
}

/// Monotonic timestamps. While the ledger clock does not run backwards, no
/// entry point moves a position's last update backwards or past the
/// ledger time.
pub proof fn law_timestamps_monotonic(
    host: Host,
    initialized: bool,
    position: StakeView,
    amount: int,
    balance: Option<i128>,
    rate: int,
)
    requires
        position.timestamp <= host.timestamp,
    ensures
        stake_outcome(host, initialized, position, amount, balance) matches Ok(after)
            ==> position.timestamp <= after.timestamp <= host.timestamp,
        unstake_outcome(host, initialized, position, amount) matches Ok(after)
            ==> after.timestamp == position.timestamp,
        claim_outcome(host, initialized, position, rate) matches Ok((after, _))
            ==> position.timestamp <= after.timestamp <= host.timestamp,
{
}

/// Value conservation. What the token calls of an entry point put into the
/// user's hands in the derivative is exactly what the position grows by,
/// and the staked asset moves the other way by the same amount on a stake
/// and an unstake; a claim moves no staked asset.
pub proof fn law_value_conservation(
    host: Host,
    initialized: bool,
    position: StakeView,
    amount: i128,
    balance: Option<i128>,
    rate: int,
)
    requires
        position.wf(),
    ensures
        stake_outcome(host, initialized, position, amount as int, balance) matches Ok(after) ==> {
            &&& user_gain(stake_transfers(amount), Token::Reward) == after.amount - position.amount
            &&& user_gain(stake_transfers(amount), Token::Staked) == position.amount - after.amount
        },
        unstake_outcome(host, initialized, position, amount as int) matches Ok(after) ==> {
            &&& user_gain(unstake_transfers(amount), Token::Reward) == after.amount
                - position.amount
            &&& user_gain(unstake_transfers(amount), Token::Staked) == position.amount
                - after.amount
        },
        claim_outcome(host, initialized, position, rate) matches Ok((after, reward)) ==> {
            &&& user_gain(claim_transfers(reward as i128), Token::Reward) == after.amount
                - position.amount
            &&& user_gain(claim_transfers(reward as i128), Token::Staked) == 0
        },
{
    reveal_with_fuel(user_gain, 3);
    let s = stake_transfers(amount);
    assert(s.drop_last() =~= seq![s[0]]);
    assert(s.drop_last().drop_last() =~= Seq::<crate::transfer::Transfer>::empty());
    let u = unstake_transfers(amount);
    assert(u.drop_last() =~= seq![u[0]]);
    assert(u.drop_last().drop_last() =~= Seq::<crate::transfer::Transfer>::empty());
    if claim_outcome(host, initialized, position, rate) is Ok {
        let reward = claim_outcome(host, initialized, position, rate)->Ok_0.1;
        lemma_reward_nonnegative(position.amount, rate, host.timestamp - position.timestamp);
        let c = claim_transfers(reward as i128);
        if reward > 0 {
            assert(c.drop_last() =~= Seq::<crate::transfer::Transfer>::empty());
        }
    }
}

} // verus!
