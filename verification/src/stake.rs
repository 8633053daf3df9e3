use vstd::prelude::*;
use crate::error::Error;
use crate::reward::{accrue, reward_of, valid_rate, MAX_RATE};

verus! {

/// The mathematical value of a position: the principal that is staked and
/// the ledger time of the last stake or claim.
pub struct StakeView {
    pub amount: int,
    pub timestamp: int,
}

impl StakeView {
    /// A position at rest holds a non-negative amount; both fields fit the
    /// integer types they are stored in.
    pub open spec fn wf(self) -> bool {
        &&& 0 <= self.amount <= i128::MAX
        &&& 0 <= self.timestamp <= u64::MAX
    }

    /// The position of a user who has never staked.
    pub open spec fn empty() -> StakeView {
        StakeView { amount: 0, timestamp: 0 }
    }

    /// The reward accrued at time `now` since the last update.
    pub open spec fn due(self, rate: int, now: int) -> int {
        reward_of(self.amount, rate, now - self.timestamp)
    }

    /// The position after `amount` more has been staked at time `now`.
    pub open spec fn staked(self, amount: int, now: int) -> StakeView {
        StakeView { amount: self.amount + amount, timestamp: now }
    }

    /// The position after `amount` has been redeemed. The accrual clock
    /// keeps running: redeeming is no reward event.
    pub open spec fn unstaked(self, amount: int) -> StakeView {
        StakeView { amount: self.amount - amount, timestamp: self.timestamp }
    }

    /// The position after the reward accrued at `now` has been credited
    /// to it.
    pub open spec fn claimed(self, rate: int, now: int) -> StakeView {
        StakeView { amount: self.amount + self.due(rate, now), timestamp: now }
    }

    /// What `Stake::credit` returns: the position after a stake, unless the
    /// amount is not positive or the sum exceeds the 128-bit range.
    pub open spec fn credit(self, amount: int, now: int) -> Result<StakeView, Error> {
        if amount <= 0 {
            Err(Error::InvalidAmount)
        } else if self.amount + amount > i128::MAX {
            Err(Error::Overflow)
        } else {
            Ok(self.staked(amount, now))
        }
    }

    /// What `Stake::debit` returns: the position after an unstake, unless
    /// the amount is not positive or exceeds what the position holds.
    pub open spec fn debit(self, amount: int) -> Result<StakeView, Error> {
        if amount <= 0 {
            Err(Error::InvalidAmount)
        } else if amount > self.amount {
            Err(Error::InsufficientStake)
        } else {
            Ok(self.unstaked(amount))
        }
    }

    /// What `Stake::reward` returns: the reward due, unless the rate is
    /// out of range, the clock lies before the last update or the reward
    /// exceeds the 128-bit range.
    pub open spec fn reward(self, rate: int, now: int) -> Result<int, Error> {
        if !valid_rate(rate) {
            Err(Error::InvalidRate)
        } else if now < self.timestamp || self.due(rate, now) > i128::MAX {
            Err(Error::Overflow)
        } else {
            Ok(self.due(rate, now))
        }
    }

    /// What `Stake::settle` returns: the position with the reward credited,
    /// and the reward.
    pub open spec fn settle(self, rate: int, now: int) -> Result<(StakeView, int), Error> {
        match self.reward(rate, now) {
            Err(e) => Err(e),
            Ok(reward) => if self.amount + reward > i128::MAX {
                Err(Error::Overflow)
            } else {
                Ok((self.claimed(rate, now), reward))
            },
        }
    }
}

/// A user's position: the principal currently staked and the ledger time
/// of the last stake or claim. The amount is never negative.
#[derive(Clone, Copy, Debug, PartialEq, Eq)]
pub struct Stake {
    amount: i128,
    timestamp: u64,
}

impl View for Stake {
    type V = StakeView;

    closed spec fn view(&self) -> StakeView {
        StakeView { amount: self.amount as int, timestamp: self.timestamp as int }
    }
}

impl Default for Stake {
    /// The position of a user who has never staked.
    fn default() -> (stake: Stake)
        ensures
            stake@ == StakeView::empty(),
    {
        Stake { amount: 0, timestamp: 0 }
    }
}

impl Stake {
    #[verifier::type_invariant]
    spec fn at_rest(self) -> bool {
        self.amount >= 0
    }

    /// A position with the given fields; `None` for a negative amount.
    pub fn new(amount: i128, timestamp: u64) -> (stake: Option<Stake>)
        ensures
            amount < 0 ==> stake is None,
            amount >= 0 ==> stake is Some && stake.unwrap()@ == (StakeView {
                amount: amount as int,
                timestamp: timestamp as int,
            }),
    {
        if amount < 0 {
            None
        } else {
            Some(Stake { amount, timestamp })
        }
    }

    /// The principal currently staked.
    pub fn amount(&self) -> (amount: i128)
        ensures
            amount == self@.amount,
            self@.wf(),
    {
        proof {
            use_type_invariant(self);
        }
        self.amount
    }

    /// The ledger time of the last stake or claim.
    pub fn timestamp(&self) -> (timestamp: u64)
        ensures
            timestamp == self@.timestamp,
            self@.wf(),
    {
        proof {
            use_type_invariant(self);
        }
        self.timestamp
    }

    /// Adds `amount` to the position and restarts the accrual clock at
    /// `now`.
    pub fn credit(&self, amount: i128, now: u64) -> (result: Result<Stake, Error>)
        ensures
            self@.wf(),
            match result {
                Ok(stake) => self@.credit(amount as int, now as int) == Ok::<StakeView, Error>(
                    stake@,
                ),
                Err(e) => self@.credit(amount as int, now as int) == Err::<StakeView, Error>(e),
            },
    {
        proof {
            use_type_invariant(self);
        }
        if amount <= 0 {
            return Err(Error::InvalidAmount);
        }
        match self.amount.checked_add(amount) {
            None => Err(Error::Overflow),
            Some(total) => Ok(Stake { amount: total, timestamp: now }),
        }
    }

    /// Takes `amount` out of the position. The timestamp stays.
    pub fn debit(&self, amount: i128) -> (result: Result<Stake, Error>)
        ensures
            self@.wf(),
            match result {
                Ok(stake) => self@.debit(amount as int) == Ok::<StakeView, Error>(stake@),
                Err(e) => self@.debit(amount as int) == Err::<StakeView, Error>(e),
            },
    {
        proof {
            use_type_invariant(self);
        }
        if amount <= 0 {
            Err(Error::InvalidAmount)
        } else if amount > self.amount {
            Err(Error::InsufficientStake)
        } else {
            Ok(Stake { amount: self.amount - amount, timestamp: self.timestamp })
        }
    }

    /// The reward accrued between the last update and `now` at `rate`
    /// percent per `TIME_UNIT`, rounded down.
    pub fn reward(&self, rate: i128, now: u64) -> (result: Result<i128, Error>)
        ensures
            self@.wf(),
            match result {
                Ok(reward) => self@.reward(rate as int, now as int) == Ok::<int, Error>(
                    reward as int,
                ) && reward >= 0,
                Err(e) => self@.reward(rate as int, now as int) == Err::<int, Error>(e),
            },
    {
        proof {
            use_type_invariant(self);
        }
        if rate < 0 || rate > MAX_RATE {
            return Err(Error::InvalidRate);
        }
        if now < self.timestamp {
            return Err(Error::Overflow);
        }
        let elapsed: u64 = now - self.timestamp;
        proof {
            crate::reward::lemma_reward_nonnegative(
                self.amount as int,
                rate as int,
                elapsed as int,
            );
        }
        match accrue(self.amount, rate, elapsed) {
            None => Err(Error::Overflow),
            Some(reward) => Ok(reward),
        }
    }

    /// Credits the reward accrued at `now` to the position and restarts the
    /// accrual clock there. Returns the new position and the reward.
    pub fn settle(&self, rate: i128, now: u64) -> (result: Result<(Stake, i128), Error>)
        ensures
            self@.wf(),
            match result {
                Ok((stake, reward)) => self@.settle(rate as int, now as int) == Ok::<
                    (StakeView, int),
                    Error,
                >((stake@, reward as int)) && reward >= 0,
                Err(e) => self@.settle(rate as int, now as int) == Err::<(StakeView, int), Error>(
                    e,
                ),
            },
    {
        proof {
            use_type_invariant(self);
        }
        match self.reward(rate, now) {
            Err(e) => Err(e),
            Ok(reward) => match self.amount.checked_add(reward) {
                None => Err(Error::Overflow),
                Some(total) => Ok((Stake { amount: total, timestamp: now }, reward)),
            },
        }
    }
}

} // verus!
