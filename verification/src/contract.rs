use vstd::prelude::*;
use std::collections::HashMap;
use crate::contract_interface::ChrysalisContractTrait;
use crate::entry::{Host, Receipt};
use crate::error::Error;
use crate::stake::{Stake, StakeView};

verus! {

broadcast use vstd::std_specs::hash::group_hash_axioms;

/// An opaque identifier of a user or of a token contract. The library only
/// tells identifiers apart; the host maps them to its own addresses.
#[derive(Clone, Copy, Debug, PartialEq, Eq, Hash, Structural)]
pub struct Address {
    pub id: u64,
}

/// The two token contracts that an instance works with.
#[derive(Clone, Copy, Debug, PartialEq, Eq, Structural)]
pub struct Config {
    /// The contract of the asset that users lock.
    pub staked_token_address: Address,
    /// The contract of the derivative asset.
    pub steth_address: Address,
}

/// The mathematical value of a contract instance: its configuration, if it
/// has one, and the position of every user who has one.
pub struct ContractView {
    pub config: Option<Config>,
    pub stakes: Map<Address, StakeView>,
}

impl ContractView {
    /// Every stored position is well formed.
    pub open spec fn wf(self) -> bool {
        forall|user: Address| #[trigger]
            self.stakes.contains_key(user) ==> self.stakes[user].wf()
    }

    /// The instance before `initialize_contract`, with no position.
    pub open spec fn empty() -> ContractView {
        ContractView { config: None, stakes: Map::empty() }
    }

    /// Whether the token addresses are configured.
    pub open spec fn initialized(self) -> bool {
        self.config is Some
    }

    /// The position of `user`, empty for a user who has none.
    pub open spec fn position(self, user: Address) -> StakeView {
        if self.stakes.contains_key(user) {
            self.stakes[user]
        } else {
            StakeView::empty()
        }
    }

    /// The instance with the position of `user` replaced; nobody else's
    /// position and no configuration changes.
    pub open spec fn with_position(self, user: Address, position: StakeView) -> ContractView {
        ContractView { config: self.config, stakes: self.stakes.insert(user, position) }
    }

    /// The instance with the given token addresses as its configuration,
    /// whatever it was before; no position changes.
    pub open spec fn configured(self, staked_token_address: Address, steth_address: Address)
        -> ContractView {
        ContractView {
            config: Some(Config { staked_token_address, steth_address }),
            stakes: self.stakes,
        }
    }
}

/// One instance of the staking contract: the configuration and the
/// positions that it owns, held in memory. Its entry points are those of
/// `ChrysalisContractTrait`.
pub struct ChrysalisContract {
    config: Option<Config>,
    stakes: HashMap<u64, Stake>,
}

impl View for ChrysalisContract {
    type V = ContractView;

    closed spec fn view(&self) -> ContractView {
        ContractView {
            config: self.config,
            stakes: Map::new(
                |user: Address| self.stakes@.contains_key(user.id),
                |user: Address| self.stakes@[user.id]@,
            ),
        }
    }
}

impl ChrysalisContract {
    #[verifier::type_invariant]
    spec fn positions_at_rest(self) -> bool {
        forall|id: u64| #[trigger] self.stakes@.contains_key(id) ==> self.stakes@[id]@.wf()
    }

    /// An instance that is not configured yet and holds no position.
    pub fn new() -> (contract: ChrysalisContract)
        ensures
            contract@ == ContractView::empty(),
    {
        let contract = ChrysalisContract { config: None, stakes: HashMap::new() };
        assert(contract@.stakes =~= Map::empty());
        contract
    }

    /// The configuration, if the instance has one.
    pub fn config(&self) -> (config: Option<Config>)
        ensures
            config == self@.config,
    {
        self.config
    }

    /// The stored position of `user`, if there is one.
    pub fn position(&self, user: Address) -> (stored: Option<Stake>)
        ensures
            self@.wf(),
            match stored {
                Some(stake) => self@.stakes.contains_key(user) && self@.stakes[user] == stake@,
                None => !self@.stakes.contains_key(user),
            },
    {
        proof {
            use_type_invariant(self);
        }
        match self.stakes.get(&user.id) {
            Some(stake) => Some(*stake),
            None => None,
        }
    }

    fn persist(&mut self, user: Address, position: Stake)
        requires
            position@.wf(),
        ensures
            final(self)@ == old(self)@.with_position(user, position@),
            final(self)@.wf(),
    {
        proof {
            use_type_invariant(&*self);
        }
        let mut stakes: HashMap<u64, Stake> = HashMap::new();
        std::mem::swap(&mut self.stakes, &mut stakes);
        stakes.insert(user.id, position);
        std::mem::swap(&mut self.stakes, &mut stakes);
        assert(self@.stakes =~= old(self)@.stakes.insert(user, position@));
    }
}

impl ChrysalisContractTrait for ChrysalisContract {
    fn initialize_contract(&mut self, staked_token_address: Address, steth_address: Address)
        ensures
            final(self)@.wf(),
    {
        proof {
            use_type_invariant(&*self);
        }
        self.config = Some(Config { staked_token_address, steth_address });
        assert(self@.stakes =~= old(self)@.stakes);
    }

    fn get_stake_amount(&self, user: Address) -> (amount: i128)
        ensures
            amount >= 0,
    {
        crate::entry::get_stake(self.position(user))
    }

    fn stake_eth(&mut self, host: &Host, user: Address, amount: i128, balance: Option<i128>)
        -> (result: Result<Receipt, Error>)
        ensures
            final(self)@.wf(),
    {
        proof {
            use_type_invariant(&*self);
        }
        let stored = self.position(user);
        let receipt = crate::entry::stake(host, self.config.is_some(), stored, amount, balance)?;
        self.persist(user, receipt.position);
        Ok(receipt)
    }

    fn unstake_eth(&mut self, host: &Host, user: Address, amount: i128) -> (result: Result<
        Receipt,
        Error,
    >)
        ensures
            final(self)@.wf(),
    {
        proof {
            use_type_invariant(&*self);
        }
        let stored = self.position(user);
        let receipt = crate::entry::unstake(host, self.config.is_some(), stored, amount)?;
        self.persist(user, receipt.position);
        Ok(receipt)
    }

    fn claim(&mut self, host: &Host, user: Address, rate: i128) -> (result: Result<
        Receipt,
        Error,
    >)
        ensures
            final(self)@.wf(),
    {
        proof {
            use_type_invariant(&*self);
        }
        let stored = self.position(user);
        let receipt = crate::entry::claim(host, self.config.is_some(), stored, rate)?;
        self.persist(user, receipt.position);
        Ok(receipt)
    }

    fn vclaim(&self, user: Address, rate: i128, now: u64) -> (result: Result<i128, Error>) {
        crate::entry::preview_claim(self.position(user), rate, now)
    }
}

} // verus!
