//! The factory: an ownership registry from owners to the ledgers they
//! provisioned, and the plan of host operations that provisions a new ledger.
use vstd::prelude::*;
use crate::{AccountId, NEAR};
use crate::error::FlatsError;
use crate::house::{property_valid, views_of, House};
use crate::text::{account_id_is_valid, contains_char, join_with, split_on, valid_account_id};

verus! {

/// The fee that must be attached to a provisioning request.
pub const CREATION_FEE: u128 = 10 * NEAR;

/// The amount moved into a newly created ledger account.
pub const FUNDING: u128 = 9 * NEAR;

/// Gas attached to each call of the provisioning chain.
pub const GAS: u64 = 30_000_000_000_000;

/// What `map_house_contract_to_user_id` answers on success.
pub open spec fn ack_token() -> Seq<char> {
    seq!['D', 'O', 'N', 'E']
}

/// The arguments of the registration call that ends a provisioning chain.
pub struct MapHouseContractIdInput {
    pub house_owner: AccountId,
    pub house_account: AccountId,
}

/// The arguments of the initializer of a new ledger.
pub struct MapHouseContractFlatInput {
    pub account: AccountId,
    pub house: House,
}

/// One host operation of a provisioning chain. Each runs only when the one
/// before it succeeded; none is rolled back when a later one fails.
pub enum ProvisionStep {
    /// Create the account.
    CreateAccount { account: AccountId },
    /// Move `amount` into the account.
    Transfer { amount: u128 },
    /// Deploy the ledger's code into the account.
    DeployContract,
    /// Call the ledger's initializer with these arguments.
    Initialize { flat: MapHouseContractFlatInput, gas: u64 },
    /// Call back the factory to register the new ledger.
    Register { registration: MapHouseContractIdInput, gas: u64 },
}

/// One registered (owner, ledger name) pair.
pub struct Ownership {
    pub house_owner: AccountId,
    pub house_account: AccountId,
}

/// The factory's state.
pub struct HouseFactory {
    houses: Vec<Ownership>,
    owner: AccountId,
}

/// The factory's state, as mathematical values.
pub struct HouseFactoryView {
    /// The account that created the factory
    pub owner: Seq<char>,
    /// The registered (owner, ledger name) pairs
    pub houses: Seq<(Seq<char>, Seq<char>)>,
}

impl HouseFactoryView {
    /// No pair is registered twice.
    pub open spec fn wf(self) -> bool {
        forall|i: int, j: int|
            0 <= i < self.houses.len() && 0 <= j < self.houses.len() && i != j ==> #[trigger] self.houses[i]
                != #[trigger] self.houses[j]
    }

    /// `owner` has registered `account`.
    pub open spec fn owns(self, owner: Seq<char>, account: Seq<char>) -> bool {
        exists|i: int| 0 <= i < self.houses.len() && #[trigger] self.houses[i] == (owner, account)
    }

    /// Some owner has registered `name`.
    pub open spec fn name_taken(self, name: Seq<char>) -> bool {
        exists|i: int| 0 <= i < self.houses.len() && #[trigger] self.houses[i].1 == name
    }

    /// The state after registering `account` for `owner`: a pair that is
    /// already there is not added again.
    pub open spec fn after_register(self, owner: Seq<char>, account: Seq<char>) -> Self {
        if self.owns(owner, account) {
            self
        } else {
            HouseFactoryView { houses: self.houses.push((owner, account)), ..self }
        }
    }

    /// What a provisioning request answers, the checks in order.
    pub open spec fn create_outcome(
        self,
        name: Seq<char>,
        price: u128,
        location: Seq<char>,
        deposit: u128,
        current: Seq<char>,
    ) -> Result<(), FlatsError> {
        if deposit != CREATION_FEE {
            Err(FlatsError::InsufficientDeposit)
        } else if name.contains('.') || !valid_account_id(name) || !valid_account_id(
            sub_account(name, current),
        ) {
            Err(FlatsError::InvalidName)
        } else if !property_valid(name, price, location) {
            Err(FlatsError::InvalidProperty)
        } else if self.name_taken(name) {
            Err(FlatsError::NameTaken)
        } else {
            Ok(())
        }
    }
}

/// The account `name` under `parent`.
pub open spec fn sub_account(name: Seq<char>, parent: Seq<char>) -> Seq<char> {
    name + seq!['.'] + parent
}

/// `steps` is the provisioning chain of the property described by the
/// arguments, requested by `signer`.
pub open spec fn is_plan(
    steps: Seq<ProvisionStep>,
    name: Seq<char>,
    price: u128,
    location: Seq<char>,
    features: Seq<char>,
    image: Seq<char>,
    signer: Seq<char>,
    current: Seq<char>,
) -> bool {
    &&& steps.len() == 5
    &&& steps[0] matches ProvisionStep::CreateAccount { account } && account@ == sub_account(
        name,
        current,
    )
    &&& steps[1] == ProvisionStep::Transfer { amount: FUNDING }
    &&& steps[2] is DeployContract
    &&& steps[3] matches ProvisionStep::Initialize { flat, gas } && {
        &&& gas == GAS
        &&& flat.account@ == signer
        &&& flat.house.name@ == name
        &&& flat.house.price == price
        &&& flat.house.location@ == location
        &&& views_of(flat.house.features@) == split_on(features, ',')
        &&& flat.house.image@ == image
    }
    &&& steps[4] matches ProvisionStep::Register { registration, gas } && {
        &&& gas == GAS
        &&& registration.house_owner@ == signer
        &&& registration.house_account@ == name
    }
}

impl View for HouseFactory {
    type V = HouseFactoryView;

    closed spec fn view(&self) -> HouseFactoryView {
        HouseFactoryView {
            owner: self.owner@,
            houses: self.houses@.map_values(|o: Ownership| (o.house_owner@, o.house_account@)),
        }
    }
}

impl HouseFactory {
    /// A factory created by `owner`, with an empty registry.
    pub fn new(owner: AccountId) -> (r: HouseFactory)
        ensures
            r@.owner == owner@,
            r@.houses.len() == 0,
            r@.wf(),
    {
        HouseFactory { houses: Vec::new(), owner }
    }

    /// Checks a request to provision a ledger for a property, and answers
    /// the chain of host operations that provisions it under the factory's
    /// account `current_account`. Fails with `InsufficientDeposit`,
    /// `InvalidName`, `InvalidProperty` or `NameTaken`, in that order.
    ///
    /// The name check is advisory: two requests for one name that are in
    /// flight together may both pass it; the account creation of the second
    /// then fails on the host.
    pub fn create_house(
        &self,
        name: String,
        price: u128,
        location: String,
        features: String,
        image: String,
        deposit: u128,
        signer: &AccountId,
        current_account: &AccountId,
    ) -> (r: Result<Vec<ProvisionStep>, FlatsError>)
        ensures
            match self@.create_outcome(name@, price, location@, deposit, current_account@) {
                Ok(_) => r is Ok && is_plan(
                    r->Ok_0@,
                    name@,
                    price,
                    location@,
                    features@,
                    image@,
                    signer@,
                    current_account@,
                ),
                Err(e) => r == Err::<Vec<ProvisionStep>, FlatsError>(e),
            },
    {
        if deposit != CREATION_FEE {
            return Err(FlatsError::InsufficientDeposit);
        }
        let house_account = join_with(name.as_str(), ".", current_account.as_str());
        proof {
            reveal_strlit(".");
            assert(house_account@ =~= sub_account(name@, current_account@));
        }
        if contains_char(name.as_str(), '.') || !account_id_is_valid(name.as_str())
            || !account_id_is_valid(house_account.as_str()) {
            return Err(FlatsError::InvalidName);
        }
        let short_name = name.clone();
        let house = match House::new(name, price, location, features, image) {
            Ok(h) => h,
            Err(e) => {
                return Err(e);
            },
        };
        if !self.check_house_name_available(short_name.clone()) {
            return Err(FlatsError::NameTaken);
        }
        let mut steps: Vec<ProvisionStep> = Vec::new();
        steps.push(ProvisionStep::CreateAccount { account: house_account });
        steps.push(ProvisionStep::Transfer { amount: FUNDING });
        steps.push(ProvisionStep::DeployContract);
        steps.push(
            ProvisionStep::Initialize {
                flat: MapHouseContractFlatInput { account: signer.clone(), house },
                gas: GAS,
            },
        );
        steps.push(
            ProvisionStep::Register {
                registration: MapHouseContractIdInput {
                    house_owner: signer.clone(),
                    house_account: short_name,
                },
                gas: GAS,
            },
        );
        Ok(steps)
    }

    /// Registers `house_account` for `house_owner`. Only the factory itself
    /// may call it, as the last step of its own chain: it fails with
    /// `Forbidden` unless `predecessor` is `current_account`. Registering a
    /// pair twice changes nothing the second time.
    pub fn map_house_contract_to_user_id(
        &mut self,
        house_owner: AccountId,
        house_account: AccountId,
        current_account: &AccountId,
        predecessor: &AccountId,
    ) -> (r: Result<String, FlatsError>)
        requires
            old(self)@.wf(),
        ensures
            current_account@ != predecessor@ ==> r == Err::<String, FlatsError>(FlatsError::Forbidden),
            current_account@ != predecessor@ ==> final(self)@ == old(self)@,
            current_account@ == predecessor@ ==> r is Ok && r->Ok_0@ == ack_token(),
            current_account@ == predecessor@ ==> final(self)@ == old(self)@.after_register(
                house_owner@,
                house_account@,
            ),
            current_account@ == predecessor@ ==> final(self)@.owns(house_owner@, house_account@),
            current_account@ == predecessor@ ==> final(self)@.name_taken(house_account@),
            final(self)@.wf(),
    {
        if *current_account != *predecessor {
            return Err(FlatsError::Forbidden);
        }
        let mut i: usize = 0;
        let mut found = false;
        while i < self.houses.len()
            invariant
                i <= self.houses@.len(),
                found ==> self@.owns(house_owner@, house_account@),
                !found ==> forall|j: int| 0 <= j < i ==> #[trigger] self@.houses[j] != (house_owner@, house_account@),
            decreases self.houses@.len() - i,
        {
            if self.houses[i].house_owner == house_owner && self.houses[i].house_account
                == house_account {
                assert(self@.houses[i as int] == (house_owner@, house_account@));
                found = true;
            }
            i = i + 1;
        }
        if !found {
            let ghost prev = self@;
            self.houses.push(Ownership { house_owner, house_account });
            assert(self@.houses =~= prev.houses.push((house_owner@, house_account@)));
            assert(self@.houses[prev.houses.len() as int] == (house_owner@, house_account@));
            assert forall|a: int, b: int|
                0 <= a < self@.houses.len() && 0 <= b < self@.houses.len() && a != b implies #[trigger] self@.houses[a]
                != #[trigger] self@.houses[b] by {
                if a == prev.houses.len() as int {
                    assert(prev.houses[b] != self@.houses[a]);
                } else if b == prev.houses.len() as int {
                    assert(prev.houses[a] != self@.houses[b]);
                }
            }
        }
        proof {
            if found {
                let k = choose|k: int| 0 <= k < self@.houses.len() && #[trigger] self@.houses[k] == (house_owner@, house_account@);
                assert(self@.houses[k].1 == house_account@);
            } else {
                assert(self@.houses[self@.houses.len() - 1].1 == house_account@);
            }
        }
        let done = String::from_str("DONE");
        proof {
            reveal_strlit("DONE");
        }
        Ok(done)
    }

    /// Whether no owner has registered `house_name`.
    pub fn check_house_name_available(&self, house_name: String) -> (r: bool)
        ensures
            r == !self@.name_taken(house_name@),
    {
        let mut i: usize = 0;
        while i < self.houses.len()
            invariant
                i <= self.houses@.len(),
                forall|j: int| 0 <= j < i ==> #[trigger] self@.houses[j].1 != house_name@,
            decreases self.houses@.len() - i,
        {
            if self.houses[i].house_account == house_name {
                assert(self@.houses[i as int].1 == house_name@);
                return false;
            }
            i = i + 1;
        }
        true
    }

    /// The names of all registered ledgers, in registration order.
    pub fn get_all_houses(&self) -> (r: Vec<String>)
        ensures
            views_of(r@) == self@.houses.map_values(|p: (Seq<char>, Seq<char>)| p.1),
    {
        let mut r: Vec<String> = Vec::new();
        let mut i: usize = 0;
        while i < self.houses.len()
            invariant
                i <= self.houses@.len(),
                views_of(r@) == self@.houses.subrange(0, i as int).map_values(
                    |p: (Seq<char>, Seq<char>)| p.1,
                ),
            decreases self.houses@.len() - i,
        {
            let ghost before = views_of(r@);
            r.push(self.houses[i].house_account.clone());
            assert(views_of(r@) =~= before.push(self@.houses[i as int].1));
            assert(self@.houses.subrange(0, i + 1).map_values(|p: (Seq<char>, Seq<char>)| p.1)
                =~= self@.houses.subrange(0, i as int).map_values(|p: (Seq<char>, Seq<char>)| p.1).push(
                self@.houses[i as int].1,
            ));
            i = i + 1;
        }
        assert(self@.houses.subrange(0, i as int) =~= self@.houses);
        r
    }

    pub fn get_owner(&self) -> (r: AccountId)
        ensures
            r@ == self@.owner,
    {
        self.owner.clone()
    }
}

} // verus!
