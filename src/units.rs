//! The ledger of a multi-unit property: each unit goes from available to
//! occupied, then to occupied with a notice of non-renewal, and back to
//! available when the owner unlocks it.
use vstd::prelude::*;
use crate::AccountId;
use crate::error::FlatsError;
use crate::house::{House, HouseInfo};

verus! {

/// One bookable unit of a property.
pub struct Unit {
    pub id: usize,
    pub is_available: bool,
    pub occupant: Option<AccountId>,
    pub pending_vacate: bool,
}

/// One payment for a booked unit.
#[derive(Debug, Clone, Copy, PartialEq, Eq, Structural)]
pub struct UnitPayment {
    pub time_of_payment: u64,
    pub unit_id: usize,
    pub price: u128,
}

/// A unit payment, with the account that made it.
pub struct UnitPaymentEntry {
    pub payer: AccountId,
    pub payment: UnitPayment,
}

/// The ledger of a property with several units.
pub struct UnitLedger {
    house: House,
    owner: AccountId,
    units: Vec<Unit>,
    payments: Vec<UnitPaymentEntry>,
}

/// A unit, as mathematical values.
pub struct UnitView {
    pub id: usize,
    pub is_available: bool,
    pub occupant: Option<Seq<char>>,
    pub pending_vacate: bool,
}

/// What a unit ledger holds, as mathematical values.
pub struct UnitLedgerView {
    /// Price of one booking
    pub price: u128,
    /// The owner of the property
    pub owner: Seq<char>,
    /// The units, by id
    pub units: Seq<UnitView>,
    /// Payments in the order they were made: payer and record
    pub payments: Seq<(Seq<char>, UnitPayment)>,
}

/// The view of an optional account.
pub open spec fn occupant_view(o: Option<AccountId>) -> Option<Seq<char>> {
    match o {
        Some(a) => Some(a@),
        None => None,
    }
}

impl Unit {
    pub open spec fn view_of(&self) -> UnitView {
        UnitView {
            id: self.id,
            is_available: self.is_available,
            occupant: occupant_view(self.occupant),
            pending_vacate: self.pending_vacate,
        }
    }

    /// A copy of this unit.
    pub fn copy(&self) -> (r: Unit)
        ensures
            r.view_of() == self.view_of(),
    {
        let occupant = match &self.occupant {
            Some(a) => Some(a.clone()),
            None => None,
        };
        Unit {
            id: self.id,
            is_available: self.is_available,
            occupant,
            pending_vacate: self.pending_vacate,
        }
    }
}

/// A free unit with the given id.
pub open spec fn free_unit(id: usize) -> UnitView {
    UnitView { id, is_available: true, occupant: None, pending_vacate: false }
}

/// The units of `units` whose occupant gave notice, in order.
pub open spec fn pending_of(units: Seq<UnitView>) -> Seq<UnitView>
    decreases units.len(),
{
    if units.len() == 0 {
        Seq::empty()
    } else {
        let prev = pending_of(units.drop_last());
        if units.last().pending_vacate {
            prev.push(units.last())
        } else {
            prev
        }
    }
}

impl UnitLedgerView {
    /// Each unit has its position as id; a unit is available exactly when
    /// it has no occupant, and only an occupied unit can be pending vacate.
    pub open spec fn wf(self) -> bool {
        forall|i: int|
            0 <= i < self.units.len() ==> {
                &&& (#[trigger] self.units[i]).id == i
                &&& self.units[i].is_available <==> self.units[i].occupant is None
                &&& self.units[i].pending_vacate ==> self.units[i].occupant is Some
            }
    }

    /// Unit `id` exists and is free.
    pub open spec fn available(self, id: usize) -> bool {
        id < self.units.len() && self.units[id as int].is_available
    }

    pub open spec fn book_outcome(self, id: usize, amount: u128) -> Result<bool, FlatsError> {
        if id >= self.units.len() {
            Err(FlatsError::NotFound)
        } else if !self.units[id as int].is_available {
            Err(FlatsError::Unavailable)
        } else if amount != self.price {
            Err(FlatsError::PriceMismatch)
        } else {
            Ok(true)
        }
    }

    pub open spec fn after_book(self, id: usize, who: Seq<char>, amount: u128, now: u64) -> Self {
        UnitLedgerView {
            units: self.units.update(
                id as int,
                UnitView { id, is_available: false, occupant: Some(who), pending_vacate: false },
            ),
            payments: self.payments.push(
                (who, UnitPayment { time_of_payment: now, unit_id: id, price: amount }),
            ),
            ..self
        }
    }

    pub open spec fn flag_outcome(self, id: usize, who: Seq<char>) -> Result<bool, FlatsError> {
        if id >= self.units.len() {
            Err(FlatsError::NotFound)
        } else if self.units[id as int].occupant is None {
            Err(FlatsError::NotOccupied)
        } else if self.units[id as int].occupant != Some(who) {
            Err(FlatsError::Forbidden)
        } else {
            Ok(true)
        }
    }

    pub open spec fn after_flag(self, id: usize) -> Self {
        UnitLedgerView {
            units: self.units.update(
                id as int,
                UnitView { pending_vacate: true, ..self.units[id as int] },
            ),
            ..self
        }
    }

    pub open spec fn unlock_outcome(self, id: usize, who: Seq<char>) -> Result<bool, FlatsError> {
        if who != self.owner {
            Err(FlatsError::Forbidden)
        } else if id >= self.units.len() {
            Err(FlatsError::NotFound)
        } else {
            Ok(self.units[id as int].pending_vacate)
        }
    }

    pub open spec fn after_unlock(self, id: usize) -> Self {
        UnitLedgerView { units: self.units.update(id as int, free_unit(id)), ..self }
    }
}

impl View for UnitLedger {
    type V = UnitLedgerView;

    closed spec fn view(&self) -> UnitLedgerView {
        UnitLedgerView {
            price: self.house.price,
            owner: self.owner@,
            units: self.units@.map_values(|u: Unit| u.view_of()),
            payments: self.payments@.map_values(|p: UnitPaymentEntry| (p.payer@, p.payment)),
        }
    }
}

impl UnitLedger {
    /// The property that this ledger rents out.
    pub closed spec fn spec_house(&self) -> House {
        self.house
    }

    /// A ledger for `house` with `rooms` free units, ids `0..rooms`, owned
    /// by `account`. Fails with `InvalidProperty` when the location does not
    /// have two parts.
    pub fn new(account: AccountId, house: House, rooms: usize) -> (r: Result<UnitLedger, FlatsError>)
        ensures
            r is Ok <==> crate::house::location_valid(house.location@),
            r is Err ==> r->Err_0 == FlatsError::InvalidProperty,
            r matches Ok(c) ==> {
                &&& c@.wf()
                &&& c@.price == house.price
                &&& c@.owner == account@
                &&& c@.units.len() == rooms
                &&& forall|i: int| 0 <= i < rooms ==> #[trigger] c@.units[i] == free_unit(i as usize)
                &&& c@.payments.len() == 0
                &&& c.spec_house() == house
            },
    {
        if !house.assert_location_valid() {
            return Err(FlatsError::InvalidProperty);
        }
        let mut units: Vec<Unit> = Vec::new();
        let mut i: usize = 0;
        while i < rooms
            invariant
                i <= rooms,
                units@.len() == i,
                forall|j: int| 0 <= j < i ==> (#[trigger] units@[j]).view_of() == free_unit(j as usize),
            decreases rooms - i,
        {
            units.push(Unit { id: i, is_available: true, occupant: None, pending_vacate: false });
            i = i + 1;
        }
        let c = UnitLedger { house, owner: account, units, payments: Vec::new() };
        assert(c@.payments =~= Seq::<(Seq<char>, UnitPayment)>::empty());
        Ok(c)
    }

    /// Number of units.
    pub fn unit_count(&self) -> (r: usize)
        ensures
            r == self@.units.len(),
    {
        self.units.len()
    }

    /// Whether unit `unit_id` exists and is free.
    pub fn room_is_available(&self, unit_id: usize) -> (r: bool)
        ensures
            r == self@.available(unit_id),
    {
        unit_id < self.units.len() && self.units[unit_id].is_available
    }

    /// Whether `caller` occupies unit `unit_id`.
    pub fn verify_occupant(&self, unit_id: usize, caller: &AccountId) -> (r: bool)
        ensures
            r == (unit_id < self@.units.len() && self@.units[unit_id as int].occupant == Some(
                caller@,
            )),
    {
        if unit_id >= self.units.len() {
            return false;
        }
        match &self.units[unit_id].occupant {
            Some(a) => *a == *caller,
            None => false,
        }
    }

    /// Replaces unit `id`.
    fn set_unit(&mut self, id: usize, u: Unit)
        requires
            id < old(self)@.units.len(),
        ensures
            final(self)@ == (UnitLedgerView {
                units: old(self)@.units.update(id as int, u.view_of()),
                ..old(self)@
            }),
            final(self).spec_house() == old(self).spec_house(),
    {
        self.units.set(id, u);
        assert(self@.units =~= old(self)@.units.update(id as int, u.view_of()));
    }

    /// Books unit `unit_id` for `caller`, who attached `deposit`, at time
    /// `now`. Fails with `NotFound`, `Unavailable` or `PriceMismatch`, in
    /// that order; then nothing changes.
    pub fn book_unit(&mut self, unit_id: usize, caller: AccountId, deposit: u128, now: u64) -> (r:
        Result<bool, FlatsError>)
        requires
            old(self)@.wf(),
        ensures
            r == old(self)@.book_outcome(unit_id, deposit),
            r is Ok ==> final(self)@ == old(self)@.after_book(unit_id, caller@, deposit, now),
            r is Err ==> final(self)@ == old(self)@,
            final(self)@.wf(),
            final(self).spec_house() == old(self).spec_house(),
    {
        if unit_id >= self.units.len() {
            return Err(FlatsError::NotFound);
        }
        if !self.units[unit_id].is_available {
            return Err(FlatsError::Unavailable);
        }
        if deposit != self.house.price {
            return Err(FlatsError::PriceMismatch);
        }
        let payer = caller.clone();
        let unit = Unit {
            id: unit_id,
            is_available: false,
            occupant: Some(caller),
            pending_vacate: false,
        };
        self.set_unit(unit_id, unit);
        let payment = UnitPayment { time_of_payment: now, unit_id, price: deposit };
        let ghost mid = self@;
        self.payments.push(UnitPaymentEntry { payer, payment });
        assert(self@.payments =~= mid.payments.push((caller@, payment)));
        assert(self@.units == mid.units);
        Ok(true)
    }

    /// `caller`, the occupant of unit `unit_id`, gives notice that they will
    /// leave. Fails with `NotFound`, `NotOccupied` (no occupant) or
    /// `Forbidden` (another occupant), in that order; then nothing changes.
    pub fn flag_non_renewal(&mut self, unit_id: usize, caller: &AccountId) -> (r: Result<
        bool,
        FlatsError,
    >)
        requires
            old(self)@.wf(),
        ensures
            r == old(self)@.flag_outcome(unit_id, caller@),
            r is Ok ==> final(self)@ == old(self)@.after_flag(unit_id),
            r is Err ==> final(self)@ == old(self)@,
            final(self)@.wf(),
            final(self).spec_house() == old(self).spec_house(),
    {
        if unit_id >= self.units.len() {
            return Err(FlatsError::NotFound);
        }
        let is_occupant = match &self.units[unit_id].occupant {
            Some(a) => *a == *caller,
            None => {
                return Err(FlatsError::NotOccupied);
            },
        };
        if !is_occupant {
            return Err(FlatsError::Forbidden);
        }
        let mut unit = self.units[unit_id].copy();
        unit.pending_vacate = true;
        self.set_unit(unit_id, unit);
        assert(self@.units =~= old(self)@.after_flag(unit_id).units);
        Ok(true)
    }

    /// The owner releases unit `unit_id` after its occupant gave notice:
    /// answers `Ok(true)` and frees the unit, or `Ok(false)` and changes
    /// nothing when no notice was given. Fails with `Forbidden` for anyone
    /// but the owner, and `NotFound` for an unknown unit.
    pub fn unlock_unit(&mut self, unit_id: usize, caller: &AccountId) -> (r: Result<bool, FlatsError>)
        requires
            old(self)@.wf(),
        ensures
            r == old(self)@.unlock_outcome(unit_id, caller@),
            r == Ok::<bool, FlatsError>(true) ==> final(self)@ == old(self)@.after_unlock(unit_id),
            r != Ok::<bool, FlatsError>(true) ==> final(self)@ == old(self)@,
            final(self)@.wf(),
            final(self).spec_house() == old(self).spec_house(),
    {
        if *caller != self.owner {
            return Err(FlatsError::Forbidden);
        }
        if unit_id >= self.units.len() {
            return Err(FlatsError::NotFound);
        }
        if !self.units[unit_id].pending_vacate {
            return Ok(false);
        }
        let unit = Unit { id: unit_id, is_available: true, occupant: None, pending_vacate: false };
        self.set_unit(unit_id, unit);
        Ok(true)
    }

    /// The units whose occupant gave notice, by ascending id.
    pub fn list_pending_vacate(&self) -> (r: Vec<Unit>)
        ensures
            r@.map_values(|u: Unit| u.view_of()) == pending_of(self@.units),
    {
        let mut r: Vec<Unit> = Vec::new();
        let mut i: usize = 0;
        while i < self.units.len()
            invariant
                i <= self.units@.len(),
                r@.map_values(|u: Unit| u.view_of()) == pending_of(self@.units.subrange(0, i as int)),
            decreases self.units@.len() - i,
        {
            assert(self@.units.subrange(0, i + 1).drop_last() =~= self@.units.subrange(0, i as int));
            assert(self@.units.subrange(0, i + 1).last() == self.units@[i as int].view_of());
            if self.units[i].pending_vacate {
                let u = self.units[i].copy();
                let ghost before = r@.map_values(|u: Unit| u.view_of());
                r.push(u);
                assert(r@.map_values(|u: Unit| u.view_of()) =~= before.push(u.view_of()));
            }
            i = i + 1;
        }
        assert(self@.units.subrange(0, i as int) =~= self@.units);
        r
    }

    pub fn get_owner(&self) -> (r: String)
        ensures
            r@ == self@.owner,
    {
        self.owner.clone()
    }

    pub fn get_house_info(&self) -> (r: HouseInfo)
        ensures
            r.name@ == self.spec_house().name@,
            r.price == self.spec_house().price,
            r.location@ == self.spec_house().location@,
            crate::house::views_of(r.features@) == crate::house::views_of(
                self.spec_house().features@,
            ),
            r.image@ == self.spec_house().image@,
    {
        HouseInfo::new(self.house.copy())
    }
}

} // verus!
