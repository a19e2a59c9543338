//! Laws that relate the operations of the ledgers and of the registry.
use vstd::prelude::*;
use crate::error::FlatsError;
use crate::factory::HouseFactoryView;
use crate::ledger::{Date, HouseLedgerView};
use crate::units::{free_unit, UnitLedgerView};

verus! {

/// A date that nobody reserved is available, booking it with exactly the
/// price succeeds, and afterwards it is reserved, by the booker.
pub proof fn lemma_free_date_books(v: HouseLedgerView, d: Date, who: Seq<char>, now: u64)
    requires
        v.wf(),
        !v.reserved(d),
        d.year > 0,
    ensures
        v.book_outcome(d, v.price) == Ok::<bool, FlatsError>(true),
        v.after_book(d, who, v.price, now).wf(),
        v.after_book(d, who, v.price, now).reserved(d),
        v.after_book(d, who, v.price, now).reserved_by(d, who),
{
    let w = v.after_book(d, who, v.price, now);
    assert(w.booked[v.booked.len() as int] == (d, who));
    assert(w.booked[v.booked.len() as int].0 == d);
    assert forall|i: int, j: int|
        0 <= i < w.booked.len() && 0 <= j < w.booked.len() && i != j implies #[trigger] w.booked[i].0
        != #[trigger] w.booked[j].0 by {
        if i == v.booked.len() as int {
            assert(v.booked[j].0 != d);
        } else if j == v.booked.len() as int {
            assert(v.booked[i].0 != d);
        }
    }
}

/// A free unit books with exactly the price, and afterwards it is no
/// longer available and the booker occupies it.
pub proof fn lemma_free_unit_books(v: UnitLedgerView, id: usize, who: Seq<char>, now: u64)
    requires
        v.wf(),
        v.available(id),
    ensures
        v.book_outcome(id, v.price) == Ok::<bool, FlatsError>(true),
        !v.after_book(id, who, v.price, now).available(id),
        v.after_book(id, who, v.price, now).units[id as int].occupant == Some(who),
{
}

/// A second booking of a date that was just booked, by anyone and with
/// any amount, fails with `Unavailable`.
pub proof fn lemma_second_booking_unavailable(
    v: HouseLedgerView,
    d: Date,
    who: Seq<char>,
    amount: u128,
    now: u64,
    again: u128,
)
    requires
        v.book_outcome(d, amount) == Ok::<bool, FlatsError>(true),
    ensures
        v.after_book(d, who, amount, now).book_outcome(d, again) == Err::<bool, FlatsError>(
            FlatsError::Unavailable,
        ),
{
    let w = v.after_book(d, who, amount, now);
    assert(w.booked[v.booked.len() as int].0 == d);
}

/// A second booking of a unit that was just booked fails with
/// `Unavailable`.
pub proof fn lemma_second_unit_booking_unavailable(
    v: UnitLedgerView,
    id: usize,
    who: Seq<char>,
    amount: u128,
    now: u64,
    again: u128,
)
    requires
        v.book_outcome(id, amount) == Ok::<bool, FlatsError>(true),
    ensures
        v.after_book(id, who, amount, now).book_outcome(id, again) == Err::<bool, FlatsError>(
            FlatsError::Unavailable,
        ),
{
}

/// Booking a free date with an amount other than the price fails with
/// `PriceMismatch`.
pub proof fn lemma_wrong_amount_refused(v: HouseLedgerView, d: Date, amount: u128)
    requires
        !v.reserved(d),
        d.year > 0,
        amount != v.price,
    ensures
        v.book_outcome(d, amount) == Err::<bool, FlatsError>(FlatsError::PriceMismatch),
{
}

/// Booking a free unit with an amount other than the price fails with
/// `PriceMismatch`.
pub proof fn lemma_wrong_unit_amount_refused(v: UnitLedgerView, id: usize, amount: u128)
    requires
        v.available(id),
        amount != v.price,
    ensures
        v.book_outcome(id, amount) == Err::<bool, FlatsError>(FlatsError::PriceMismatch),
{
}

/// The owner's unlock of a unit without notice answers `false`; with
/// notice it answers `true` and frees the unit, and an unlock right after
/// answers `false`.
pub proof fn lemma_unlock_once(v: UnitLedgerView, id: usize)
    requires
        v.wf(),
        id < v.units.len(),
    ensures
        !v.units[id as int].pending_vacate ==> v.unlock_outcome(id, v.owner) == Ok::<
            bool,
            FlatsError,
        >(false),
        v.units[id as int].pending_vacate ==> {
            &&& v.unlock_outcome(id, v.owner) == Ok::<bool, FlatsError>(true)
            &&& v.after_unlock(id).wf()
            &&& v.after_unlock(id).available(id)
            &&& v.after_unlock(id).units[id as int] == free_unit(id)
            &&& v.after_unlock(id).unlock_outcome(id, v.owner) == Ok::<bool, FlatsError>(false)
        },
{
    if v.units[id as int].pending_vacate {
        let w = v.after_unlock(id);
        assert forall|i: int| 0 <= i < w.units.len() implies {
            &&& (#[trigger] w.units[i]).id == i
            &&& w.units[i].is_available <==> w.units[i].occupant is None
            &&& w.units[i].pending_vacate ==> w.units[i].occupant is Some
        } by {
            if i != id as int {
                assert(w.units[i] == v.units[i]);
            }
        }
    }
}

/// Only the occupant of a unit may give notice on it: anyone else fails
/// with `Forbidden`.
pub proof fn lemma_only_occupant_flags(v: UnitLedgerView, id: usize, who: Seq<char>)
    requires
        id < v.units.len(),
        v.units[id as int].occupant is Some,
        v.units[id as int].occupant != Some(who),
    ensures
        v.flag_outcome(id, who) == Err::<bool, FlatsError>(FlatsError::Forbidden),
{
}

/// Only the owner may unlock a unit: anyone else fails with `Forbidden`.
pub proof fn lemma_only_owner_unlocks(v: UnitLedgerView, id: usize, who: Seq<char>)
    requires
        who != v.owner,
    ensures
        v.unlock_outcome(id, who) == Err::<bool, FlatsError>(FlatsError::Forbidden),
{
}

/// Registration adds one pair to the set of registered pairs, and doing it
/// twice is the same as doing it once.
pub proof fn lemma_register_is_set_union(v: HouseFactoryView, owner: Seq<char>, account: Seq<char>)
    ensures
        forall|o: Seq<char>, a: Seq<char>|
            #[trigger] v.after_register(owner, account).owns(o, a) <==> (v.owns(o, a) || (o == owner
                && a == account)),
        v.after_register(owner, account).after_register(owner, account) == v.after_register(
            owner,
            account,
        ),
{
    let w = v.after_register(owner, account);
    if !v.owns(owner, account) {
        assert(w.houses[v.houses.len() as int] == (owner, account));
        assert forall|o: Seq<char>, a: Seq<char>| #[trigger] w.owns(o, a) implies (v.owns(o, a) || (o
            == owner && a == account)) by {
            let i = choose|i: int| 0 <= i < w.houses.len() && #[trigger] w.houses[i] == (o, a);
            if i < v.houses.len() {
                assert(v.houses[i] == (o, a));
            }
        }
        assert forall|o: Seq<char>, a: Seq<char>| v.owns(o, a) implies #[trigger] w.owns(o, a) by {
            let i = choose|i: int| 0 <= i < v.houses.len() && #[trigger] v.houses[i] == (o, a);
            assert(w.houses[i] == (o, a));
        }
    }
}

} // verus!
