//! The booking ledger of a single house: reservations keyed by date, and the
//! payments that each renter made.
use vstd::prelude::*;
use crate::AccountId;
use crate::error::FlatsError;
use crate::house::{House, HouseInfo};

verus! {

/// A calendar date. Only the year is checked (it must be positive to book).
#[derive(Debug, Clone, Copy, PartialEq, Eq, Structural)]
pub struct Date {
    pub day: u32,
    pub month: u32,
    pub year: i32,
}

impl Date {
    pub fn new(day: u32, month: u32, year: i32) -> (r: Date)
        ensures
            r == (Date { day, month, year }),
    {
        Date { day, month, year }
    }
}

/// One payment for a booked date.
#[derive(Debug, Clone, Copy, PartialEq, Eq, Structural)]
pub struct Payement {
    pub time_of_payment: u64,
    pub book_date: Date,
    pub price: u128,
}

/// A reservation of one date by one renter.
pub struct Booking {
    pub date: Date,
    pub renter: AccountId,
}

/// A payment, with the account that made it.
pub struct PaymentEntry {
    pub payer: AccountId,
    pub payment: Payement,
}

/// The ledger of one house.
pub struct HouseContract {
    house: House,
    owner: AccountId,
    payments: Vec<PaymentEntry>,
    booked: Vec<Booking>,
}

/// What a house ledger holds, as mathematical values.
pub struct HouseLedgerView {
    /// Price of one booking
    pub price: u128,
    /// The owner of the house
    pub owner: Seq<char>,
    /// Reservations in the order they were made: date and renter
    pub booked: Seq<(Date, Seq<char>)>,
    /// Payments in the order they were made: payer and record
    pub payments: Seq<(Seq<char>, Payement)>,
}

impl HouseLedgerView {
    /// No date is reserved twice.
    pub open spec fn wf(self) -> bool {
        forall|i: int, j: int|
            0 <= i < self.booked.len() && 0 <= j < self.booked.len() && i != j ==> #[trigger] self.booked[i].0
                != #[trigger] self.booked[j].0
    }

    /// `d` has a reservation.
    pub open spec fn reserved(self, d: Date) -> bool {
        exists|i: int| 0 <= i < self.booked.len() && #[trigger] self.booked[i].0 == d
    }

    /// `d` is reserved by `who`.
    pub open spec fn reserved_by(self, d: Date, who: Seq<char>) -> bool {
        exists|i: int| 0 <= i < self.booked.len() && #[trigger] self.booked[i] == (d, who)
    }

    /// What booking `d` with `amount` attached answers: the checks in order.
    pub open spec fn book_outcome(self, d: Date, amount: u128) -> Result<bool, FlatsError> {
        if d.year <= 0 {
            Err(FlatsError::InvalidInput)
        } else if self.reserved(d) {
            Err(FlatsError::Unavailable)
        } else if amount != self.price {
            Err(FlatsError::PriceMismatch)
        } else {
            Ok(true)
        }
    }

    /// The ledger after `who` booked `d`, paying `amount` at time `now`.
    pub open spec fn after_book(self, d: Date, who: Seq<char>, amount: u128, now: u64) -> Self {
        HouseLedgerView {
            booked: self.booked.push((d, who)),
            payments: self.payments.push(
                (who, Payement { time_of_payment: now, book_date: d, price: amount }),
            ),
            ..self
        }
    }

    /// The payments made by `who`, oldest first.
    pub open spec fn history(self, who: Seq<char>) -> Seq<Payement> {
        history_of(self.payments, who)
    }
}

/// The records in `payments` made by `who`, in order.
pub open spec fn history_of(payments: Seq<(Seq<char>, Payement)>, who: Seq<char>) -> Seq<Payement>
    decreases payments.len(),
{
    if payments.len() == 0 {
        Seq::empty()
    } else {
        let prev = history_of(payments.drop_last(), who);
        if payments.last().0 == who {
            prev.push(payments.last().1)
        } else {
            prev
        }
    }
}

impl View for HouseContract {
    type V = HouseLedgerView;

    closed spec fn view(&self) -> HouseLedgerView {
        HouseLedgerView {
            price: self.house.price,
            owner: self.owner@,
            booked: self.booked@.map_values(|b: Booking| (b.date, b.renter@)),
            payments: self.payments@.map_values(|p: PaymentEntry| (p.payer@, p.payment)),
        }
    }
}

impl HouseContract {
    /// The property that this ledger rents out.
    pub closed spec fn spec_house(&self) -> House {
        self.house
    }

    /// A ledger for `house`, owned by `account`, with no reservation. Fails
    /// with `InvalidProperty` when the location does not have two parts.
    pub fn new(account: AccountId, house: House) -> (r: Result<HouseContract, FlatsError>)
        ensures
            r is Ok <==> crate::house::location_valid(house.location@),
            r is Err ==> r->Err_0 == FlatsError::InvalidProperty,
            r matches Ok(c) ==> {
                &&& c@.wf()
                &&& c@.price == house.price
                &&& c@.owner == account@
                &&& c@.booked.len() == 0
                &&& c@.payments.len() == 0
                &&& c.spec_house() == house
            },
    {
        if !house.assert_location_valid() {
            return Err(FlatsError::InvalidProperty);
        }
        let c = HouseContract { house, owner: account, payments: Vec::new(), booked: Vec::new() };
        assert(c@.booked =~= Seq::<(Date, Seq<char>)>::empty());
        Ok(c)
    }

    /// Position of the reservation of `d`, if any.
    fn find_booking(&self, d: Date) -> (r: Option<usize>)
        ensures
            r matches Some(i) ==> i < self.booked@.len() && self@.booked[i as int].0 == d,
            r is None <==> !self@.reserved(d),
    {
        let mut i: usize = 0;
        while i < self.booked.len()
            invariant
                i <= self.booked@.len(),
                forall|j: int| 0 <= j < i ==> #[trigger] self.booked@[j].date != d,
            decreases self.booked@.len() - i,
        {
            if self.booked[i].date == d {
                assert(self@.booked[i as int].0 == d);
                return Some(i);
            }
            i = i + 1;
        }
        assert forall|j: int| 0 <= j < self@.booked.len() implies #[trigger] self@.booked[j].0 != d by {
            assert(self.booked@[j].date != d);
        }
        None
    }

    /// Whether `signer` holds the reservation of the given date.
    pub fn verify(&self, day: u32, month: u32, year: i32, signer: &AccountId) -> (r: bool)
        requires
            self@.wf(),
        ensures
            r == self@.reserved_by(Date { day, month, year }, signer@),
    {
        let date = Date::new(day, month, year);
        match self.find_booking(date) {
            Some(i) => {
                let ok = self.booked[i].renter == *signer;
                if !ok {
                    assert forall|j: int| 0 <= j < self@.booked.len() implies #[trigger] self@.booked[j]
                        != (date, signer@) by {
                        if j != i {
                            assert(self@.booked[j].0 != self@.booked[i as int].0);
                        }
                    }
                } else {
                    assert(self@.booked[i as int] == (date, signer@));
                }
                ok
            },
            None => {
                assert forall|j: int| 0 <= j < self@.booked.len() implies #[trigger] self@.booked[j]
                    != (date, signer@) by {
                    assert(self@.booked[j].0 != date);
                }
                false
            },
        }
    }

    /// Books the given date for `caller`, who attached `deposit`, at time
    /// `now`. Fails with `InvalidInput` for a year that is not positive,
    /// `Unavailable` for a reserved date and `PriceMismatch` when `deposit`
    /// is not the price; then nothing changes.
    pub fn book_house(
        &mut self,
        day: u32,
        month: u32,
        year: i32,
        caller: AccountId,
        deposit: u128,
        now: u64,
    ) -> (r: Result<bool, FlatsError>)
        requires
            old(self)@.wf(),
        ensures
            r == old(self)@.book_outcome(Date { day, month, year }, deposit),
            r is Ok ==> final(self)@ == old(self)@.after_book(
                Date { day, month, year },
                caller@,
                deposit,
                now,
            ),
            r is Ok ==> final(self)@.reserved_by(Date { day, month, year }, caller@),
            r is Ok ==> final(self)@.reserved(Date { day, month, year }),
            r is Err ==> final(self)@ == old(self)@,
            final(self)@.wf(),
            final(self).spec_house() == old(self).spec_house(),
    {
        if year <= 0 {
            return Err(FlatsError::InvalidInput);
        }
        if !self.check_date_available(day, month, year) {
            return Err(FlatsError::Unavailable);
        }
        if deposit != self.house.price {
            return Err(FlatsError::PriceMismatch);
        }
        Ok(self.pay_house(day, month, year, caller, deposit, now))
    }

    /// Records the reservation and the payment.
    fn pay_house(&mut self, day: u32, month: u32, year: i32, caller: AccountId, deposit: u128, now: u64) -> (r:
        bool)
        requires
            old(self)@.wf(),
            !old(self)@.reserved(Date { day, month, year }),
        ensures
            r,
            final(self)@ == old(self)@.after_book(Date { day, month, year }, caller@, deposit, now),
            final(self)@.reserved_by(Date { day, month, year }, caller@),
            final(self)@.reserved(Date { day, month, year }),
            final(self)@.wf(),
            final(self).spec_house() == old(self).spec_house(),
    {
        let book_date = Date::new(day, month, year);
        let payment = Payement { time_of_payment: now, book_date, price: deposit };
        let payer = caller.clone();
        self.booked.push(Booking { date: book_date, renter: caller });
        self.payments.push(PaymentEntry { payer, payment });
        let ghost d = book_date;
        assert(self@.booked =~= old(self)@.booked.push((d, caller@)));
        assert(self@.payments =~= old(self)@.payments.push((caller@, payment)));
        assert(self@ == old(self)@.after_book(d, caller@, deposit, now));
        assert(self@.booked[old(self)@.booked.len() as int] == (d, caller@));
        assert(self@.booked[old(self)@.booked.len() as int].0 == d);
        assert forall|i: int, j: int|
            0 <= i < self@.booked.len() && 0 <= j < self@.booked.len() && i != j implies #[trigger] self@.booked[i].0
            != #[trigger] self@.booked[j].0 by {
            if i == old(self)@.booked.len() as int {
                assert(old(self)@.booked[j].0 != d);
            } else if j == old(self)@.booked.len() as int {
                assert(old(self)@.booked[i].0 != d);
            }
        }
        true
    }

    /// Whether the given date has no reservation.
    pub fn check_date_available(&self, day: u32, month: u32, year: i32) -> (r: bool)
        ensures
            r == !self@.reserved(Date { day, month, year }),
    {
        self.find_booking(Date::new(day, month, year)).is_none()
    }

    /// The payments that `account` made, oldest first.
    pub fn payment_history(&self, account: &AccountId) -> (r: Vec<Payement>)
        ensures
            r@ == self@.history(account@),
    {
        let mut r: Vec<Payement> = Vec::new();
        let mut i: usize = 0;
        while i < self.payments.len()
            invariant
                i <= self.payments@.len(),
                r@ == history_of(self@.payments.subrange(0, i as int), account@),
            decreases self.payments@.len() - i,
        {
            assert(self@.payments.subrange(0, i + 1).drop_last() =~= self@.payments.subrange(
                0,
                i as int,
            ));
            if self.payments[i].payer == *account {
                r.push(self.payments[i].payment);
            }
            i = i + 1;
        }
        assert(self@.payments.subrange(0, i as int) =~= self@.payments);
        r
    }

    pub fn get_owner(&self) -> (r: String)
        ensures
            r@ == self@.owner,
    {
        self.owner.clone()
    }

    pub fn get_house_info(self) -> (r: HouseInfo)
        ensures
            r.name == self.spec_house().name,
            r.price == self.spec_house().price,
            r.location == self.spec_house().location,
            r.features == self.spec_house().features,
            r.image == self.spec_house().image,
    {
        HouseInfo::new(self.house)
    }
}

} // verus!
