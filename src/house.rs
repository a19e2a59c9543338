//! Property value objects.
use vstd::prelude::*;
use crate::error::FlatsError;
use crate::text::{count_occurrences, lemma_split_nonempty, split_at_char};
use crate::text::split_on;

verus! {

/// A location reads as "lat,long": it splits at commas into exactly two parts.
pub open spec fn location_valid(location: Seq<char>) -> bool {
    split_on(location, ',').len() == 2
}

/// The invariants of a property: a non-empty name, a non-zero price and a
/// location of two parts.
pub open spec fn property_valid(name: Seq<char>, price: u128, location: Seq<char>) -> bool {
    &&& name.len() > 0
    &&& price > 0
    &&& location_valid(location)
}

/// The views of a list of strings.
pub open spec fn views_of(v: Seq<String>) -> Seq<Seq<char>> {
    v.map_values(|s: String| s@)
}

/// A rentable property.
pub struct House {
    /// Name of the property
    pub name: String,
    /// Price of one booking, in the smallest token units
    pub price: u128,
    /// Location, as "lat,long"
    pub location: String,
    /// Features of the property
    pub features: Vec<String>,
    /// Image of the property
    pub image: String,
}

/// A read-only projection of a property, for callers outside the ledger.
pub struct HouseInfo {
    /// Name of the property
    pub name: String,
    /// Price of one booking, in the smallest token units
    pub price: u128,
    /// Location, as "lat,long"
    pub location: String,
    /// Features of the property
    pub features: Vec<String>,
    /// Image of the property
    pub image: String,
}

/// A copy of a list of strings.
pub fn copy_strings(v: &Vec<String>) -> (r: Vec<String>)
    ensures
        r@ == v@,
{
    let mut r: Vec<String> = Vec::new();
    let mut i: usize = 0;
    while i < v.len()
        invariant
            i <= v@.len(),
            r@ == v@.subrange(0, i as int),
        decreases v@.len() - i,
    {
        r.push(v[i].clone());
        assert(r@ =~= v@.subrange(0, i + 1));
        i = i + 1;
    }
    assert(r@ =~= v@);
    r
}

impl House {
    /// Whether this property keeps the invariants of a property.
    pub open spec fn wf(&self) -> bool {
        property_valid(self.name@, self.price, self.location@)
    }

    /// Whether `self` holds the same data as `other`.
    pub open spec fn same_as(&self, other: &House) -> bool {
        &&& self.name@ == other.name@
        &&& self.price == other.price
        &&& self.location@ == other.location@
        &&& views_of(self.features@) == views_of(other.features@)
        &&& self.image@ == other.image@
    }

    /// Builds a property; `features` is a comma-separated list. Fails with
    /// `InvalidProperty` when the name is empty, the price is zero or the
    /// location does not have two parts.
    pub fn new(name: String, price: u128, location: String, features: String, image: String) -> (r:
        Result<House, FlatsError>)
        ensures
            r is Ok <==> property_valid(name@, price, location@),
            r is Err ==> r->Err_0 == FlatsError::InvalidProperty,
            r matches Ok(h) ==> {
                &&& h.wf()
                &&& h.name@ == name@
                &&& h.price == price
                &&& h.location@ == location@
                &&& views_of(h.features@) == split_on(features@, ',')
                &&& h.image@ == image@
            },
    {
        let location_ok = location_is_valid(location.as_str());
        if !location_ok || name.as_str().is_empty() || price == 0 {
            return Err(FlatsError::InvalidProperty);
        }
        let features = split_at_char(features.as_str(), ',');
        Ok(House { name, price, location, features, image })
    }

    /// Whether the location has exactly two comma-separated parts.
    pub fn assert_location_valid(&self) -> (r: bool)
        ensures
            r == location_valid(self.location@),
    {
        location_is_valid(self.location.as_str())
    }

    /// A copy of this property.
    pub fn copy(&self) -> (r: House)
        ensures
            r.same_as(self),
    {
        House {
            name: self.name.clone(),
            price: self.price,
            location: self.location.clone(),
            features: copy_strings(&self.features),
            image: self.image.clone(),
        }
    }
}

/// Whether `location` has exactly two comma-separated parts.
fn location_is_valid(location: &str) -> (r: bool)
    ensures
        r == location_valid(location@),
{
    proof {
        lemma_split_nonempty(location@, ',');
    }
    count_occurrences(location, ',') == 1
}

impl HouseInfo {
    /// The projection of `house`.
    pub fn new(house: House) -> (r: HouseInfo)
        ensures
            r.name == house.name,
            r.price == house.price,
            r.location == house.location,
            r.features == house.features,
            r.image == house.image,
    {
        HouseInfo {
            name: house.name,
            price: house.price,
            location: house.location,
            features: house.features,
            image: house.image,
        }
    }
}

} // verus!
