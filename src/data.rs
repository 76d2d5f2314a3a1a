//! Made-up people, to fill a view without a cluster.

use vstd::prelude::*;
use core::cmp::Ordering;
use fakeit::{address, contact, name};
use itertools::Itertools;
use crate::order::{is_reordering, name_le, name_le_exec};

verus! {

/// A made-up person.
#[derive(Debug, Clone, PartialEq, Eq)]
pub struct Data {
    pub name: String,
    pub address: String,
    pub email: String,
}

impl Data {
    pub fn name(&self) -> (r: &str)
        ensures
            r@ == self.name@,
    {
        self.name.as_str()
    }

    pub fn address(&self) -> (r: &str)
        ensures
            r@ == self.address@,
    {
        self.address.as_str()
    }

    pub fn email(&self) -> (r: &str)
        ensures
            r@ == self.email@,
    {
        self.email.as_str()
    }
}

/// Orders two names by their bytes.
pub fn compare_names(a: &String, b: &String) -> (r: Ordering)
    ensures
        (r == Ordering::Less) == (name_le(a@, b@) && !name_le(b@, a@)),
        (r == Ordering::Equal) == (name_le(a@, b@) && name_le(b@, a@)),
        (r == Ordering::Greater) == !name_le(a@, b@),
{
    let ab = name_le_exec(a, b);
    let ba = name_le_exec(b, a);
    if ab && ba {
        Ordering::Equal
    } else if ab {
        Ordering::Less
    } else {
        Ordering::Greater
    }
}

/// Relies on `itertools::Itertools::sorted_by`, which sorts the items with
/// `slice::sort_by` under `compare_names`: the same items, names ascending.
#[verifier::external_body]
fn sort_by_name(items: Vec<Data>) -> (r: Vec<Data>)
    ensures
        is_reordering(r@, items@),
        forall|i: int, j: int| 0 <= i < j < r@.len() ==> name_le(#[trigger] r@[i].name@, #[trigger] r@[j].name@),
{
    items.into_iter().sorted_by(|a, b| compare_names(&a.name, &b.name)).collect_vec()
}

/// Relies on `fakeit::name::full`: a random full name.
#[verifier::external_body]
fn fake_name() -> (r: String) {
    name::full()
}

/// Relies on `fakeit::address::street`: a random street line.
#[verifier::external_body]
fn fake_street() -> (r: String) {
    address::street()
}

/// Relies on `fakeit::address::city`: a random city.
#[verifier::external_body]
fn fake_city() -> (r: String) {
    address::city()
}

/// Relies on `fakeit::address::state`: a random state.
#[verifier::external_body]
fn fake_state() -> (r: String) {
    address::state()
}

/// Relies on `fakeit::address::zip`: a random postal code.
#[verifier::external_body]
fn fake_zip() -> (r: String) {
    address::zip()
}

/// Relies on `fakeit::contact::email`: a random e-mail address.
#[verifier::external_body]
fn fake_email() -> (r: String) {
    contact::email()
}

/// A postal address: the street on one line, then city, state and postal code.
pub open spec fn postal_address(street: Seq<char>, city: Seq<char>, state: Seq<char>, zip: Seq<char>) -> Seq<char> {
    street + "\n"@ + city + ", "@ + state + " "@ + zip
}

/// The address of `d` is a postal address.
pub open spec fn has_postal_address(d: Data) -> bool {
    exists|street: Seq<char>, city: Seq<char>, state: Seq<char>, zip: Seq<char>|
        d.address@ == #[trigger] postal_address(street, city, state, zip)
}

/// Twenty made-up people sorted by name, each with a postal address.
pub fn generate_fake_names() -> (r: Vec<Data>)
    ensures
        r@.len() == 20,
        forall|i: int, j: int| 0 <= i < j < r@.len() ==> name_le(#[trigger] r@[i].name@, #[trigger] r@[j].name@),
        forall|k: int| 0 <= k < r@.len() ==> has_postal_address(#[trigger] r@[k]),
{
    let mut people: Vec<Data> = Vec::new();
    let mut i: usize = 0;
    while i < 20
        invariant
            i <= 20,
            people@.len() == i,
            forall|k: int| 0 <= k < people@.len() ==> has_postal_address(#[trigger] people@[k]),
        decreases 20 - i,
    {
        let name = fake_name();
        let street = fake_street();
        let city = fake_city();
        let state = fake_state();
        let zip = fake_zip();
        let mut address = street.clone();
        address.append("\n");
        address.append(city.as_str());
        address.append(", ");
        address.append(state.as_str());
        address.append(" ");
        address.append(zip.as_str());
        assert(address@ == postal_address(street@, city@, state@, zip@));
        let email = fake_email();
        let ghost d = Data { name, address, email };
        assert(has_postal_address(d));
        people.push(Data { name, address, email });
        i = i + 1;
    }
    let r = sort_by_name(people);
    proof {
        assert(is_reordering(r@, people@));
        let p = choose|p: Seq<int>|
            crate::order::is_permutation(p, people@.len()) && forall|k: int|
                0 <= k < r@.len() ==> r@[k] == people@[#[trigger] p[k]];
        assert forall|k: int| 0 <= k < r@.len() implies has_postal_address(#[trigger] r@[k]) by {
            assert(0 <= p[k] < people@.len());
            assert(r@[k] == people@[p[k]]);
        }
    }
    r
}

} // verus!
