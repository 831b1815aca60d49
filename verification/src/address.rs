//! Addresses as the contracts receive them, and the ownership check.
//!
//! Whether a string is a valid address depends on the chain the contract
//! runs on; the caller checks each address it hands in and records the
//! outcome beside it.
use vstd::prelude::*;

verus! {

/// An address as given in a message, with whether the chain accepted it.
#[derive(Clone, Debug, PartialEq, Eq)]
pub struct AddressInput {
    pub address: String,
    pub valid: bool,
}

/// An optional address field of an update: absent or valid.
pub open spec fn address_ok(a: Option<AddressInput>) -> bool {
    match a {
        Some(x) => x.valid,
        None => true,
    }
}

/// The new value of an address field: the update's address when given.
pub open spec fn updated_address(old: String, a: Option<AddressInput>) -> Seq<char> {
    match a {
        Some(x) => x.address@,
        None => old@,
    }
}

/// Whether an optional address field is absent or valid.
pub fn address_input_ok(a: &Option<AddressInput>) -> (b: bool)
    ensures
        b == address_ok(*a),
{
    match a {
        Some(x) => x.valid,
        None => true,
    }
}

/// Every address of a list was accepted.
pub open spec fn all_valid(list: Seq<AddressInput>) -> bool {
    forall|i: int| 0 <= i < list.len() ==> #[trigger] list[i].valid
}

/// Why an owner-only action was refused.
#[derive(Clone, Copy, Debug, PartialEq, Eq, Structural)]
pub enum OwnershipError {
    /// The contract has no owner.
    NoOwner,
    /// The sender is not the owner.
    NotOwner,
}

/// The sender must be the contract's current owner.
pub fn assert_owner(owner: &Option<String>, sender: &String) -> (r: Result<(), OwnershipError>)
    ensures
        owner.is_none() ==> r == Err::<(), OwnershipError>(OwnershipError::NoOwner),
        owner.is_some() && owner.unwrap()@ != sender@ ==> r == Err::<(), OwnershipError>(
            OwnershipError::NotOwner,
        ),
        owner.is_some() && owner.unwrap()@ == sender@ ==> r is Ok,
{
    match owner {
        None => Err(OwnershipError::NoOwner),
        Some(o) => {
            if o.eq(sender) {
                Ok(())
            } else {
                Err(OwnershipError::NotOwner)
            }
        },
    }
}

/// Copies the addresses of a list whose every entry was accepted; `None`
/// when one was refused.
pub fn validated_list(list: &Vec<AddressInput>) -> (r: Option<Vec<String>>)
    ensures
        r is Some <==> all_valid(list@),
        r is Some ==> r->Some_0@.len() == list@.len() && forall|i: int|
            0 <= i < list@.len() ==> #[trigger] r->Some_0@[i]@ == list@[i].address@,
{
    let mut out: Vec<String> = Vec::new();
    let mut i: usize = 0;
    while i < list.len()
        invariant
            i <= list@.len(),
            out@.len() == i,
            forall|j: int| 0 <= j < i ==> #[trigger] list@[j].valid,
            forall|j: int| 0 <= j < i ==> #[trigger] out@[j]@ == list@[j].address@,
        decreases list@.len() - i,
    {
        if !list[i].valid {
            return None;
        }
        out.push(list[i].address.clone());
        i = i + 1;
    }
    Some(out)
}

} // verus!
