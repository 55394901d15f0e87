//! Identities of the parties that call into the escrow.

use vstd::prelude::*;

verus! {

/// An identity on the ledger, held by its textual key.
///
/// The escrow never interprets the key: it only asks whether two identities
/// are the same party. Whoever hands an `Address` to an operation vouches that
/// the party behind it has been authenticated.
#[derive(Debug, PartialEq, Eq)]
pub struct Address {
    key: String,
}

impl View for Address {
    type V = Seq<char>;

    /// The characters of the key; two identities are the same party exactly
    /// when their views are equal.
    closed spec fn view(&self) -> Seq<char> {
        self.key@
    }
}

impl Clone for Address {
    fn clone(&self) -> (copy: Self)
        ensures
            copy == *self,
    {
        Address { key: self.key.clone() }
    }
}

impl Address {
    /// Makes the identity with the given key.
    pub fn new(key: String) -> (address: Address)
        ensures
            address@ == key@,
    {
        Address { key }
    }

    /// Makes the identity with the given key, copied from a string slice.
    pub fn from_str(key: &str) -> (address: Address)
        ensures
            address@ == key@,
    {
        Address { key: key.to_owned() }
    }

    /// The key of the identity.
    pub fn as_str(&self) -> (key: &str)
        ensures
            key@ == self@,
    {
        self.key.as_str()
    }

    /// Whether `self` and `other` are the same party.
    pub fn same(&self, other: &Address) -> (same: bool)
        ensures
            same == (self@ == other@),
    {
        self.key == other.key
    }
}

} // verus!
