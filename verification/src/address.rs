//! Account and contract identities, held as their strkey text.

use vstd::prelude::*;

verus! {

/// The identity of an account or a contract, given by its strkey, the
/// canonical text form of a Stellar address (`G...` or `C...`). Two
/// addresses are the same exactly when their strkeys are.
#[derive(Debug, Hash)]
pub struct Address {
    strkey: String,
}

impl View for Address {
    type V = Seq<char>;

    closed spec fn view(&self) -> Seq<char> {
        self.strkey@
    }
}

impl Address {
    /// Wraps the strkey of an address.
    pub fn new(strkey: String) -> (res: Address)
        ensures
            res@ == strkey@,
    {
        Address { strkey }
    }

    /// The strkey of this address.
    pub fn as_str(&self) -> (res: &str)
        ensures
            res@ == self@,
    {
        self.strkey.as_str()
    }

    /// Whether `self` and `other` name the same address.
    pub fn same(&self, other: &Address) -> (res: bool)
        ensures
            res == (self@ == other@),
    {
        self.strkey == other.strkey
    }
}

impl Clone for Address {
    fn clone(&self) -> (res: Self)
        ensures
            res == *self,
    {
        Address { strkey: self.strkey.clone() }
    }
}

impl PartialEq for Address {
    fn eq(&self, other: &Address) -> (res: bool) {
        self.strkey == other.strkey
    }
}

impl vstd::std_specs::cmp::PartialEqSpecImpl for Address {
    open spec fn obeys_eq_spec() -> bool {
        true
    }

    open spec fn eq_spec(&self, other: &Address) -> bool {
        self@ == other@
    }
}

impl Eq for Address {
}

} // verus!
