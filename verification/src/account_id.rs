//! The identifier of a saved ChatGPT account.

use vstd::prelude::*;

use vstd::std_specs::cmp::PartialEqSpecImpl;
use vstd::std_specs::convert::FromSpecImpl;

verus! {

/// The ChatGPT account id that a saved account is known by.
#[derive(Debug, Hash)]
pub struct AccountId(pub String);

impl View for AccountId {
    type V = Seq<char>;

    open spec fn view(&self) -> Seq<char> {
        self.0@
    }
}

impl AccountId {
    /// The id as text.
    pub fn as_str(&self) -> (r: &str)
        ensures
            r@ == self@,
    {
        self.0.as_str()
    }

    /// The id as an owned text.
    pub fn to_string(&self) -> (r: String)
        ensures
            r@ == self@,
    {
        self.0.clone()
    }
}

impl Clone for AccountId {
    fn clone(&self) -> (r: Self)
        ensures
            r == *self,
    {
        AccountId(self.0.clone())
    }
}

impl PartialEq for AccountId {
    fn eq(&self, other: &Self) -> (r: bool) {
        self.0 == other.0
    }
}

impl PartialEqSpecImpl for AccountId {
    open spec fn obeys_eq_spec() -> bool {
        true
    }

    open spec fn eq_spec(&self, other: &AccountId) -> bool {
        self.0@ == other.0@
    }
}

impl Eq for AccountId {}

impl From<String> for AccountId {
    fn from(value: String) -> (r: Self) {
        AccountId(value)
    }
}

impl FromSpecImpl<String> for AccountId {
    open spec fn obeys_from_spec() -> bool {
        true
    }

    open spec fn from_spec(v: String) -> AccountId {
        AccountId(v)
    }
}

impl<'a> From<&'a str> for AccountId {
    fn from(value: &'a str) -> (r: Self)
        ensures
            r@ == value@,
    {
        AccountId(String::from_str(value))
    }
}

impl<'a> FromSpecImpl<&'a str> for AccountId {
    /// A `String` is not determined by its characters in the model, so no value
    /// is named here; the impl's own `ensures` says what the id holds.
    open spec fn obeys_from_spec() -> bool {
        false
    }

    open spec fn from_spec(v: &'a str) -> AccountId {
        arbitrary()
    }
}

} // verus!
