//! The library's model of a NEAR account identifier.
use vstd::prelude::*;

verus! {

/// A NEAR account identifier, held as its textual form.
///
/// The host runtime owns account validation and account state; this library
/// only stores, compares and republishes the text, so the text itself is the
/// model of an account.
#[derive(Debug, PartialEq, Eq)]
pub struct AccountId {
    id: String,
}

impl View for AccountId {
    type V = Seq<char>;

    closed spec fn view(&self) -> Seq<char> {
        self.id@
    }
}

impl AccountId {
    pub fn new(id: String) -> (r: AccountId)
        ensures
            r@ == id@,
    {
        AccountId { id }
    }

    pub fn text(&self) -> (r: &str)
        ensures
            r@ == self@,
    {
        self.id.as_str()
    }
}

impl Clone for AccountId {
    fn clone(&self) -> (r: Self)
        ensures
            r@ == self@,
    {
        AccountId { id: self.id.clone() }
    }
}

} // verus!
