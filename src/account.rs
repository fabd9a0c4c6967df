use vstd::prelude::*;
use vstd::string::*;

verus! {

/// The longest account identifier the network accepts.
pub const MAX_ACCOUNT_ID_LEN: usize = 64;

/// An account identifier: an opaque principal name, compared character by
/// character. Its well-formedness is checked where it enters the system.
#[derive(Debug)]
pub struct AccountId {
    id: String,
}

impl View for AccountId {
    type V = Seq<char>;

    closed spec fn view(&self) -> Seq<char> {
        self.id@
    }
}

/// The identifier made of `n` letters `a`.
pub open spec fn repeated_a(n: nat) -> Seq<char> {
    Seq::new(n, |_i: int| 'a')
}

impl AccountId {
    /// Wraps `id` as an account identifier without checking its shape.
    pub fn new_unchecked(id: String) -> (r: AccountId)
        ensures
            r@ == id@,
    {
        AccountId { id }
    }

    pub fn as_str(&self) -> (r: &str)
        ensures
            r@ == self@,
    {
        self.id.as_str()
    }
}

impl Clone for AccountId {
    fn clone(&self) -> (r: AccountId)
        ensures
            r@ == self@,
    {
        AccountId { id: self.id.clone() }
    }
}

impl PartialEq for AccountId {
    fn eq(&self, other: &AccountId) -> (r: bool)
        ensures
            r == (self@ == other@),
    {
        self.id == other.id
    }
}

impl vstd::std_specs::cmp::PartialEqSpecImpl for AccountId {
    open spec fn obeys_eq_spec() -> bool {
        true
    }

    open spec fn eq_spec(&self, other: &AccountId) -> bool {
        self@ == other@
    }
}

impl Eq for AccountId {
}

/// The longest identifier the network accepts, made of the letter `a` only:
/// the record it keys is the largest an account can take in the ledger.
pub fn longest_account_id() -> (r: AccountId)
    ensures
        r@ == repeated_a(MAX_ACCOUNT_ID_LEN as nat),
{
    let mut id = String::new();
    let mut i: usize = 0;
    while i < MAX_ACCOUNT_ID_LEN
        invariant
            i <= MAX_ACCOUNT_ID_LEN,
            id@ == repeated_a(i as nat),
        decreases MAX_ACCOUNT_ID_LEN - i,
    {
        id.append("a");
        proof {
            reveal_strlit("a");
        }
        assert(id@ =~= repeated_a((i + 1) as nat));
        i = i + 1;
    }
    AccountId::new_unchecked(id)
}

} // verus!
