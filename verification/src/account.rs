use vstd::prelude::*;

verus! {

/// The identifier of an account: the authenticated caller of a ledger
/// operation, the owner of a command, or a party that certifies one.
///
/// The ledger compares identifiers and stores them; it does not look inside.
#[derive(Clone, Debug, PartialEq, Eq, Hash)]
pub struct AccountId {
    name: String,
}

impl View for AccountId {
    type V = Seq<char>;

    closed spec fn view(&self) -> Seq<char> {
        self.name@
    }
}

impl AccountId {
    /// The identifier written as `name`.
    pub fn new(name: &str) -> (id: AccountId)
        ensures
            id@ == name@,
    {
        AccountId { name: name.to_owned() }
    }

    /// The identifier that owns `name`.
    pub fn from_string(name: String) -> (id: AccountId)
        ensures
            id@ == name@,
    {
        AccountId { name }
    }

    /// The identifier as text.
    pub fn as_str(&self) -> (name: &str)
        ensures
            name@ == self@,
    {
        self.name.as_str()
    }

    /// Whether the two identifiers name the same account.
    pub fn same_as(&self, other: &AccountId) -> (same: bool)
        ensures
            same == (self@ == other@),
    {
        self.name == other.name
    }

    /// A second identifier for the same account.
    pub fn duplicate(&self) -> (id: AccountId)
        ensures
            id@ == self@,
    {
        AccountId { name: self.name.clone() }
    }
}

/// The identifiers of `accounts`, in order.
pub open spec fn account_names(accounts: Seq<AccountId>) -> Seq<Seq<char>> {
    accounts.map_values(|a: AccountId| a@)
}

/// Appending an account appends its identifier.
pub proof fn lemma_account_names_push(accounts: Seq<AccountId>, account: AccountId)
    ensures
        account_names(accounts.push(account)) == account_names(accounts).push(account@),
{
    assert(account_names(accounts.push(account)) =~= account_names(accounts).push(account@));
}

} // verus!
