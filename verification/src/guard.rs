use vstd::prelude::*;
use crate::account::AccountId;
use crate::record::CommandDetail;

verus! {

/// Gates the operations that change the ledger by who calls them.
pub struct AuthorizationGuard;

impl AuthorizationGuard {
    /// Any caller may create a command; what holds them back is the deposit.
    pub open spec fn allows_creation(caller: Seq<char>) -> bool {
        true
    }

    /// Nobody certifies their own command.
    pub open spec fn allows_certification(caller: Seq<char>, owner: Seq<char>) -> bool {
        caller != owner
    }

    /// Whether `caller` may create a command.
    pub fn may_create(caller: &AccountId) -> (allowed: bool)
        ensures
            allowed == Self::allows_creation(caller@),
    {
        true
    }

    /// Whether `caller` may add a certificate or a stage to `record`.
    pub fn may_certify(caller: &AccountId, record: &CommandDetail) -> (allowed: bool)
        ensures
            allowed == Self::allows_certification(caller@, record@.command_owner_id),
    {
        !caller.same_as(&record.command_owner_id)
    }
}

} // verus!
