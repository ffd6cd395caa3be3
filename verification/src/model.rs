use vstd::prelude::*;
use crate::error::LedgerError;
use crate::escrow::required_deposit;
use crate::guard::AuthorizationGuard;
use crate::quality::CertificationEntryView;
use crate::record::{CommandDetailView, CommandPayloadView};

verus! {

/// Where a command stands in its life.
#[derive(Clone, Copy, Debug, PartialEq, Eq, Structural)]
pub enum CommandState {
    /// Admitted; nobody has signed since.
    Created,
    /// At least one certificate or stage was added since it was admitted.
    CertificationInProgress,
}

/// One command as the ledger keeps it: the record, the deposit held for it,
/// and its state.
pub struct EntryView {
    pub record: CommandDetailView,
    pub deposit: nat,
    pub state: CommandState,
}

impl EntryView {
    /// What holds of every entry of a ledger whose margin is `margin`: the
    /// record is valid, the deposit held covers what the record requires, and
    /// only a record with a certification section can be in certification.
    pub open spec fn sound(self, margin: nat) -> bool {
        &&& self.record.valid()
        &&& self.deposit >= required_deposit(
            margin,
            self.record.amount_product,
            self.record.price_per_product,
        )
        &&& (self.state == CommandState::CertificationInProgress ==> self.record.quality is Some)
    }
}

/// One call that may change the ledger.
pub enum Call {
    /// `caller` asks to create the command of `payload` with `deposit`.
    Add { caller: Seq<char>, deposit: nat, payload: CommandPayloadView },
    /// `caller` asks to add `entry` to the command under `id`.
    Certify { caller: Seq<char>, id: Seq<char>, entry: CertificationEntryView },
}

/// The ledger as a mathematical value: who owns it, the margin its escrow
/// rule demands, and its commands by id.
pub struct LedgerView {
    pub owner_id: Seq<char>,
    pub margin: nat,
    pub entries: Map<Seq<char>, EntryView>,
}

impl LedgerView {
    /// A ledger without commands.
    pub open spec fn empty(owner_id: Seq<char>, margin: nat) -> LedgerView {
        LedgerView { owner_id, margin, entries: Map::empty() }
    }

    /// What holds of every ledger: the margin is positive, each entry is
    /// filed under its record's own id, and each entry is sound.
    pub open spec fn wf(self) -> bool {
        &&& self.margin > 0
        &&& forall|id: Seq<char>| #[trigger]
            self.entries.contains_key(id) ==> self.entries[id].record.command_id == id
                && self.entries[id].sound(self.margin)
    }

    /// Whether a command is filed under `id`.
    pub open spec fn contains(self, id: Seq<char>) -> bool {
        self.entries.contains_key(id)
    }

    /// Whether `caller` may create the command of `payload` with `deposit`
    /// attached, and if not, why. The checks run in this order: the caller's
    /// right to create, the amount, the price, the deposit, the product's
    /// name, and last whether the id is free.
    pub open spec fn admission(
        self,
        caller: Seq<char>,
        deposit: nat,
        payload: CommandPayloadView,
    ) -> Result<(), LedgerError> {
        if !AuthorizationGuard::allows_creation(caller) {
            Err(LedgerError::Unauthorized)
        } else if payload.amount_product == 0 {
            Err(LedgerError::InvalidQuantity)
        } else if payload.price_per_product == 0 {
            Err(LedgerError::InvalidPrice)
        } else if deposit < required_deposit(
            self.margin,
            payload.amount_product,
            payload.price_per_product,
        ) {
            Err(LedgerError::InsufficientDeposit)
        } else if payload.name_product.len() == 0 {
            Err(LedgerError::InvalidPayload)
        } else if self.contains(payload.command_id) {
            Err(LedgerError::DuplicateId)
        } else {
            Ok(())
        }
    }

    /// The ledger with the command of `payload` filed for `caller`, holding
    /// the whole of `deposit`.
    pub open spec fn with_command(
        self,
        caller: Seq<char>,
        deposit: nat,
        payload: CommandPayloadView,
    ) -> LedgerView {
        LedgerView {
            entries: self.entries.insert(
                payload.command_id,
                EntryView {
                    record: payload.into_record(caller),
                    deposit,
                    state: CommandState::Created,
                },
            ),
            ..self
        }
    }

    /// The ledger after `caller` asked to create the command of `payload`:
    /// changed only where the command is admitted.
    pub open spec fn add_command(
        self,
        caller: Seq<char>,
        deposit: nat,
        payload: CommandPayloadView,
    ) -> LedgerView {
        if self.admission(caller, deposit, payload) is Ok {
            self.with_command(caller, deposit, payload)
        } else {
            self
        }
    }

    /// The record filed under `id`, if there is one.
    pub open spec fn get_command(self, id: Seq<char>) -> Result<CommandDetailView, LedgerError> {
        if self.contains(id) {
            Ok(self.entries[id].record)
        } else {
            Err(LedgerError::NotFound)
        }
    }

    /// Whether `caller` may add a signature to the command under `id`, and
    /// if not, why: the command must exist and have a certification section,
    /// and the caller must pass the guard.
    pub open spec fn certification(self, caller: Seq<char>, id: Seq<char>) -> Result<
        (),
        LedgerError,
    > {
        if !self.contains(id) {
            Err(LedgerError::NotFound)
        } else if self.entries[id].record.quality is None {
            Err(LedgerError::NotFound)
        } else if !AuthorizationGuard::allows_certification(
            caller,
            self.entries[id].record.command_owner_id,
        ) {
            Err(LedgerError::Unauthorized)
        } else {
            Ok(())
        }
    }

    /// The ledger with `entry` appended to the command under `id`, which is
    /// then in certification.
    pub open spec fn with_signature(
        self,
        id: Seq<char>,
        entry: CertificationEntryView,
    ) -> LedgerView
        recommends
            self.contains(id),
            self.entries[id].record.quality is Some,
    {
        let before = self.entries[id];
        LedgerView {
            entries: self.entries.insert(
                id,
                EntryView {
                    record: before.record.with_quality(
                        Some(before.record.quality->0.with_entry(entry)),
                    ),
                    deposit: before.deposit,
                    state: CommandState::CertificationInProgress,
                },
            ),
            ..self
        }
    }

    /// The ledger after `caller` asked to add `entry` to the command under
    /// `id`: changed only where the signature is accepted.
    pub open spec fn certify_command(
        self,
        caller: Seq<char>,
        id: Seq<char>,
        entry: CertificationEntryView,
    ) -> LedgerView {
        if self.certification(caller, id) is Ok {
            self.with_signature(id, entry)
        } else {
            self
        }
    }

    /// The state of the command under `id`, if there is one.
    pub open spec fn state_of(self, id: Seq<char>) -> Result<CommandState, LedgerError> {
        if self.contains(id) {
            Ok(self.entries[id].state)
        } else {
            Err(LedgerError::NotFound)
        }
    }

    /// The deposit held for the command under `id`, if there is one.
    pub open spec fn deposit_of(self, id: Seq<char>) -> Result<nat, LedgerError> {
        if self.contains(id) {
            Ok(self.entries[id].deposit)
        } else {
            Err(LedgerError::NotFound)
        }
    }

    /// The ledger after one call.
    pub open spec fn step(self, call: Call) -> LedgerView {
        match call {
            Call::Add { caller, deposit, payload } => self.add_command(caller, deposit, payload),
            Call::Certify { caller, id, entry } => self.certify_command(caller, id, entry),
        }
    }

    /// The ledger after the calls of `calls`, first to last.
    pub open spec fn run(self, calls: Seq<Call>) -> LedgerView
        decreases calls.len(),
    {
        if calls.len() == 0 {
            self
        } else {
            self.run(calls.drop_last()).step(calls.last())
        }
    }
}

/// The entries that the calls of `calls` add to the command under `id`,
/// whose owner is `owner`: those of the calls that name the command and do
/// not come from its owner.
pub open spec fn signatures_for(calls: Seq<Call>, id: Seq<char>, owner: Seq<char>) -> Seq<
    CertificationEntryView,
> {
    calls.filter_map(
        |call: Call|
            match call {
                Call::Certify { caller, id: target, entry } => if target == id
                    && AuthorizationGuard::allows_certification(caller, owner) {
                    Some(entry)
                } else {
                    None
                },
                Call::Add { .. } => None,
            },
    )
}

} // verus!
