use vstd::prelude::*;
use crate::account::AccountId;
use crate::error::LedgerError;
use crate::escrow::EscrowValidator;
use crate::guard::AuthorizationGuard;
use crate::model::{CommandState, EntryView, LedgerView};
use crate::quality::{CertificationEntry, QualityWorkflow};
use crate::record::{CommandDetail, CommandId, CommandPayload};

verus! {

/// Why a command was not admitted, and what the caller gets back.
#[derive(Clone, Copy, Debug, PartialEq, Eq, Structural)]
pub struct Rejection {
    pub error: LedgerError,
    /// The deposit that was attached to the call: all of it is returned.
    pub refund: u128,
}

struct LedgerEntry {
    record: CommandDetail,
    deposit: u128,
    state: CommandState,
}

impl View for LedgerEntry {
    type V = EntryView;

    closed spec fn view(&self) -> EntryView {
        EntryView { record: self.record@, deposit: self.deposit as nat, state: self.state }
    }
}

spec fn ids_distinct(entries: Seq<LedgerEntry>) -> bool {
    forall|i: int, j: int|
        0 <= i < j < entries.len() ==> entries[i].record.command_id@
            != entries[j].record.command_id@
}

spec fn files(entries: Seq<LedgerEntry>, id: Seq<char>) -> bool {
    exists|i: int| 0 <= i < entries.len() && entries[i].record.command_id@ == id
}

spec fn slot(entries: Seq<LedgerEntry>, id: Seq<char>) -> int {
    choose|i: int| 0 <= i < entries.len() && entries[i].record.command_id@ == id
}

spec fn entries_by_id(entries: Seq<LedgerEntry>) -> Map<Seq<char>, EntryView> {
    Map::new(|id: Seq<char>| files(entries, id), |id: Seq<char>| entries[slot(entries, id)]@)
}

proof fn lemma_slot(entries: Seq<LedgerEntry>, i: int)
    requires
        ids_distinct(entries),
        0 <= i < entries.len(),
    ensures
        files(entries, entries[i].record.command_id@),
        slot(entries, entries[i].record.command_id@) == i,
{
    let id = entries[i].record.command_id@;
    let k = slot(entries, id);
    assert(0 <= k < entries.len() && entries[k].record.command_id@ == id);
    if k < i {
        assert(entries[k].record.command_id@ != entries[i].record.command_id@);
    }
    if i < k {
        assert(entries[i].record.command_id@ != entries[k].record.command_id@);
    }
}

proof fn lemma_filed(entries: Seq<LedgerEntry>, id: Seq<char>)
    requires
        files(entries, id),
    ensures
        0 <= slot(entries, id) < entries.len(),
        entries[slot(entries, id)].record.command_id@ == id,
{
}

proof fn lemma_push(entries: Seq<LedgerEntry>, entry: LedgerEntry)
    requires
        ids_distinct(entries),
        !files(entries, entry.record.command_id@),
    ensures
        ids_distinct(entries.push(entry)),
        entries_by_id(entries.push(entry)) == entries_by_id(entries).insert(
            entry.record.command_id@,
            entry@,
        ),
{
    let after = entries.push(entry);
    let key = entry.record.command_id@;
    assert forall|i: int, j: int| 0 <= i < j < after.len() implies after[i].record.command_id@
        != after[j].record.command_id@ by {
        if j == entries.len() {
            assert(entries[i].record.command_id@ != key);
        } else {
            assert(entries[i].record.command_id@ != entries[j].record.command_id@);
        }
    }
    let left = entries_by_id(after);
    let right = entries_by_id(entries).insert(key, entry@);
    assert forall|id: Seq<char>| left.contains_key(id) <==> right.contains_key(id) by {
        if files(after, id) {
            let k = slot(after, id);
            lemma_filed(after, id);
            if k < entries.len() {
                assert(entries[k].record.command_id@ == id);
            }
        }
        if files(entries, id) {
            let k = slot(entries, id);
            lemma_filed(entries, id);
            assert(after[k].record.command_id@ == id);
        }
        if id == key {
            assert(after[entries.len() as int].record.command_id@ == id);
        }
    }
    assert forall|id: Seq<char>| left.contains_key(id) implies left[id] == right[id] by {
        lemma_filed(after, id);
        let k = slot(after, id);
        if k < entries.len() {
            lemma_slot(entries, k);
            assert(entries[k].record.command_id@ == id);
        }
    }
    assert(left =~= right);
}

proof fn lemma_update(entries: Seq<LedgerEntry>, i: int, entry: LedgerEntry)
    requires
        ids_distinct(entries),
        0 <= i < entries.len(),
        entry.record.command_id@ == entries[i].record.command_id@,
    ensures
        ids_distinct(entries.update(i, entry)),
        entries_by_id(entries.update(i, entry)) == entries_by_id(entries).insert(
            entry.record.command_id@,
            entry@,
        ),
{
    let after = entries.update(i, entry);
    let key = entry.record.command_id@;
    assert forall|a: int, b: int| 0 <= a < b < after.len() implies after[a].record.command_id@
        != after[b].record.command_id@ by {
        assert(entries[a].record.command_id@ != entries[b].record.command_id@);
    }
    let left = entries_by_id(after);
    let right = entries_by_id(entries).insert(key, entry@);
    assert forall|id: Seq<char>| left.contains_key(id) <==> right.contains_key(id) by {
        if files(after, id) {
            lemma_filed(after, id);
            let k = slot(after, id);
            assert(entries[k].record.command_id@ == id);
        }
        if files(entries, id) {
            lemma_filed(entries, id);
            let k = slot(entries, id);
            assert(after[k].record.command_id@ == id);
        }
        if id == key {
            assert(after[i].record.command_id@ == id);
        }
    }
    assert forall|id: Seq<char>| left.contains_key(id) implies left[id] == right[id] by {
        lemma_filed(after, id);
        let k = slot(after, id);
        lemma_slot(after, k);
        if k != i {
            lemma_slot(entries, k);
        }
    }
    assert(left =~= right);
}

/// The store of commands: who owns it, the escrow rule it admits commands
/// by, and the commands themselves, each under an id that is never reused.
pub struct CommandLedger {
    owner_id: AccountId,
    escrow: EscrowValidator,
    entries: Vec<LedgerEntry>,
}

impl View for CommandLedger {
    type V = LedgerView;

    closed spec fn view(&self) -> LedgerView {
        LedgerView {
            owner_id: self.owner_id@,
            margin: self.escrow.spec_margin(),
            entries: entries_by_id(self.entries@),
        }
    }
}

impl CommandLedger {
    #[verifier::type_invariant]
    spec fn inv(&self) -> bool {
        &&& self.escrow.wf()
        &&& ids_distinct(self.entries@)
        &&& forall|i: int|
            0 <= i < self.entries.len() ==> (#[trigger] self.entries[i])@.sound(
                self.escrow.spec_margin(),
            )
    }

    proof fn lemma_view_wf(&self)
        requires
            self.inv(),
        ensures
            self@.wf(),
    {
        assert forall|id: Seq<char>| #[trigger]
            self@.entries.contains_key(id) implies self@.entries[id].record.command_id == id
            && self@.entries[id].sound(self@.margin) by {
            lemma_filed(self.entries@, id);
        }
    }

    /// A ledger without commands, owned by `owner_id`, that admits commands
    /// by the rule of `escrow`.
    pub fn new(owner_id: AccountId, escrow: EscrowValidator) -> (ledger: CommandLedger)
        ensures
            ledger@ == LedgerView::empty(owner_id@, escrow.spec_margin()),
            ledger@.wf(),
    {
        proof {
            use_type_invariant(&escrow);
        }
        let ledger = CommandLedger { owner_id, escrow, entries: Vec::new() };
        proof {
            assert(ledger@.entries =~= Map::empty());
            ledger.lemma_view_wf();
        }
        ledger
    }

    fn position(&self, command_id: &String) -> (found: Option<usize>)
        ensures
            found matches Some(i) ==> i < self.entries.len()
                && self.entries[i as int].record.command_id@ == command_id@,
            found is None ==> !files(self.entries@, command_id@),
    {
        let mut i: usize = 0;
        while i < self.entries.len()
            invariant
                i <= self.entries.len(),
                forall|k: int| 0 <= k < i ==> self.entries[k].record.command_id@ != command_id@,
            decreases self.entries.len() - i,
        {
            if self.entries[i].record.command_id == *command_id {
                return Some(i);
            }
            i += 1;
        }
        None
    }

    /// Creates the command of `payload` for `caller`, with `deposit`
    /// attached.
    ///
    /// The command is admitted when the amount and the price are positive,
    /// the deposit reaches what the escrow rule requires, the product has a
    /// name, and the id was never used; the checks run in that order and the
    /// first that fails names the error. An admitted command is filed under
    /// its id with `caller` as its owner and the whole deposit held for it.
    /// A rejected call changes nothing and returns the whole deposit.
    pub fn add_command(
        &mut self,
        caller: AccountId,
        deposit: u128,
        payload: CommandPayload,
    ) -> (outcome: Result<CommandId, Rejection>)
        ensures
            final(self)@ == old(self)@.add_command(caller@, deposit as nat, payload@),
            old(self)@.admission(caller@, deposit as nat, payload@) is Ok ==> outcome is Ok
                && outcome->Ok_0@ == payload@.command_id,
            old(self)@.admission(caller@, deposit as nat, payload@) matches Err(error)
                ==> outcome == Err::<CommandId, Rejection>((Rejection { error, refund: deposit })),
            old(self)@.wf(),
            final(self)@.wf(),
    {
        proof {
            use_type_invariant(&*self);
            self.lemma_view_wf();
        }
        if !AuthorizationGuard::may_create(&caller) {
            return Err(Rejection { error: LedgerError::Unauthorized, refund: deposit });
        }
        if payload.amount_product == 0 {
            return Err(Rejection { error: LedgerError::InvalidQuantity, refund: deposit });
        }
        if payload.price_per_product == 0 {
            return Err(Rejection { error: LedgerError::InvalidPrice, refund: deposit });
        }
        let verdict =
            self.escrow.validate(deposit, payload.amount_product, payload.price_per_product);
        if verdict.is_err() {
            return Err(Rejection { error: LedgerError::InsufficientDeposit, refund: deposit });
        }
        if payload.name_product.as_str().is_empty() {
            return Err(Rejection { error: LedgerError::InvalidPayload, refund: deposit });
        }
        if self.position(&payload.command_id).is_some() {
            return Err(Rejection { error: LedgerError::DuplicateId, refund: deposit });
        }
        let id = payload.command_id.clone();
        let ghost caller_name = caller@;
        let ghost submitted = payload@;
        let record = payload.into_record(caller);
        let entry = LedgerEntry { record, deposit, state: CommandState::Created };
        proof {
            lemma_push(self.entries@, entry);
        }
        let mut entries: Vec<LedgerEntry> = Vec::new();
        core::mem::swap(&mut self.entries, &mut entries);
        entries.push(entry);
        core::mem::swap(&mut self.entries, &mut entries);
        proof {
            assert(self@.entries == old(self)@.entries.insert(submitted.command_id, entry@));
            self.lemma_view_wf();
        }
        Ok(id)
    }

    /// The record filed under `command_id`. Anyone may read; nothing changes.
    pub fn get_command(&self, command_id: &str) -> (outcome: Result<&CommandDetail, LedgerError>)
        ensures
            self@.get_command(command_id@) matches Ok(record) ==> outcome is Ok
                && outcome->Ok_0@ == record && record.valid(),
            self@.get_command(command_id@) matches Err(error) ==> outcome is Err
                && outcome->Err_0 == error,
            self@.wf(),
    {
        proof {
            use_type_invariant(self);
            self.lemma_view_wf();
        }
        let key = command_id.to_owned();
        match self.position(&key) {
            Some(i) => {
                proof {
                    lemma_slot(self.entries@, i as int);
                }
                Ok(&self.entries[i].record)
            },
            None => Err(LedgerError::NotFound),
        }
    }

    /// Whether a command is filed under `command_id`.
    pub fn contains(&self, command_id: &str) -> (filed: bool)
        ensures
            filed == self@.contains(command_id@),
    {
        let key = command_id.to_owned();
        self.position(&key).is_some()
    }

    /// The state of the command under `command_id`: `Created` until the
    /// first entry is added to its certification section.
    pub fn command_state(&self, command_id: &str) -> (outcome: Result<
        CommandState,
        LedgerError,
    >)
        ensures
            outcome == self@.state_of(command_id@),
    {
        proof {
            use_type_invariant(self);
        }
        let key = command_id.to_owned();
        match self.position(&key) {
            Some(i) => {
                proof {
                    lemma_slot(self.entries@, i as int);
                }
                Ok(self.entries[i].state)
            },
            None => Err(LedgerError::NotFound),
        }
    }

    /// The deposit the ledger holds for the command under `command_id`: the
    /// whole of what was attached when it was created.
    pub fn deposit_of(&self, command_id: &str) -> (outcome: Result<u128, LedgerError>)
        ensures
            self@.deposit_of(command_id@) matches Ok(held) ==> outcome is Ok && outcome->Ok_0
                == held,
            self@.deposit_of(command_id@) matches Err(error) ==> outcome is Err
                && outcome->Err_0 == error,
    {
        proof {
            use_type_invariant(self);
        }
        let key = command_id.to_owned();
        match self.position(&key) {
            Some(i) => {
                proof {
                    lemma_slot(self.entries@, i as int);
                }
                Ok(self.entries[i].deposit)
            },
            None => Err(LedgerError::NotFound),
        }
    }

    /// The account that owns the ledger.
    pub fn owner_id(&self) -> (owner: &AccountId)
        ensures
            owner@ == self@.owner_id,
    {
        &self.owner_id
    }

    /// The escrow rule by which the ledger admits commands.
    pub fn escrow(&self) -> (escrow: EscrowValidator)
        ensures
            escrow.spec_margin() == self@.margin,
            escrow.wf(),
    {
        proof {
            use_type_invariant(self);
        }
        self.escrow
    }

    /// Adds `entry` to the certification section of the command under
    /// `command_id`, on behalf of `caller`.
    ///
    /// The command must exist and have a certification section, else the
    /// call fails with `NotFound`; the caller must not be the command's
    /// owner, else it fails with `Unauthorized`. An accepted entry goes to
    /// the end of the sequence it names and puts the command in
    /// certification. A rejected call changes nothing.
    pub fn certify_command(
        &mut self,
        caller: &AccountId,
        command_id: &str,
        entry: CertificationEntry,
    ) -> (outcome: Result<(), LedgerError>)
        ensures
            final(self)@ == old(self)@.certify_command(caller@, command_id@, entry@),
            outcome == old(self)@.certification(caller@, command_id@),
            old(self)@.wf(),
            final(self)@.wf(),
    {
        proof {
            use_type_invariant(&*self);
            self.lemma_view_wf();
        }
        let key = command_id.to_owned();
        let i = match self.position(&key) {
            Some(i) => i,
            None => {
                return Err(LedgerError::NotFound);
            },
        };
        proof {
            lemma_slot(self.entries@, i as int);
        }
        if self.entries[i].record.quality.is_none() {
            return Err(LedgerError::NotFound);
        }
        if !AuthorizationGuard::may_certify(caller, &self.entries[i].record) {
            return Err(LedgerError::Unauthorized);
        }
        let ghost before = self.entries@;
        let mut entries: Vec<LedgerEntry> = Vec::new();
        core::mem::swap(&mut self.entries, &mut entries);
        let filed = &mut entries[i];
        let _ = QualityWorkflow::append(&mut filed.record, entry);
        filed.state = CommandState::CertificationInProgress;
        proof {
            lemma_update(before, i as int, entries@[i as int]);
            assert(entries@ =~= before.update(i as int, entries@[i as int]));
        }
        core::mem::swap(&mut self.entries, &mut entries);
        proof {
            self.lemma_view_wf();
        }
        Ok(())
    }
}

} // verus!
