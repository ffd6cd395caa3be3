//! What holds of the ledger over whole histories of calls.

use vstd::prelude::*;
use crate::error::LedgerError;
use crate::escrow::{base_price, required_deposit};
use crate::model::{Call, CommandState, LedgerView, signatures_for};
use crate::quality::{certificates_in, stages_in, CertificationEntryView};
use crate::record::{CommandPayloadView, QualityView};
use crate::response::first_mismatch;

verus! {

/// One call never removes a command, and changes nothing of it but its
/// certification section and its state: the record keeps its id, its owner
/// and what was ordered, the deposit held for it stays, a section is neither
/// gained nor lost, and a command in certification stays in certification.
pub proof fn theorem_step_keeps_commands(ledger: LedgerView, call: Call, id: Seq<char>)
    requires
        ledger.contains(id),
    ensures
        ({
            let next = ledger.step(call);
            let before = ledger.entries[id];
            let after = next.entries[id];
            &&& next.contains(id)
            &&& next.owner_id == ledger.owner_id
            &&& next.margin == ledger.margin
            &&& after.record.with_quality(None) == before.record.with_quality(None)
            &&& after.deposit == before.deposit
            &&& (after.record.quality is Some <==> before.record.quality is Some)
            &&& (before.state == CommandState::CertificationInProgress ==> after.state
                == CommandState::CertificationInProgress)
        }),
{
}

/// The same over any history of calls.
pub proof fn theorem_run_keeps_commands(ledger: LedgerView, calls: Seq<Call>, id: Seq<char>)
    requires
        ledger.contains(id),
    ensures
        ({
            let next = ledger.run(calls);
            let before = ledger.entries[id];
            let after = next.entries[id];
            &&& next.contains(id)
            &&& next.owner_id == ledger.owner_id
            &&& next.margin == ledger.margin
            &&& after.record.with_quality(None) == before.record.with_quality(None)
            &&& after.deposit == before.deposit
            &&& (after.record.quality is Some <==> before.record.quality is Some)
            &&& (before.state == CommandState::CertificationInProgress ==> after.state
                == CommandState::CertificationInProgress)
        }),
    decreases calls.len(),
{
    if calls.len() > 0 {
        theorem_run_keeps_commands(ledger, calls.drop_last(), id);
        theorem_step_keeps_commands(ledger.run(calls.drop_last()), calls.last(), id);
    }
}

/// Every call keeps the ledger well formed.
pub proof fn theorem_step_keeps_wf(ledger: LedgerView, call: Call)
    requires
        ledger.wf(),
    ensures
        ledger.step(call).wf(),
{
    let next = ledger.step(call);
    assert forall|id: Seq<char>| #[trigger]
        next.entries.contains_key(id) implies next.entries[id].record.command_id == id
        && next.entries[id].sound(next.margin) by {
        if ledger.entries.contains_key(id) {
            assert(ledger.entries[id].sound(ledger.margin));
        }
    }
}

/// Every history of calls keeps the ledger well formed.
pub proof fn theorem_run_keeps_wf(ledger: LedgerView, calls: Seq<Call>)
    requires
        ledger.wf(),
    ensures
        ledger.run(calls).wf(),
    decreases calls.len(),
{
    if calls.len() > 0 {
        theorem_run_keeps_wf(ledger, calls.drop_last());
        theorem_step_keeps_wf(ledger.run(calls.drop_last()), calls.last());
    }
}

/// An id is used once. After a command was admitted under an id, and after
/// whatever calls followed, no call creates a command under that id again,
/// whatever its payload, its deposit or its caller: the call is rejected and
/// changes nothing. Where the payload and the deposit would have been
/// admitted under a fresh id, the error is `DuplicateId`.
pub proof fn theorem_id_used_once(
    ledger: LedgerView,
    first_caller: Seq<char>,
    first_deposit: nat,
    first: CommandPayloadView,
    between: Seq<Call>,
    caller: Seq<char>,
    deposit: nat,
    payload: CommandPayloadView,
)
    requires
        ledger.admission(first_caller, first_deposit, first) is Ok,
        payload.command_id == first.command_id,
    ensures
        ({
            let later = ledger.add_command(first_caller, first_deposit, first).run(between);
            &&& later.admission(caller, deposit, payload) is Err
            &&& later.add_command(caller, deposit, payload) == later
            &&& payload.valid() && deposit >= required_deposit(
                later.margin,
                payload.amount_product,
                payload.price_per_product,
            ) ==> later.admission(caller, deposit, payload) == Err::<(), LedgerError>(
                LedgerError::DuplicateId,
            )
        }),
{
    let admitted = ledger.add_command(first_caller, first_deposit, first);
    assert(admitted.contains(first.command_id));
    theorem_run_keeps_commands(admitted, between, first.command_id);
}

/// What was admitted is read back as it was submitted: every field of the
/// payload as it stood, a missing certification section still missing and an
/// empty one still empty, and the caller as the owner. Held against the
/// order, the record read back shows no mismatch.
pub proof fn theorem_round_trip(
    ledger: LedgerView,
    caller: Seq<char>,
    deposit: nat,
    payload: CommandPayloadView,
)
    requires
        ledger.admission(caller, deposit, payload) is Ok,
    ensures
        ({
            let read = ledger.add_command(caller, deposit, payload).get_command(
                payload.command_id,
            );
            &&& read == Ok::<_, LedgerError>(payload.into_record(caller))
            &&& read->Ok_0.payload() == payload
            &&& read->Ok_0.command_owner_id == caller
            &&& first_mismatch(payload, read->Ok_0) is None
        }),
{
}

/// A command starts in the state `Created`, with the whole of the attached
/// deposit held for it.
pub proof fn theorem_admitted_command_starts_created(
    ledger: LedgerView,
    caller: Seq<char>,
    deposit: nat,
    payload: CommandPayloadView,
)
    requires
        ledger.admission(caller, deposit, payload) is Ok,
    ensures
        ({
            let next = ledger.add_command(caller, deposit, payload);
            &&& next.state_of(payload.command_id) == Ok::<_, LedgerError>(CommandState::Created)
            &&& next.deposit_of(payload.command_id) == Ok::<_, LedgerError>(deposit)
        }),
{
}

/// Creating a command leaves every other command as it was.
pub proof fn theorem_add_leaves_others(
    ledger: LedgerView,
    caller: Seq<char>,
    deposit: nat,
    payload: CommandPayloadView,
    other: Seq<char>,
)
    requires
        other != payload.command_id,
    ensures
        ledger.add_command(caller, deposit, payload).get_command(other) == ledger.get_command(
            other,
        ),
        ledger.add_command(caller, deposit, payload).contains(other) == ledger.contains(other),
{
}

/// No deposit under the base price is admitted: whatever the ledger holds
/// and whatever its margin, such a call fails with `InsufficientDeposit` and
/// changes nothing.
pub proof fn theorem_deposit_floor(
    ledger: LedgerView,
    caller: Seq<char>,
    deposit: nat,
    payload: CommandPayloadView,
)
    requires
        deposit < base_price(payload.amount_product, payload.price_per_product),
    ensures
        ledger.admission(caller, deposit, payload) == Err::<(), LedgerError>(
            LedgerError::InsufficientDeposit,
        ),
        ledger.add_command(caller, deposit, payload) == ledger,
{
    assert(payload.amount_product > 0 && payload.price_per_product > 0) by (nonlinear_arith)
        requires
            deposit < payload.amount_product * payload.price_per_product,
    ;
}

/// A deposit of exactly the base price is judged alike under every margin:
/// two ledgers that hold the same commands give the same verdict, whatever
/// their positive margins, and the verdict is never an admission.
pub proof fn theorem_exact_deposit_judged_alike(
    one: LedgerView,
    other: LedgerView,
    caller: Seq<char>,
    payload: CommandPayloadView,
)
    requires
        one.margin > 0,
        other.margin > 0,
        one.entries == other.entries,
    ensures
        ({
            let deposit = base_price(payload.amount_product, payload.price_per_product);
            &&& one.admission(caller, deposit, payload) == other.admission(
                caller,
                deposit,
                payload,
            )
            &&& one.admission(caller, deposit, payload) is Err
        }),
{
}

/// A surplus never turns a deposit down, and none of it is lost: what is
/// admitted with one deposit is admitted with every larger one, and the
/// ledger then holds exactly the deposit that was attached.
pub proof fn theorem_surplus_is_kept(
    ledger: LedgerView,
    caller: Seq<char>,
    deposit: nat,
    larger: nat,
    payload: CommandPayloadView,
)
    requires
        ledger.admission(caller, deposit, payload) is Ok,
        larger >= deposit,
    ensures
        ledger.admission(caller, larger, payload) is Ok,
        ledger.add_command(caller, larger, payload).entries[payload.command_id].deposit == larger,
{
}

/// Appending entries one after another concatenates them: the certificates
/// are those the section had, followed by the accounts of the appended
/// certificates in the order of the calls, and likewise the stages.
pub proof fn theorem_appends_concatenate(
    section: QualityView,
    entries: Seq<CertificationEntryView>,
)
    ensures
        section.with_entries(entries).certificate == section.certificate + certificates_in(
            entries,
        ),
        section.with_entries(entries).stage == section.stage + stages_in(entries),
    decreases entries.len(),
{
    if entries.len() == 0 {
        assert(section.certificate + certificates_in(entries) =~= section.certificate);
        assert(section.stage + stages_in(entries) =~= section.stage);
    } else {
        theorem_appends_concatenate(section, entries.drop_last());
        let rest = section.with_entries(entries.drop_last());
        match entries.last() {
            CertificationEntryView::Certificate(a) => {
                assert(rest.certificate.push(a) =~= section.certificate + (certificates_in(
                    entries.drop_last(),
                ) + seq![a]));
            },
            CertificationEntryView::Stage(a) => {
                assert(rest.stage.push(a) =~= section.stage + (stages_in(entries.drop_last())
                    + seq![a]));
            },
        }
    }
}

/// Over any history of calls a certification section only grows, and by
/// exactly the accepted entries in the order of their calls: the section of
/// a command is the one it had, with the entries appended that the calls
/// addressed to it from accounts other than its owner. Nothing is removed
/// and nothing is reordered.
pub proof fn theorem_certification_is_append_only(
    ledger: LedgerView,
    calls: Seq<Call>,
    id: Seq<char>,
)
    requires
        ledger.contains(id),
        ledger.entries[id].record.quality is Some,
    ensures
        ({
            let before = ledger.entries[id].record;
            let section = before.quality->0;
            let signed = signatures_for(calls, id, before.command_owner_id);
            let after = ledger.run(calls).entries[id].record.quality;
            &&& after == Some(section.with_entries(signed))
            &&& after->0.certificate == section.certificate + certificates_in(signed)
            &&& after->0.stage == section.stage + stages_in(signed)
        }),
    decreases calls.len(),
{
    let before = ledger.entries[id].record;
    let section = before.quality->0;
    let signed = signatures_for(calls, id, before.command_owner_id);
    if calls.len() == 0 {
        assert(signed =~= Seq::empty());
    } else {
        let earlier = calls.drop_last();
        theorem_certification_is_append_only(ledger, earlier, id);
        theorem_run_keeps_commands(ledger, earlier, id);
        let signed_earlier = signatures_for(earlier, id, before.command_owner_id);
        let middle = ledger.run(earlier);
        assert(middle.entries[id].record.command_owner_id == before.command_owner_id);
        match calls.last() {
            Call::Certify { caller, id: target, entry } => {
                if target == id && caller != before.command_owner_id {
                    assert(signed == signed_earlier + seq![entry]);
                    assert(signed.drop_last() =~= signed_earlier);
                } else {
                    assert(signed == signed_earlier);
                }
            },
            Call::Add { caller, deposit, payload } => {
                assert(signed == signed_earlier);
            },
        }
    }
    theorem_appends_concatenate(section, signed);
}

/// A command without a certification section never gets one.
pub proof fn theorem_no_section_stays_none(ledger: LedgerView, calls: Seq<Call>, id: Seq<char>)
    requires
        ledger.contains(id),
        ledger.entries[id].record.quality is None,
    ensures
        ledger.run(calls).entries[id].record == ledger.entries[id].record,
        ledger.run(calls).entries[id].state == ledger.entries[id].state,
    decreases calls.len(),
{
    if calls.len() > 0 {
        theorem_no_section_stays_none(ledger, calls.drop_last(), id);
        theorem_run_keeps_commands(ledger, calls.drop_last(), id);
    }
}

} // verus!
