use vstd::prelude::*;
use crate::account::{lemma_account_names_push, AccountId};
use crate::error::LedgerError;
use crate::record::{quality_view, CommandDetail, Quality, QualityView};

verus! {

/// One signature to add to a command's certification section.
#[derive(Clone, Debug, PartialEq, Eq)]
pub enum CertificationEntry {
    /// The account certifies the product.
    Certificate(AccountId),
    /// The account acknowledges a process checkpoint.
    Stage(AccountId),
}

pub enum CertificationEntryView {
    Certificate(Seq<char>),
    Stage(Seq<char>),
}

impl View for CertificationEntry {
    type V = CertificationEntryView;

    open spec fn view(&self) -> CertificationEntryView {
        match self {
            CertificationEntry::Certificate(a) => CertificationEntryView::Certificate(a@),
            CertificationEntry::Stage(a) => CertificationEntryView::Stage(a@),
        }
    }
}

impl CertificationEntryView {
    /// The account, where the entry is a certificate.
    pub open spec fn certificate(self) -> Option<Seq<char>> {
        match self {
            CertificationEntryView::Certificate(a) => Some(a),
            CertificationEntryView::Stage(_) => None,
        }
    }

    /// The account, where the entry is a stage.
    pub open spec fn stage(self) -> Option<Seq<char>> {
        match self {
            CertificationEntryView::Certificate(_) => None,
            CertificationEntryView::Stage(a) => Some(a),
        }
    }
}

/// The accounts of the certificates among `entries`, in order.
pub open spec fn certificates_in(entries: Seq<CertificationEntryView>) -> Seq<Seq<char>> {
    entries.filter_map(|e: CertificationEntryView| e.certificate())
}

/// The accounts of the stages among `entries`, in order.
pub open spec fn stages_in(entries: Seq<CertificationEntryView>) -> Seq<Seq<char>> {
    entries.filter_map(|e: CertificationEntryView| e.stage())
}

impl QualityView {
    /// The section after `entry` was appended to the sequence it names.
    pub open spec fn with_entry(self, entry: CertificationEntryView) -> QualityView {
        match entry {
            CertificationEntryView::Certificate(a) => self.with_certificate(a),
            CertificationEntryView::Stage(a) => self.with_stage(a),
        }
    }

    /// The section after all of `entries` were appended, first to last.
    pub open spec fn with_entries(self, entries: Seq<CertificationEntryView>) -> QualityView
        decreases entries.len(),
    {
        if entries.len() == 0 {
            self
        } else {
            self.with_entries(entries.drop_last()).with_entry(entries.last())
        }
    }
}

/// Manages the optional certification section of a command.
pub struct QualityWorkflow;

impl QualityWorkflow {
    /// Gives a record that was just made its certification section, or
    /// leaves it without one. This happens once, when the record is created.
    pub fn attach(record: CommandDetail, quality: Option<Quality>) -> (attached: CommandDetail)
        requires
            record@.quality is None,
        ensures
            attached@ == record@.with_quality(quality_view(quality)),
    {
        CommandDetail {
            command_id: record.command_id,
            name_product: record.name_product,
            is_sell: record.is_sell,
            amount_product: record.amount_product,
            price_per_product: record.price_per_product,
            quality,
            command_owner_id: record.command_owner_id,
        }
    }

    /// Adds `account` at the end of the record's certificates. A record
    /// without a certification section is left as it is.
    pub fn append_certificate(record: &mut CommandDetail, account: AccountId) -> (outcome: Result<
        (),
        LedgerError,
    >)
        ensures
            old(record)@.quality matches Some(q) ==> outcome is Ok && final(record)@ == old(
                record,
            )@.with_quality(Some(q.with_certificate(account@))),
            old(record)@.quality is None ==> outcome == Err::<(), LedgerError>(
                LedgerError::NotFound,
            ) && *final(record) == *old(record),
    {
        match &mut record.quality {
            Some(q) => {
                proof {
                    lemma_account_names_push(q.certificate@, account);
                }
                q.certificate.push(account);
                Ok(())
            },
            None => Err(LedgerError::NotFound),
        }
    }

    /// Adds `account` at the end of the record's stages. A record without a
    /// certification section is left as it is.
    pub fn append_stage(record: &mut CommandDetail, account: AccountId) -> (outcome: Result<
        (),
        LedgerError,
    >)
        ensures
            old(record)@.quality matches Some(q) ==> outcome is Ok && final(record)@ == old(
                record,
            )@.with_quality(Some(q.with_stage(account@))),
            old(record)@.quality is None ==> outcome == Err::<(), LedgerError>(
                LedgerError::NotFound,
            ) && *final(record) == *old(record),
    {
        match &mut record.quality {
            Some(q) => {
                proof {
                    lemma_account_names_push(q.stage@, account);
                }
                q.stage.push(account);
                Ok(())
            },
            None => Err(LedgerError::NotFound),
        }
    }

    /// Adds the entry's account at the end of the sequence the entry names.
    pub fn append(record: &mut CommandDetail, entry: CertificationEntry) -> (outcome: Result<
        (),
        LedgerError,
    >)
        ensures
            old(record)@.quality matches Some(q) ==> outcome is Ok && final(record)@ == old(
                record,
            )@.with_quality(Some(q.with_entry(entry@))),
            old(record)@.quality is None ==> outcome == Err::<(), LedgerError>(
                LedgerError::NotFound,
            ) && *final(record) == *old(record),
    {
        match entry {
            CertificationEntry::Certificate(account) => Self::append_certificate(record, account),
            CertificationEntry::Stage(account) => Self::append_stage(record, account),
        }
    }
}

} // verus!
