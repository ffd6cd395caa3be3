use vstd::prelude::*;
use crate::account::{account_names, AccountId};
use crate::quality::QualityWorkflow;

verus! {

/// The key of a command in the ledger.
pub type CommandId = String;

/// The free-form label of the product a command is about.
pub type NameProduct = String;

/// An amount in the ledger's native value unit.
pub type Balance = u128;

/// The certification section of a command: who signed off, in order.
#[derive(Clone, Debug, PartialEq, Eq)]
pub struct Quality {
    /// Accounts that certified the product's authenticity or grade.
    pub certificate: Vec<AccountId>,
    /// Accounts that acknowledged a process checkpoint.
    pub stage: Vec<AccountId>,
}

/// What a `Quality` holds, as two sequences of identifiers.
pub struct QualityView {
    pub certificate: Seq<Seq<char>>,
    pub stage: Seq<Seq<char>>,
}

impl QualityView {
    /// The section with `account` added at the end of the certificates.
    pub open spec fn with_certificate(self, account: Seq<char>) -> QualityView {
        QualityView { certificate: self.certificate.push(account), stage: self.stage }
    }

    /// The section with `account` added at the end of the stages.
    pub open spec fn with_stage(self, account: Seq<char>) -> QualityView {
        QualityView { certificate: self.certificate, stage: self.stage.push(account) }
    }

    /// The section in which nobody has signed yet.
    pub open spec fn pending() -> QualityView {
        QualityView { certificate: Seq::empty(), stage: Seq::empty() }
    }
}

impl View for Quality {
    type V = QualityView;

    open spec fn view(&self) -> QualityView {
        QualityView {
            certificate: account_names(self.certificate@),
            stage: account_names(self.stage@),
        }
    }
}

impl Quality {
    /// A section that awaits its first signature. It differs from having no
    /// section at all, which means that no certification is needed.
    pub fn pending() -> (q: Quality)
        ensures
            q@ == QualityView::pending(),
    {
        let q = Quality { certificate: Vec::new(), stage: Vec::new() };
        assert(q@.certificate =~= Seq::empty());
        assert(q@.stage =~= Seq::empty());
        q
    }
}

/// What a caller submits to create a command.
#[derive(Clone, Debug, PartialEq, Eq)]
pub struct CommandPayload {
    pub command_id: CommandId,
    pub name_product: NameProduct,
    /// `true` offers to sell, `false` offers to buy.
    pub is_sell: bool,
    pub amount_product: u128,
    pub price_per_product: Balance,
    /// `None` where the command needs no certification.
    pub quality: Option<Quality>,
}

/// A command as the ledger stores and returns it.
#[derive(Clone, Debug, PartialEq, Eq)]
pub struct CommandDetail {
    pub command_id: CommandId,
    pub name_product: NameProduct,
    /// `true` offers to sell, `false` offers to buy.
    pub is_sell: bool,
    pub amount_product: u128,
    pub price_per_product: Balance,
    /// `None` where the command needs no certification.
    pub quality: Option<Quality>,
    /// The account that created the command.
    pub command_owner_id: AccountId,
}

/// The view of an optional certification section.
pub open spec fn quality_view(quality: Option<Quality>) -> Option<QualityView> {
    match quality {
        Some(q) => Some(q@),
        None => None,
    }
}

pub struct CommandPayloadView {
    pub command_id: Seq<char>,
    pub name_product: Seq<char>,
    pub is_sell: bool,
    pub amount_product: nat,
    pub price_per_product: nat,
    pub quality: Option<QualityView>,
}

pub struct CommandDetailView {
    pub command_id: Seq<char>,
    pub name_product: Seq<char>,
    pub is_sell: bool,
    pub amount_product: nat,
    pub price_per_product: nat,
    pub quality: Option<QualityView>,
    pub command_owner_id: Seq<char>,
}

impl CommandPayloadView {
    /// A payload that may become a record: it names its product and asks for
    /// a positive amount at a positive price.
    pub open spec fn valid(self) -> bool {
        &&& self.amount_product > 0
        &&& self.price_per_product > 0
        &&& self.name_product.len() > 0
    }

    /// The record that `owner` creates from this payload.
    pub open spec fn into_record(self, owner: Seq<char>) -> CommandDetailView {
        CommandDetailView {
            command_id: self.command_id,
            name_product: self.name_product,
            is_sell: self.is_sell,
            amount_product: self.amount_product,
            price_per_product: self.price_per_product,
            quality: self.quality,
            command_owner_id: owner,
        }
    }
}

impl CommandDetailView {
    /// What every stored record satisfies.
    pub open spec fn valid(self) -> bool {
        &&& self.amount_product > 0
        &&& self.price_per_product > 0
        &&& self.name_product.len() > 0
    }

    /// What the record's creator submitted.
    pub open spec fn payload(self) -> CommandPayloadView {
        CommandPayloadView {
            command_id: self.command_id,
            name_product: self.name_product,
            is_sell: self.is_sell,
            amount_product: self.amount_product,
            price_per_product: self.price_per_product,
            quality: self.quality,
        }
    }

    /// The record with its certification section replaced.
    pub open spec fn with_quality(self, quality: Option<QualityView>) -> CommandDetailView {
        CommandDetailView { quality, ..self }
    }
}

impl View for CommandPayload {
    type V = CommandPayloadView;

    open spec fn view(&self) -> CommandPayloadView {
        CommandPayloadView {
            command_id: self.command_id@,
            name_product: self.name_product@,
            is_sell: self.is_sell,
            amount_product: self.amount_product as nat,
            price_per_product: self.price_per_product as nat,
            quality: quality_view(self.quality),
        }
    }
}

impl View for CommandDetail {
    type V = CommandDetailView;

    open spec fn view(&self) -> CommandDetailView {
        CommandDetailView {
            command_id: self.command_id@,
            name_product: self.name_product@,
            is_sell: self.is_sell,
            amount_product: self.amount_product as nat,
            price_per_product: self.price_per_product as nat,
            quality: quality_view(self.quality),
            command_owner_id: self.command_owner_id@,
        }
    }
}

impl CommandPayload {
    /// The record that `owner` creates from this payload: every field is
    /// carried over as it stands, and `owner` becomes the command's owner.
    pub fn into_record(self, owner: AccountId) -> (record: CommandDetail)
        ensures
            record@ == self@.into_record(owner@),
    {
        let bare = CommandDetail {
            command_id: self.command_id,
            name_product: self.name_product,
            is_sell: self.is_sell,
            amount_product: self.amount_product,
            price_per_product: self.price_per_product,
            quality: None,
            command_owner_id: owner,
        };
        QualityWorkflow::attach(bare, self.quality)
    }
}

} // verus!
