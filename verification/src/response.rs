use vstd::prelude::*;
use crate::record::{CommandDetail, CommandDetailView, CommandPayload, CommandPayloadView};

verus! {

/// The first field in which a record that was read back differs from what
/// was ordered.
#[derive(Clone, Copy, Debug, PartialEq, Eq, Structural)]
pub enum Mismatch {
    NameProduct,
    IsSell,
    AmountProduct,
    PricePerProduct,
}

impl Mismatch {
    pub open spec fn spec_message(&self) -> Seq<char> {
        match self {
            Mismatch::NameProduct => "WRONG_NAME_PRODUCT"@,
            Mismatch::IsSell => "WRONG_IS_SELL"@,
            Mismatch::AmountProduct => "WRONG_AMOUNT_PRODUCT"@,
            Mismatch::PricePerProduct => "WRONG_PRICE_PER_PRODUCT"@,
        }
    }

    /// The complaint to raise about the field.
    pub fn message(&self) -> (text: &'static str)
        ensures
            text@ == self.spec_message(),
    {
        match self {
            Mismatch::NameProduct => "WRONG_NAME_PRODUCT",
            Mismatch::IsSell => "WRONG_IS_SELL",
            Mismatch::AmountProduct => "WRONG_AMOUNT_PRODUCT",
            Mismatch::PricePerProduct => "WRONG_PRICE_PER_PRODUCT",
        }
    }
}

/// The first of the product's name, the side, the amount and the price, in
/// that order, in which `actual` differs from `expected`.
pub open spec fn first_mismatch(expected: CommandPayloadView, actual: CommandDetailView) -> Option<
    Mismatch,
> {
    if actual.name_product != expected.name_product {
        Some(Mismatch::NameProduct)
    } else if actual.is_sell != expected.is_sell {
        Some(Mismatch::IsSell)
    } else if actual.amount_product != expected.amount_product {
        Some(Mismatch::AmountProduct)
    } else if actual.price_per_product != expected.price_per_product {
        Some(Mismatch::PricePerProduct)
    } else {
        None
    }
}

/// Holds a record that a ledger returned against the order that was placed:
/// the product's name, the side, the amount and the price must be those of
/// the order. The first that differs is reported.
pub fn check_command(expected: &CommandPayload, actual: &CommandDetail) -> (outcome: Result<
    (),
    Mismatch,
>)
    ensures
        first_mismatch(expected@, actual@) matches Some(field) ==> outcome == Err::<(), Mismatch>(
            field,
        ),
        first_mismatch(expected@, actual@) is None ==> outcome is Ok,
{
    if actual.name_product != expected.name_product {
        Err(Mismatch::NameProduct)
    } else if actual.is_sell != expected.is_sell {
        Err(Mismatch::IsSell)
    } else if actual.amount_product != expected.amount_product {
        Err(Mismatch::AmountProduct)
    } else if actual.price_per_product != expected.price_per_product {
        Err(Mismatch::PricePerProduct)
    } else {
        Ok(())
    }
}

} // verus!
