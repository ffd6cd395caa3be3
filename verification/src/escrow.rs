use vstd::prelude::*;
use crate::error::LedgerError;

verus! {

/// What a command costs before any margin: amount times unit price, computed
/// without a bound.
pub open spec fn base_price(amount: nat, price: nat) -> nat {
    amount * price
}

/// The least deposit that backs a command under a given margin.
pub open spec fn required_deposit(margin: nat, amount: nat, price: nat) -> nat {
    base_price(amount, price) + margin
}

/// Decides whether an attached deposit backs a command.
///
/// The rule is the base price plus a margin. The margin is the validator's
/// one parameter: a ledger is built with the validator its operator chose.
#[derive(Clone, Copy, Debug, PartialEq, Eq)]
pub struct EscrowValidator {
    margin: u128,
}

impl EscrowValidator {
    /// The margin demanded on top of the base price.
    pub closed spec fn spec_margin(&self) -> nat {
        self.margin as nat
    }

    /// What holds of every validator: its margin is strictly positive.
    pub open spec fn wf(&self) -> bool {
        self.spec_margin() > 0
    }

    #[verifier::type_invariant]
    pub(crate) open spec fn inv(&self) -> bool {
        self.wf()
    }

    /// Whether this validator lets `deposit` back `amount` units at `price`.
    pub open spec fn accepts(&self, deposit: nat, amount: nat, price: nat) -> bool {
        deposit >= required_deposit(self.spec_margin(), amount, price)
    }

    /// A validator with the given margin, which must be positive.
    pub fn new(margin: u128) -> (validator: Option<EscrowValidator>)
        ensures
            validator is Some <==> margin > 0,
            validator matches Some(v) ==> v.wf() && v.spec_margin() == margin,
    {
        if margin > 0 {
            Some(EscrowValidator { margin })
        } else {
            None
        }
    }

    /// The margin demanded on top of the base price.
    pub fn margin(&self) -> (margin: u128)
        ensures
            margin == self.spec_margin(),
            self.wf(),
    {
        proof {
            use_type_invariant(self);
        }
        self.margin
    }

    /// Accepts the deposit exactly when it reaches the base price plus the
    /// margin. The sum is taken exactly: a command whose requirement exceeds
    /// every representable deposit is turned down, never wrapped around. In
    /// particular no deposit under the base price is ever accepted.
    pub fn validate(
        &self,
        deposit: u128,
        amount_product: u128,
        price_per_product: u128,
    ) -> (verdict: Result<(), LedgerError>)
        ensures
            verdict is Ok <==> self.accepts(
                deposit as nat,
                amount_product as nat,
                price_per_product as nat,
            ),
            verdict is Err ==> verdict == Err::<(), LedgerError>(
                LedgerError::InsufficientDeposit,
            ),
            verdict is Ok ==> deposit >= base_price(
                amount_product as nat,
                price_per_product as nat,
            ),
    {
        let base = match amount_product.checked_mul(price_per_product) {
            Some(base) => base,
            None => {
                return Err(LedgerError::InsufficientDeposit);
            },
        };
        let required = match base.checked_add(self.margin) {
            Some(required) => required,
            None => {
                return Err(LedgerError::InsufficientDeposit);
            },
        };
        if deposit >= required {
            Ok(())
        } else {
            Err(LedgerError::InsufficientDeposit)
        }
    }
}

} // verus!
