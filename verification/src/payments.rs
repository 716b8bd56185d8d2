//! A five-state payment machine with escrow release rules and fee arithmetic.

use vstd::prelude::*;

use crate::account::AccountId;

verus! {

/// Current state of a payment in its lifecycle.
#[derive(Clone, Copy, Debug, PartialEq, Eq, Structural)]
pub enum PaymentStatus {
    /// Created but not yet funded.
    Pending,
    /// Funds locked in escrow.
    Escrowed,
    /// Completed and funds transferred (terminal).
    Completed,
    /// Refunded to the payer (terminal).
    Refunded,
    /// Cancelled before escrow (terminal).
    Cancelled,
}

/// Error kinds of the payment operations.
#[derive(Clone, Copy, Debug, PartialEq, Eq, Structural)]
pub enum PaymentError {
    InvalidAmount,
    SamePayerPayee,
    InvalidFee,
    InvalidAsset,
    FeesExceedAmount,
    InvalidTransition,
    EscrowNotReleasable,
}

/// Conditions that must all hold before escrow funds can be released.
#[derive(Clone, Copy, Debug, PartialEq, Eq, Structural)]
pub struct ReleaseConditions {
    pub medical_records_verified: bool,
    /// Earliest timestamp at which release is allowed.
    pub min_timestamp: u64,
    /// If set, only this identity may approve the release.
    pub authorized_approver: Option<AccountId>,
}

/// One payment transaction.
#[derive(Clone, Copy, Debug, PartialEq, Eq, Structural)]
pub struct Payment {
    pub id: u64,
    pub request_id: u64,
    pub payer: AccountId,
    pub payee: AccountId,
    /// Amount in the asset's smallest denomination.
    pub amount: i128,
    /// The asset contract the payment is denominated in.
    pub asset: AccountId,
    pub status: PaymentStatus,
    /// When escrow was released, if it has been.
    pub escrow_released_at: Option<u64>,
}

/// An escrow account holding locked funds for one payment.
#[derive(Clone, Copy, Debug, PartialEq, Eq, Structural)]
pub struct EscrowAccount {
    pub payment_id: u64,
    pub locked_amount: i128,
    pub release_conditions: ReleaseConditions,
}

/// Fee breakdown of a transaction.
#[derive(Clone, Copy, Debug, PartialEq, Eq, Structural)]
pub struct FeeStructure {
    pub service_fee: i128,
    pub network_fee: i128,
    pub performance_bonus: i128,
}

/// Additional free-form metadata attached to a transaction.
pub struct TransactionMetadata {
    /// Short identifier or category.
    pub description: String,
    /// Categorisation tags.
    pub tags: Vec<String>,
    /// Reference identifier.
    pub reference_url: String,
}

/// Validity of a payment: the amount must be positive, payer and payee must
/// differ, and the asset must not equal either of them; the earliest violated
/// clause decides the error.
pub open spec fn spec_validate_payment(p: Payment) -> Result<(), PaymentError> {
    if p.amount <= 0 {
        Err(PaymentError::InvalidAmount)
    } else if p.payer == p.payee {
        Err(PaymentError::SamePayerPayee)
    } else if p.asset == p.payer || p.asset == p.payee {
        Err(PaymentError::InvalidAsset)
    } else {
        Ok(())
    }
}

/// The payment transition table: `Pending` may move to `Escrowed` or
/// `Cancelled`, `Escrowed` to `Completed` or `Refunded`; nothing else.
pub open spec fn payment_transition_allowed(from: PaymentStatus, to: PaymentStatus) -> bool {
    match (from, to) {
        (PaymentStatus::Pending, PaymentStatus::Escrowed) => true,
        (PaymentStatus::Pending, PaymentStatus::Cancelled) => true,
        (PaymentStatus::Escrowed, PaymentStatus::Completed) => true,
        (PaymentStatus::Escrowed, PaymentStatus::Refunded) => true,
        _ => false,
    }
}

pub open spec fn spec_payment_is_terminal(s: PaymentStatus) -> bool {
    s is Completed || s is Refunded || s is Cancelled
}

/// No payment status may transition to itself.
pub proof fn lemma_no_self_payment_transition()
    ensures
        forall|s: PaymentStatus| !payment_transition_allowed(s, s),
{
}

/// A terminal payment status admits no outgoing transition.
pub proof fn lemma_terminal_payment_statuses_are_final()
    ensures
        forall|s: PaymentStatus, t: PaymentStatus|
            spec_payment_is_terminal(s) ==> !payment_transition_allowed(s, t),
{
}

impl Payment {
    /// Checks the payment's structural validity; each violated clause yields
    /// its own specific error.
    pub fn validate(&self) -> (r: Result<(), PaymentError>)
        ensures
            r == spec_validate_payment(*self),
            r is Ok <==> self.amount > 0 && self.payer != self.payee && self.asset != self.payer
                && self.asset != self.payee,
    {
        if self.amount <= 0 {
            return Err(PaymentError::InvalidAmount);
        }
        if self.payer == self.payee {
            return Err(PaymentError::SamePayerPayee);
        }
        if self.asset == self.payer || self.asset == self.payee {
            return Err(PaymentError::InvalidAsset);
        }
        Ok(())
    }

    /// Whether this payment may move to `new_status`.
    pub fn can_transition_to(&self, new_status: PaymentStatus) -> (r: bool)
        ensures
            r == payment_transition_allowed(self.status, new_status),
    {
        match (self.status, new_status) {
            (PaymentStatus::Pending, PaymentStatus::Escrowed) => true,
            (PaymentStatus::Pending, PaymentStatus::Cancelled) => true,
            (PaymentStatus::Escrowed, PaymentStatus::Completed) => true,
            (PaymentStatus::Escrowed, PaymentStatus::Refunded) => true,
            _ => false,
        }
    }

    /// Whether the payment sits in a terminal state.
    pub fn is_terminal(&self) -> (r: bool)
        ensures
            r == spec_payment_is_terminal(self.status),
    {
        matches!(
            self.status,
            PaymentStatus::Completed | PaymentStatus::Refunded | PaymentStatus::Cancelled
        )
    }
}

/// Whether an escrow may be released at `current_timestamp` with the given
/// approver: the timestamp bound has passed, medical records are verified,
/// and a required approver, if any, matches the one provided.
pub open spec fn spec_can_release(
    e: EscrowAccount,
    current_timestamp: u64,
    approver: Option<AccountId>,
) -> bool {
    &&& current_timestamp >= e.release_conditions.min_timestamp
    &&& e.release_conditions.medical_records_verified
    &&& match e.release_conditions.authorized_approver {
        Some(required) => approver == Some(required),
        None => true,
    }
}

impl EscrowAccount {
    /// Checks that the escrow holds a positive locked amount.
    pub fn validate(&self) -> (r: Result<(), PaymentError>)
        ensures
            r is Ok <==> self.locked_amount > 0,
            r is Err ==> r == Err::<(), PaymentError>(PaymentError::InvalidAmount),
    {
        if self.locked_amount <= 0 {
            return Err(PaymentError::InvalidAmount);
        }
        Ok(())
    }

    /// Whether the release conditions are satisfied.
    pub fn can_release(&self, current_timestamp: u64, approver: Option<&AccountId>) -> (r: bool)
        ensures
            r == spec_can_release(
                *self,
                current_timestamp,
                match approver {
                    Some(a) => Some(*a),
                    None => None,
                },
            ),
    {
        if current_timestamp < self.release_conditions.min_timestamp {
            return false;
        }
        if !self.release_conditions.medical_records_verified {
            return false;
        }
        if let Some(required_approver) = &self.release_conditions.authorized_approver {
            if let Some(provided_approver) = approver {
                if required_approver != provided_approver {
                    return false;
                }
            } else {
                return false;
            }
        }
        true
    }
}

impl FeeStructure {
    /// The sum of the three fee components.
    pub fn total(&self) -> (r: i128)
        requires
            i128::MIN <= self.service_fee + self.network_fee <= i128::MAX,
            i128::MIN <= self.service_fee + self.network_fee + self.performance_bonus
                <= i128::MAX,
        ensures
            r == self.service_fee + self.network_fee + self.performance_bonus,
    {
        self.service_fee + self.network_fee + self.performance_bonus
    }

    /// Checks that no fee component is negative.
    pub fn validate(&self) -> (r: Result<(), PaymentError>)
        ensures
            r is Ok <==> self.service_fee >= 0 && self.network_fee >= 0
                && self.performance_bonus >= 0,
            r is Err ==> r == Err::<(), PaymentError>(PaymentError::InvalidFee),
    {
        if self.service_fee < 0 || self.network_fee < 0 || self.performance_bonus < 0 {
            return Err(PaymentError::InvalidFee);
        }
        Ok(())
    }

    /// The net amount after deducting all fees from `gross_amount`, an error
    /// if the fees exceed it.
    pub fn calculate_net_amount(&self, gross_amount: i128) -> (r: Result<i128, PaymentError>)
        requires
            i128::MIN <= self.service_fee + self.network_fee <= i128::MAX,
            i128::MIN <= self.service_fee + self.network_fee + self.performance_bonus
                <= i128::MAX,
            i128::MIN <= gross_amount - (self.service_fee + self.network_fee
                + self.performance_bonus) <= i128::MAX,
        ensures
            self.service_fee + self.network_fee + self.performance_bonus > gross_amount ==> r
                == Err::<i128, PaymentError>(PaymentError::FeesExceedAmount),
            self.service_fee + self.network_fee + self.performance_bonus <= gross_amount ==> r
                == Ok::<i128, PaymentError>(
                (gross_amount - (self.service_fee + self.network_fee
                    + self.performance_bonus)) as i128,
            ),
    {
        let total_fees = self.total();
        if total_fees > gross_amount {
            return Err(PaymentError::FeesExceedAmount);
        }
        Ok(gross_amount - total_fees)
    }
}

} // verus!
