//! Blood typing and the lifecycle state machine over unit statuses.

use vstd::prelude::*;

verus! {

/// ABO blood group combined with the Rh factor.
#[derive(Clone, Copy, Debug, PartialEq, Eq, Structural)]
pub enum BloodType {
    APositive,
    ANegative,
    BPositive,
    BNegative,
    ABPositive,
    ABNegative,
    OPositive,
    ONegative,
}

/// Position of a blood unit in the supply chain.
///
/// `Delivered` and `Expired` are terminal: no transition leaves them.
#[derive(Clone, Copy, Debug, PartialEq, Eq, Structural)]
pub enum BloodStatus {
    Available,
    Reserved,
    InTransit,
    Delivered,
    Expired,
}

/// The transition table of the lifecycle state machine.
///
/// This is the single source of truth for which status changes are legal;
/// both the single and the batch transition paths decide by it.
pub open spec fn transition_allowed(from: BloodStatus, to: BloodStatus) -> bool {
    match (from, to) {
        (BloodStatus::Available, BloodStatus::Reserved) => true,
        (BloodStatus::Available, BloodStatus::Expired) => true,
        (BloodStatus::Reserved, BloodStatus::InTransit) => true,
        (BloodStatus::Reserved, BloodStatus::Available) => true,
        (BloodStatus::Reserved, BloodStatus::Expired) => true,
        (BloodStatus::InTransit, BloodStatus::Delivered) => true,
        (BloodStatus::InTransit, BloodStatus::Expired) => true,
        _ => false,
    }
}

/// Decides whether a unit may move from `from` to `to`.
///
/// Pure tabulated function with no storage access.
pub fn is_valid_transition(from: &BloodStatus, to: &BloodStatus) -> (valid: bool)
    ensures
        valid == transition_allowed(*from, *to),
{
    match (from, to) {
        (BloodStatus::Available, BloodStatus::Reserved) => true,
        (BloodStatus::Available, BloodStatus::Expired) => true,
        (BloodStatus::Reserved, BloodStatus::InTransit) => true,
        (BloodStatus::Reserved, BloodStatus::Available) => true,
        (BloodStatus::Reserved, BloodStatus::Expired) => true,
        (BloodStatus::InTransit, BloodStatus::Delivered) => true,
        (BloodStatus::InTransit, BloodStatus::Expired) => true,
        _ => false,
    }
}

pub open spec fn spec_is_terminal(s: BloodStatus) -> bool {
    s is Delivered || s is Expired
}

impl BloodStatus {
    /// True exactly for the two terminal statuses.
    pub fn is_terminal(&self) -> (r: bool)
        ensures
            r == spec_is_terminal(*self),
    {
        matches!(self, BloodStatus::Delivered | BloodStatus::Expired)
    }
}

/// No status may transition to itself.
pub proof fn lemma_no_self_transition()
    ensures
        forall|s: BloodStatus| !transition_allowed(s, s),
{
}

/// A terminal status admits no outgoing transition at all.
pub proof fn lemma_terminal_statuses_are_final()
    ensures
        forall|s: BloodStatus, t: BloodStatus|
            spec_is_terminal(s) ==> !transition_allowed(s, t),
{
}

/// The donor-to-recipient compatibility table over blood types.
pub open spec fn donation_compatible(donor: BloodType, recipient: BloodType) -> bool {
    match (donor, recipient) {
        (BloodType::ONegative, _) => true,
        (
            BloodType::OPositive,
            BloodType::APositive | BloodType::BPositive | BloodType::ABPositive
            | BloodType::OPositive,
        ) => true,
        (
            BloodType::ANegative,
            BloodType::APositive | BloodType::ANegative | BloodType::ABPositive
            | BloodType::ABNegative,
        ) => true,
        (BloodType::APositive, BloodType::APositive | BloodType::ABPositive) => true,
        (
            BloodType::BNegative,
            BloodType::BPositive | BloodType::BNegative | BloodType::ABPositive
            | BloodType::ABNegative,
        ) => true,
        (BloodType::BPositive, BloodType::BPositive | BloodType::ABPositive) => true,
        (BloodType::ABNegative, BloodType::ABPositive | BloodType::ABNegative) => true,
        (BloodType::ABPositive, BloodType::ABPositive) => true,
        _ => false,
    }
}

impl BloodType {
    /// Whether this blood type can donate to the recipient type.
    ///
    /// O- is the universal donor, AB+ the universal recipient; an Rh-negative
    /// type can donate to both Rh signs, an Rh-positive one only to positive.
    pub fn can_donate_to(&self, recipient: &BloodType) -> (r: bool)
        ensures
            r == donation_compatible(*self, *recipient),
    {
        match (self, recipient) {
            (BloodType::ONegative, _) => true,
            (
                BloodType::OPositive,
                BloodType::APositive | BloodType::BPositive | BloodType::ABPositive
                | BloodType::OPositive,
            ) => true,
            (
                BloodType::ANegative,
                BloodType::APositive | BloodType::ANegative | BloodType::ABPositive
                | BloodType::ABNegative,
            ) => true,
            (BloodType::APositive, BloodType::APositive | BloodType::ABPositive) => true,
            (
                BloodType::BNegative,
                BloodType::BPositive | BloodType::BNegative | BloodType::ABPositive
                | BloodType::ABNegative,
            ) => true,
            (BloodType::BPositive, BloodType::BPositive | BloodType::ABPositive) => true,
            (BloodType::ABNegative, BloodType::ABPositive | BloodType::ABNegative) => true,
            (BloodType::ABPositive, BloodType::ABPositive) => true,
            _ => false,
        }
    }
}

} // verus!
