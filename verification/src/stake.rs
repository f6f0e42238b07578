//! Stake reservation: what the adapter over a named-reservation balance
//! mechanism reports of each operation, given what the mechanism answered.
//!
//! The mechanism itself is a collaborator. It answers a release or a
//! transfer with the part of the amount that it could not move; the adapter
//! reports the part that was moved.

use vstd::prelude::*;

verus! {

/// The smaller of two amounts.
pub open spec fn min_amount(a: u128, b: u128) -> u128 {
    if a <= b {
        a
    } else {
        b
    }
}

/// The part of `amount` that left the reserve, when the reserve held
/// `reserved_before` and the mechanism reported `remainder` as not moved:
/// the amount less the remainder, and never more than the reserve held.
pub open spec fn moved_amount(amount: u128, reserved_before: u128, remainder: u128) -> u128 {
    min_amount((amount - min_amount(remainder, amount)) as u128, reserved_before)
}

/// What a mechanism that moves as much as the reserve holds reports as not
/// moved.
pub open spec fn faithful_remainder(amount: u128, reserved_before: u128) -> u128 {
    (amount - min_amount(amount, reserved_before)) as u128
}

/// Stake and slash by named reservation: the adapter between the relayers'
/// stake and a balance mechanism that locks funds under a name.
#[derive(Clone, Copy, Debug, PartialEq, Eq)]
pub struct StakeAndSlashNamed;

impl StakeAndSlashNamed {
    /// The amount that a release gave back to the free balance: never more
    /// than the reserve held before, and never more than was asked for.
    pub fn unreserve(
        amount: u128,
        reserved_before: u128,
        remainder: u128,
    ) -> (released: u128)
        ensures
            released == moved_amount(amount, reserved_before, remainder),
            released <= reserved_before,
            released <= amount,
            remainder == faithful_remainder(amount, reserved_before) ==> released == min_amount(
                amount,
                reserved_before,
            ),
    {
        let kept: u128 = if remainder <= amount {
            remainder
        } else {
            amount
        };
        let moved: u128 = amount - kept;
        if moved <= reserved_before {
            moved
        } else {
            reserved_before
        }
    }

    /// The amount that a slash moved from the relayer's reserve into the
    /// beneficiary's free balance, or the mechanism's own error, unchanged,
    /// where the beneficiary could not receive the funds.
    pub fn repatriate_reserved<E>(
        amount: u128,
        reserved_before: u128,
        answer: Result<u128, E>,
    ) -> (outcome: Result<u128, E>)
        ensures
            answer matches Err(e) ==> outcome == Err::<u128, E>(e),
            answer matches Ok(remainder) ==> outcome == Ok::<u128, E>(
                moved_amount(amount, reserved_before, remainder),
            ),
            outcome matches Ok(moved) ==> moved <= reserved_before && moved <= amount,
    {
        match answer {
            Ok(remainder) => Ok(Self::unreserve(amount, reserved_before, remainder)),
            Err(e) => Err(e),
        }
    }
}

} // verus!
