//! The recovery-contact surface and its precondition.
//!
//! Before the secondary credential is rotated, the orchestrator checks that
//! the account's recovery surface is exactly what the operator expects:
//! one verified email equal to the login identity email, and no phone
//! numbers.  Anything else signals an attacker-altered surface and is fatal.

use vstd::prelude::*;

verus! {

/// The verified recovery contacts registered to the primary account.
#[derive(Debug, PartialEq, Eq)]
pub struct ContactSurface {
    /// Every verified email address, in the provider's order.
    pub emails: Vec<String>,
    /// Every verified phone number, in the provider's order.
    pub phone_numbers: Vec<String>,
}

/// The precondition: exactly one verified email, equal to the expected one,
/// and not a single phone number.
pub open spec fn contact_surface_ok(
    emails: Seq<Seq<char>>,
    phone_numbers: Seq<Seq<char>>,
    expected_email: Seq<char>,
) -> bool {
    &&& emails.len() == 1
    &&& emails[0] == expected_email
    &&& phone_numbers.len() == 0
}

/// Decide whether the fetched contact surface meets the precondition.
pub fn check_contact_surface(surface: &ContactSurface, expected_email: &String) -> (r: bool)
    ensures
        r == contact_surface_ok(
            surface.emails.deep_view(),
            surface.phone_numbers.deep_view(),
            expected_email@,
        ),
{
    surface.emails.len() == 1 && surface.emails[0] == *expected_email
        && surface.phone_numbers.len() == 0
}

} // verus!
