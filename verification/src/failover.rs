//! When the gateway moves a request off an account: after a failed usage
//! refresh that the usage endpoint answered with a status, and whenever the
//! account's latest usage snapshot marks it unavailable.

use vstd::prelude::*;

use crate::text::text_starts_with;

verus! {

/// What an account's latest usage snapshot says about it.
#[derive(Debug, Clone, PartialEq, Eq)]
pub enum Availability {
    Available,
    Unavailable(String),
}

/// The prefix of the refresh errors that report the usage endpoint's status.
pub open spec fn usage_status_prefix() -> Seq<char> {
    "usage endpoint status"@
}

/// Whether to fail over given the account's snapshot, if there is one:
/// yes when it is unavailable, no when it is available, and `fail_on_missing`
/// when there is no snapshot.
pub open spec fn failover_for(availability: Option<Availability>, fail_on_missing: bool) -> bool {
    match availability {
        Some(Availability::Unavailable(_)) => true,
        Some(Availability::Available) => false,
        None => fail_on_missing,
    }
}

/// Decides failover from the account's snapshot evaluation.
pub fn should_failover_by_availability(availability: &Option<Availability>, fail_on_missing: bool) -> (b: bool)
    ensures
        b == failover_for(*availability, fail_on_missing),
        availability matches Some(Availability::Unavailable(_)) ==> b,
        availability matches Some(Availability::Available) ==> !b,
        availability is None ==> b == fail_on_missing,
{
    match availability {
        Some(Availability::Unavailable(_)) => true,
        Some(Availability::Available) => false,
        None => fail_on_missing,
    }
}

/// Decides failover from a cached snapshot: a missing snapshot keeps the
/// account.
pub fn should_failover_from_cached_availability(availability: &Option<Availability>) -> (b: bool)
    ensures
        b == failover_for(*availability, false),
{
    should_failover_by_availability(availability, false)
}

/// An unavailable account is always failed over and an available one never
/// is, whatever the caller's choice for a missing snapshot; that choice
/// decides only when there is no snapshot.
pub proof fn lemma_failover_by_snapshot(reason: String, fail_on_missing: bool)
    ensures
        failover_for(Some(Availability::Unavailable(reason)), fail_on_missing),
        !failover_for(Some(Availability::Available), fail_on_missing),
        failover_for(None, fail_on_missing) == fail_on_missing,
        failover_for(Some(Availability::Unavailable(reason)), true) == failover_for(
            Some(Availability::Unavailable(reason)),
            false,
        ),
{
}

/// What a usage refresh decides on its own: `Some(d)` when it failed, with
/// `d` telling whether the error reports the usage endpoint's status;
/// `None` when it succeeded and the fresh snapshot must decide.
pub fn failover_after_refresh_error(refresh_result: &Result<(), String>) -> (d: Option<bool>)
    ensures
        match refresh_result {
            Ok(_) => d is None,
            Err(e) => d == Some(usage_status_prefix().is_prefix_of(e@)),
        },
{
    match refresh_result {
        Ok(_) => None,
        Err(err) => Some(text_starts_with(err.as_str(), "usage endpoint status")),
    }
}

} // verus!
