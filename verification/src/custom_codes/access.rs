//! Codes for access, subscriptions and the state of an activity.

use vstd::prelude::*;

verus! {

/// Access status of token or access
/// ### Examples
/// ```
/// # use custom_codes::AccessStatus;
/// let foo = AccessStatus::Granted;
/// assert_eq!(foo, AccessStatus::Granted);
/// ```
#[derive(Debug, PartialEq, Eq, Structural)]
pub enum AccessStatus {
    /// Process or User has been given a lease
    Granted,
    /// Token has been discarded
    Revoked,
    /// Access to token or session has expired
    Expired,
    /// Access has been denied
    Denied,
    /// The access token has been rejected because it is not authentic/genuine
    Rejected,
    /// Operation is being executed
    InProgress,
    /// Random Authentication Code (RAC) Token is genuine/authentic and therefore has been accepted
    AccpetedRAC,
    ///  Random Authentication Code (RAC) Token is not genuine/authentic and therefore has been rejected
    RejectedRAC,
    /// Status of an operation is not initialized
    Unspecified,
}

impl Clone for AccessStatus {
    /// A clone is equal to what it was made from.
    fn clone(&self) -> (r: Self)
        ensures
            r == *self,
    {
        match self {
            AccessStatus::Granted => AccessStatus::Granted,
            AccessStatus::Revoked => AccessStatus::Revoked,
            AccessStatus::Expired => AccessStatus::Expired,
            AccessStatus::Denied => AccessStatus::Denied,
            AccessStatus::Rejected => AccessStatus::Rejected,
            AccessStatus::InProgress => AccessStatus::InProgress,
            AccessStatus::AccpetedRAC => AccessStatus::AccpetedRAC,
            AccessStatus::RejectedRAC => AccessStatus::RejectedRAC,
            AccessStatus::Unspecified => AccessStatus::Unspecified,
        }
    }
}

/// `==` on `AccessStatus` is reflexive, symmetric and transitive.
pub proof fn access_status_equality_laws(a: AccessStatus, b: AccessStatus, c: AccessStatus)
    ensures
        a == a,
        a == b ==> b == a,
        a == b && b == c ==> a == c,
{
}

/// Status of a subscription that happens over a timespec
/// ### Examples
/// ```
/// # use custom_codes::Subscription;
/// let foo = Subscription::Subscribed;
/// assert_eq!(foo, Subscription::Subscribed);
/// ```
#[derive(Debug, PartialEq, Eq, Structural)]
pub enum Subscription {
    /// Subscription is active
    Subscribed,
    /// Subscription is inactive
    Unsubscribed,
    /// Subscription is not yet activated
    NotActivated,
    /// Status of an operation is not initialized
    Unspecified,
}

impl Clone for Subscription {
    /// A clone is equal to what it was made from.
    fn clone(&self) -> (r: Self)
        ensures
            r == *self,
    {
        match self {
            Subscription::Subscribed => Subscription::Subscribed,
            Subscription::Unsubscribed => Subscription::Unsubscribed,
            Subscription::NotActivated => Subscription::NotActivated,
            Subscription::Unspecified => Subscription::Unspecified,
        }
    }
}

/// `==` on `Subscription` is reflexive, symmetric and transitive.
pub proof fn subscription_equality_laws(a: Subscription, b: Subscription, c: Subscription)
    ensures
        a == a,
        a == b ==> b == a,
        a == b && b == c ==> a == c,
{
}

/// Status of an activity
/// ### Examples
/// ```
/// # use custom_codes::ActivityStatus;
/// let foo = ActivityStatus::Activated;
/// assert_eq!(foo, ActivityStatus::Activated);
/// ```
#[derive(Debug, PartialEq, Eq, Structural)]
pub enum ActivityStatus {
    /// Status of an operation has been started
    Activated,
    /// Status of an operation has been stopped
    Deactivated,
    /// Status of an operation is not initialized
    Unspecified,
}

impl Clone for ActivityStatus {
    /// A clone is equal to what it was made from.
    fn clone(&self) -> (r: Self)
        ensures
            r == *self,
    {
        match self {
            ActivityStatus::Activated => ActivityStatus::Activated,
            ActivityStatus::Deactivated => ActivityStatus::Deactivated,
            ActivityStatus::Unspecified => ActivityStatus::Unspecified,
        }
    }
}

/// `==` on `ActivityStatus` is reflexive, symmetric and transitive.
pub proof fn activity_status_equality_laws(a: ActivityStatus, b: ActivityStatus, c: ActivityStatus)
    ensures
        a == a,
        a == b ==> b == a,
        a == b && b == c ==> a == c,
{
}

/// Initialize an activity
/// ### Examples
/// ```
/// # use custom_codes::ActivityToggle;
/// let foo = ActivityToggle::Activate;
/// assert_eq!(foo, ActivityToggle::Activate);
/// ```
#[derive(Debug, PartialEq, Eq, Structural)]
pub enum ActivityToggle {
    /// Activate an operation
    Activate,
    /// Deactivate an operation
    Deactivate,
    /// Status of an operation is not initialized
    Unspecified,
}

impl Clone for ActivityToggle {
    /// A clone is equal to what it was made from.
    fn clone(&self) -> (r: Self)
        ensures
            r == *self,
    {
        match self {
            ActivityToggle::Activate => ActivityToggle::Activate,
            ActivityToggle::Deactivate => ActivityToggle::Deactivate,
            ActivityToggle::Unspecified => ActivityToggle::Unspecified,
        }
    }
}

/// `==` on `ActivityToggle` is reflexive, symmetric and transitive.
pub proof fn activity_toggle_equality_laws(a: ActivityToggle, b: ActivityToggle, c: ActivityToggle)
    ensures
        a == a,
        a == b ==> b == a,
        a == b && b == c ==> a == c,
{
}

} // verus!
