//! How an operation ended, and a three-valued truth value.

use vstd::prelude::*;
use vstd::std_specs::cmp::PartialEqSpec;

verus! {

/// Give the Outcome of an operation
/// ### Examples
/// ```
/// # use custom_codes::Outcome;
/// let foo = Outcome::Success;
/// assert_eq!(foo, Outcome::Success);
/// ```
#[derive(Debug, PartialEq, Eq, Structural)]
pub enum Outcome {
    /// Result of Operation completed successfully
    Success,
    /// Result of Operation produced an error
    Failure,
    /// The result of the operation was forwarded to another operation
    Forward,
}

impl Clone for Outcome {
    /// A clone is equal to what it was made from.
    fn clone(&self) -> (r: Self)
        ensures
            r == *self,
    {
        match self {
            Outcome::Success => Outcome::Success,
            Outcome::Failure => Outcome::Failure,
            Outcome::Forward => Outcome::Forward,
        }
    }
}

/// `==` on `Outcome` is reflexive, symmetric and transitive.
pub proof fn outcome_equality_laws(a: Outcome, b: Outcome, c: Outcome)
    ensures
        a == a,
        a == b ==> b == a,
        a == b && b == c ==> a == c,
{
}

/// Give the Generic Outcome of an operation with custom result as a generic
/// ### Examples
/// ```
/// # use custom_codes::GenericOutcome;
/// let foo = GenericOutcome::Success("Foo");
/// ```
#[derive(Debug, Eq)]
pub enum GenericOutcome<Reason> {
    /// Result of Operation completed successfully
    Success(Reason),
    /// Result of Operation produced an error
    Failure(Reason),
    /// The result of the operation was forwarded to another operation
    Forward(Reason),
}

impl<Reason: Clone> Clone for GenericOutcome<Reason> {
    /// A clone is the same outcome with a clone of the reason.
    fn clone(&self) -> (r: Self)
        ensures
            match (*self, r) {
                (GenericOutcome::Success(x), GenericOutcome::Success(y)) => cloned::<Reason>(x, y),
                (GenericOutcome::Failure(x), GenericOutcome::Failure(y)) => cloned::<Reason>(x, y),
                (GenericOutcome::Forward(x), GenericOutcome::Forward(y)) => cloned::<Reason>(x, y),
                _ => false,
            },
    {
        match self {
            GenericOutcome::Success(x) => GenericOutcome::Success(x.clone()),
            GenericOutcome::Failure(x) => GenericOutcome::Failure(x.clone()),
            GenericOutcome::Forward(x) => GenericOutcome::Forward(x.clone()),
        }
    }
}

impl<Reason: PartialEq> PartialEq for GenericOutcome<Reason> {
    /// Whether two values are equal, as `eq_spec` says.
    fn eq(&self, other: &Self) -> (r: bool) {
        match (self, other) {
            (GenericOutcome::Success(x), GenericOutcome::Success(y)) => *x == *y,
            (GenericOutcome::Failure(x), GenericOutcome::Failure(y)) => *x == *y,
            (GenericOutcome::Forward(x), GenericOutcome::Forward(y)) => *x == *y,
            _ => false,
        }
    }
}

impl<Reason: PartialEq> vstd::std_specs::cmp::PartialEqSpecImpl for GenericOutcome<Reason> {
    open spec fn obeys_eq_spec() -> bool {
        Reason::obeys_eq_spec()
    }

    /// Two values are equal if they are the same outcome and their reasons are
    /// equal as reasons.
    open spec fn eq_spec(&self, other: &Self) -> bool {
        match (*self, *other) {
            (GenericOutcome::Success(x), GenericOutcome::Success(y)) => x.eq_spec(&y),
            (GenericOutcome::Failure(x), GenericOutcome::Failure(y)) => x.eq_spec(&y),
            (GenericOutcome::Forward(x), GenericOutcome::Forward(y)) => x.eq_spec(&y),
            _ => false,
        }
    }
}

/// Whether equality on `T` is reflexive, symmetric and transitive.
pub open spec fn equality_is_equivalence<T: PartialEq>() -> bool {
    &&& forall|x: T| #[trigger] x.eq_spec(&x)
    &&& forall|x: T, y: T| #[trigger] x.eq_spec(&y) ==> y.eq_spec(&x)
    &&& forall|x: T, y: T, z: T| #[trigger]
        x.eq_spec(&y) && #[trigger] y.eq_spec(&z) ==> x.eq_spec(&z)
}

/// Where equality on the reasons is reflexive, symmetric and transitive, so
/// is equality on `GenericOutcome`, and two values of the same outcome are
/// equal exactly if their reasons are.
pub proof fn generic_outcome_equality_laws<Reason: PartialEq>(
    a: GenericOutcome<Reason>,
    b: GenericOutcome<Reason>,
    c: GenericOutcome<Reason>,
    x: Reason,
    y: Reason,
)
    requires
        equality_is_equivalence::<Reason>(),
    ensures
        a.eq_spec(&a),
        a.eq_spec(&b) ==> b.eq_spec(&a),
        a.eq_spec(&b) && b.eq_spec(&c) ==> a.eq_spec(&c),
        GenericOutcome::Success(x).eq_spec(&GenericOutcome::Success(y)) <==> x.eq_spec(&y),
        GenericOutcome::Failure(x).eq_spec(&GenericOutcome::Failure(y)) <==> x.eq_spec(&y),
        GenericOutcome::Forward(x).eq_spec(&GenericOutcome::Forward(y)) <==> x.eq_spec(&y),
        !GenericOutcome::Success(x).eq_spec(&GenericOutcome::Failure(y)),
{
}

/// Creates a custom `boolean` value with more features than a Rustlang boolean which has only `true` or `false`
/// ### Examples
/// ```
/// # use custom_codes::CustomBool;
/// let foo = CustomBool::Unspecified;
/// assert_eq!(foo, CustomBool::Unspecified);
/// ```
#[derive(Debug, PartialEq, Eq, Structural)]
pub enum CustomBool {
    /// Similar to boolean true
    True,
    /// Similar to boolean false
    False,
    /// Status of an operation is not initialized
    Unspecified,
}

impl Clone for CustomBool {
    /// A clone is equal to what it was made from.
    fn clone(&self) -> (r: Self)
        ensures
            r == *self,
    {
        match self {
            CustomBool::True => CustomBool::True,
            CustomBool::False => CustomBool::False,
            CustomBool::Unspecified => CustomBool::Unspecified,
        }
    }
}

/// `==` on `CustomBool` is reflexive, symmetric and transitive.
pub proof fn custom_bool_equality_laws(a: CustomBool, b: CustomBool, c: CustomBool)
    ensures
        a == a,
        a == b ==> b == a,
        a == b && b == c ==> a == c,
{
}

} // verus!
