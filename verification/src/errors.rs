use vstd::prelude::*;

verus! {

/// The failure kinds a call into the token can end with. Every failing call
/// returns exactly one of these and leaves the state unchanged.
#[derive(Clone, Copy, Debug, PartialEq, Eq, Structural)]
pub enum TokenError {
    /// `initialize` was called on an instance that already holds state.
    AlreadyInitialized,
    /// Any other operation was called before `initialize`.
    NotInitialized,
    /// The metadata record handed to `initialize` is malformed.
    InvalidMetadata,
    /// A mutating call came from a caller without the required identity.
    Unauthorized,
    /// A deposit was attempted on an account that was never registered.
    AccountNotRegistered,
    /// A withdrawal asked for more than the account holds.
    InsufficientBalance,
    /// An addition would exceed the balance width.
    Overflow,
    /// `burn` was called without exactly one indivisible unit of native
    /// payment attached.
    PaymentPrecisionRequired,
}

} // verus!
