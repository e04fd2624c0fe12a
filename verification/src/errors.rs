use vstd::prelude::*;

verus! {

/// Why creating the configuration was refused.
#[derive(Clone, Copy, Debug, PartialEq, Eq, Structural)]
pub enum InitializeConfigErrorCode {
    /// The caller may not initialize the program.
    Forbidden,
    /// More payment tokens were provided than the allowlist can hold.
    TooManyPaymentTokens,
    /// Any other failure during initialization.
    UnknownError,
}

/// Why a configuration update was refused.
#[derive(Clone, Copy, Debug, PartialEq, Eq, Structural)]
pub enum UpdateConfigErrorCode {
    /// The caller is not the configured admin.
    InvalidAdminPubkey,
    /// The new admin in the arguments is not the account that was passed.
    NewAdminPubkeyMismatch,
    /// The new fee vault in the arguments is not the account that was passed.
    NewFeeVaultPubkeyMismatch,
    /// The new destination vault in the arguments is not the account that was passed.
    NewDestinationVaultPubkeyMismatch,
    /// More payment tokens were provided than the allowlist can hold.
    TooManyPaymentTokens,
    /// Any other failure during the update.
    UnknownError,
}

/// Why creating or settling a booking payment was refused.
#[derive(Clone, Copy, Debug, PartialEq, Eq, Structural)]
pub enum CreateBookingPaymentErrorCode {
    /// The caller, the payer or the token does not match what the operation requires,
    /// or the record is delegated to another authority.
    Forbidden,
    /// The token is not on the allowlist.
    TokenNotAllowed,
    /// An amount does not fit in 64 bits.
    Overflow,
    /// The record has already been settled.
    AlreadySettled,
}

} // verus!
