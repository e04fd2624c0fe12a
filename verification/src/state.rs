use crate::pubkey::Pubkey;
use vstd::prelude::*;
use vstd::utf8::encode_utf8;

verus! {

/// The largest number of tokens the allowlist can hold.
pub const MAX_ALLOWED_TOKENS: usize = 20;

/// The basis-point denominator: 10000 bps are 100%.
pub const BPS_DENOMINATOR: u64 = 10_000;

/// The global settlement parameters.
#[derive(Clone, Debug, PartialEq, Eq)]
pub struct Config {
    /// Fee rate in basis points: 1 bps = 0.01%, 10000 bps = 100%.
    pub booking_fee_bps: u16,
    /// The identity that may update the configuration and authorize settlement.
    pub admin: Pubkey,
    /// Receives the fee leg of a settlement.
    pub fee_vault: Pubkey,
    /// Receives the principal leg of a settlement.
    pub destination_vault: Pubkey,
    /// The tokens that may be escrowed.
    pub allowed_payment_tokens: Vec<Pubkey>,
}

impl Config {
    /// Bytes reserved for a stored configuration: an 8-byte tag, the rate, three
    /// identities, a length-prefixed list of up to `MAX_ALLOWED_TOKENS` tokens
    /// and 512 spare bytes.
    pub const LEN: usize = 8 + 2 + 32 + 32 + 32 + 4 + 32 * MAX_ALLOWED_TOKENS + 512;

    /// The allowlist is within its bound.
    pub open spec fn well_formed(&self) -> bool {
        self.allowed_payment_tokens@.len() <= MAX_ALLOWED_TOKENS
    }

    /// `mint` is on the allowlist.
    pub open spec fn allows(&self, mint: Pubkey) -> bool {
        self.allowed_payment_tokens@.contains(mint)
    }

    /// Whether `mint` is on the allowlist.
    pub fn is_token_allowed(&self, mint: &Pubkey) -> (allowed: bool)
        ensures
            allowed == self.allows(*mint),
    {
        let mut i: usize = 0;
        while i < self.allowed_payment_tokens.len()
            invariant
                i <= self.allowed_payment_tokens@.len(),
                forall|j: int| 0 <= j < i ==> self.allowed_payment_tokens@[j] != *mint,
            decreases self.allowed_payment_tokens@.len() - i,
        {
            if self.allowed_payment_tokens[i].same_as(mint) {
                return true;
            }
            i += 1;
        }
        false
    }
}

/// Where a booking payment stands: it moves from `Pending` to `Settled` once
/// and never back.
#[derive(Clone, Copy, Debug, PartialEq, Eq, Structural)]
pub enum BookingPaymentStatus {
    Pending,
    Settled,
}

/// The escrow record of one booking.
#[derive(Clone, Debug, PartialEq, Eq)]
pub struct BookingPayment {
    /// The payer who funds the escrow.
    pub user: Pubkey,
    /// The token that is escrowed.
    pub token_mint: Pubkey,
    pub hotel_id: String,
    pub user_id: String,
    /// `destination_amount + fee_amount`.
    pub total_amount: u64,
    pub fee_amount: u64,
    pub destination_amount: u64,
    pub status: BookingPaymentStatus,
    /// The tag with which the record's address was derived.
    pub bump: u8,
}

impl BookingPayment {
    /// The most bytes a hotel id may take.
    pub const HOTEL_ID_MAX: usize = 64;

    /// The most bytes a user id may take.
    pub const USER_ID_MAX: usize = 64;

    /// Bytes reserved for a stored record: two identities, two length-prefixed
    /// strings, three amounts, the status and the address tag.
    pub const INIT_SPACE: usize = 32 + 32 + 4 + Self::HOTEL_ID_MAX + 4 + Self::USER_ID_MAX + 8 + 8
        + 8 + 1 + 1;

    /// The stored total is the sum of the two legs, and both ids fit in the
    /// space reserved for them.
    pub open spec fn well_formed(&self) -> bool {
        &&& self.total_amount == self.destination_amount + self.fee_amount
        &&& encode_utf8(self.hotel_id@).len() <= Self::HOTEL_ID_MAX
        &&& encode_utf8(self.user_id@).len() <= Self::USER_ID_MAX
    }
}

/// The fee on `token_amount` at `fee_bps` basis points, rounded down.
pub open spec fn fee_on(token_amount: u64, fee_bps: u16) -> nat {
    (token_amount as nat * fee_bps as nat) / (BPS_DENOMINATOR as nat)
}

} // verus!
