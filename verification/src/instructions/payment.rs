use crate::errors::CreateBookingPaymentErrorCode;
use crate::pubkey::Pubkey;
use crate::state::{fee_on, BookingPayment, BookingPaymentStatus, Config, BPS_DENOMINATOR};
use vstd::prelude::*;
use vstd::utf8::encode_utf8;

verus! {

/// The program to which an account belongs while its control is delegated.
pub const MAGICBLOCK_DELEGATION_PROGRAM_ID: [u8; 32] = [
    181, 183, 0, 225, 242, 87, 58, 192, 204, 6, 34, 1, 52, 74, 207, 151, 184, 53, 6, 235, 140, 229,
    25, 152, 204, 98, 126, 24, 147, 128, 167, 62,
];

/// What settlement reads of the account that stores a record: its address and
/// the program that owns it.
#[derive(Clone, Copy, Debug, PartialEq, Eq)]
pub struct AccountInfo {
    pub key: Pubkey,
    pub owner: Pubkey,
}

/// The account is owned by the delegation program: its control has been handed
/// to another authority.
pub open spec fn delegated(ai: AccountInfo) -> bool {
    ai.owner.bytes == MAGICBLOCK_DELEGATION_PROGRAM_ID
}

/// Whether control of the account has been handed to the delegation program.
pub fn is_delegated(ai: &AccountInfo) -> (answer: bool)
    ensures
        answer == delegated(*ai),
{
    ai.owner.same_as(&Pubkey::new_from_array(MAGICBLOCK_DELEGATION_PROGRAM_ID))
}

/// The digest that `hashv` computes over a list of byte strings.
pub uninterp spec fn hashv_digest(vals: Seq<Seq<u8>>) -> Seq<u8>;

/// Calls `solana_program::hash::hashv` on four byte strings, in this order, and
/// takes the 32 bytes of the `Hash` that it returns. Nothing is proved of the
/// digest: the contract only gives it a name, as a value that the four byte
/// strings alone decide.
#[verifier::external_body]
fn hashv_four(first: &[u8], second: &[u8], third: &[u8], fourth: &[u8]) -> (digest: [u8; 32])
    ensures
        digest@ == hashv_digest(seq![first@, second@, third@, fourth@]),
{
    solana_program::hash::hashv(&[first, second, third, fourth]).to_bytes()
}

/// The seed of a booking: the digest of the word "booking", the hotel id, a
/// colon and the user id, each as UTF-8 bytes.
pub open spec fn booking_seed_of(hotel_id: Seq<char>, user_id: Seq<char>) -> Seq<u8> {
    hashv_digest(
        seq![
            encode_utf8("booking"@),
            encode_utf8(hotel_id),
            encode_utf8(":"@),
            encode_utf8(user_id),
        ],
    )
}

/// A stable 32-byte seed from `(hotel_id, user_id)`: the same pair always gives
/// the same seed, from which the record's address is derived.
pub fn booking_seed(hotel_id: &str, user_id: &str) -> (seed: [u8; 32])
    ensures
        seed@ == booking_seed_of(hotel_id@, user_id@),
{
    hashv_four("booking".as_bytes(), hotel_id.as_bytes(), ":".as_bytes(), user_id.as_bytes())
}

/// The address and the tag that `try_find_program_address` finds for a list of
/// seeds under a program, if it finds any.
pub uninterp spec fn program_address(seeds: Seq<Seq<u8>>, program_id: Seq<u8>) -> Option<
    (Seq<u8>, u8),
>;

/// Calls `solana_program::pubkey::Pubkey::try_find_program_address` on three
/// seeds, in this order, under the program with the given bytes, and takes the
/// bytes of the address that it returns. Nothing is proved of the address or
/// the tag: the contract only gives them a name, as values that the seeds and
/// the program alone decide, and says that `None` comes back exactly when the
/// search finds nothing.
#[verifier::external_body]
fn find_program_address(
    first: &[u8],
    second: &[u8; 32],
    third: &[u8; 32],
    program_id: &[u8; 32],
) -> (found: Option<([u8; 32], u8)>)
    ensures
        found is Some <==> program_address(seq![first@, second@, third@], program_id@) is Some,
        found is Some ==> program_address(seq![first@, second@, third@], program_id@) == Some(
            (found->Some_0.0@, found->Some_0.1),
        ),
{
    let program = solana_program::pubkey::Pubkey::new_from_array(*program_id);
    let seeds: [&[u8]; 3] = [first, second, third];
    match solana_program::pubkey::Pubkey::try_find_program_address(&seeds, &program) {
        Some((address, bump)) => Some((address.to_bytes(), bump)),
        None => None,
    }
}

/// Where the record of a booking is stored: the address, with its tag, found
/// under the program for the seeds "booking_payment", the payer and the
/// booking seed.
pub open spec fn booking_payment_address_of(
    program_id: Pubkey,
    user: Pubkey,
    hotel_id: Seq<char>,
    user_id: Seq<char>,
) -> Option<(Seq<u8>, u8)> {
    program_address(
        seq![encode_utf8("booking_payment"@), user.bytes@, booking_seed_of(hotel_id, user_id)],
        program_id.bytes@,
    )
}

/// The address of the record of a booking, and the tag with which it was
/// derived: the same program, payer and ids always lead to the same record.
/// `None` when no address can be derived from them.
pub fn booking_payment_address(
    program_id: &Pubkey,
    user: &Pubkey,
    hotel_id: &str,
    user_id: &str,
) -> (found: Option<(Pubkey, u8)>)
    ensures
        found is Some <==> booking_payment_address_of(*program_id, *user, hotel_id@, user_id@)
            is Some,
        found is Some ==> booking_payment_address_of(*program_id, *user, hotel_id@, user_id@)
            == Some((found->Some_0.0.bytes@, found->Some_0.1)),
{
    let seed = booking_seed(hotel_id, user_id);
    match find_program_address("booking_payment".as_bytes(), &user.bytes, &seed, &program_id.bytes)
    {
        Some((address, bump)) => Some((Pubkey::new_from_array(address), bump)),
        None => None,
    }
}

/// What the payer chooses when creating a booking payment.
#[derive(Clone, Debug, PartialEq, Eq)]
pub struct CreateBookingPaymentArgs {
    pub hotel_id: String,
    pub user_id: String,
    pub token_amount: u64,
}

impl CreateBookingPaymentArgs {
    /// Both ids fit in the space that a record reserves for them.
    pub open spec fn ids_fit(&self) -> bool {
        &&& encode_utf8(self.hotel_id@).len() <= BookingPayment::HOTEL_ID_MAX
        &&& encode_utf8(self.user_id@).len() <= BookingPayment::USER_ID_MAX
    }

    /// Whether both ids fit in the space that a record reserves for them.
    pub fn check_ids_fit(&self) -> (fit: bool)
        ensures
            fit == self.ids_fit(),
    {
        self.hotel_id.as_str().as_bytes().len() <= BookingPayment::HOTEL_ID_MAX
            && self.user_id.as_str().as_bytes().len() <= BookingPayment::USER_ID_MAX
    }
}

/// The accounts of a booking payment's creation.
#[derive(Clone, Debug, PartialEq, Eq)]
pub struct InitBookingPayment {
    /// The payer, who signed.
    pub user: Pubkey,
    pub config: Config,
    pub token_mint: Pubkey,
    /// The record's slot, at the address derived from the payer and the booking seed.
    pub booking_payment: BookingPayment,
    /// The tag with which that address was derived.
    pub bump: u8,
}

/// The error with which creation is refused, if it is: the token is checked
/// first, then the product of amount and rate, then the total.
pub open spec fn create_booking_payment_error(
    accounts: InitBookingPayment,
    args: CreateBookingPaymentArgs,
) -> Option<CreateBookingPaymentErrorCode> {
    if !accounts.config.allows(accounts.token_mint) {
        Some(CreateBookingPaymentErrorCode::TokenNotAllowed)
    } else if args.token_amount * accounts.config.booking_fee_bps > u64::MAX {
        Some(CreateBookingPaymentErrorCode::Overflow)
    } else if args.token_amount + fee_on(args.token_amount, accounts.config.booking_fee_bps)
        > u64::MAX {
        Some(CreateBookingPaymentErrorCode::Overflow)
    } else {
        None
    }
}

/// `record` is the pending record that the accounts and the arguments describe,
/// with its amounts frozen at the configured rate.
pub open spec fn is_created_from(
    record: BookingPayment,
    accounts: InitBookingPayment,
    args: CreateBookingPaymentArgs,
) -> bool {
    &&& record.user == accounts.user
    &&& record.token_mint == accounts.token_mint
    &&& record.hotel_id@ == args.hotel_id@
    &&& record.user_id@ == args.user_id@
    &&& record.destination_amount == args.token_amount
    &&& record.fee_amount == fee_on(args.token_amount, accounts.config.booking_fee_bps)
    &&& record.total_amount == record.destination_amount + record.fee_amount
    &&& record.status == BookingPaymentStatus::Pending
    &&& record.bump == accounts.bump
}

/// What a call of `init_booking_payment_handler` owes: either the error and
/// untouched accounts, or the new pending record in the slot.
pub open spec fn create_booking_payment_outcome(
    before: InitBookingPayment,
    args: CreateBookingPaymentArgs,
    after: InitBookingPayment,
    result: Result<(), CreateBookingPaymentErrorCode>,
) -> bool {
    match create_booking_payment_error(before, args) {
        Some(e) => result == Err::<(), CreateBookingPaymentErrorCode>(e) && after == before,
        None => {
            &&& result is Ok
            &&& is_created_from(after.booking_payment, before, args)
            &&& after.booking_payment.well_formed()
            &&& after.user == before.user
            &&& after.config == before.config
            &&& after.token_mint == before.token_mint
            &&& after.bump == before.bump
        },
    }
}

/// Records the intent to pay for a booking. No funds move: the slot is filled
/// with a pending record whose fee is `token_amount * fee_bps / 10000`, rounded
/// down, and whose total is the amount plus that fee. Refused with
/// `TokenNotAllowed` for a token off the allowlist and with `Overflow` when the
/// product or the total leaves 64 bits; the slot is then left as it was.
/// What the slot held before is not looked at: creating again for the same
/// booking fills the same slot anew, also over a settled record.
pub fn init_booking_payment_handler(
    accounts: &mut InitBookingPayment,
    args: Box<CreateBookingPaymentArgs>,
) -> (result: Result<(), CreateBookingPaymentErrorCode>)
    requires
        args.ids_fit(),
    ensures
        create_booking_payment_outcome(*old(accounts), *args, *final(accounts), result),
{
    let CreateBookingPaymentArgs { token_amount, user_id, hotel_id } = *args;

    if !accounts.config.is_token_allowed(&accounts.token_mint) {
        return Err(CreateBookingPaymentErrorCode::TokenNotAllowed);
    }
    let fee_bps: u64 = accounts.config.booking_fee_bps as u64;
    let fee_amount: u64 = match token_amount.checked_mul(fee_bps) {
        Some(product) => product / BPS_DENOMINATOR,
        None => {
            return Err(CreateBookingPaymentErrorCode::Overflow);
        },
    };
    let destination_amount: u64 = token_amount;
    let total_amount: u64 = match destination_amount.checked_add(fee_amount) {
        Some(total) => total,
        None => {
            return Err(CreateBookingPaymentErrorCode::Overflow);
        },
    };
    accounts.booking_payment.user = accounts.user;
    accounts.booking_payment.token_mint = accounts.token_mint;
    accounts.booking_payment.hotel_id = hotel_id;
    accounts.booking_payment.user_id = user_id;
    accounts.booking_payment.total_amount = total_amount;
    accounts.booking_payment.fee_amount = fee_amount;
    accounts.booking_payment.destination_amount = destination_amount;
    accounts.booking_payment.status = BookingPaymentStatus::Pending;
    accounts.booking_payment.bump = accounts.bump;

    Ok(())
}

/// The accounts of a settlement. The two recipients are not among them: they
/// are the ones that the configuration names.
#[derive(Clone, Debug, PartialEq, Eq)]
pub struct SettleBookingPayment {
    /// The payer, who signed and authorizes both transfers.
    pub user: Pubkey,
    /// The payer's funding account.
    pub user_token_account: Pubkey,
    /// The caller who asks for settlement, who signed.
    pub admin: Pubkey,
    pub config: Config,
    pub token_mint: Pubkey,
    pub booking_payment: BookingPayment,
    /// The account that stores the record.
    pub booking_payment_info: AccountInfo,
}

/// One movement of tokens between two accounts, authorized by a third party.
#[derive(Clone, Copy, Debug, PartialEq, Eq)]
pub struct TokenTransfer {
    pub from: Pubkey,
    pub to: Pubkey,
    pub authority: Pubkey,
    pub amount: u64,
}

/// What the caller reports to a settlement: that it was asked for, or that the
/// transfer last handed out has gone through.
#[derive(Clone, Copy, Debug, PartialEq, Eq, Structural)]
pub enum SettlementEvent {
    Requested,
    FeeTransferred,
    DestinationTransferred,
}

/// What the caller of a settlement has to do next.
#[derive(Clone, Copy, Debug, PartialEq, Eq)]
pub enum SettlementAction {
    /// Move the fee to the fee recipient, then report `FeeTransferred`.
    TransferFee(TokenTransfer),
    /// Move the principal to the destination recipient, then report
    /// `DestinationTransferred`.
    TransferDestination(TokenTransfer),
    /// Nothing: the record is settled.
    Finished,
}

/// The error with which a settlement is refused, if it is. The checks run in
/// this order: the caller is the admin; the record is not delegated; the record
/// is the payer's; the record is in this token; the record is pending; the
/// token is still allowed.
pub open spec fn settlement_error(accounts: SettleBookingPayment) -> Option<
    CreateBookingPaymentErrorCode,
> {
    if accounts.admin != accounts.config.admin {
        Some(CreateBookingPaymentErrorCode::Forbidden)
    } else if delegated(accounts.booking_payment_info) {
        Some(CreateBookingPaymentErrorCode::Forbidden)
    } else if accounts.booking_payment.user != accounts.user {
        Some(CreateBookingPaymentErrorCode::Forbidden)
    } else if accounts.booking_payment.token_mint != accounts.token_mint {
        Some(CreateBookingPaymentErrorCode::Forbidden)
    } else if accounts.booking_payment.status != BookingPaymentStatus::Pending {
        Some(CreateBookingPaymentErrorCode::AlreadySettled)
    } else if !accounts.config.allows(accounts.token_mint) {
        Some(CreateBookingPaymentErrorCode::TokenNotAllowed)
    } else {
        None
    }
}

/// The fee leg: the record's fee, from the payer's funding account to the fee
/// recipient that the configuration names, authorized by the payer.
pub open spec fn fee_leg(accounts: SettleBookingPayment) -> TokenTransfer {
    TokenTransfer {
        from: accounts.user_token_account,
        to: accounts.config.fee_vault,
        authority: accounts.user,
        amount: accounts.booking_payment.fee_amount,
    }
}

/// The principal leg: the record's destination amount, from the payer's funding
/// account to the destination recipient that the configuration names,
/// authorized by the payer.
pub open spec fn destination_leg(accounts: SettleBookingPayment) -> TokenTransfer {
    TokenTransfer {
        from: accounts.user_token_account,
        to: accounts.config.destination_vault,
        authority: accounts.user,
        amount: accounts.booking_payment.destination_amount,
    }
}

/// What follows an event on a settlement that passes every check.
pub open spec fn next_action(accounts: SettleBookingPayment, event: SettlementEvent)
    -> SettlementAction {
    match event {
        SettlementEvent::Requested => SettlementAction::TransferFee(fee_leg(accounts)),
        SettlementEvent::FeeTransferred => SettlementAction::TransferDestination(
            destination_leg(accounts),
        ),
        SettlementEvent::DestinationTransferred => SettlementAction::Finished,
    }
}

/// The same accounts with the record marked settled and nothing else changed.
pub open spec fn settled(accounts: SettleBookingPayment) -> SettleBookingPayment {
    SettleBookingPayment {
        booking_payment: BookingPayment {
            status: BookingPaymentStatus::Settled,
            ..accounts.booking_payment
        },
        ..accounts
    }
}

/// The accounts after an event: the record is marked settled by the report of
/// the second transfer on a settlement that passes every check, and by nothing
/// else.
pub open spec fn after_event(accounts: SettleBookingPayment, event: SettlementEvent)
    -> SettleBookingPayment {
    if settlement_error(accounts) is None && event == SettlementEvent::DestinationTransferred {
        settled(accounts)
    } else {
        accounts
    }
}

/// What a call of `settle_booking_payment_handler` owes: either the error, or
/// the next action; and in both cases the accounts that `after_event` gives.
pub open spec fn settlement_outcome(
    before: SettleBookingPayment,
    event: SettlementEvent,
    after: SettleBookingPayment,
    result: Result<SettlementAction, CreateBookingPaymentErrorCode>,
) -> bool {
    &&& after == after_event(before, event)
    &&& result == match settlement_error(before) {
        Some(e) => Err::<SettlementAction, CreateBookingPaymentErrorCode>(e),
        None => Ok::<SettlementAction, CreateBookingPaymentErrorCode>(next_action(before, event)),
    }
}

/// One step of a settlement. The caller starts with `Requested`, performs the
/// transfer that each answer hands out, and reports it; a transfer that fails
/// ends the settlement there, with the record still pending. Every step makes
/// all six checks again, so a settled record is refused with `AlreadySettled`
/// and asks for no transfer. The fee goes to the fee recipient and the
/// principal to the destination recipient that the configuration names, both
/// out of the payer's funding account. The record is marked settled only by the
/// step that reports the second transfer; its amounts never change.
pub fn settle_booking_payment_handler(
    accounts: &mut SettleBookingPayment,
    event: SettlementEvent,
) -> (result: Result<SettlementAction, CreateBookingPaymentErrorCode>)
    ensures
        settlement_outcome(*old(accounts), event, *final(accounts), result),
        old(accounts).booking_payment.well_formed() ==> final(accounts).booking_payment.well_formed(),
{
    if !accounts.admin.same_as(&accounts.config.admin) {
        return Err(CreateBookingPaymentErrorCode::Forbidden);
    }
    if is_delegated(&accounts.booking_payment_info) {
        return Err(CreateBookingPaymentErrorCode::Forbidden);
    }
    if !accounts.booking_payment.user.same_as(&accounts.user) {
        return Err(CreateBookingPaymentErrorCode::Forbidden);
    }
    if !accounts.booking_payment.token_mint.same_as(&accounts.token_mint) {
        return Err(CreateBookingPaymentErrorCode::Forbidden);
    }
    if accounts.booking_payment.status != BookingPaymentStatus::Pending {
        return Err(CreateBookingPaymentErrorCode::AlreadySettled);
    }
    if !accounts.config.is_token_allowed(&accounts.token_mint) {
        return Err(CreateBookingPaymentErrorCode::TokenNotAllowed);
    }
    match event {
        SettlementEvent::Requested => Ok(
            SettlementAction::TransferFee(
                TokenTransfer {
                    from: accounts.user_token_account,
                    to: accounts.config.fee_vault,
                    authority: accounts.user,
                    amount: accounts.booking_payment.fee_amount,
                },
            ),
        ),
        SettlementEvent::FeeTransferred => Ok(
            SettlementAction::TransferDestination(
                TokenTransfer {
                    from: accounts.user_token_account,
                    to: accounts.config.destination_vault,
                    authority: accounts.user,
                    amount: accounts.booking_payment.destination_amount,
                },
            ),
        ),
        SettlementEvent::DestinationTransferred => {
            accounts.booking_payment.status = BookingPaymentStatus::Settled;
            Ok(SettlementAction::Finished)
        },
    }
}

/// With a rate of at most 100%, a record that creation accepts holds the fee
/// `token_amount * fee_bps / 10000`, rounded down, which is no more than the
/// amount, and the total `token_amount + fee`.
pub proof fn created_amounts_follow_the_rate(
    record: BookingPayment,
    accounts: InitBookingPayment,
    args: CreateBookingPaymentArgs,
)
    requires
        accounts.config.booking_fee_bps <= BPS_DENOMINATOR,
        create_booking_payment_error(accounts, args) is None,
        is_created_from(record, accounts, args),
    ensures
        record.fee_amount == (args.token_amount * accounts.config.booking_fee_bps) / 10000,
        record.fee_amount <= args.token_amount,
        record.destination_amount == args.token_amount,
        record.total_amount == args.token_amount + record.fee_amount,
{
    let amount = args.token_amount as int;
    let bps = accounts.config.booking_fee_bps as int;
    assert(amount * bps <= amount * 10000) by (nonlinear_arith)
        requires
            0 <= amount,
            0 <= bps <= 10000,
    ;
}

/// A settlement asked for by anyone but the admin is refused with `Forbidden`
/// at every step and leaves the accounts, the record among them, as they were.
pub proof fn non_admin_is_forbidden(accounts: SettleBookingPayment, event: SettlementEvent)
    requires
        accounts.admin != accounts.config.admin,
    ensures
        settlement_error(accounts) == Some(CreateBookingPaymentErrorCode::Forbidden),
        after_event(accounts, event) == accounts,
{
}

/// Settling twice: when the last step of a settlement has gone through, the
/// record is settled with its amounts unchanged, and every later step on it is
/// refused with `AlreadySettled`, hands out no transfer and changes nothing.
pub proof fn second_settlement_is_refused(accounts: SettleBookingPayment, later: SettlementEvent)
    requires
        settlement_error(accounts) is None,
    ensures
        ({
            let done = after_event(accounts, SettlementEvent::DestinationTransferred);
            &&& done.booking_payment.status == BookingPaymentStatus::Settled
            &&& done.booking_payment.fee_amount == accounts.booking_payment.fee_amount
            &&& done.booking_payment.destination_amount
                == accounts.booking_payment.destination_amount
            &&& done.booking_payment.total_amount == accounts.booking_payment.total_amount
            &&& settlement_error(done) == Some(CreateBookingPaymentErrorCode::AlreadySettled)
            &&& after_event(done, later) == done
        }),
{
}

/// The status moves one way: no step takes a settled record back to pending,
/// and a record is pending after a step unless that step reported the second
/// transfer of a settlement that passed every check.
pub proof fn status_moves_one_way(accounts: SettleBookingPayment, event: SettlementEvent)
    ensures
        accounts.booking_payment.status == BookingPaymentStatus::Settled ==> after_event(
            accounts,
            event,
        ) == accounts,
        accounts.booking_payment.status == BookingPaymentStatus::Pending && !(settlement_error(
            accounts,
        ) is None && event == SettlementEvent::DestinationTransferred) ==> after_event(
            accounts,
            event,
        ).booking_payment.status == BookingPaymentStatus::Pending,
{
}

/// No step of a settlement changes anything but the record's status: the
/// payer, the token, the ids and the three amounts are frozen at creation.
pub proof fn settlement_keeps_the_amounts(accounts: SettleBookingPayment, event: SettlementEvent)
    ensures
        after_event(accounts, event) == accounts || after_event(accounts, event) == settled(
            accounts,
        ),
        after_event(accounts, event).booking_payment.fee_amount
            == accounts.booking_payment.fee_amount,
        after_event(accounts, event).booking_payment.destination_amount
            == accounts.booking_payment.destination_amount,
        after_event(accounts, event).booking_payment.total_amount
            == accounts.booking_payment.total_amount,
        after_event(accounts, event).booking_payment.user == accounts.booking_payment.user,
        after_event(accounts, event).booking_payment.token_mint
            == accounts.booking_payment.token_mint,
        after_event(accounts, event).config == accounts.config,
{
}

/// The two legs of a settlement move exactly the record's total, both out of
/// the payer's funding account and both authorized by the payer.
pub proof fn legs_move_the_total(accounts: SettleBookingPayment)
    requires
        accounts.booking_payment.well_formed(),
    ensures
        fee_leg(accounts).amount + destination_leg(accounts).amount
            == accounts.booking_payment.total_amount,
        fee_leg(accounts).from == destination_leg(accounts).from,
        fee_leg(accounts).authority == accounts.user,
        destination_leg(accounts).authority == accounts.user,
{
}

/// A settlement that passes every check hands out exactly two transfers, in
/// this order: the fee to the fee recipient of the configuration, then the
/// principal to its destination recipient. Whatever else the caller passes,
/// no transfer goes anywhere else.
pub proof fn legs_reach_the_configured_recipients(accounts: SettleBookingPayment)
    requires
        settlement_error(accounts) is None,
    ensures
        next_action(accounts, SettlementEvent::Requested) == SettlementAction::TransferFee(
            TokenTransfer {
                from: accounts.user_token_account,
                to: accounts.config.fee_vault,
                authority: accounts.user,
                amount: accounts.booking_payment.fee_amount,
            },
        ),
        next_action(after_event(accounts, SettlementEvent::Requested), SettlementEvent::FeeTransferred)
            == SettlementAction::TransferDestination(
            TokenTransfer {
                from: accounts.user_token_account,
                to: accounts.config.destination_vault,
                authority: accounts.user,
                amount: accounts.booking_payment.destination_amount,
            },
        ),
        next_action(accounts, SettlementEvent::DestinationTransferred)
            == SettlementAction::Finished,
{
}

/// A record fresh from creation can be settled by the admin for its payer and
/// token, as long as the token stays allowed and the record is not delegated.
pub proof fn created_record_can_be_settled(
    record: BookingPayment,
    created: InitBookingPayment,
    args: CreateBookingPaymentArgs,
    accounts: SettleBookingPayment,
)
    requires
        is_created_from(record, created, args),
        accounts.booking_payment == record,
        accounts.user == created.user,
        accounts.token_mint == created.token_mint,
        accounts.admin == accounts.config.admin,
        accounts.config.allows(accounts.token_mint),
        !delegated(accounts.booking_payment_info),
    ensures
        settlement_error(accounts) is None,
        next_action(accounts, SettlementEvent::Requested) == SettlementAction::TransferFee(
            fee_leg(accounts),
        ),
        fee_leg(accounts).amount == fee_on(args.token_amount, created.config.booking_fee_bps),
        destination_leg(accounts).amount == args.token_amount,
{
}

} // verus!
