//! An escrow settlement engine for bookings: a payer records a payment for a
//! booking, and an admin later settles it, splitting it between a fee
//! recipient and a destination recipient.
//!
//! The engine decides; its host stores the records and moves the tokens. Every
//! operation takes the accounts it works on as plain values, and a settlement
//! hands its two transfers out one at a time.

pub mod errors;
pub mod instructions;
pub mod pubkey;
pub mod state;

use crate::errors::{CreateBookingPaymentErrorCode, InitializeConfigErrorCode, UpdateConfigErrorCode};
use crate::instructions::config::{
    initialize_handler, initialize_outcome, update_config_handler, update_config_outcome,
    Initialize, InitializeConfigArgs, UpdateConfig, UpdateConfigArgs,
};
use crate::instructions::payment::{
    create_booking_payment_outcome, init_booking_payment_handler, settle_booking_payment_handler,
    settlement_outcome, CreateBookingPaymentArgs, InitBookingPayment, SettleBookingPayment,
    SettlementAction, SettlementEvent,
};
use vstd::prelude::*;

verus! {

/// Creates the configuration: see `initialize_handler`.
pub fn initialize(ctx: &mut Initialize, args: Box<InitializeConfigArgs>) -> (result: Result<
    (),
    InitializeConfigErrorCode,
>)
    ensures
        initialize_outcome(*old(ctx), *args, *final(ctx), result),
{
    initialize_handler(ctx, args)
}

/// Updates the configuration on behalf of the admin: see `update_config_handler`.
pub fn update_config(ctx: &mut UpdateConfig, args: Box<UpdateConfigArgs>) -> (result: Result<
    (),
    UpdateConfigErrorCode,
>)
    ensures
        update_config_outcome(*old(ctx), *args, *final(ctx), result),
        old(ctx).config.well_formed() ==> final(ctx).config.well_formed(),
{
    update_config_handler(ctx, args)
}

/// Records a pending booking payment: see `init_booking_payment_handler`.
pub fn create_booking_payment(
    ctx: &mut InitBookingPayment,
    args: Box<CreateBookingPaymentArgs>,
) -> (result: Result<(), CreateBookingPaymentErrorCode>)
    requires
        args.ids_fit(),
    ensures
        create_booking_payment_outcome(*old(ctx), *args, *final(ctx), result),
{
    init_booking_payment_handler(ctx, args)
}

/// Takes one step of a settlement: see `settle_booking_payment_handler`.
pub fn settle_booking_payment(ctx: &mut SettleBookingPayment, event: SettlementEvent) -> (result:
    Result<SettlementAction, CreateBookingPaymentErrorCode>)
    ensures
        settlement_outcome(*old(ctx), event, *final(ctx), result),
{
    settle_booking_payment_handler(ctx, event)
}

} // verus!
