use crate::errors::{InitializeConfigErrorCode, UpdateConfigErrorCode};
use crate::pubkey::Pubkey;
use crate::state::{Config, MAX_ALLOWED_TOKENS};
use vstd::prelude::*;

verus! {

/// What the caller of `initialize_handler` chooses freely.
#[derive(Clone, Debug, PartialEq, Eq)]
pub struct InitializeConfigArgs {
    pub booking_fee_bps: u16,
    pub allowed_payment_tokens: Vec<Pubkey>,
}

/// The accounts of a configuration's creation: the record to fill and the
/// identities that it will name.
#[derive(Clone, Debug, PartialEq, Eq)]
pub struct Initialize {
    pub config: Config,
    /// Who pays for the record's storage.
    pub initializer: Pubkey,
    pub admin: Pubkey,
    pub fee_vault: Pubkey,
    pub destination_vault: Pubkey,
}

/// The error with which creation is refused, if it is.
pub open spec fn initialize_error(args: InitializeConfigArgs) -> Option<InitializeConfigErrorCode> {
    if args.allowed_payment_tokens@.len() > MAX_ALLOWED_TOKENS {
        Some(InitializeConfigErrorCode::TooManyPaymentTokens)
    } else {
        None
    }
}

/// The record that names exactly what the accounts and the arguments of a
/// creation give.
pub open spec fn initialized(accounts: Initialize, args: InitializeConfigArgs) -> Config {
    Config {
        booking_fee_bps: args.booking_fee_bps,
        admin: accounts.admin,
        fee_vault: accounts.fee_vault,
        destination_vault: accounts.destination_vault,
        allowed_payment_tokens: args.allowed_payment_tokens,
    }
}

/// What a call of `initialize_handler` owes: either the error and untouched
/// accounts, or the record filled from the accounts and the arguments.
pub open spec fn initialize_outcome(
    before: Initialize,
    args: InitializeConfigArgs,
    after: Initialize,
    result: Result<(), InitializeConfigErrorCode>,
) -> bool {
    match initialize_error(args) {
        Some(e) => result == Err::<(), InitializeConfigErrorCode>(e) && after == before,
        None => {
            &&& result is Ok
            &&& after == Initialize { config: initialized(before, args), ..before }
            &&& after.config.well_formed()
        },
    }
}

/// Creates the configuration from the given identities, rate and allowlist.
/// Refused with `TooManyPaymentTokens` when the allowlist exceeds
/// `MAX_ALLOWED_TOKENS`; the accounts are then left as they were.
pub fn initialize_handler(accounts: &mut Initialize, args: Box<InitializeConfigArgs>) -> (result:
    Result<(), InitializeConfigErrorCode>)
    ensures
        initialize_outcome(*old(accounts), *args, *final(accounts), result),
{
    let InitializeConfigArgs { booking_fee_bps, allowed_payment_tokens } = *args;

    if allowed_payment_tokens.len() > MAX_ALLOWED_TOKENS {
        return Err(InitializeConfigErrorCode::TooManyPaymentTokens);
    }
    accounts.config.admin = accounts.admin;
    accounts.config.fee_vault = accounts.fee_vault;
    accounts.config.destination_vault = accounts.destination_vault;
    accounts.config.booking_fee_bps = booking_fee_bps;
    accounts.config.allowed_payment_tokens = allowed_payment_tokens;

    Ok(())
}

/// A partial update: each field that is present replaces the configured value.
#[derive(Clone, Debug, PartialEq, Eq)]
pub struct UpdateConfigArgs {
    pub admin: Option<Pubkey>,
    pub fee_vault: Option<Pubkey>,
    pub destination_vault: Option<Pubkey>,
    pub booking_fee_bps: Option<u16>,
    pub allowed_payment_tokens: Option<Vec<Pubkey>>,
}

/// The accounts of a configuration update: the record, the caller, and for
/// each identity to be replaced the account that confirms the new value.
#[derive(Clone, Debug, PartialEq, Eq)]
pub struct UpdateConfig {
    pub config: Config,
    /// The caller, who signed.
    pub admin: Pubkey,
    pub new_admin: Option<Pubkey>,
    pub new_fee_vault: Option<Pubkey>,
    pub new_destination_vault: Option<Pubkey>,
}

/// A new identity is confirmed when it is absent, or when the account passed
/// beside it is present and is that identity.
pub open spec fn is_confirmed(wanted: Option<Pubkey>, provided: Option<Pubkey>) -> bool {
    match wanted {
        None => true,
        Some(key) => provided == Some(key),
    }
}

/// The error with which an update is refused, if it is. The checks run in this
/// order: the caller, the allowlist's size, the new admin, the new fee vault,
/// the new destination vault.
pub open spec fn update_config_error(accounts: UpdateConfig, args: UpdateConfigArgs) -> Option<
    UpdateConfigErrorCode,
> {
    if accounts.admin != accounts.config.admin {
        Some(UpdateConfigErrorCode::InvalidAdminPubkey)
    } else if args.allowed_payment_tokens is Some
        && args.allowed_payment_tokens->Some_0@.len() > MAX_ALLOWED_TOKENS {
        Some(UpdateConfigErrorCode::TooManyPaymentTokens)
    } else if !is_confirmed(args.admin, accounts.new_admin) {
        Some(UpdateConfigErrorCode::NewAdminPubkeyMismatch)
    } else if !is_confirmed(args.fee_vault, accounts.new_fee_vault) {
        Some(UpdateConfigErrorCode::NewFeeVaultPubkeyMismatch)
    } else if !is_confirmed(args.destination_vault, accounts.new_destination_vault) {
        Some(UpdateConfigErrorCode::NewDestinationVaultPubkeyMismatch)
    } else {
        None
    }
}

/// The record with every field that `args` holds replaced by it.
pub open spec fn patched(config: Config, args: UpdateConfigArgs) -> Config {
    Config {
        booking_fee_bps: match args.booking_fee_bps {
            Some(bps) => bps,
            None => config.booking_fee_bps,
        },
        admin: match args.admin {
            Some(key) => key,
            None => config.admin,
        },
        fee_vault: match args.fee_vault {
            Some(key) => key,
            None => config.fee_vault,
        },
        destination_vault: match args.destination_vault {
            Some(key) => key,
            None => config.destination_vault,
        },
        allowed_payment_tokens: match args.allowed_payment_tokens {
            Some(tokens) => tokens,
            None => config.allowed_payment_tokens,
        },
    }
}

/// The record after an update: patched where the update is accepted, as it was
/// where it is refused.
pub open spec fn config_after_update(accounts: UpdateConfig, args: UpdateConfigArgs) -> Config {
    if update_config_error(accounts, args) is None {
        patched(accounts.config, args)
    } else {
        accounts.config
    }
}

/// What a call of `update_config_handler` owes: the error, if there is one, and
/// the record that `config_after_update` gives beside the accounts that were
/// passed.
pub open spec fn update_config_outcome(
    before: UpdateConfig,
    args: UpdateConfigArgs,
    after: UpdateConfig,
    result: Result<(), UpdateConfigErrorCode>,
) -> bool {
    &&& after == UpdateConfig { config: config_after_update(before, args), ..before }
    &&& result == match update_config_error(before, args) {
        Some(e) => Err::<(), UpdateConfigErrorCode>(e),
        None => Ok::<(), UpdateConfigErrorCode>(()),
    }
}

/// Whether the account passed beside a new identity confirms it.
fn confirms(wanted: &Option<Pubkey>, provided: &Option<Pubkey>) -> (confirmed: bool)
    ensures
        confirmed == is_confirmed(*wanted, *provided),
{
    match wanted {
        None => true,
        Some(key) => match provided {
            None => false,
            Some(account) => account.same_as(key),
        },
    }
}

/// Applies a partial update on behalf of the admin. Every check is made before
/// anything is written, so the fields commit together or not at all. Keeps the
/// allowlist within `MAX_ALLOWED_TOKENS`.
pub fn update_config_handler(accounts: &mut UpdateConfig, args: Box<UpdateConfigArgs>) -> (result:
    Result<(), UpdateConfigErrorCode>)
    ensures
        update_config_outcome(*old(accounts), *args, *final(accounts), result),
        old(accounts).config.well_formed() ==> final(accounts).config.well_formed(),
{
    let UpdateConfigArgs {
        admin: new_admin,
        booking_fee_bps,
        destination_vault,
        fee_vault,
        allowed_payment_tokens,
    } = *args;

    if !accounts.admin.same_as(&accounts.config.admin) {
        return Err(UpdateConfigErrorCode::InvalidAdminPubkey);
    }
    if let Some(new_allowed_payment_tokens) = &allowed_payment_tokens {
        if new_allowed_payment_tokens.len() > MAX_ALLOWED_TOKENS {
            return Err(UpdateConfigErrorCode::TooManyPaymentTokens);
        }
    }
    if !confirms(&new_admin, &accounts.new_admin) {
        return Err(UpdateConfigErrorCode::NewAdminPubkeyMismatch);
    }
    if !confirms(&fee_vault, &accounts.new_fee_vault) {
        return Err(UpdateConfigErrorCode::NewFeeVaultPubkeyMismatch);
    }
    if !confirms(&destination_vault, &accounts.new_destination_vault) {
        return Err(UpdateConfigErrorCode::NewDestinationVaultPubkeyMismatch);
    }
    if let Some(new_allowed_payment_tokens) = allowed_payment_tokens {
        accounts.config.allowed_payment_tokens = new_allowed_payment_tokens;
    }
    if let Some(new_admin) = new_admin {
        accounts.config.admin = new_admin;
    }
    if let Some(new_fee_vault) = fee_vault {
        accounts.config.fee_vault = new_fee_vault;
    }
    if let Some(new_destination_vault) = destination_vault {
        accounts.config.destination_vault = new_destination_vault;
    }
    if let Some(new_booking_fee_bps) = booking_fee_bps {
        accounts.config.booking_fee_bps = new_booking_fee_bps;
    }
    Ok(())
}

/// The record after a run of updates, each made by its own caller with its own
/// confirming accounts and arguments, on the record that the update before it
/// left.
pub open spec fn config_after_updates(
    config: Config,
    calls: Seq<(UpdateConfig, UpdateConfigArgs)>,
) -> Config
    decreases calls.len(),
{
    if calls.len() == 0 {
        config
    } else {
        let (accounts, args) = calls.last();
        let reached = config_after_updates(config, calls.drop_last());
        config_after_update(UpdateConfig { config: reached, ..accounts }, args)
    }
}

/// An update, accepted or refused, keeps the allowlist within its bound.
pub proof fn update_keeps_allowlist_bounded(accounts: UpdateConfig, args: UpdateConfigArgs)
    requires
        accounts.config.well_formed(),
    ensures
        config_after_update(accounts, args).well_formed(),
{
}

/// The allowlist never holds more than `MAX_ALLOWED_TOKENS` tokens: not in a
/// record that creation accepted, and not after any run of updates on it.
pub proof fn allowlist_stays_bounded(
    accounts: Initialize,
    args: InitializeConfigArgs,
    calls: Seq<(UpdateConfig, UpdateConfigArgs)>,
)
    requires
        initialize_error(args) is None,
    ensures
        initialized(accounts, args).well_formed(),
        config_after_updates(initialized(accounts, args), calls).well_formed(),
    decreases calls.len(),
{
    if calls.len() > 0 {
        allowlist_stays_bounded(accounts, args, calls.drop_last());
        let (caller, patch) = calls.last();
        let reached = config_after_updates(initialized(accounts, args), calls.drop_last());
        update_keeps_allowlist_bounded(UpdateConfig { config: reached, ..caller }, patch);
    }
}

/// An update by anyone but the admin is refused with `InvalidAdminPubkey` and
/// leaves the record as it was.
pub proof fn only_admin_updates(accounts: UpdateConfig, args: UpdateConfigArgs)
    requires
        accounts.admin != accounts.config.admin,
    ensures
        update_config_error(accounts, args) == Some(UpdateConfigErrorCode::InvalidAdminPubkey),
        config_after_update(accounts, args) == accounts.config,
{
}

} // verus!
