use nomadz_payment::errors::{InitializeConfigErrorCode, UpdateConfigErrorCode};
use nomadz_payment::instructions::config::{
    initialize_handler, update_config_handler, Initialize, InitializeConfigArgs, UpdateConfig,
    UpdateConfigArgs,
};
use nomadz_payment::pubkey::Pubkey;
use nomadz_payment::state::{Config, MAX_ALLOWED_TOKENS};

fn key(byte: u8) -> Pubkey {
    Pubkey::new_from_array([byte; 32])
}

fn keys(count: u8) -> Vec<Pubkey> {
    (0..count).map(|i| key(100 + i)).collect()
}

fn empty_config() -> Config {
    Config {
        booking_fee_bps: 0,
        admin: key(0),
        fee_vault: key(0),
        destination_vault: key(0),
        allowed_payment_tokens: Vec::new(),
    }
}

fn initialize_accounts() -> Initialize {
    Initialize {
        config: empty_config(),
        initializer: key(9),
        admin: key(1),
        fee_vault: key(2),
        destination_vault: key(3),
    }
}

fn live_config() -> Config {
    Config {
        booking_fee_bps: 250,
        admin: key(1),
        fee_vault: key(2),
        destination_vault: key(3),
        allowed_payment_tokens: keys(2),
    }
}

fn update_accounts() -> UpdateConfig {
    UpdateConfig {
        config: live_config(),
        admin: key(1),
        new_admin: None,
        new_fee_vault: None,
        new_destination_vault: None,
    }
}

fn no_change() -> UpdateConfigArgs {
    UpdateConfigArgs {
        admin: None,
        fee_vault: None,
        destination_vault: None,
        booking_fee_bps: None,
        allowed_payment_tokens: None,
    }
}

#[test]
fn pubkey_keeps_its_bytes() {
    let mut bytes = [0u8; 32];
    bytes[31] = 7;
    let a = Pubkey::new_from_array(bytes);
    assert_eq!(a.to_bytes(), bytes);
    assert!(a.same_as(&Pubkey::new_from_array(bytes)));
    assert!(!a.same_as(&key(0)));
    bytes[31] = 8;
    assert!(!a.same_as(&Pubkey::new_from_array(bytes)));
}

#[test]
fn config_reserves_its_space() {
    assert_eq!(MAX_ALLOWED_TOKENS, 20);
    assert_eq!(Config::LEN, 1262);
}

#[test]
fn allowlist_membership() {
    let config = live_config();
    assert!(config.is_token_allowed(&key(100)));
    assert!(config.is_token_allowed(&key(101)));
    assert!(!config.is_token_allowed(&key(102)));
    assert!(!empty_config().is_token_allowed(&key(100)));
}

#[test]
fn initialize_fills_the_config() {
    let mut accounts = initialize_accounts();
    let args = InitializeConfigArgs { booking_fee_bps: 250, allowed_payment_tokens: keys(2) };
    assert_eq!(initialize_handler(&mut accounts, Box::new(args)), Ok(()));
    assert_eq!(accounts.config, live_config());
    assert_eq!(accounts.initializer, key(9));
    assert_eq!(accounts.admin, key(1));
}

#[test]
fn initialize_through_the_entry_point() {
    let mut accounts = initialize_accounts();
    let args = InitializeConfigArgs { booking_fee_bps: 250, allowed_payment_tokens: keys(2) };
    assert_eq!(nomadz_payment::initialize(&mut accounts, Box::new(args)), Ok(()));
    assert_eq!(accounts.config, live_config());
}

#[test]
fn initialize_accepts_a_full_allowlist() {
    let mut accounts = initialize_accounts();
    let args = InitializeConfigArgs { booking_fee_bps: 10_000, allowed_payment_tokens: keys(20) };
    assert_eq!(initialize_handler(&mut accounts, Box::new(args)), Ok(()));
    assert_eq!(accounts.config.allowed_payment_tokens.len(), 20);
    assert_eq!(accounts.config.allowed_payment_tokens, keys(20));
}

#[test]
fn initialize_refuses_too_many_tokens() {
    let mut accounts = initialize_accounts();
    let args = InitializeConfigArgs { booking_fee_bps: 250, allowed_payment_tokens: keys(21) };
    assert_eq!(
        initialize_handler(&mut accounts, Box::new(args)),
        Err(InitializeConfigErrorCode::TooManyPaymentTokens)
    );
    assert_eq!(accounts, initialize_accounts());
}

#[test]
fn update_without_fields_changes_nothing() {
    let mut accounts = update_accounts();
    assert_eq!(update_config_handler(&mut accounts, Box::new(no_change())), Ok(()));
    assert_eq!(accounts, update_accounts());
}

#[test]
fn update_replaces_every_field_given() {
    let mut accounts = update_accounts();
    accounts.new_admin = Some(key(11));
    accounts.new_fee_vault = Some(key(12));
    accounts.new_destination_vault = Some(key(13));
    let args = UpdateConfigArgs {
        admin: Some(key(11)),
        fee_vault: Some(key(12)),
        destination_vault: Some(key(13)),
        booking_fee_bps: Some(300),
        allowed_payment_tokens: Some(keys(5)),
    };
    assert_eq!(nomadz_payment::update_config(&mut accounts, Box::new(args)), Ok(()));
    assert_eq!(
        accounts.config,
        Config {
            booking_fee_bps: 300,
            admin: key(11),
            fee_vault: key(12),
            destination_vault: key(13),
            allowed_payment_tokens: keys(5),
        }
    );
    assert_eq!(accounts.admin, key(1));
}

#[test]
fn update_replaces_the_rate_alone() {
    let mut accounts = update_accounts();
    let args = UpdateConfigArgs { booking_fee_bps: Some(0), ..no_change() };
    assert_eq!(update_config_handler(&mut accounts, Box::new(args)), Ok(()));
    assert_eq!(accounts.config, Config { booking_fee_bps: 0, ..live_config() });
}

#[test]
fn update_by_another_caller_is_refused() {
    let mut accounts = update_accounts();
    accounts.admin = key(50);
    let args = UpdateConfigArgs { booking_fee_bps: Some(1), ..no_change() };
    assert_eq!(
        update_config_handler(&mut accounts, Box::new(args)),
        Err(UpdateConfigErrorCode::InvalidAdminPubkey)
    );
    assert_eq!(accounts.config, live_config());
}

#[test]
fn update_refuses_too_many_tokens() {
    let mut accounts = update_accounts();
    let args = UpdateConfigArgs {
        booking_fee_bps: Some(1),
        allowed_payment_tokens: Some(keys(21)),
        ..no_change()
    };
    assert_eq!(
        update_config_handler(&mut accounts, Box::new(args)),
        Err(UpdateConfigErrorCode::TooManyPaymentTokens)
    );
    assert_eq!(accounts, update_accounts());
}

#[test]
fn update_needs_the_new_admin_confirmed() {
    let mut missing = update_accounts();
    let args = UpdateConfigArgs { admin: Some(key(11)), ..no_change() };
    assert_eq!(
        update_config_handler(&mut missing, Box::new(args.clone())),
        Err(UpdateConfigErrorCode::NewAdminPubkeyMismatch)
    );
    assert_eq!(missing, update_accounts());

    let mut wrong = update_accounts();
    wrong.new_admin = Some(key(12));
    assert_eq!(
        update_config_handler(&mut wrong, Box::new(args)),
        Err(UpdateConfigErrorCode::NewAdminPubkeyMismatch)
    );
    assert_eq!(wrong.config, live_config());
}

#[test]
fn update_needs_the_new_fee_vault_confirmed() {
    let mut accounts = update_accounts();
    accounts.new_fee_vault = Some(key(13));
    let args = UpdateConfigArgs { fee_vault: Some(key(12)), ..no_change() };
    assert_eq!(
        update_config_handler(&mut accounts, Box::new(args)),
        Err(UpdateConfigErrorCode::NewFeeVaultPubkeyMismatch)
    );
    assert_eq!(accounts.config, live_config());
}

#[test]
fn update_needs_the_new_destination_vault_confirmed() {
    let mut accounts = update_accounts();
    let args = UpdateConfigArgs { destination_vault: Some(key(13)), ..no_change() };
    assert_eq!(
        update_config_handler(&mut accounts, Box::new(args)),
        Err(UpdateConfigErrorCode::NewDestinationVaultPubkeyMismatch)
    );
    assert_eq!(accounts.config, live_config());
}

#[test]
fn update_commits_all_fields_or_none() {
    let mut accounts = update_accounts();
    accounts.new_admin = Some(key(11));
    let args = UpdateConfigArgs {
        admin: Some(key(11)),
        destination_vault: Some(key(13)),
        booking_fee_bps: Some(300),
        allowed_payment_tokens: Some(keys(3)),
        ..no_change()
    };
    assert_eq!(
        update_config_handler(&mut accounts, Box::new(args)),
        Err(UpdateConfigErrorCode::NewDestinationVaultPubkeyMismatch)
    );
    assert_eq!(accounts.config, live_config());
}

#[test]
fn update_reports_the_first_failing_check() {
    let mut accounts = update_accounts();
    accounts.admin = key(50);
    let args = UpdateConfigArgs {
        admin: Some(key(11)),
        fee_vault: Some(key(12)),
        allowed_payment_tokens: Some(keys(21)),
        ..no_change()
    };
    assert_eq!(
        update_config_handler(&mut accounts, Box::new(args.clone())),
        Err(UpdateConfigErrorCode::InvalidAdminPubkey)
    );
    accounts.admin = key(1);
    assert_eq!(
        update_config_handler(&mut accounts, Box::new(args.clone())),
        Err(UpdateConfigErrorCode::TooManyPaymentTokens)
    );
    let args = UpdateConfigArgs { allowed_payment_tokens: None, ..args };
    assert_eq!(
        update_config_handler(&mut accounts, Box::new(args.clone())),
        Err(UpdateConfigErrorCode::NewAdminPubkeyMismatch)
    );
    accounts.new_admin = Some(key(11));
    assert_eq!(
        update_config_handler(&mut accounts, Box::new(args)),
        Err(UpdateConfigErrorCode::NewFeeVaultPubkeyMismatch)
    );
    assert_eq!(accounts.config, live_config());
}

#[test]
fn allowlist_stays_within_its_bound() {
    let mut init = initialize_accounts();
    let args = InitializeConfigArgs { booking_fee_bps: 250, allowed_payment_tokens: keys(20) };
    assert_eq!(initialize_handler(&mut init, Box::new(args)), Ok(()));
    let mut accounts = UpdateConfig {
        config: init.config,
        admin: key(1),
        new_admin: None,
        new_fee_vault: None,
        new_destination_vault: None,
    };
    for count in [0u8, 21, 20, 30, 1, 25] {
        let args = UpdateConfigArgs { allowed_payment_tokens: Some(keys(count)), ..no_change() };
        let result = update_config_handler(&mut accounts, Box::new(args));
        assert_eq!(result.is_ok(), count <= 20);
        assert!(accounts.config.allowed_payment_tokens.len() <= MAX_ALLOWED_TOKENS);
    }
    assert_eq!(accounts.config.allowed_payment_tokens, keys(1));
}

#[test]
fn new_admin_takes_over_updates() {
    let mut accounts = update_accounts();
    accounts.new_admin = Some(key(11));
    let args = UpdateConfigArgs { admin: Some(key(11)), ..no_change() };
    assert_eq!(update_config_handler(&mut accounts, Box::new(args)), Ok(()));
    assert_eq!(accounts.config.admin, key(11));
    let args = UpdateConfigArgs { booking_fee_bps: Some(1), ..no_change() };
    assert_eq!(
        update_config_handler(&mut accounts, Box::new(args.clone())),
        Err(UpdateConfigErrorCode::InvalidAdminPubkey)
    );
    accounts.admin = key(11);
    assert_eq!(update_config_handler(&mut accounts, Box::new(args)), Ok(()));
    assert_eq!(accounts.config.booking_fee_bps, 1);
}
