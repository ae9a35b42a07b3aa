use presale::{
    buy_tokens, check_presale_token_balance, finalize_presale, initialize, set_stage,
    update_sale_period, update_sale_price, AccountId, PresaleError,
};

fn acct(tag: u128) -> AccountId {
    AccountId { hi: tag, lo: tag.wrapping_mul(7) }
}

const DECIMALS: u8 = 9;
const RAW_PER_TOKEN: u64 = 1_000_000_000;
const SOL_PRICE: u64 = 182_000_000;
const USD_PRICE_CENTS: u64 = 3;

#[test]
fn test_initialize_presale() {
    let admin = acct(1);
    let presale_wallet = acct(2);
    let merchant_wallet = acct(3);
    let presale = initialize(
        admin,
        USD_PRICE_CENTS,
        SOL_PRICE,
        7,
        14,
        1_000_000,
        1_700_000_000,
        presale_wallet,
        merchant_wallet,
        254,
    );
    assert_eq!(presale.admin, admin);
    assert_eq!(presale.usd_price_cents_per_nlov, USD_PRICE_CENTS);
    assert_eq!(presale.sol_price_lamports_per_nlov, SOL_PRICE);
    assert_eq!(presale.private_sale_duration, 7 * 86400);
    assert_eq!(presale.public_sale_duration, 14 * 86400);
    assert_eq!(presale.sale_stage, 0);
    assert_eq!(presale.total_sold, 0);
    assert_eq!(presale.pool_created, false);
    assert_eq!(presale.hardcap_tokens, 1_000_000);
    assert_eq!(presale.presale_wallet, presale_wallet);
    assert_eq!(presale.merchant_wallet, merchant_wallet);
}

#[test]
fn test_set_stage() {
    let admin = acct(1);
    let mut presale = initialize(
        admin,
        USD_PRICE_CENTS,
        SOL_PRICE,
        7,
        14,
        1_000_000,
        1_000,
        acct(2),
        acct(3),
        254,
    );

    let start: i64 = 5_000;
    assert!(set_stage(&mut presale, admin, start).is_ok());
    assert_eq!(presale.sale_stage, 1);
    assert_eq!(presale.presale_start, start);

    let after_private = start + 7 * 86400;
    assert!(set_stage(&mut presale, admin, after_private).is_ok());
    assert_eq!(presale.sale_stage, 2);

    let after_public = start + (7 + 14) * 86400;
    assert!(set_stage(&mut presale, admin, after_public).is_ok());
    assert_eq!(presale.sale_stage, 3);
}

#[test]
fn test_buy_tokens_sol() {
    let admin = acct(1);
    let buyer = acct(4);
    let merchant_wallet = acct(3);
    let mut presale = initialize(
        admin,
        USD_PRICE_CENTS,
        SOL_PRICE,
        7,
        14,
        1_000_000_000_000_000_000,
        1_000,
        acct(2),
        merchant_wallet,
        254,
    );
    let wallet_balance = 1_000_000 * RAW_PER_TOKEN;
    set_stage(&mut presale, admin, 5_000).unwrap();

    // On-chain payment for 10 whole tokens.
    let lamports_to_send = SOL_PRICE * 10;
    let ok = buy_tokens(&mut presale, buyer, 0, lamports_to_send, DECIMALS, wallet_balance)
        .unwrap();
    let expected_raw = 10 * RAW_PER_TOKEN;
    assert_eq!(presale.total_sold, expected_raw);
    let transfer = ok.transfer.unwrap();
    assert_eq!(transfer.from, buyer);
    assert_eq!(transfer.to, merchant_wallet);
    assert_eq!(transfer.lamports, lamports_to_send);
    assert_eq!(ok.event.tokens_purchased, 10);
    assert_eq!(ok.event.sol_spent, lamports_to_send);
    assert_eq!(ok.event.sol_price_lamports_per_nlov, SOL_PRICE);

    // A payment below the price of one token is rejected.
    let err = buy_tokens(&mut presale, buyer, 0, SOL_PRICE / 2, DECIMALS, wallet_balance)
        .unwrap_err();
    assert_eq!(err, PresaleError::InvalidPrice);
    assert_eq!(presale.total_sold, expected_raw);

    // Externally settled payment for 5 tokens: credited, nothing to transfer.
    let web2 = buy_tokens(&mut presale, buyer, 1, SOL_PRICE * 5, DECIMALS, wallet_balance)
        .unwrap();
    assert!(web2.transfer.is_none());
    assert_eq!(presale.total_sold, expected_raw + 5 * RAW_PER_TOKEN);
}

#[test]
fn test_update_sale_price() {
    let admin = acct(1);
    let mut presale = initialize(
        admin,
        USD_PRICE_CENTS,
        SOL_PRICE,
        7,
        14,
        1_000_000,
        1_000,
        acct(2),
        acct(3),
        254,
    );
    set_stage(&mut presale, admin, 5_000).unwrap();

    let new_usd_price = 5;
    let new_sol_price = 200_000_000;
    let event = update_sale_price(&mut presale, admin, new_usd_price, new_sol_price).unwrap();
    assert_eq!(presale.usd_price_cents_per_nlov, new_usd_price);
    assert_eq!(presale.sol_price_lamports_per_nlov, new_sol_price);
    assert_eq!(event.new_usd_price_cents, new_usd_price);
    assert_eq!(event.new_sol_price_lamports, new_sol_price);
    assert_eq!(event.sale_stage, 1);
}

#[test]
fn test_update_sale_period() {
    let admin = acct(1);
    let mut presale = initialize(
        admin,
        USD_PRICE_CENTS,
        SOL_PRICE,
        7,
        14,
        1_000_000,
        1_000,
        acct(2),
        acct(3),
        254,
    );

    let new_private_duration: i64 = 10;
    let new_public_duration: i64 = 20;
    update_sale_period(&mut presale, admin, new_private_duration, new_public_duration).unwrap();
    assert_eq!(presale.private_sale_duration, new_private_duration * 86400);
    assert_eq!(presale.public_sale_duration, new_public_duration * 86400);
}

#[test]
fn test_check_presale_token_balance() {
    let admin = acct(1);
    let presale = initialize(
        admin,
        USD_PRICE_CENTS,
        SOL_PRICE,
        7,
        14,
        1_000_000,
        1_000,
        acct(2),
        acct(3),
        254,
    );
    let wallet_balance = 500_000 * RAW_PER_TOKEN;
    assert_eq!(
        wallet_balance.saturating_sub(presale.total_sold),
        wallet_balance
    );
    assert_eq!(
        check_presale_token_balance(&presale, wallet_balance, DECIMALS),
        500_000
    );
}

#[test]
fn test_finalize_presale() {
    let admin = acct(1);
    let presale_wallet = acct(2);
    let liquidity_wallet = acct(5);
    let mut presale = initialize(
        admin,
        USD_PRICE_CENTS,
        SOL_PRICE,
        7,
        14,
        1_000_000 * RAW_PER_TOKEN,
        1_000,
        presale_wallet,
        acct(3),
        254,
    );
    let wallet_balance = 500_000 * RAW_PER_TOKEN;
    presale.total_sold = 100_000 * RAW_PER_TOKEN;

    // End the sale: 21 days cover both windows.
    let start: i64 = 5_000;
    set_stage(&mut presale, admin, start).unwrap();
    set_stage(&mut presale, admin, start + 21 * 86400).unwrap();
    set_stage(&mut presale, admin, start + 21 * 86400).unwrap();
    assert_eq!(presale.sale_stage, 3);

    let outcome =
        finalize_presale(&mut presale, admin, wallet_balance, liquidity_wallet, DECIMALS)
            .unwrap();
    assert!(presale.pool_created);
    let unsold = wallet_balance - 100_000 * RAW_PER_TOKEN;
    let sweep = outcome.transfer.unwrap();
    assert_eq!(sweep.from, presale_wallet);
    assert_eq!(sweep.to, liquidity_wallet);
    assert_eq!(sweep.amount_raw, unsold);
    assert_eq!(sweep.authority_bump, 254);
    assert_eq!(outcome.event.unsold_presale_tokens, 400_000);
}

#[test]
fn test_hardcap_reached() {
    let admin = acct(1);
    let buyer = acct(4);
    let hardcap_raw = 100 * RAW_PER_TOKEN;
    let mut presale = initialize(
        admin,
        USD_PRICE_CENTS,
        SOL_PRICE,
        7,
        14,
        hardcap_raw,
        1_000,
        acct(2),
        acct(3),
        254,
    );
    set_stage(&mut presale, admin, 5_000).unwrap();

    // Fill half the hardcap.
    buy_tokens(&mut presale, buyer, 0, SOL_PRICE * 50, DECIMALS, hardcap_raw).unwrap();
    assert_eq!(presale.total_sold, 50 * RAW_PER_TOKEN);

    // 50 + 60 = 110 whole tokens would exceed the 100-token hardcap.
    let err =
        buy_tokens(&mut presale, buyer, 0, SOL_PRICE * 60, DECIMALS, hardcap_raw).unwrap_err();
    assert_eq!(err, PresaleError::HardcapReached);
    assert_eq!(presale.total_sold, 50 * RAW_PER_TOKEN);
}

#[test]
fn test_unauthorized_actions() {
    let admin = acct(1);
    let unauthorized_user = acct(9);
    let mut presale = initialize(
        admin,
        USD_PRICE_CENTS,
        SOL_PRICE,
        7,
        14,
        1_000_000,
        1_000,
        acct(2),
        acct(3),
        254,
    );

    let err = set_stage(&mut presale, unauthorized_user, 5_000).unwrap_err();
    assert_eq!(err, PresaleError::Unauthorized);
    assert_eq!(presale.sale_stage, 0);

    let err =
        update_sale_price(&mut presale, unauthorized_user, 10, 300_000_000).unwrap_err();
    assert_eq!(err, PresaleError::Unauthorized);
    assert_eq!(presale.usd_price_cents_per_nlov, USD_PRICE_CENTS);
    assert_eq!(presale.sol_price_lamports_per_nlov, SOL_PRICE);

    let err = update_sale_period(&mut presale, unauthorized_user, 1, 1).unwrap_err();
    assert_eq!(err, PresaleError::Unauthorized);
    assert_eq!(presale.private_sale_duration, 7 * 86400);

    // End the sale, then try to finalize as the wrong caller.
    let start: i64 = 5_000;
    set_stage(&mut presale, admin, start).unwrap();
    set_stage(&mut presale, admin, start + 21 * 86400).unwrap();
    set_stage(&mut presale, admin, start + 21 * 86400).unwrap();
    let err = finalize_presale(&mut presale, unauthorized_user, 1_000_000, acct(5), DECIMALS)
        .unwrap_err();
    assert_eq!(err, PresaleError::Unauthorized);
    assert!(!presale.pool_created);
}
