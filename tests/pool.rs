use dex::address::Address;
use dex::calculator::TradeDirection;
use dex::config::ConfigState;
use dex::dex::{
    get_taxed_amount_before_launch, DexKeys, DexState, Phase, SwapMode, SwapRequest,
    TransferFees, VaultBalances,
};
use dex::error::ErrorCode;
use dex::swap::Swapper;

fn addr(b: u8) -> Address {
    Address { bytes: [b; 32] }
}

fn keys() -> DexKeys {
    DexKeys {
        pool_creator: addr(1),
        token_0_vault: addr(2),
        token_1_vault: addr(3),
        token_0_mint: addr(4),
        token_1_mint: addr(5),
        token_0_program: addr(6),
        token_1_program: addr(7),
    }
}

fn config(bound: u64) -> ConfigState {
    let mut c = ConfigState::initialize_config(1);
    c.update_vault_reserve_bound(bound);
    c
}

fn pool(bound: u64) -> DexState {
    DexState::initialize_dex(
        &keys(),
        9,
        9,
        &config(bound),
        false,
        true,
        VaultBalances { vault_0: 1_000_000, vault_1: 1_000_000 },
    )
    .unwrap()
}

fn no_fees() -> TransferFees {
    TransferFees { input: 0, output: 0 }
}

fn buy_with_token_0(amount: u64) -> SwapRequest {
    SwapRequest {
        direction: TradeDirection::ZeroForOne,
        mode: SwapMode::BaseInput,
        amount,
        limit: 1,
    }
}

#[test]
fn config_defaults_and_updates() {
    let mut c = ConfigState::initialize_config(3);
    assert_eq!(c.swap_fee_rate, 10_000);
    assert_eq!(c.launch_fee_rate, 10_000);
    assert_eq!(c.initial_reserve, 2_000_000_000);
    assert_eq!(c.vault_reserve_bound, 205_000_000_000_000_000);
    assert_eq!(c.update_swap_fee_rate(2_500), 10_000);
    assert_eq!(c.swap_fee_rate, 2_500);
    assert_eq!(c.update_launch_fee_rate(30_000), 10_000);
    assert_eq!(c.launch_fee_rate, 30_000);
    assert_eq!(c.update_initial_reserve(5), 2_000_000_000);
    assert_eq!(c.initial_reserve, 5);
}

#[test]
fn initial_deposits_follow_bound_side() {
    let c = config(7);
    assert_eq!(DexState::initial_deposits(&c, 42, false), (42, 2_000_000_000));
    assert_eq!(DexState::initial_deposits(&c, 42, true), (2_000_000_000, 42));
}

#[test]
fn initialize_dex_rejects_empty_vault() {
    let r = DexState::initialize_dex(
        &keys(),
        9,
        9,
        &config(10),
        false,
        true,
        VaultBalances { vault_0: 0, vault_1: 5 },
    );
    assert_eq!(r, Err(ErrorCode::EmptySupply));
}

#[test]
fn fresh_pool_is_trading() {
    let p = pool(2_000_000);
    assert_eq!(p.phase(), Phase::Trading);
    assert_eq!(p.vault_reserve_bound, 2_000_000);
    assert_eq!(p.swap_fees_token_0, 0);
    assert!(!p.is_launched && !p.is_ready_to_launch);
}

#[test]
fn end_to_end_swaps_cross_bound_then_launch_once() {
    let c = config(2_000_000);
    let mut p = pool(2_000_000);
    let mut vaults = VaultBalances { vault_0: 1_000_000, vault_1: 1_000_000 };
    let expected_out = [331_103u64, 166_383, 100_098];
    let expected_ready = [false, true, true];
    let expected_remaining = [500_000u64, 0, 0];
    for i in 0..3 {
        let o = p.execute_swap(&c, vaults, buy_with_token_0(500_000), no_fees()).unwrap();
        assert_eq!(o.protocol_fee, 5_000);
        assert_eq!(o.output_amount, expected_out[i]);
        assert_eq!(o.input_transfer_amount, 500_000);
        assert_eq!(o.output_transfer_amount, expected_out[i]);
        assert_eq!(o.reached_reserve_bound, expected_ready[i]);
        assert_eq!(o.remaining_tokens, expected_remaining[i]);
        assert_eq!(p.is_ready_to_launch, expected_ready[i]);
        vaults = VaultBalances { vault_0: o.vault_0_after, vault_1: o.vault_1_after };
    }
    assert_eq!(vaults, VaultBalances { vault_0: 2_500_000, vault_1: 402_416 });
    assert_eq!(p.swap_fees_token_0, 15_000);
    assert_eq!(p.phase(), Phase::ReadyToLaunch);

    let plan = p.launch_dex(&c, vaults, 0, 0).unwrap();
    assert_eq!(plan.launch_tax_0, 24_850);
    assert_eq!(plan.launch_tax_1, 4_024);
    assert_eq!(plan.amount_0, 2_460_150);
    assert_eq!(plan.amount_1, 398_392);
    assert_eq!(plan.launch_fees_0, 39_850);
    assert_eq!(plan.launch_fees_1, 4_024);
    assert!(p.is_launched);
    assert_eq!(p.phase(), Phase::Launched);
    assert_eq!(p.swap_fees_token_0, 0);
    assert_eq!(p.swap_fees_token_1, 0);

    let before = p;
    assert_eq!(p.launch_dex(&c, vaults, 0, 0), Err(ErrorCode::DexLaunched));
    assert_eq!(p, before);
}

#[test]
fn launched_pool_refuses_every_swap() {
    let c = config(1_000_000);
    let mut p = pool(1_000_000);
    let vaults = VaultBalances { vault_0: 1_000_000, vault_1: 1_000_000 };
    assert!(p.is_reached_reserve_bound(1_000_000));
    p.execute_swap(&c, vaults, buy_with_token_0(10), no_fees()).unwrap();
    assert!(p.is_ready_to_launch);
    p.launch_dex(&c, VaultBalances { vault_0: 1_000_010, vault_1: 999_991 }, 0, 0).unwrap();
    let before = p;
    for mode in [SwapMode::BaseInput, SwapMode::BaseOutput] {
        for direction in [TradeDirection::ZeroForOne, TradeDirection::OneForZero] {
            let request = SwapRequest { direction, mode, amount: 100, limit: u64::MAX };
            assert_eq!(
                p.execute_swap(&c, vaults, request, no_fees()),
                Err(ErrorCode::DexLaunched)
            );
            assert_eq!(p, before);
        }
    }
}

#[test]
fn launch_before_ready_fails() {
    let c = config(2_000_000);
    let mut p = pool(2_000_000);
    let vaults = VaultBalances { vault_0: 1_000_000, vault_1: 1_000_000 };
    assert_eq!(p.launch_dex(&c, vaults, 0, 0), Err(ErrorCode::DexNotReadyToLaunch));
    assert!(!p.is_launched);
}

#[test]
fn launch_failure_leaves_pool_retryable() {
    let c = config(1_000_000);
    let mut p = pool(1_000_000);
    let vaults = VaultBalances { vault_0: 1_000_000, vault_1: 1_000_000 };
    p.execute_swap(&c, vaults, buy_with_token_0(10), no_fees()).unwrap();
    let before = p;
    let after = VaultBalances { vault_0: 1_000_010, vault_1: 999_991 };
    assert_eq!(p.launch_dex(&c, after, u64::MAX, 0), Err(ErrorCode::Underflow));
    assert_eq!(p, before);
    assert!(p.launch_dex(&c, after, 0, 0).is_ok());
}

#[test]
fn exact_input_slippage_is_refused() {
    let c = config(2_000_000);
    let mut p = pool(2_000_000);
    let before = p;
    let vaults = VaultBalances { vault_0: 1_000_000, vault_1: 1_000_000 };
    let mut request = buy_with_token_0(1_000);
    request.limit = 990;
    assert_eq!(p.execute_swap(&c, vaults, request, no_fees()), Err(ErrorCode::ExceededSlippage));
    assert_eq!(p, before);
    request.limit = 989;
    let o = p.execute_swap(&c, vaults, request, no_fees()).unwrap();
    assert_eq!(o.output_amount, 989);
}

#[test]
fn exact_input_counts_transfer_fees() {
    let c = config(2_000_000);
    let mut p = pool(2_000_000);
    let vaults = VaultBalances { vault_0: 1_000_000, vault_1: 1_000_000 };
    let fees = TransferFees { input: 10, output: 9 };
    let o = p.execute_swap(&c, vaults, buy_with_token_0(1_010), fees).unwrap();
    assert_eq!(o.input_amount, 1_000);
    assert_eq!(o.input_transfer_amount, 1_010);
    assert_eq!(o.output_amount, 989);
    assert_eq!(o.vault_0_after, 1_001_000);
    assert_eq!(o.vault_1_after, 999_011);
    let big = TransferFees { input: 0, output: 2_000 };
    assert_eq!(
        p.execute_swap(&c, vaults, buy_with_token_0(1_000), big),
        Err(ErrorCode::Underflow)
    );
    assert_eq!(
        p.execute_swap(&c, vaults, buy_with_token_0(10), TransferFees { input: 10, output: 0 }),
        Err(ErrorCode::InvalidInput)
    );
}

#[test]
fn exact_output_trade_and_its_limit() {
    let c = config(2_000_000);
    let mut p = pool(2_000_000);
    let vaults = VaultBalances { vault_0: 1_000_000, vault_1: 1_000_000 };
    let request = SwapRequest {
        direction: TradeDirection::OneForZero,
        mode: SwapMode::BaseOutput,
        amount: 1_000,
        limit: 1_012,
    };
    let before = p;
    assert_eq!(p.execute_swap(&c, vaults, request, no_fees()), Err(ErrorCode::ExceededSlippage));
    assert_eq!(p, before);
    let request = SwapRequest { limit: 1_013, ..request };
    let o = p.execute_swap(&c, vaults, request, no_fees()).unwrap();
    assert_eq!(o.input_amount, 1_013);
    assert_eq!(o.output_amount, 1_000);
    assert_eq!(o.protocol_fee, 10);
    assert_eq!(p.swap_fees_token_1, 10);
    assert_eq!(p.swap_fees_token_0, 0);
    assert_eq!(o.vault_0_after, 999_000);
    assert_eq!(o.vault_1_after, 1_001_013);
    let too_much = SwapRequest { amount: 1_000_000, limit: u64::MAX, ..request };
    assert_eq!(
        p.execute_swap(&c, vaults, too_much, no_fees()),
        Err(ErrorCode::ZeroTradingTokens)
    );
}

#[test]
fn quote_changes_nothing() {
    let c = config(2_000_000);
    let p = pool(2_000_000);
    let vaults = VaultBalances { vault_0: 1_000_000, vault_1: 1_000_000 };
    let q = p.quote_swap(&c, vaults, buy_with_token_0(1_000), 0).unwrap();
    assert_eq!(q.destination_amount_swapped, 989);
    assert_eq!(p.swap_fees_token_0, 0);
}

#[test]
fn fees_above_vault_are_an_underflow() {
    let c = config(2_000_000);
    let mut p = pool(2_000_000);
    let vaults = VaultBalances { vault_0: 1_000_000, vault_1: 1_000_000 };
    p.execute_swap(&c, vaults, buy_with_token_0(1_000), no_fees()).unwrap();
    let drained = VaultBalances { vault_0: 5, vault_1: 1_000_000 };
    assert_eq!(
        p.execute_swap(&c, drained, buy_with_token_0(1_000), no_fees()),
        Err(ErrorCode::Underflow)
    );
}

#[test]
fn withdraw_pays_swap_and_launch_fees() {
    let c = config(1_000_000);
    let mut p = pool(1_000_000);
    let vaults = VaultBalances { vault_0: 1_000_000, vault_1: 1_000_000 };
    p.execute_swap(&c, vaults, buy_with_token_0(1_000), no_fees()).unwrap();
    let mut trading = p;
    assert_eq!(trading.withdraw_dex_fee(), Ok((10, 0)));
    assert_eq!(trading.swap_fees_token_0, 0);
    let plan = p
        .launch_dex(&c, VaultBalances { vault_0: 1_001_000, vault_1: 999_011 }, 0, 0)
        .unwrap();
    assert_eq!(plan.launch_fees_0, 10 + 10_009);
    assert_eq!(p.withdraw_dex_fee(), Ok((10 + 10_009, 9_990)));
    assert_eq!(p.launch_fees_token_0, 0);
    assert!(p.is_launched);
}

#[test]
fn taxed_amount_before_launch() {
    assert_eq!(get_taxed_amount_before_launch(1_000_100, 100, 10_000, 5), Ok((989_995, 10_000, 5)));
    assert_eq!(get_taxed_amount_before_launch(10, 100, 10_000, 5), Err(ErrorCode::Underflow));
    assert_eq!(get_taxed_amount_before_launch(100, 0, u64::MAX, 0), Err(ErrorCode::Underflow));
    assert_eq!(
        get_taxed_amount_before_launch(u64::MAX, 0, u64::MAX, 0),
        Err(ErrorCode::InvalidU64Cast)
    );
    assert_eq!(DexState::get_launch_tax(1_000_100, 100, 10_000), Ok(10_000));
    assert_eq!(DexState::get_launch_hand_off(1_000_100, 100, 10_000), Ok(990_000));
    assert_eq!(DexState::get_launch_hand_off(10, 100, 10_000), Err(ErrorCode::Underflow));
}

#[test]
fn bound_helpers() {
    let mut p = pool(2_000_000);
    assert_eq!(p.get_remaining_tokens(1_500_000), 500_000);
    assert_eq!(p.get_remaining_tokens(2_500_000), 0);
    assert!(!p.is_reached_reserve_bound(1_999_999));
    assert_eq!(p.get_vault_reserve_amount(7, 9, TradeDirection::OneForZero), 9);
    p.vault_for_reserve_bound = true;
    assert_eq!(p.get_vault_reserve_amount(7, 9, TradeDirection::OneForZero), 7);
    p.reserve_bound_ge = false;
    assert!(p.is_reached_reserve_bound(2_000_000));
    assert!(!p.is_reached_reserve_bound(2_000_001));
    assert_eq!(p.get_remaining_tokens(2_000_100), 100);
}

#[test]
fn prices_and_fee_free_amounts() {
    let mut p = pool(2_000_000);
    p.swap_fees_token_0 = 100;
    assert_eq!(p.vault_amount_without_fee(1_100, 2_000), (1_000, 2_000));
    assert_eq!(p.token_price_x32(1_100, 2_000), (2 * 4_294_967_296, 4_294_967_296 / 2));
}

#[test]
fn swapper_resolves_vaults() {
    let c = config(2_000_000);
    let mut p = pool(2_000_000);
    let swapper = Swapper {
        config: c,
        input_vault: addr(3),
        input_vault_amount: 1_000_000,
        output_vault: addr(2),
        output_vault_amount: 1_000_000,
    };
    let calc = swapper.calculate_trade_amounts_and_price_before_swap(&p).unwrap();
    assert_eq!(calc.trade_direction, TradeDirection::OneForZero);
    assert_eq!(calc.token_0_price_x64, 4_294_967_296);
    let o = swapper.try_swap_base_input(&mut p, 1_000, 989, no_fees()).unwrap();
    assert_eq!(o.direction, TradeDirection::OneForZero);
    assert_eq!(p.swap_fees_token_1, 10);
    let o = swapper.try_swap_base_output(&mut p, 2_000, 500, no_fees()).unwrap();
    assert_eq!(o.output_amount, 500);
    let wrong = Swapper { output_vault: addr(9), ..swapper };
    assert_eq!(wrong.try_swap_base_input(&mut p, 1_000, 1, no_fees()), Err(ErrorCode::InvalidVault));
    assert_eq!(
        wrong.calculate_trade_amounts_and_price_before_swap(&p),
        Err(ErrorCode::InvalidVault)
    );
}

#[test]
fn single_large_exact_input_swap_reaches_bound() {
    let c = config(2_000_000);
    let mut p = pool(2_000_000);
    let swapper = Swapper {
        config: c,
        input_vault: addr(2),
        input_vault_amount: 1_000_000,
        output_vault: addr(3),
        output_vault_amount: 1_000_000,
    };
    let o = swapper.try_swap_base_input(&mut p, 1_500_000, 0, no_fees()).unwrap();
    assert_eq!(o.direction, TradeDirection::ZeroForOne);
    assert_eq!(o.output_transfer_amount, 597_585);
    assert_eq!(o.vault_0_after, 2_500_000);
    assert_eq!(o.vault_1_after, 402_415);
    assert_eq!(p.swap_fees_token_0, 15_000);
    assert!(p.is_ready_to_launch);
    assert!(!p.is_launched);
}
