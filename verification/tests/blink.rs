use blinky::blink::{setup, BlinkAction, SLEEP_TIME_MS};
use blinky::board::{Board, SetupError};
use blinky::gpio::{GpioTokenIssuer, PinLevel};

#[test]
fn setup_with_valid_alias_starts_active() {
    let board = Board::with_led_alias(13);
    let mut issuer = GpioTokenIssuer::new();
    let blinker = setup(&board, &mut issuer).expect("setup must succeed on a valid alias");
    assert_eq!(blinker.current_level(), PinLevel::Active);
    assert!(issuer.is_issued());
}

#[test]
fn setup_missing_alias_fails_before_any_pin_operation() {
    let board = Board::without_led_alias();
    let mut issuer = GpioTokenIssuer::new();
    let r = setup(&board, &mut issuer);
    assert_eq!(r.err(), Some(SetupError::MissingAlias));
    // Nothing was touched: the token was never requested, so it can still
    // be acquired afterwards.
    assert!(!issuer.is_issued());
    assert!(issuer.acquire().is_some());
}

#[test]
fn setup_fails_when_token_already_held() {
    let board = Board::with_led_alias(13);
    let mut issuer = GpioTokenIssuer::new();
    let _held = issuer.acquire().expect("first acquisition must succeed");
    let r = setup(&board, &mut issuer);
    assert_eq!(r.err(), Some(SetupError::TokenUnavailable));
}

#[test]
fn missing_alias_reported_before_token_unavailability() {
    let board = Board::without_led_alias();
    let mut issuer = GpioTokenIssuer::new();
    let _held = issuer.acquire().expect("first acquisition must succeed");
    let r = setup(&board, &mut issuer);
    assert_eq!(r.err(), Some(SetupError::MissingAlias));
}

#[test]
fn token_second_acquisition_fails() {
    let mut issuer = GpioTokenIssuer::new();
    let first = issuer.acquire();
    assert!(first.is_some());
    let second = issuer.acquire();
    assert!(second.is_none());
    let third = issuer.acquire();
    assert!(third.is_none());
}

#[test]
fn example_scenario_two_toggles() {
    // Alias "led0" resolves to a pin; after setup the pin is active, after
    // one toggle inactive, after two active again, each step asking for a
    // 1000 ms suspend.
    let board = Board::with_led_alias(0);
    let mut issuer = GpioTokenIssuer::new();
    let mut blinker = setup(&board, &mut issuer).expect("setup must succeed on a valid alias");
    assert_eq!(blinker.current_level(), PinLevel::Active);

    let act1 = blinker.step();
    assert_eq!(blinker.current_level(), PinLevel::Inactive);
    assert_eq!(act1.level, PinLevel::Inactive);
    assert_eq!(act1.sleep_ms, 1000);

    let act2 = blinker.step();
    assert_eq!(blinker.current_level(), PinLevel::Active);
    assert_eq!(act2.level, PinLevel::Active);
    assert_eq!(act2.sleep_ms, 1000);
}

#[test]
fn level_parity_after_many_toggles() {
    let board = Board::with_led_alias(7);
    let mut issuer = GpioTokenIssuer::new();
    let mut blinker = setup(&board, &mut issuer).expect("setup must succeed on a valid alias");
    for n in 1u32..=64 {
        blinker.step();
        let expected = if n % 2 == 0 { PinLevel::Active } else { PinLevel::Inactive };
        assert_eq!(blinker.current_level(), expected);
    }
}

#[test]
fn run_steps_matches_single_steps() {
    let board = Board::with_led_alias(7);
    let mut issuer = GpioTokenIssuer::new();
    let mut blinker = setup(&board, &mut issuer).expect("setup must succeed on a valid alias");
    blinker.run_steps(5);
    assert_eq!(blinker.current_level(), PinLevel::Inactive);
    blinker.run_steps(5);
    assert_eq!(blinker.current_level(), PinLevel::Active);
    blinker.run_steps(0);
    assert_eq!(blinker.current_level(), PinLevel::Active);
}

#[test]
fn every_iteration_schedules_the_fixed_sleep() {
    // A bounded harness for the infinite loop: however many iterations have
    // run, the next one is available and asks for the same 1000 ms suspend.
    let board = Board::with_led_alias(13);
    let mut issuer = GpioTokenIssuer::new();
    let mut blinker = setup(&board, &mut issuer).expect("setup must succeed on a valid alias");
    for _ in 0..100 {
        let act = blinker.step();
        assert_eq!(act.sleep_ms, SLEEP_TIME_MS);
        assert_eq!(act.sleep_ms, 1000);
    }
}

#[test]
fn alias_can_name_any_pin_number() {
    let board = Board::with_led_alias(u32::MAX);
    let mut issuer = GpioTokenIssuer::new();
    let mut blinker = setup(&board, &mut issuer).expect("setup must succeed on a valid alias");
    let act = blinker.step();
    assert_eq!(act, BlinkAction { level: PinLevel::Inactive, sleep_ms: 1000 });
}

#[test]
fn board_resolution_reports_the_configured_pin() {
    let board = Board::with_led_alias(42);
    assert_eq!(board.resolve_led_alias(), Some(42));
    let bare = Board::without_led_alias();
    assert_eq!(bare.resolve_led_alias(), None);
}
