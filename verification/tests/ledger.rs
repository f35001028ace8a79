use swap_tracker::Address;
use swap_tracker::DataKey;
use swap_tracker::Env;
use swap_tracker::SwapRecord;
use swap_tracker::SwapTrackerContract;

#[test]
fn test_record_and_retrieve() {
    let mut env = Env::default();

    let user = Address::new(1);
    let from = "XLM".to_string();
    let to = "USDC".to_string();

    SwapTrackerContract::record_swap(&mut env, user, from, to, 1_000_000_i128, 1700000000_u64);

    assert_eq!(SwapTrackerContract::get_swap_count(&env), 1);

    let swaps = SwapTrackerContract::get_recent_swaps(&env, 1);
    assert_eq!(swaps.len(), 1);

    let record = &swaps[0];
    assert_eq!(record.amount, 1_000_000);
    assert_eq!(record.timestamp, 1700000000);
}

#[test]
fn test_multiple_swaps_ordering() {
    let mut env = Env::default();

    let user = Address::new(1);

    // Record 3 swaps
    SwapTrackerContract::record_swap(
        &mut env,
        user,
        "XLM".to_string(),
        "USDC".to_string(),
        100_i128,
        1000_u64,
    );
    SwapTrackerContract::record_swap(
        &mut env,
        user,
        "USDC".to_string(),
        "XLM".to_string(),
        200_i128,
        2000_u64,
    );
    SwapTrackerContract::record_swap(
        &mut env,
        user,
        "XLM".to_string(),
        "USDC".to_string(),
        300_i128,
        3000_u64,
    );

    assert_eq!(SwapTrackerContract::get_swap_count(&env), 3);

    // Get last 2 — should be newest first
    let swaps = SwapTrackerContract::get_recent_swaps(&env, 2);
    assert_eq!(swaps.len(), 2);
    assert_eq!(swaps[0].amount, 300);
    assert_eq!(swaps[1].amount, 200);
}

#[test]
fn test_event_emission() {
    let mut env = Env::default();

    let user = Address::new(1);
    let from = "XLM".to_string();
    let to = "USDC".to_string();

    SwapTrackerContract::record_swap(&mut env, user, from, to, 500_i128, 1700000000_u64);

    // Verify event was emitted
    assert!(!env.events().is_empty());
}

#[test]
fn test_monotonic_count() {
    let mut env = Env::default();
    for k in 1..=5u64 {
        SwapTrackerContract::record_swap(
            &mut env,
            Address::new(k),
            "XLM".to_string(),
            "USDC".to_string(),
            k as i128,
            k,
        );
        assert_eq!(SwapTrackerContract::get_swap_count(&env), k);
    }
}

#[test]
fn test_insertion_order_recall() {
    let mut env = Env::default();
    let user = Address::new(9);
    for (k, amount) in [100_i128, 200, 300].iter().enumerate() {
        SwapTrackerContract::record_swap(
            &mut env,
            user,
            "XLM".to_string(),
            "USDC".to_string(),
            *amount,
            k as u64,
        );
    }

    let two = SwapTrackerContract::get_recent_swaps(&env, 2);
    let two_amounts: Vec<i128> = two.iter().map(|r| r.amount).collect();
    assert_eq!(two_amounts, vec![300, 200]);

    let three = SwapTrackerContract::get_recent_swaps(&env, 3);
    let three_amounts: Vec<i128> = three.iter().map(|r| r.amount).collect();
    assert_eq!(three_amounts, vec![300, 200, 100]);
}

#[test]
fn test_clamping() {
    let mut env = Env::default();
    for k in 0..3u64 {
        SwapTrackerContract::record_swap(
            &mut env,
            Address::new(k),
            "XLM".to_string(),
            "USDC".to_string(),
            k as i128,
            k,
        );
    }

    assert_eq!(SwapTrackerContract::get_recent_swaps(&env, 10).len(), 3);
    assert_eq!(SwapTrackerContract::get_recent_swaps(&env, u32::MAX).len(), 3);
    assert_eq!(SwapTrackerContract::get_recent_swaps(&env, 3).len(), 3);
    assert_eq!(SwapTrackerContract::get_recent_swaps(&env, 2).len(), 2);
    assert_eq!(SwapTrackerContract::get_recent_swaps(&env, 0).len(), 0);
}

#[test]
fn test_empty_ledger() {
    let env = Env::default();
    assert_eq!(SwapTrackerContract::get_swap_count(&env), 0);
    assert!(SwapTrackerContract::get_recent_swaps(&env, 0).is_empty());
    assert!(SwapTrackerContract::get_recent_swaps(&env, 1).is_empty());
    assert!(SwapTrackerContract::get_recent_swaps(&env, u32::MAX).is_empty());
    assert!(env.events().is_empty());
    assert!(!env.storage_has(&DataKey::SwapCount));
    assert!(!env.storage_has(&DataKey::Swap(0)));
}

#[test]
fn test_immutability() {
    let mut env = Env::default();
    let user = Address::new(5);
    for k in 0..3u64 {
        SwapTrackerContract::record_swap(
            &mut env,
            user,
            "XLM".to_string(),
            "USDC".to_string(),
            (k + 1) as i128 * 100,
            1000 + k,
        );
    }

    // Repeated reads of the same keys return identical values.
    let first = SwapTrackerContract::get_recent_swaps(&env, 3);
    let second = SwapTrackerContract::get_recent_swaps(&env, 3);
    assert_eq!(first, second);

    // Recording more swaps leaves every earlier record in place, unchanged.
    SwapTrackerContract::record_swap(
        &mut env,
        user,
        "BTC".to_string(),
        "ETH".to_string(),
        999_i128,
        2000_u64,
    );
    let four = SwapTrackerContract::get_recent_swaps(&env, 4);
    assert_eq!(four.len(), 4);
    assert_eq!(&four[1..], &first[..]);
    assert!(env.storage_has(&DataKey::Swap(0)));
    assert!(env.storage_has(&DataKey::Swap(3)));
    assert!(!env.storage_has(&DataKey::Swap(4)));
}

#[test]
fn test_event_correspondence() {
    let mut env = Env::default();
    let user = Address::new(11);

    SwapTrackerContract::record_swap(
        &mut env,
        user,
        "XLM".to_string(),
        "USDC".to_string(),
        77_i128,
        1234_u64,
    );

    assert_eq!(env.events().len(), 1);
    let event = &env.events()[0];
    assert_eq!(event.topic, "swap");
    assert_eq!(event.user, user);
    assert_eq!(event.from_asset, "XLM");
    assert_eq!(event.to_asset, "USDC");
    assert_eq!(event.amount, 77);
    assert_eq!(event.timestamp, 1234);

    SwapTrackerContract::record_swap(
        &mut env,
        Address::new(12),
        "USDC".to_string(),
        "XLM".to_string(),
        88_i128,
        5678_u64,
    );
    assert_eq!(env.events().len(), 2);
    assert_eq!(env.events()[1].amount, 88);
}

#[test]
fn test_scenario_single_swap() {
    let mut env = Env::default();
    let user_a = Address::new(42);

    SwapTrackerContract::record_swap(
        &mut env,
        user_a,
        "XLM".to_string(),
        "USDC".to_string(),
        1_000_000_i128,
        1700000000_u64,
    );

    assert_eq!(SwapTrackerContract::get_swap_count(&env), 1);
    let swaps = SwapTrackerContract::get_recent_swaps(&env, 1);
    let expected = SwapRecord {
        user: user_a,
        from_asset: "XLM".to_string(),
        to_asset: "USDC".to_string(),
        amount: 1_000_000,
        timestamp: 1700000000,
    };
    assert_eq!(swaps[0], expected);
}
