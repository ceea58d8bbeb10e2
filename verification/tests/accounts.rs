use swap_price_checker::{
    perform_swap, validate_network, Balances, Exchange, ExchangeData, Network, Swap, SwapError,
    TokenPairData, TokenType, User, UserDatabase, SLIPPAGE_BPS, STARTING_BALANCE_CAP,
};

fn user(address: &str, usdc: u64, usdt: u64, busd: u64) -> User {
    User::with_balances(Network::Ethereum, address.to_string(), Balances { usdc, usdt, busd })
}

fn usdt_usdc_books() -> Vec<ExchangeData> {
    vec![
        ExchangeData {
            exchange_name: Exchange::Uniswap,
            supported_network: Network::Ethereum,
            token_pairs: vec![TokenPairData {
                from_token: TokenType::USDT,
                to_token: TokenType::USDC,
                swap_rate: 10_010,
                liquidity: 50_000_000,
            }],
        },
        ExchangeData {
            exchange_name: Exchange::Carbon,
            supported_network: Network::Ethereum,
            token_pairs: vec![TokenPairData {
                from_token: TokenType::USDT,
                to_token: TokenType::USDC,
                swap_rate: 10_020,
                liquidity: 48_000_000,
            }],
        },
    ]
}

#[test]
fn new_users_start_below_the_balance_cap() {
    let u = User::new(Network::Ethereum, "0xabc".to_string());
    assert_eq!(u.network, Network::Ethereum);
    assert_eq!(u.wallet_address, "0xabc");
    assert!(u.balance_of(TokenType::USDC) < STARTING_BALANCE_CAP);
    assert!(u.balance_of(TokenType::USDT) < STARTING_BALANCE_CAP);
    assert!(u.balance_of(TokenType::BUSD) < STARTING_BALANCE_CAP);
}

#[test]
fn balance_queries_treat_missing_credit_as_zero() {
    let u = user("0xabc", 0, 250, 0);
    assert_eq!(u.balance_of(TokenType::USDC), 0);
    assert!(!u.has_sufficient_balance(TokenType::USDC, 1));
    assert!(u.has_sufficient_balance(TokenType::USDC, 0));
    assert!(u.has_sufficient_balance(TokenType::USDT, 250));
    assert!(!u.has_sufficient_balance(TokenType::USDT, 251));
}

#[test]
fn deduct_balance_subtracts_exactly() {
    let mut u = user("0xabc", 100, 250, 7);
    assert_eq!(u.deduct_balance(TokenType::USDT, 40), Ok(()));
    assert_eq!(u.balance_of(TokenType::USDT), 210);
    assert_eq!(u.balance_of(TokenType::USDC), 100);
    assert_eq!(u.balance_of(TokenType::BUSD), 7);
}

#[test]
fn deduct_balance_rejects_a_short_balance() {
    let mut u = user("0xabc", 100, 250, 7);
    assert_eq!(u.deduct_balance(TokenType::BUSD, 8), Err(SwapError::InsufficientBalance));
    assert_eq!(u.balance_of(TokenType::BUSD), 7);
}

#[test]
fn add_balance_adds_exactly() {
    let mut u = user("0xabc", 0, 0, 0);
    u.add_balance(TokenType::USDC, 125);
    u.add_balance(TokenType::USDC, 25);
    assert_eq!(u.balance_of(TokenType::USDC), 150);
    assert_eq!(u.balance_of(TokenType::USDT), 0);
}

#[test]
fn only_the_accepted_network_passes_validation() {
    assert_eq!(validate_network(Network::Ethereum), Ok(()));
    assert_eq!(validate_network(Network::BNBChain), Err(SwapError::IncorrectNetwork));
    assert_eq!(validate_network(Network::Polygon), Err(SwapError::IncorrectNetwork));
}

#[test]
fn add_and_get_user_round_trip() {
    let mut db = UserDatabase::new_db();
    db.add_user(user("0xaaa", 1, 2, 3));
    db.add_user(user("0xbbb", 4, 5, 6));
    let a = db.get_user_by_address("0xaaa").unwrap();
    assert_eq!(a.balance_of(TokenType::BUSD), 3);
    let b = db.get_user_by_address("0xbbb").unwrap();
    assert_eq!(b.balance_of(TokenType::USDC), 4);
}

#[test]
fn add_user_overwrites_the_same_address() {
    let mut db = UserDatabase::new_db();
    db.add_user(user("0xaaa", 1, 2, 3));
    db.add_user(user("0xaaa", 9, 9, 9));
    let a = db.get_user_by_address("0xaaa").unwrap();
    assert_eq!(a.balance_of(TokenType::USDC), 9);
    assert!(db.get_user_by_address("0xbbb").is_none());
}

#[test]
fn get_user_by_address_mut_updates_in_place() {
    let mut db = UserDatabase::new_db();
    db.add_user(user("0xaaa", 1, 2, 3));
    let a = db.get_user_by_address_mut("0xaaa").unwrap();
    a.add_balance(TokenType::USDC, 10);
    assert_eq!(db.get_user_by_address("0xaaa").unwrap().balance_of(TokenType::USDC), 11);
}

#[test]
fn absent_addresses_are_not_found() {
    let mut db = UserDatabase::new_db();
    assert!(db.get_user_by_address("0xmissing").is_none());
    assert!(db.get_user_by_address_mut("0xmissing").is_none());
    assert!(db.find_user_index("0xmissing").is_none());
}

#[test]
fn remove_user_by_address_removes_only_that_user() {
    let mut db = UserDatabase::new_db();
    db.add_user(user("0xaaa", 1, 2, 3));
    db.add_user(user("0xbbb", 4, 5, 6));
    db.remove_user_by_address("0xaaa");
    assert!(db.get_user_by_address("0xaaa").is_none());
    assert!(db.get_user_by_address("0xbbb").is_some());
    // Removing an absent address is a no-op.
    db.remove_user_by_address("0xaaa");
    assert!(db.get_user_by_address("0xbbb").is_some());
}

#[test]
fn a_successful_swap_commits_both_balances_atomically() {
    let books = usdt_usdc_books();
    let mut db = UserDatabase::new_db();
    db.add_user(user("0xabc", 7, 5_000, 9));
    let swap = Swap {
        user_wallet_address: "0xabc".to_string(),
        from_token: TokenType::USDT,
        to_token: TokenType::USDC,
        amount: 1_000,
    };
    let r = perform_swap(&swap, &books, &mut db).unwrap();
    assert_eq!(r.exchange_name, Exchange::Carbon);
    assert_eq!(r.received_amount, 1_002);
    assert_eq!(r.slippage_bps, SLIPPAGE_BPS);
    let u = db.get_user_by_address("0xabc").unwrap();
    assert_eq!(u.balance_of(TokenType::USDT), 4_000);
    assert_eq!(u.balance_of(TokenType::USDC), 1_009);
    assert_eq!(u.balance_of(TokenType::BUSD), 9);
}

#[test]
fn an_unknown_user_fails_and_mutates_no_ledger() {
    let books = usdt_usdc_books();
    let mut db = UserDatabase::new_db();
    db.add_user(user("0xabc", 7, 5_000, 9));
    let swap = Swap {
        user_wallet_address: "0xghost".to_string(),
        from_token: TokenType::USDT,
        to_token: TokenType::USDC,
        amount: 1_000,
    };
    assert_eq!(perform_swap(&swap, &books, &mut db), Err(SwapError::UserNotFound));
    let u = db.get_user_by_address("0xabc").unwrap();
    assert_eq!(u.balance_of(TokenType::USDT), 5_000);
    assert_eq!(u.balance_of(TokenType::USDC), 7);
    assert_eq!(u.balance_of(TokenType::BUSD), 9);
}

#[test]
fn a_short_balance_fails_before_any_book_is_consulted() {
    // Even with no book listing the pair, the balance failure wins: the
    // precheck runs before quoting.
    let no_books: Vec<ExchangeData> = Vec::new();
    let mut db = UserDatabase::new_db();
    db.add_user(user("0xabc", 7, 10, 9));
    let swap = Swap {
        user_wallet_address: "0xabc".to_string(),
        from_token: TokenType::USDT,
        to_token: TokenType::USDC,
        amount: 1_000,
    };
    assert_eq!(perform_swap(&swap, &no_books, &mut db), Err(SwapError::InsufficientBalance));
    // With books present the outcome is the same, and nothing moves.
    let books = usdt_usdc_books();
    assert_eq!(perform_swap(&swap, &books, &mut db), Err(SwapError::InsufficientBalance));
    let u = db.get_user_by_address("0xabc").unwrap();
    assert_eq!(u.balance_of(TokenType::USDT), 10);
    assert_eq!(u.balance_of(TokenType::USDC), 7);
}

#[test]
fn an_unsupported_pair_fails_and_mutates_no_ledger() {
    let books = usdt_usdc_books();
    let mut db = UserDatabase::new_db();
    db.add_user(user("0xabc", 7, 5_000, 9));
    let swap = Swap {
        user_wallet_address: "0xabc".to_string(),
        from_token: TokenType::BUSD,
        to_token: TokenType::USDT,
        amount: 5,
    };
    assert_eq!(perform_swap(&swap, &books, &mut db), Err(SwapError::PairNotSupported));
    let u = db.get_user_by_address("0xabc").unwrap();
    assert_eq!(u.balance_of(TokenType::USDC), 7);
    assert_eq!(u.balance_of(TokenType::USDT), 5_000);
    assert_eq!(u.balance_of(TokenType::BUSD), 9);
}

#[test]
fn repeated_swaps_resolve_the_same_tie_deterministically() {
    let tie_books = vec![
        ExchangeData {
            exchange_name: Exchange::Matcha,
            supported_network: Network::Ethereum,
            token_pairs: vec![TokenPairData {
                from_token: TokenType::USDT,
                to_token: TokenType::USDC,
                swap_rate: 10_010,
                liquidity: 50_000_000,
            }],
        },
        ExchangeData {
            exchange_name: Exchange::Sushi,
            supported_network: Network::Ethereum,
            token_pairs: vec![TokenPairData {
                from_token: TokenType::USDT,
                to_token: TokenType::USDC,
                swap_rate: 10_010,
                liquidity: 60_000_000,
            }],
        },
    ];
    let mut db = UserDatabase::new_db();
    db.add_user(user("0xabc", 0, 10_000, 0));
    for _ in 0..3 {
        let swap = Swap {
            user_wallet_address: "0xabc".to_string(),
            from_token: TokenType::USDT,
            to_token: TokenType::USDC,
            amount: 100,
        };
        let r = perform_swap(&swap, &tie_books, &mut db).unwrap();
        assert_eq!(r.exchange_name, Exchange::Matcha);
    }
}
