//! A token-swap simulator: quote aggregation across competing liquidity
//! sources and per-user balance accounting.
//!
//! Amounts, balances and liquidity are token base units (`u64`); swap rates
//! are fixed-point numbers scaled by [`RATE_SCALE`].

mod aggregator;
mod database;
mod errors;
mod exchange;
mod mock;
mod swap;
mod tokens;
mod user;

pub use aggregator::{
    best_quote, is_best_of_prefix, lemma_best_index_characterizes, lemma_best_price_selected,
    lemma_inadmissible_never_selected, lemma_tie_goes_to_first, lemma_unlisted_pair_never_quoted,
    spec_best_index, spec_best_index_from, SwapResult, SLIPPAGE_BPS,
};
pub use database::{spec_index_of_from, UserDatabase};
pub use errors::SwapError;
pub use exchange::{
    lemma_received_monotone_in_rate, pairs_distinct, spec_find_pair_from, spec_received, Exchange,
    ExchangeData, TokenPairData,
};
pub use mock::{carbon_quotes, cowswap_quotes, matcha_quotes, sushi_quotes, uniswap_quotes};
pub use swap::{perform_swap, spec_committed_user, Swap};
pub use tokens::{Network, TokenType, RATE_SCALE};
pub use user::{validate_network, Balances, User, STARTING_BALANCE_CAP};
