//! The fixed book tables the simulator starts with: five sources, each
//! quoting every directed pair of distinct tokens.

use vstd::prelude::*;
use crate::exchange::{
    pairs_distinct, spec_find_pair_from, Exchange, ExchangeData, TokenPairData,
};
use crate::tokens::{Network, TokenType, RATE_SCALE};

verus! {

/// The exact table the Uniswap book starts with.
pub open spec fn uniswap_quotes() -> Seq<TokenPairData> {
    seq![
        TokenPairData {
            from_token: TokenType::USDT,
            to_token: TokenType::USDC,
            swap_rate: 10_010,
            liquidity: 50_000_000,
        },
        TokenPairData {
            from_token: TokenType::USDT,
            to_token: TokenType::BUSD,
            swap_rate: 10_005,
            liquidity: 45_000_000,
        },
        TokenPairData {
            from_token: TokenType::USDC,
            to_token: TokenType::USDT,
            swap_rate: 9_990,
            liquidity: 49_000_000,
        },
        TokenPairData {
            from_token: TokenType::USDC,
            to_token: TokenType::BUSD,
            swap_rate: 10_002,
            liquidity: 40_000_000,
        },
        TokenPairData {
            from_token: TokenType::BUSD,
            to_token: TokenType::USDT,
            swap_rate: 10_003,
            liquidity: 44_000_000,
        },
        TokenPairData {
            from_token: TokenType::BUSD,
            to_token: TokenType::USDC,
            swap_rate: 9_998,
            liquidity: 39_000_000,
        },
    ]
}

/// The exact table the Carbon book starts with.
pub open spec fn carbon_quotes() -> Seq<TokenPairData> {
    seq![
        TokenPairData {
            from_token: TokenType::USDT,
            to_token: TokenType::USDC,
            swap_rate: 10_020,
            liquidity: 48_000_000,
        },
        TokenPairData {
            from_token: TokenType::USDT,
            to_token: TokenType::BUSD,
            swap_rate: 10_010,
            liquidity: 42_000_000,
        },
        TokenPairData {
            from_token: TokenType::USDC,
            to_token: TokenType::USDT,
            swap_rate: 9_980,
            liquidity: 47_500_000,
        },
        TokenPairData {
            from_token: TokenType::USDC,
            to_token: TokenType::BUSD,
            swap_rate: 10_015,
            liquidity: 38_000_000,
        },
        TokenPairData {
            from_token: TokenType::BUSD,
            to_token: TokenType::USDT,
            swap_rate: 10_008,
            liquidity: 43_500_000,
        },
        TokenPairData {
            from_token: TokenType::BUSD,
            to_token: TokenType::USDC,
            swap_rate: 9_995,
            liquidity: 37_500_000,
        },
    ]
}

/// The exact table the CowSwap book starts with.
pub open spec fn cowswap_quotes() -> Seq<TokenPairData> {
    seq![
        TokenPairData {
            from_token: TokenType::USDT,
            to_token: TokenType::USDC,
            swap_rate: 10_030,
            liquidity: 36_000_000,
        },
        TokenPairData {
            from_token: TokenType::USDT,
            to_token: TokenType::BUSD,
            swap_rate: 10_005,
            liquidity: 32_000_000,
        },
        TokenPairData {
            from_token: TokenType::USDC,
            to_token: TokenType::USDT,
            swap_rate: 9_970,
            liquidity: 34_500_000,
        },
        TokenPairData {
            from_token: TokenType::USDC,
            to_token: TokenType::BUSD,
            swap_rate: 10_013,
            liquidity: 30_000_000,
        },
        TokenPairData {
            from_token: TokenType::BUSD,
            to_token: TokenType::USDT,
            swap_rate: 10_009,
            liquidity: 33_000_000,
        },
        TokenPairData {
            from_token: TokenType::BUSD,
            to_token: TokenType::USDC,
            swap_rate: 9_997,
            liquidity: 29_000_000,
        },
    ]
}

/// The exact table the Matcha book starts with.
pub open spec fn matcha_quotes() -> Seq<TokenPairData> {
    seq![
        TokenPairData {
            from_token: TokenType::USDT,
            to_token: TokenType::USDC,
            swap_rate: 10_040,
            liquidity: 42_000_000,
        },
        TokenPairData {
            from_token: TokenType::USDT,
            to_token: TokenType::BUSD,
            swap_rate: 10_006,
            liquidity: 37_000_000,
        },
        TokenPairData {
            from_token: TokenType::USDC,
            to_token: TokenType::USDT,
            swap_rate: 9_960,
            liquidity: 40_000_000,
        },
        TokenPairData {
            from_token: TokenType::USDC,
            to_token: TokenType::BUSD,
            swap_rate: 10_011,
            liquidity: 35_000_000,
        },
        TokenPairData {
            from_token: TokenType::BUSD,
            to_token: TokenType::USDT,
            swap_rate: 10_010,
            liquidity: 38_000_000,
        },
        TokenPairData {
            from_token: TokenType::BUSD,
            to_token: TokenType::USDC,
            swap_rate: 9_995,
            liquidity: 36_500_000,
        },
    ]
}

/// The exact table the Sushi book starts with.
pub open spec fn sushi_quotes() -> Seq<TokenPairData> {
    seq![
        TokenPairData {
            from_token: TokenType::USDT,
            to_token: TokenType::USDC,
            swap_rate: 10_050,
            liquidity: 48_000_000,
        },
        TokenPairData {
            from_token: TokenType::USDT,
            to_token: TokenType::BUSD,
            swap_rate: 10_007,
            liquidity: 44_000_000,
        },
        TokenPairData {
            from_token: TokenType::USDC,
            to_token: TokenType::USDT,
            swap_rate: 9_950,
            liquidity: 46_000_000,
        },
        TokenPairData {
            from_token: TokenType::USDC,
            to_token: TokenType::BUSD,
            swap_rate: 10_010,
            liquidity: 43_000_000,
        },
        TokenPairData {
            from_token: TokenType::BUSD,
            to_token: TokenType::USDT,
            swap_rate: 10_015,
            liquidity: 45_000_000,
        },
        TokenPairData {
            from_token: TokenType::BUSD,
            to_token: TokenType::USDC,
            swap_rate: 9_998,
            liquidity: 42_500_000,
        },
    ]
}

/// The layout every mock book shares: six quotes, one per directed pair of
/// distinct tokens, in a fixed order.
spec fn standard_layout(pairs: Seq<TokenPairData>) -> bool {
    &&& pairs.len() == 6
    &&& pairs[0].is_pair(TokenType::USDT, TokenType::USDC)
    &&& pairs[1].is_pair(TokenType::USDT, TokenType::BUSD)
    &&& pairs[2].is_pair(TokenType::USDC, TokenType::USDT)
    &&& pairs[3].is_pair(TokenType::USDC, TokenType::BUSD)
    &&& pairs[4].is_pair(TokenType::BUSD, TokenType::USDT)
    &&& pairs[5].is_pair(TokenType::BUSD, TokenType::USDC)
}

/// The position the standard layout gives the directed pair (`from`, `to`).
spec fn dir_slot(from: TokenType, to: TokenType) -> int {
    match (from, to) {
        (TokenType::USDT, TokenType::USDC) => 0,
        (TokenType::USDT, TokenType::BUSD) => 1,
        (TokenType::USDC, TokenType::USDT) => 2,
        (TokenType::USDC, TokenType::BUSD) => 3,
        (TokenType::BUSD, TokenType::USDT) => 4,
        (TokenType::BUSD, TokenType::USDC) => 5,
        _ => -1,
    }
}

proof fn lemma_standard_layout_finds(pairs: Seq<TokenPairData>, from: TokenType, to: TokenType)
    requires
        standard_layout(pairs),
        from != to,
    ensures
        spec_find_pair_from(pairs, from, to, 0) == Some(pairs[dir_slot(from, to)]),
{
    reveal_with_fuel(spec_find_pair_from, 7);
}

/// A book in the standard layout is well formed as soon as each of its six
/// quotes is, holds one quote per directed pair, and lists them all.
proof fn lemma_standard_book(book: ExchangeData)
    requires
        standard_layout(book.token_pairs@),
        forall|i: int| 0 <= i < book.token_pairs@.len() ==> (#[trigger] book.token_pairs@[i]).wf(),
    ensures
        book.wf(),
        pairs_distinct(book.token_pairs@),
        forall|from: TokenType, to: TokenType|
            from != to ==> #[trigger] book.supports_pair(from, to),
{
    assert forall|from: TokenType, to: TokenType| from != to implies #[trigger] book.supports_pair(
        from,
        to,
    ) by {
        lemma_standard_layout_finds(book.token_pairs@, from, to);
    }
}

/// Appends one quote to a book under construction, keeping every quote well
/// formed.
fn push_pair(pairs: &mut Vec<TokenPairData>, from: TokenType, to: TokenType, rate: u64, liq: u64)
    requires
        rate > 0,
        liq > 0,
        liq * rate <= u64::MAX * RATE_SCALE,
        forall|i: int| 0 <= i < old(pairs)@.len() ==> (#[trigger] old(pairs)@[i]).wf(),
        forall|i: int| 0 <= i < old(pairs)@.len() ==> (#[trigger] old(pairs)@[i]).liquidity > 0,
    ensures
        final(pairs)@ == old(pairs)@.push(
            (TokenPairData { from_token: from, to_token: to, swap_rate: rate, liquidity: liq }),
        ),
        forall|i: int| 0 <= i < final(pairs)@.len() ==> (#[trigger] final(pairs)@[i]).wf(),
        forall|i: int| 0 <= i < final(pairs)@.len() ==> (#[trigger] final(pairs)@[i]).liquidity > 0,
{
    pairs.push(TokenPairData { from_token: from, to_token: to, swap_rate: rate, liquidity: liq });
}

impl ExchangeData {
    /// The fixed tables the simulator starts with: one book per source, all
    /// on the accepted network, each quoting every directed pair of distinct
    /// tokens exactly once, with the quotes pinned table by table. The rates
    /// and liquidity ceilings are mock data, not market prices.
    pub fn mock_swap_data() -> (r: Vec<ExchangeData>)
        ensures
            r@.len() == 5,
            forall|i: int| 0 <= i < r@.len() ==> (#[trigger] r@[i]).wf(),
            forall|i: int|
                0 <= i < r@.len() ==> (#[trigger] r@[i]).supported_network == Network::Ethereum,
            forall|i: int| 0 <= i < r@.len() ==> (#[trigger] r@[i]).token_pairs@.len() == 6,
            forall|i: int, j: int|
                0 <= i < r@.len() && 0 <= j < r@[i].token_pairs@.len() ==> (#[trigger] r@[i].token_pairs@[j]).liquidity
                    > 0,
            forall|i: int| 0 <= i < r@.len() ==> pairs_distinct((#[trigger] r@[i]).token_pairs@),
            forall|i: int, from: TokenType, to: TokenType|
                0 <= i < r@.len() && from != to ==> (#[trigger] r@[i].supports_pair(from, to)),
            r@[0].exchange_name == Exchange::Uniswap,
            r@[1].exchange_name == Exchange::Carbon,
            r@[2].exchange_name == Exchange::CowSwap,
            r@[3].exchange_name == Exchange::Matcha,
            r@[4].exchange_name == Exchange::Sushi,
            r@[0].token_pairs@ == uniswap_quotes(),
            r@[1].token_pairs@ == carbon_quotes(),
            r@[2].token_pairs@ == cowswap_quotes(),
            r@[3].token_pairs@ == matcha_quotes(),
            r@[4].token_pairs@ == sushi_quotes(),
    {
        let mut uniswap_pairs: Vec<TokenPairData> = Vec::new();
        push_pair(&mut uniswap_pairs, TokenType::USDT, TokenType::USDC, 10_010, 50_000_000);
        push_pair(&mut uniswap_pairs, TokenType::USDT, TokenType::BUSD, 10_005, 45_000_000);
        push_pair(&mut uniswap_pairs, TokenType::USDC, TokenType::USDT, 9_990, 49_000_000);
        push_pair(&mut uniswap_pairs, TokenType::USDC, TokenType::BUSD, 10_002, 40_000_000);
        push_pair(&mut uniswap_pairs, TokenType::BUSD, TokenType::USDT, 10_003, 44_000_000);
        push_pair(&mut uniswap_pairs, TokenType::BUSD, TokenType::USDC, 9_998, 39_000_000);
        let uniswap = ExchangeData {
            exchange_name: Exchange::Uniswap,
            supported_network: Network::Ethereum,
            token_pairs: uniswap_pairs,
        };
        proof {
            assert(uniswap.token_pairs@ =~= uniswap_quotes());
            lemma_standard_book(uniswap);
        }

        let mut carbon_pairs: Vec<TokenPairData> = Vec::new();
        push_pair(&mut carbon_pairs, TokenType::USDT, TokenType::USDC, 10_020, 48_000_000);
        push_pair(&mut carbon_pairs, TokenType::USDT, TokenType::BUSD, 10_010, 42_000_000);
        push_pair(&mut carbon_pairs, TokenType::USDC, TokenType::USDT, 9_980, 47_500_000);
        push_pair(&mut carbon_pairs, TokenType::USDC, TokenType::BUSD, 10_015, 38_000_000);
        push_pair(&mut carbon_pairs, TokenType::BUSD, TokenType::USDT, 10_008, 43_500_000);
        push_pair(&mut carbon_pairs, TokenType::BUSD, TokenType::USDC, 9_995, 37_500_000);
        let carbon = ExchangeData {
            exchange_name: Exchange::Carbon,
            supported_network: Network::Ethereum,
            token_pairs: carbon_pairs,
        };
        proof {
            assert(carbon.token_pairs@ =~= carbon_quotes());
            lemma_standard_book(carbon);
        }

        let mut cowswap_pairs: Vec<TokenPairData> = Vec::new();
        push_pair(&mut cowswap_pairs, TokenType::USDT, TokenType::USDC, 10_030, 36_000_000);
        push_pair(&mut cowswap_pairs, TokenType::USDT, TokenType::BUSD, 10_005, 32_000_000);
        push_pair(&mut cowswap_pairs, TokenType::USDC, TokenType::USDT, 9_970, 34_500_000);
        push_pair(&mut cowswap_pairs, TokenType::USDC, TokenType::BUSD, 10_013, 30_000_000);
        push_pair(&mut cowswap_pairs, TokenType::BUSD, TokenType::USDT, 10_009, 33_000_000);
        push_pair(&mut cowswap_pairs, TokenType::BUSD, TokenType::USDC, 9_997, 29_000_000);
        let cowswap = ExchangeData {
            exchange_name: Exchange::CowSwap,
            supported_network: Network::Ethereum,
            token_pairs: cowswap_pairs,
        };
        proof {
            assert(cowswap.token_pairs@ =~= cowswap_quotes());
            lemma_standard_book(cowswap);
        }

        let mut matcha_pairs: Vec<TokenPairData> = Vec::new();
        push_pair(&mut matcha_pairs, TokenType::USDT, TokenType::USDC, 10_040, 42_000_000);
        push_pair(&mut matcha_pairs, TokenType::USDT, TokenType::BUSD, 10_006, 37_000_000);
        push_pair(&mut matcha_pairs, TokenType::USDC, TokenType::USDT, 9_960, 40_000_000);
        push_pair(&mut matcha_pairs, TokenType::USDC, TokenType::BUSD, 10_011, 35_000_000);
        push_pair(&mut matcha_pairs, TokenType::BUSD, TokenType::USDT, 10_010, 38_000_000);
        push_pair(&mut matcha_pairs, TokenType::BUSD, TokenType::USDC, 9_995, 36_500_000);
        let matcha = ExchangeData {
            exchange_name: Exchange::Matcha,
            supported_network: Network::Ethereum,
            token_pairs: matcha_pairs,
        };
        proof {
            assert(matcha.token_pairs@ =~= matcha_quotes());
            lemma_standard_book(matcha);
        }

        let mut sushi_pairs: Vec<TokenPairData> = Vec::new();
        push_pair(&mut sushi_pairs, TokenType::USDT, TokenType::USDC, 10_050, 48_000_000);
        push_pair(&mut sushi_pairs, TokenType::USDT, TokenType::BUSD, 10_007, 44_000_000);
        push_pair(&mut sushi_pairs, TokenType::USDC, TokenType::USDT, 9_950, 46_000_000);
        push_pair(&mut sushi_pairs, TokenType::USDC, TokenType::BUSD, 10_010, 43_000_000);
        push_pair(&mut sushi_pairs, TokenType::BUSD, TokenType::USDT, 10_015, 45_000_000);
        push_pair(&mut sushi_pairs, TokenType::BUSD, TokenType::USDC, 9_998, 42_500_000);
        let sushi = ExchangeData {
            exchange_name: Exchange::Sushi,
            supported_network: Network::Ethereum,
            token_pairs: sushi_pairs,
        };
        proof {
            assert(sushi.token_pairs@ =~= sushi_quotes());
            lemma_standard_book(sushi);
        }

        let mut books: Vec<ExchangeData> = Vec::new();
        books.push(uniswap);
        books.push(carbon);
        books.push(cowswap);
        books.push(matcha);
        books.push(sushi);
        books
    }
}

} // verus!
