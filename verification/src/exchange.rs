//! Liquidity sources: per-source books of directed pair quotes and the
//! single-source quoting logic.

use vstd::prelude::*;
use vstd::arithmetic::div_mod::{lemma_div_is_ordered, lemma_div_multiples_vanish};
use vstd::arithmetic::mul::{lemma_mul_inequality, lemma_mul_upper_bound};
use crate::errors::SwapError;
use crate::tokens::{Network, TokenType, RATE_SCALE};

verus! {

/// The liquidity sources the simulator queries.
#[derive(Debug, Clone, Copy, PartialEq, Eq, Structural)]
pub enum Exchange {
    Uniswap,
    Carbon,
    CowSwap,
    Matcha,
    Sushi,
}

/// One directed pair quote within a book: swapping `from_token` for
/// `to_token` pays `swap_rate / RATE_SCALE` units per unit swapped, for
/// request amounts up to `liquidity`.
#[derive(Debug, Clone, Copy, PartialEq, Eq, Structural)]
pub struct TokenPairData {
    pub from_token: TokenType,
    pub to_token: TokenType,
    /// Units of `to_token` paid per unit of `from_token`, scaled by `RATE_SCALE`.
    pub swap_rate: u64,
    /// Ceiling on the request amount this quote can satisfy, in base units.
    pub liquidity: u64,
}

impl TokenPairData {
    /// The rate is positive, and the payout of any admissible request
    /// (`amount <= liquidity`) fits in a `u64`.
    pub open spec fn wf(self) -> bool {
        &&& self.swap_rate > 0
        &&& self.liquidity * self.swap_rate <= u64::MAX * RATE_SCALE
    }

    /// Whether this quote is for the directed pair (`from`, `to`).
    pub open spec fn is_pair(self, from: TokenType, to: TokenType) -> bool {
        self.from_token == from && self.to_token == to
    }
}

/// What a request of `amount` pays at rate `rate`: fixed-point
/// multiplication, with the fractional part dropped.
pub open spec fn spec_received(amount: u64, rate: u64) -> int {
    (amount * rate) / (RATE_SCALE as int)
}

/// A better rate never pays less: for one request amount the payout is
/// monotone in the swap rate. The fixed-point floor can level two distinct
/// rates (at amount 1, rates of 10_020 and 10_010 both pay 1), so a strictly
/// better rate guarantees a strictly better payout only when the gap
/// survives the floor.
pub proof fn lemma_received_monotone_in_rate(amount: u64, lower: u64, higher: u64)
    requires
        lower <= higher,
    ensures
        spec_received(amount, lower) <= spec_received(amount, higher),
{
    lemma_mul_inequality(lower as int, higher as int, amount as int);
    lemma_div_is_ordered(
        amount as int * lower as int,
        amount as int * higher as int,
        RATE_SCALE as int,
    );
}

/// The first quote for (`from`, `to`) in `pairs` at or after position `i`.
pub open spec fn spec_find_pair_from(
    pairs: Seq<TokenPairData>,
    from: TokenType,
    to: TokenType,
    i: int,
) -> Option<TokenPairData>
    decreases pairs.len() - i,
{
    if i < 0 || i >= pairs.len() {
        None
    } else if pairs[i].is_pair(from, to) {
        Some(pairs[i])
    } else {
        spec_find_pair_from(pairs, from, to, i + 1)
    }
}

/// Whether `pairs` holds at most one quote per directed pair.
pub open spec fn pairs_distinct(pairs: Seq<TokenPairData>) -> bool {
    forall|i: int, j: int|
        0 <= i < j < pairs.len() ==> !(#[trigger] pairs[i]).is_pair(
            pairs[j].from_token,
            (#[trigger] pairs[j]).to_token,
        )
}

/// One liquidity source: its identity, the network it operates on, and its
/// book of directed pair quotes.
#[derive(Debug)]
pub struct ExchangeData {
    pub exchange_name: Exchange,
    pub supported_network: Network,
    pub token_pairs: Vec<TokenPairData>,
}

impl ExchangeData {
    /// Every quote in the book is well formed.
    pub open spec fn wf(self) -> bool {
        forall|i: int| 0 <= i < self.token_pairs@.len() ==> (#[trigger] self.token_pairs@[i]).wf()
    }

    /// The quote this book holds for (`from`, `to`): the first match, which
    /// is the only one when the book holds distinct pairs.
    pub open spec fn spec_pair(self, from: TokenType, to: TokenType) -> Option<TokenPairData> {
        spec_find_pair_from(self.token_pairs@, from, to, 0)
    }

    /// Whether this book lists the directed pair at all.
    pub open spec fn supports_pair(self, from: TokenType, to: TokenType) -> bool {
        self.spec_pair(from, to) is Some
    }

    /// Whether this book can satisfy a request of `amount` for the pair:
    /// the pair is listed and its liquidity ceiling is not exceeded.
    pub open spec fn admits(self, from: TokenType, to: TokenType, amount: u64) -> bool {
        match self.spec_pair(from, to) {
            Some(p) => p.liquidity >= amount,
            None => false,
        }
    }

    /// What a request of `amount` for the pair pays on this book.
    pub open spec fn spec_payout(self, from: TokenType, to: TokenType, amount: u64) -> int
        recommends
            self.admits(from, to, amount),
    {
        spec_received(amount, self.spec_pair(from, to)->Some_0.swap_rate)
    }

    /// Builds a book, enforcing the book invariant: every quote well formed
    /// and at most one quote per directed pair. A violating table is
    /// rejected rather than resolved by first match.
    pub fn new(
        exchange_name: Exchange,
        supported_network: Network,
        token_pairs: Vec<TokenPairData>,
    ) -> (r: Option<ExchangeData>)
        ensures
            r is Some <==> ((forall|i: int|
                0 <= i < token_pairs@.len() ==> (#[trigger] token_pairs@[i]).wf())
                && pairs_distinct(token_pairs@)),
            r matches Some(b) ==> b.exchange_name == exchange_name && b.supported_network
                == supported_network && b.token_pairs@ == token_pairs@,
    {
        let n = token_pairs.len();
        let mut i: usize = 0;
        while i < n
            invariant
                n == token_pairs@.len(),
                i <= n,
                forall|k: int| 0 <= k < i ==> (#[trigger] token_pairs@[k]).wf(),
            decreases n - i,
        {
            let p = token_pairs[i];
            proof {
                lemma_mul_upper_bound(
                    p.liquidity as int,
                    u64::MAX as int,
                    p.swap_rate as int,
                    u64::MAX as int,
                );
            }
            if !(p.swap_rate > 0 && (p.liquidity as u128) * (p.swap_rate as u128) <= (u64::MAX
                as u128) * (RATE_SCALE as u128)) {
                return None;
            }
            i += 1;
        }

        let mut j: usize = 1;
        while j < n
            invariant
                n == token_pairs@.len(),
                1 <= j || n == 0,
                j <= n || (n == 0 && j == 1),
                forall|a: int, b: int|
                    0 <= a < b < j ==> !(#[trigger] token_pairs@[a]).is_pair(
                        token_pairs@[b].from_token,
                        (#[trigger] token_pairs@[b]).to_token,
                    ),
            decreases n - j,
        {
            let pj = token_pairs[j];
            let mut i2: usize = 0;
            while i2 < j
                invariant
                    n == token_pairs@.len(),
                    j < n,
                    i2 <= j,
                    forall|a: int|
                        0 <= a < i2 ==> !(#[trigger] token_pairs@[a]).is_pair(
                            pj.from_token,
                            pj.to_token,
                        ),
                    pj == token_pairs@[j as int],
                decreases j - i2,
            {
                let pi = token_pairs[i2];
                if pi.from_token == pj.from_token && pi.to_token == pj.to_token {
                    return None;
                }
                i2 += 1;
            }
            j += 1;
        }

        Some(ExchangeData { exchange_name, supported_network, token_pairs })
    }

    /// Reports whether this book lists the directed pair (`from`, `to`).
    pub fn check_token_pair(&self, from: TokenType, to: TokenType) -> (r: Result<bool, SwapError>)
        ensures
            self.supports_pair(from, to) ==> r == Ok::<bool, SwapError>(true),
            !self.supports_pair(from, to) ==> r == Err::<bool, SwapError>(
                SwapError::PairNotSupported,
            ),
    {
        let n = self.token_pairs.len();
        let mut i: usize = 0;
        while i < n
            invariant
                n == self.token_pairs@.len(),
                i <= n,
                self.spec_pair(from, to) == spec_find_pair_from(
                    self.token_pairs@,
                    from,
                    to,
                    i as int,
                ),
            decreases n - i,
        {
            let p = self.token_pairs[i];
            if p.from_token == from && p.to_token == to {
                return Ok(true);
            }
            i += 1;
        }
        Err(SwapError::PairNotSupported)
    }

    /// Quotes a request of `amount` on this book alone: the payout at the
    /// book's rate when the pair is listed and its liquidity suffices, and a
    /// classified failure otherwise. The book is not mutated: liquidity is a
    /// capacity ceiling, not a depleting pool.
    pub fn simulate_swap(&self, from: TokenType, to: TokenType, amount: u64) -> (r: Result<
        u64,
        SwapError,
    >)
        requires
            self.wf(),
        ensures
            !self.supports_pair(from, to) ==> r == Err::<u64, SwapError>(
                SwapError::PairNotSupported,
            ),
            (self.supports_pair(from, to) && !self.admits(from, to, amount)) ==> r == Err::<
                u64,
                SwapError,
            >(SwapError::InsufficientLiquidity),
            self.admits(from, to, amount) ==> (r matches Ok(v) && v == self.spec_payout(
                from,
                to,
                amount,
            )),
    {
        match self.check_token_pair(from, to) {
            Ok(_) => (),
            Err(e) => {
                return Err(e);
            },
        }

        let n = self.token_pairs.len();
        let mut i: usize = 0;
        while i < n
            invariant
                n == self.token_pairs@.len(),
                i <= n,
                self.wf(),
                self.spec_pair(from, to) == spec_find_pair_from(
                    self.token_pairs@,
                    from,
                    to,
                    i as int,
                ),
            decreases n - i,
        {
            let p = self.token_pairs[i];
            if p.from_token == from && p.to_token == to {
                if p.liquidity >= amount {
                    proof {
                        lemma_payout_fits(amount, p);
                    }
                    let prod: u128 = (amount as u128) * (p.swap_rate as u128);
                    let received: u64 = (prod / (RATE_SCALE as u128)) as u64;
                    return Ok(received);
                } else {
                    return Err(SwapError::InsufficientLiquidity);
                }
            }
            i += 1;
        }

        Err(SwapError::PairNotSupported)
    }
}

/// An admissible request's payout never exceeds `u64::MAX`: the quote's
/// well-formedness bounds `liquidity * swap_rate`, and the request amount is
/// at most the liquidity.
proof fn lemma_payout_fits(amount: u64, p: TokenPairData)
    requires
        p.wf(),
        amount <= p.liquidity,
    ensures
        0 <= spec_received(amount, p.swap_rate) <= u64::MAX,
{
    lemma_mul_inequality(amount as int, p.liquidity as int, p.swap_rate as int);
    lemma_div_is_ordered(
        amount as int * p.swap_rate as int,
        p.liquidity as int * p.swap_rate as int,
        RATE_SCALE as int,
    );
    lemma_div_is_ordered(
        p.liquidity as int * p.swap_rate as int,
        u64::MAX as int * RATE_SCALE as int,
        RATE_SCALE as int,
    );
    lemma_div_multiples_vanish(u64::MAX as int, RATE_SCALE as int);
}

} // verus!
