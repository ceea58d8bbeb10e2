//! Quote aggregation: consult every liquidity source for a directed pair and
//! keep the best admissible quote.

use vstd::prelude::*;
use crate::errors::SwapError;
use crate::exchange::{Exchange, ExchangeData};
use crate::tokens::TokenType;

verus! {

/// Placeholder slippage estimate attached to every successful quote, in
/// hundredths of a percent (100 = 1%). It is a fixed constant, not derived
/// from market depth.
pub const SLIPPAGE_BPS: u64 = 100;

/// The outcome of a successful swap: which source was chosen, what it pays,
/// and the fixed slippage placeholder.
#[derive(Debug, Clone, Copy, PartialEq, Eq, Structural)]
pub struct SwapResult {
    pub exchange_name: Exchange,
    /// Units of the destination token paid out.
    pub received_amount: u64,
    /// Fixed slippage estimate, in hundredths of a percent.
    pub slippage_bps: u64,
}

/// The index of the best admissible book, scanning `books` from position `i`
/// with `best` the best index seen so far. A later book replaces the current
/// best only when its payout is strictly greater, so among equal payouts the
/// earliest book wins.
pub open spec fn spec_best_index_from(
    books: Seq<ExchangeData>,
    from: TokenType,
    to: TokenType,
    amount: u64,
    i: int,
    best: Option<int>,
) -> Option<int>
    decreases books.len() - i,
{
    if i < 0 || i >= books.len() {
        best
    } else {
        let better = books[i].admits(from, to, amount) && (match best {
            None => true,
            Some(b) => books[i].spec_payout(from, to, amount) > books[b].spec_payout(
                from,
                to,
                amount,
            ),
        });
        spec_best_index_from(
            books,
            from,
            to,
            amount,
            i + 1,
            if better {
                Some(i)
            } else {
                best
            },
        )
    }
}

/// The index of the book the aggregator selects for the request, or `None`
/// when no book admits it.
pub open spec fn spec_best_index(
    books: Seq<ExchangeData>,
    from: TokenType,
    to: TokenType,
    amount: u64,
) -> Option<int> {
    spec_best_index_from(books, from, to, amount, 0, None)
}

/// What `best` must satisfy after the first `n` books were scanned: `None`
/// only when none of them admits the request; otherwise the earliest index
/// whose payout no scanned book beats.
pub open spec fn is_best_of_prefix(
    books: Seq<ExchangeData>,
    from: TokenType,
    to: TokenType,
    amount: u64,
    n: int,
    best: Option<int>,
) -> bool {
    match best {
        None => forall|j: int| 0 <= j < n ==> !(#[trigger] books[j]).admits(from, to, amount),
        Some(b) => {
            &&& 0 <= b < n <= books.len()
            &&& books[b].admits(from, to, amount)
            &&& forall|j: int|
                0 <= j < n && (#[trigger] books[j]).admits(from, to, amount) ==> books[j].spec_payout(
                    from,
                    to,
                    amount,
                ) <= books[b].spec_payout(from, to, amount)
            &&& forall|j: int|
                0 <= j < b && (#[trigger] books[j]).admits(from, to, amount) ==> books[j].spec_payout(
                    from,
                    to,
                    amount,
                ) < books[b].spec_payout(from, to, amount)
        },
    }
}

proof fn lemma_best_index_from_characterizes(
    books: Seq<ExchangeData>,
    from: TokenType,
    to: TokenType,
    amount: u64,
    i: int,
    best: Option<int>,
)
    requires
        0 <= i <= books.len(),
        is_best_of_prefix(books, from, to, amount, i, best),
    ensures
        is_best_of_prefix(
            books,
            from,
            to,
            amount,
            books.len() as int,
            spec_best_index_from(books, from, to, amount, i, best),
        ),
    decreases books.len() - i,
{
    if i < books.len() {
        let better = books[i].admits(from, to, amount) && (match best {
            None => true,
            Some(b) => books[i].spec_payout(from, to, amount) > books[b].spec_payout(
                from,
                to,
                amount,
            ),
        });
        let next = if better {
            Some(i)
        } else {
            best
        };
        assert(is_best_of_prefix(books, from, to, amount, i + 1, next));
        lemma_best_index_from_characterizes(books, from, to, amount, i + 1, next);
    }
}

/// The aggregator's selection is sound and complete: it returns no index
/// exactly when no book admits the request, and otherwise it returns the
/// index of an admissible book whose payout no other admissible book
/// exceeds, and that no earlier admissible book matches — ties go to the
/// book encountered first.
pub proof fn lemma_best_index_characterizes(
    books: Seq<ExchangeData>,
    from: TokenType,
    to: TokenType,
    amount: u64,
)
    ensures
        is_best_of_prefix(
            books,
            from,
            to,
            amount,
            books.len() as int,
            spec_best_index(books, from, to, amount),
        ),
{
    lemma_best_index_from_characterizes(books, from, to, amount, 0, None);
}

/// Best-price selection: an admissible book whose payout is strictly greater
/// than the payout of every other admissible book is the one selected.
pub proof fn lemma_best_price_selected(
    books: Seq<ExchangeData>,
    from: TokenType,
    to: TokenType,
    amount: u64,
    w: int,
)
    requires
        0 <= w < books.len(),
        books[w].admits(from, to, amount),
        forall|j: int|
            0 <= j < books.len() && j != w && (#[trigger] books[j]).admits(from, to, amount)
                ==> books[j].spec_payout(from, to, amount) < books[w].spec_payout(from, to, amount),
    ensures
        spec_best_index(books, from, to, amount) == Some(w),
{
    lemma_best_index_characterizes(books, from, to, amount);
    let r = spec_best_index(books, from, to, amount);
    assert(r is Some);
    let b = r->Some_0;
    if b != w {
        assert(books[w].spec_payout(from, to, amount) <= books[b].spec_payout(from, to, amount));
    }
}

/// Liquidity exclusion: a book whose liquidity is below the requested amount
/// is never the one selected, whatever its rate.
pub proof fn lemma_inadmissible_never_selected(
    books: Seq<ExchangeData>,
    from: TokenType,
    to: TokenType,
    amount: u64,
    w: int,
)
    requires
        0 <= w < books.len(),
        !books[w].admits(from, to, amount),
    ensures
        spec_best_index(books, from, to, amount) != Some(w),
{
    lemma_best_index_characterizes(books, from, to, amount);
}

/// Unsupported pair: when no book lists the directed pair, the aggregator
/// selects nothing, for any requested amount.
pub proof fn lemma_unlisted_pair_never_quoted(
    books: Seq<ExchangeData>,
    from: TokenType,
    to: TokenType,
    amount: u64,
)
    requires
        forall|j: int| 0 <= j < books.len() ==> !(#[trigger] books[j]).supports_pair(from, to),
    ensures
        spec_best_index(books, from, to, amount) is None,
{
    lemma_best_index_characterizes(books, from, to, amount);
    let r = spec_best_index(books, from, to, amount);
    if r is Some {
        let b = r->Some_0;
        assert(books[b].admits(from, to, amount));
        assert(books[b].supports_pair(from, to));
    }
}

/// Tie-break determinism: of two admissible books with equal payouts, the
/// one encountered earlier is selected over the later one.
pub proof fn lemma_tie_goes_to_first(
    books: Seq<ExchangeData>,
    from: TokenType,
    to: TokenType,
    amount: u64,
    j: int,
    k: int,
)
    requires
        0 <= j < k < books.len(),
        books[j].admits(from, to, amount),
        books[k].admits(from, to, amount),
        books[j].spec_payout(from, to, amount) == books[k].spec_payout(from, to, amount),
    ensures
        spec_best_index(books, from, to, amount) != Some(k),
{
    lemma_best_index_characterizes(books, from, to, amount);
}

/// Queries every book for the directed pair and returns the best admissible
/// quote: the strictly greatest payout wins, ties go to the earliest book,
/// and per-book failures are absorbed. Fails with `PairNotSupported` when no
/// book admits the request — by design this does not distinguish a pair
/// listed nowhere from one whose liquidity is short everywhere.
pub fn best_quote(
    exchanges: &Vec<ExchangeData>,
    from: TokenType,
    to: TokenType,
    amount: u64,
) -> (r: Result<SwapResult, SwapError>)
    requires
        forall|i: int| 0 <= i < exchanges@.len() ==> (#[trigger] exchanges@[i]).wf(),
    ensures
        match spec_best_index(exchanges@, from, to, amount) {
            Some(b) => r matches Ok(res) && res.exchange_name == exchanges@[b].exchange_name
                && res.received_amount == exchanges@[b].spec_payout(from, to, amount)
                && res.slippage_bps == SLIPPAGE_BPS,
            None => r == Err::<SwapResult, SwapError>(SwapError::PairNotSupported),
        },
{
    let n = exchanges.len();
    let mut best: Option<SwapResult> = None;
    let ghost mut best_idx: Option<int> = None;

    let mut i: usize = 0;
    while i < n
        invariant
            n == exchanges@.len(),
            i <= n,
            forall|k: int| 0 <= k < exchanges@.len() ==> (#[trigger] exchanges@[k]).wf(),
            spec_best_index(exchanges@, from, to, amount) == spec_best_index_from(
                exchanges@,
                from,
                to,
                amount,
                i as int,
                best_idx,
            ),
            match best_idx {
                None => best is None && (forall|j: int|
                    0 <= j < i ==> !(#[trigger] exchanges@[j]).admits(from, to, amount)),
                Some(b) => 0 <= b < i && exchanges@[b].admits(from, to, amount) && (
                best matches Some(res) && res.exchange_name == exchanges@[b].exchange_name
                    && res.received_amount == exchanges@[b].spec_payout(from, to, amount)
                    && res.slippage_bps == SLIPPAGE_BPS),
            },
        decreases n - i,
    {
        let book = &exchanges[i];
        match book.simulate_swap(from, to, amount) {
            Ok(received_amount) => {
                let replace = match &best {
                    None => true,
                    Some(cur) => received_amount > cur.received_amount,
                };
                if replace {
                    best = Some(
                        SwapResult {
                            exchange_name: book.exchange_name,
                            received_amount,
                            slippage_bps: SLIPPAGE_BPS,
                        },
                    );
                    proof {
                        best_idx = Some(i as int);
                    }
                }
            },
            Err(_) => {},
        }
        i += 1;
    }

    match best {
        Some(res) => Ok(res),
        None => Err(SwapError::PairNotSupported),
    }
}

} // verus!
