//! The swap executor: validate the user, precheck the balance, aggregate
//! quotes, and commit the balance mutation only on success.

use vstd::prelude::*;
use crate::aggregator::{best_quote, spec_best_index, SwapResult, SLIPPAGE_BPS};
use crate::database::UserDatabase;
use crate::errors::SwapError;
use crate::exchange::ExchangeData;
use crate::tokens::TokenType;
use crate::user::User;

verus! {

/// One swap request: who swaps, which directed pair, and how much of the
/// source token. The engine expects the two tokens to differ; a request for
/// the same token on both sides is rejected upstream.
pub struct Swap {
    pub user_wallet_address: String,
    pub from_token: TokenType,
    pub to_token: TokenType,
    /// Amount of the source token to swap, in base units.
    pub amount: u64,
}

/// The user `u` after committing a swap of `amount` source tokens for `recv`
/// destination tokens: the source balance falls by exactly `amount`, the
/// destination balance rises by exactly `recv`, and nothing else changes.
pub open spec fn spec_committed_user(u: User, from: TokenType, to: TokenType, amount: u64, recv: int) -> User {
    User {
        balances: u.balances.spec_set(
            from,
            (u.spec_balance(from) - amount) as u64,
        ).spec_set(to, (u.spec_balance(to) + recv) as u64),
        ..u
    }
}

/// Executes one swap request against the configured books.
///
/// The steps, in a fixed order: resolve the user (`UserNotFound` when the
/// wallet address is absent); check the balance of the source token against
/// the requested amount (`InsufficientBalance`, before any book is
/// consulted); aggregate quotes across every book; on success debit the
/// source token and credit the destination token as one atomic pair; on any
/// failure propagate it unchanged and mutate no ledger.
///
/// The bound on the credited balance in the `requires` is a machine limit,
/// not a policy.
pub fn perform_swap(
    swap: &Swap,
    exchanges: &Vec<ExchangeData>,
    user_db: &mut UserDatabase,
) -> (r: Result<SwapResult, SwapError>)
    requires
        forall|i: int| 0 <= i < exchanges@.len() ==> (#[trigger] exchanges@[i]).wf(),
        swap.from_token != swap.to_token,
        (old(user_db).spec_contains(swap.user_wallet_address@) && old(user_db).spec_user(
            swap.user_wallet_address@,
        ).spec_balance(swap.from_token) >= swap.amount) ==> match spec_best_index(
            exchanges@,
            swap.from_token,
            swap.to_token,
            swap.amount,
        ) {
            Some(b) => old(user_db).spec_user(swap.user_wallet_address@).spec_balance(
                swap.to_token,
            ) + exchanges@[b].spec_payout(swap.from_token, swap.to_token, swap.amount)
                <= u64::MAX,
            None => true,
        },
    ensures
        !old(user_db).spec_contains(swap.user_wallet_address@) ==> r == Err::<
            SwapResult,
            SwapError,
        >(SwapError::UserNotFound) && *final(user_db) == *old(user_db),
        (old(user_db).spec_contains(swap.user_wallet_address@) && old(user_db).spec_user(
            swap.user_wallet_address@,
        ).spec_balance(swap.from_token) < swap.amount) ==> r == Err::<SwapResult, SwapError>(
            SwapError::InsufficientBalance,
        ) && *final(user_db) == *old(user_db),
        (old(user_db).spec_contains(swap.user_wallet_address@) && old(user_db).spec_user(
            swap.user_wallet_address@,
        ).spec_balance(swap.from_token) >= swap.amount) ==> match spec_best_index(
            exchanges@,
            swap.from_token,
            swap.to_token,
            swap.amount,
        ) {
            None => r == Err::<SwapResult, SwapError>(SwapError::PairNotSupported)
                && *final(user_db) == *old(user_db),
            Some(b) => r matches Ok(res) && res.exchange_name == exchanges@[b].exchange_name
                && res.received_amount == exchanges@[b].spec_payout(
                swap.from_token,
                swap.to_token,
                swap.amount,
            ) && res.slippage_bps == SLIPPAGE_BPS && final(user_db).users@
                == old(user_db).users@.update(
                old(user_db).spec_index_of(swap.user_wallet_address@),
                spec_committed_user(
                    old(user_db).spec_user(swap.user_wallet_address@),
                    swap.from_token,
                    swap.to_token,
                    swap.amount,
                    exchanges@[b].spec_payout(swap.from_token, swap.to_token, swap.amount),
                ),
            ),
        },
{
    // 1. Resolve the user by wallet address.
    let idx = match user_db.find_user_index(swap.user_wallet_address.as_str()) {
        Some(i) => i,
        None => {
            return Err(SwapError::UserNotFound);
        },
    };

    // 2. Precheck the balance of the source token against the request
    // amount, before any book is consulted.
    if !user_db.users[idx].has_sufficient_balance(swap.from_token, swap.amount) {
        return Err(SwapError::InsufficientBalance);
    }

    // 3. Aggregate quotes across every book.
    let result = match best_quote(exchanges, swap.from_token, swap.to_token, swap.amount) {
        Ok(res) => res,
        Err(e) => {
            return Err(e);
        },
    };

    // 4. Commit: debit the source token, credit the destination token. The
    // debit was proven sufficient in step 2, so the pair is atomic from the
    // caller's point of view.
    let user = &mut user_db.users[idx];
    match user.deduct_balance(swap.from_token, swap.amount) {
        Ok(()) => {},
        Err(e) => {
            return Err(e);
        },
    }
    user.add_balance(swap.to_token, result.received_amount);

    Ok(result)
}

} // verus!
