//! Users and their per-token balance ledgers.

use vstd::prelude::*;
use crate::errors::SwapError;
use crate::tokens::{Network, TokenType};

verus! {

/// Relied on for `User::new`'s starting balances: `rand::random` draws a
/// value from the thread-local generator. Nothing is promised of the value.
pub assume_specification<T>[ rand::random::<T> ]() -> (r: T)
    where
        rand::distributions::Standard: rand::distributions::Distribution<T>,
;

/// A user's ledger: one balance per token, in base units. A token never
/// credited simply holds zero.
#[derive(Debug, Clone, Copy, PartialEq, Eq, Structural)]
pub struct Balances {
    pub usdc: u64,
    pub usdt: u64,
    pub busd: u64,
}

impl Balances {
    /// The stored balance of `token`.
    pub open spec fn spec_get(self, token: TokenType) -> u64 {
        match token {
            TokenType::USDC => self.usdc,
            TokenType::USDT => self.usdt,
            TokenType::BUSD => self.busd,
        }
    }

    /// This ledger with the balance of `token` replaced by `value`.
    pub open spec fn spec_set(self, token: TokenType, value: u64) -> Balances {
        match token {
            TokenType::USDC => Balances { usdc: value, ..self },
            TokenType::USDT => Balances { usdt: value, ..self },
            TokenType::BUSD => Balances { busd: value, ..self },
        }
    }
}

/// A user: a unique wallet address, the network declared at onboarding, and
/// a balance ledger.
#[derive(Debug, Clone)]
pub struct User {
    pub network: Network,
    pub wallet_address: String,
    pub balances: Balances,
}

/// Upper bound (exclusive) on each starting balance `User::new` assigns.
pub const STARTING_BALANCE_CAP: u64 = 10_000;

impl User {
    /// The user's balance of `token`, in base units.
    pub open spec fn spec_balance(self, token: TokenType) -> u64 {
        self.balances.spec_get(token)
    }

    /// Creates a user with a randomly drawn starting balance below
    /// `STARTING_BALANCE_CAP` for each token.
    pub fn new(network: Network, wallet_address: String) -> (r: User)
        ensures
            r.network == network,
            r.wallet_address == wallet_address,
            forall|t: TokenType| r.spec_balance(t) < STARTING_BALANCE_CAP,
    {
        let usdc = rand::random::<u64>() % STARTING_BALANCE_CAP;
        let usdt = rand::random::<u64>() % STARTING_BALANCE_CAP;
        let busd = rand::random::<u64>() % STARTING_BALANCE_CAP;
        let r = User { network, wallet_address, balances: Balances { usdc, usdt, busd } };
        assert forall|t: TokenType| r.spec_balance(t) < STARTING_BALANCE_CAP by {
            match t {
                TokenType::USDC => {},
                TokenType::USDT => {},
                TokenType::BUSD => {},
            }
        }
        r
    }

    /// Creates a user with the given ledger.
    pub fn with_balances(network: Network, wallet_address: String, balances: Balances) -> (r: User)
        ensures
            r.network == network,
            r.wallet_address == wallet_address,
            r.balances == balances,
    {
        User { network, wallet_address, balances }
    }

    /// Returns the user's balance of `token`.
    pub fn balance_of(&self, token: TokenType) -> (r: u64)
        ensures
            r == self.spec_balance(token),
    {
        match token {
            TokenType::USDC => self.balances.usdc,
            TokenType::USDT => self.balances.usdt,
            TokenType::BUSD => self.balances.busd,
        }
    }

    /// Whether the stored balance of `token` covers `amount`.
    pub fn has_sufficient_balance(&self, token: TokenType, amount: u64) -> (r: bool)
        ensures
            r == (self.spec_balance(token) >= amount),
    {
        self.balance_of(token) >= amount
    }

    /// Debits `amount` of `token`: fails with `InsufficientBalance`, mutating
    /// nothing, when the stored balance is short; otherwise reduces the
    /// balance by exactly `amount`.
    pub fn deduct_balance(&mut self, token: TokenType, amount: u64) -> (r: Result<(), SwapError>)
        ensures
            old(self).spec_balance(token) >= amount ==> r == Ok::<(), SwapError>(()) && *final(self)
                == (User {
                balances: old(self).balances.spec_set(
                    token,
                    (old(self).spec_balance(token) - amount) as u64,
                ),
                ..*old(self)
            }),
            old(self).spec_balance(token) < amount ==> r == Err::<(), SwapError>(
                SwapError::InsufficientBalance,
            ) && *final(self) == *old(self),
    {
        if !self.has_sufficient_balance(token, amount) {
            return Err(SwapError::InsufficientBalance);
        }
        match token {
            TokenType::USDC => {
                self.balances.usdc = self.balances.usdc - amount;
            },
            TokenType::USDT => {
                self.balances.usdt = self.balances.usdt - amount;
            },
            TokenType::BUSD => {
                self.balances.busd = self.balances.busd - amount;
            },
        }
        Ok(())
    }

    /// Credits `amount` of `token`, increasing the stored balance by exactly
    /// `amount`. The bound on the sum is a machine limit, not a policy.
    pub fn add_balance(&mut self, token: TokenType, amount: u64)
        requires
            old(self).spec_balance(token) + amount <= u64::MAX,
        ensures
            *final(self) == (User {
                balances: old(self).balances.spec_set(
                    token,
                    (old(self).spec_balance(token) + amount) as u64,
                ),
                ..*old(self)
            }),
    {
        match token {
            TokenType::USDC => {
                self.balances.usdc = self.balances.usdc + amount;
            },
            TokenType::USDT => {
                self.balances.usdt = self.balances.usdt + amount;
            },
            TokenType::BUSD => {
                self.balances.busd = self.balances.busd + amount;
            },
        }
    }
}

/// Accepts or rejects the network a user declares at onboarding: only the
/// accepted network may trade; any other is rejected with
/// `IncorrectNetwork`, not stored.
pub fn validate_network(network: Network) -> (r: Result<(), SwapError>)
    ensures
        network.spec_is_accepted() ==> r == Ok::<(), SwapError>(()),
        !network.spec_is_accepted() ==> r == Err::<(), SwapError>(SwapError::IncorrectNetwork),
{
    if network.is_accepted() {
        Ok(())
    } else {
        Err(SwapError::IncorrectNetwork)
    }
}

} // verus!
