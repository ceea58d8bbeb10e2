//! Token and network identifiers: the closed sets of values the simulator
//! understands.

use vstd::prelude::*;

verus! {

/// Fixed-point scale for swap rates: a rate of `RATE_SCALE` means 1.0, so a
/// stored rate of `10_010` stands for 1.001 units received per unit swapped.
pub const RATE_SCALE: u64 = 10_000;

/// The fungible tokens the simulator understands.
#[derive(Debug, Clone, Copy, PartialEq, Eq, Structural)]
pub enum TokenType {
    USDC,
    USDT,
    BUSD,
}

/// The networks a user can declare at onboarding. Only one of them is
/// accepted for trading.
#[derive(Debug, Clone, Copy, PartialEq, Eq, Structural)]
pub enum Network {
    Ethereum,
    BNBChain,
    Polygon,
}

impl Network {
    /// The single network currently accepted at onboarding.
    pub open spec fn spec_is_accepted(self) -> bool {
        self == Network::Ethereum
    }

    /// Returns whether this network is the one accepted for trading.
    pub fn is_accepted(&self) -> (r: bool)
        ensures
            r == self.spec_is_accepted(),
    {
        match self {
            Network::Ethereum => true,
            Network::BNBChain => false,
            Network::Polygon => false,
        }
    }
}

} // verus!
