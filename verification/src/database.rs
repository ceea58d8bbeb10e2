//! The user store: wallet address to user, first match on the address.

use vstd::prelude::*;
use crate::user::User;

verus! {

/// The first position in `users` at or after `i` whose wallet address reads
/// `addr`, or -1 when there is none.
pub open spec fn spec_index_of_from(users: Seq<User>, addr: Seq<char>, i: int) -> int
    decreases users.len() - i,
{
    if i < 0 || i >= users.len() {
        -1
    } else if users[i].wallet_address@ == addr {
        i
    } else {
        spec_index_of_from(users, addr, i + 1)
    }
}

/// The keyed collection of users, one per wallet address.
pub struct UserDatabase {
    pub users: Vec<User>,
}

impl UserDatabase {
    /// The position of the user keyed by `addr`, or -1 when absent.
    pub open spec fn spec_index_of(self, addr: Seq<char>) -> int {
        spec_index_of_from(self.users@, addr, 0)
    }

    /// Whether a user with wallet address `addr` is stored.
    pub open spec fn spec_contains(self, addr: Seq<char>) -> bool {
        self.spec_index_of(addr) >= 0
    }

    /// The user keyed by `addr`.
    pub open spec fn spec_user(self, addr: Seq<char>) -> User
        recommends
            self.spec_contains(addr),
    {
        self.users@[self.spec_index_of(addr)]
    }

    /// Initializes an empty store.
    pub fn new_db() -> (r: UserDatabase)
        ensures
            r.users@.len() == 0,
    {
        UserDatabase { users: Vec::new() }
    }

    /// Returns the position of the user keyed by `address`, if any.
    pub fn find_user_index(&self, address: &str) -> (r: Option<usize>)
        ensures
            match r {
                Some(i) => i < self.users@.len() && self.spec_index_of(address@) == i as int,
                None => !self.spec_contains(address@),
            },
    {
        let addr: String = address.to_owned();
        let n = self.users.len();
        let mut i: usize = 0;
        while i < n
            invariant
                addr@ == address@,
                n == self.users@.len(),
                i <= n,
                self.spec_index_of(address@) == spec_index_of_from(
                    self.users@,
                    address@,
                    i as int,
                ),
            decreases n - i,
        {
            if self.users[i].wallet_address == addr {
                return Some(i);
            }
            i += 1;
        }
        None
    }

    /// Looks a user up by wallet address.
    pub fn get_user_by_address(&self, address: &str) -> (r: Option<&User>)
        ensures
            self.spec_contains(address@) <==> r is Some,
            r matches Some(u) ==> *u == self.spec_user(address@),
    {
        match self.find_user_index(address) {
            Some(i) => Some(&self.users[i]),
            None => None,
        }
    }

    /// Looks a user up by wallet address, for updating in place.
    pub fn get_user_by_address_mut(&mut self, address: &str) -> (r: Option<&mut User>)
        ensures
            old(self).spec_contains(address@) <==> r is Some,
            r matches Some(u) ==> *u == old(self).spec_user(address@) && final(self).users@ == old(
                self,
            ).users@.update(old(self).spec_index_of(address@), *final(u)),
            r is None ==> *final(self) == *old(self),
    {
        match self.find_user_index(address) {
            Some(i) => Some(&mut self.users[i]),
            None => None,
        }
    }

    /// Stores `user`, overwriting any existing entry with the same wallet
    /// address; a new address is appended.
    pub fn add_user(&mut self, user: User)
        ensures
            old(self).spec_contains(user.wallet_address@) ==> final(self).users@ == old(
                self,
            ).users@.update(old(self).spec_index_of(user.wallet_address@), user),
            !old(self).spec_contains(user.wallet_address@) ==> final(self).users@ == old(
                self,
            ).users@.push(user),
    {
        match self.find_user_index(user.wallet_address.as_str()) {
            Some(i) => {
                let slot = &mut self.users[i];
                *slot = user;
            },
            None => {
                self.users.push(user);
            },
        }
    }

    /// Removes the user keyed by `address`; a no-op when absent.
    pub fn remove_user_by_address(&mut self, address: &str)
        ensures
            old(self).spec_contains(address@) ==> final(self).users@ == old(self).users@.remove(
                old(self).spec_index_of(address@),
            ),
            !old(self).spec_contains(address@) ==> *final(self) == *old(self),
    {
        match self.find_user_index(address) {
            Some(i) => {
                self.users.remove(i);
            },
            None => {},
        }
    }
}

} // verus!
