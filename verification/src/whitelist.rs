//! The bounded whitelist of counterparties approved to receive settlements.
use vstd::prelude::*;

use crate::errors::VaultError;
use crate::AccountId;
use crate::MAX_WHITELIST_LEN;

verus! {

/// Index of the first occurrence of `x` in `s`, or -1 when absent.
pub open spec fn first_index_of(s: Seq<AccountId>, x: AccountId) -> int
    decreases s.len(),
{
    if s.len() == 0 {
        -1
    } else if s[0] == x {
        0
    } else {
        let rest = first_index_of(s.drop_first(), x);
        if rest == -1 {
            -1
        } else {
            rest + 1
        }
    }
}

/// `first_index_of` finds exactly the first occurrence: it is -1 when `x` is
/// absent, and otherwise the least index holding `x`.
pub proof fn lemma_first_index_of(s: Seq<AccountId>, x: AccountId)
    ensures
        !s.contains(x) ==> first_index_of(s, x) == -1,
        s.contains(x) ==> 0 <= first_index_of(s, x) < s.len() && s[first_index_of(s, x)] == x
            && (forall|j: int| 0 <= j < first_index_of(s, x) ==> s[j] != x),
    decreases s.len(),
{
    if s.len() > 0 {
        let rest = s.drop_first();
        lemma_first_index_of(rest, x);
        assert(forall|j: int| 0 <= j < rest.len() ==> rest[j] == s[j + 1]);
        if s[0] != x {
            assert(s.contains(x) ==> rest.contains(x)) by {
                if s.contains(x) {
                    let i = choose|i: int| 0 <= i < s.len() && s[i] == x;
                    assert(rest[i - 1] == x);
                }
            }
            assert(rest.contains(x) ==> s.contains(x)) by {
                if rest.contains(x) {
                    let i = choose|i: int| 0 <= i < rest.len() && rest[i] == x;
                    assert(s[i + 1] == x);
                }
            }
            if s.contains(x) {
                let fi = first_index_of(rest, x);
                assert(rest[fi] == x);
                assert(s[fi + 1] == x);
                assert(first_index_of(s, x) == fi + 1);
                assert forall|j: int| 0 <= j < fi + 1 implies s[j] != x by {
                    if j > 0 {
                        assert(rest[j - 1] != x);
                    }
                }
            }
        }
    }
}

/// The counterparties approved for settlement payouts, scoped to one vault.
pub struct VaultWhitelist {
    /// Identity permitted to change the list.
    pub authority: AccountId,
    /// The approved counterparties, in insertion order, at most
    /// `MAX_WHITELIST_LEN` of them and without duplicates.
    pub market_makers: Vec<AccountId>,
}

impl VaultWhitelist {
    /// An empty whitelist owned by `authority`.
    pub fn initialize_whitelist(authority: AccountId) -> (w: VaultWhitelist)
        ensures
            w.authority == authority,
            w.market_makers@ =~= Seq::<AccountId>::empty(),
    {
        VaultWhitelist { authority, market_makers: Vec::new() }
    }

    /// Whether `who` is on the list.
    pub fn is_whitelisted(&self, who: AccountId) -> (r: bool)
        ensures
            r == self.market_makers@.contains(who),
    {
        let n = self.market_makers.len();
        let mut i: usize = 0;
        while i < n
            invariant
                n == self.market_makers@.len(),
                i <= n,
                forall|j: int| 0 <= j < i ==> self.market_makers@[j] != who,
            decreases n - i,
        {
            if self.market_makers[i] == who {
                return true;
            }
            i = i + 1;
        }
        false
    }

    /// Approve `market_maker`, rejecting a full list and duplicates.
    /// Authority-only.
    pub fn add_market_maker(&mut self, caller: AccountId, market_maker: AccountId) -> (r: Result<
        (),
        VaultError,
    >)
        ensures
            caller != old(self).authority ==> r == Err::<(), VaultError>(VaultError::NotAuthority)
                && *final(self) == *old(self),
            caller == old(self).authority && old(self).market_makers@.len() >= MAX_WHITELIST_LEN
                ==> r == Err::<(), VaultError>(VaultError::WhitelistFull) && *final(self) == *old(
                self,
            ),
            caller == old(self).authority && old(self).market_makers@.len() < MAX_WHITELIST_LEN
                && old(self).market_makers@.contains(market_maker) ==> r == Err::<(), VaultError>(
                VaultError::AlreadyWhitelisted,
            ) && *final(self) == *old(self),
            caller == old(self).authority && old(self).market_makers@.len() < MAX_WHITELIST_LEN
                && !old(self).market_makers@.contains(market_maker) ==> r == Ok::<(), VaultError>(
                (),
            ) && final(self).market_makers@ == old(self).market_makers@.push(market_maker)
                && final(self).authority == old(self).authority,
    {
        if caller != self.authority {
            return Err(VaultError::NotAuthority);
        }
        if self.market_makers.len() >= MAX_WHITELIST_LEN {
            return Err(VaultError::WhitelistFull);
        }
        if self.is_whitelisted(market_maker) {
            return Err(VaultError::AlreadyWhitelisted);
        }
        self.market_makers.push(market_maker);
        Ok(())
    }

    /// Remove the first occurrence of `market_maker`, rejecting an absent
    /// entry. Authority-only.
    pub fn remove_market_maker(&mut self, caller: AccountId, market_maker: AccountId) -> (r: Result<
        (),
        VaultError,
    >)
        ensures
            caller != old(self).authority ==> r == Err::<(), VaultError>(VaultError::NotAuthority)
                && *final(self) == *old(self),
            caller == old(self).authority && !old(self).market_makers@.contains(market_maker) ==> r
                == Err::<(), VaultError>(VaultError::NotWhitelisted) && *final(self) == *old(self),
            caller == old(self).authority && old(self).market_makers@.contains(market_maker) ==> r
                == Ok::<(), VaultError>(()) && final(self).market_makers@ == old(
                self,
            ).market_makers@.remove(first_index_of(old(self).market_makers@, market_maker))
                && final(self).authority == old(self).authority,
    {
        if caller != self.authority {
            return Err(VaultError::NotAuthority);
        }
        let ghost s = self.market_makers@;
        proof {
            lemma_first_index_of(s, market_maker);
        }
        let n = self.market_makers.len();
        let mut i: usize = 0;
        while i < n
            invariant
                *self == *old(self),
                caller == old(self).authority,
                n == self.market_makers@.len(),
                i <= n,
                s == self.market_makers@,
                forall|j: int| 0 <= j < i ==> self.market_makers@[j] != market_maker,
            decreases n - i,
        {
            if self.market_makers[i] == market_maker {
                assert(first_index_of(s, market_maker) == i) by {
                    lemma_first_index_of(s, market_maker);
                    assert(s.contains(market_maker));
                }
                self.market_makers.remove(i);
                return Ok(());
            }
            i = i + 1;
        }
        assert(!s.contains(market_maker));
        Err(VaultError::NotWhitelisted)
    }
}

} // verus!
