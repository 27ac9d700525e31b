//! Balances per (account, token class), with checked credit and debit.

use crate::error::Error;
use crate::ids::{AccountId, Balance, TokenId};
use crate::supply::holdings;
use vstd::prelude::*;

verus! {

/// The balance of every (holder, class) pair.  A pair that was never credited
/// maps to zero, so two ledgers are equal exactly when no balance tells them
/// apart.
pub type Balances = Map<(AccountId, TokenId), Balance>;

/// Whether `balances` gives a balance to every (holder, class) pair, as the
/// balances of every ledger do.
pub open spec fn is_complete(balances: Balances) -> bool {
    forall|key: (AccountId, TokenId)| balances.dom().contains(key)
}

/// The ledger in which nobody holds anything.
pub open spec fn no_balances() -> Balances {
    Map::total(|key: (AccountId, TokenId)| 0u128)
}

/// Whether `amount` can be added to what `owner` holds of class `id`.
pub open spec fn can_credit(
    balances: Balances,
    owner: AccountId,
    id: TokenId,
    amount: Balance,
) -> bool {
    balances[(owner, id)] + amount <= Balance::MAX
}

/// Whether `amount` can be taken from what `owner` holds of class `id`.
pub open spec fn can_debit(
    balances: Balances,
    owner: AccountId,
    id: TokenId,
    amount: Balance,
) -> bool {
    amount <= balances[(owner, id)]
}

/// `balances` after `amount` was added to what `owner` holds of class `id`.
pub open spec fn credited(
    balances: Balances,
    owner: AccountId,
    id: TokenId,
    amount: Balance,
) -> Balances
    recommends
        can_credit(balances, owner, id, amount),
{
    balances.insert((owner, id), (balances[(owner, id)] + amount) as Balance)
}

/// `balances` after `amount` was taken from what `owner` holds of class `id`.
pub open spec fn debited(
    balances: Balances,
    owner: AccountId,
    id: TokenId,
    amount: Balance,
) -> Balances
    recommends
        can_debit(balances, owner, id, amount),
{
    balances.insert((owner, id), (balances[(owner, id)] - amount) as Balance)
}

/// One stored balance.
#[derive(Clone, Copy)]
struct Holding {
    owner: AccountId,
    id: TokenId,
    amount: Balance,
}

spec fn held_at(entries: Seq<Holding>, i: int, owner: AccountId, id: TokenId) -> bool {
    0 <= i < entries.len() && entries[i].owner == owner && entries[i].id == id
}

spec fn distinct_keys(entries: Seq<Holding>) -> bool {
    forall|i: int, j: int|
        #![trigger entries[i], entries[j]]
        0 <= i < j < entries.len() ==> !(entries[i].owner == entries[j].owner && entries[i].id
            == entries[j].id)
}

spec fn amount_of(entries: Seq<Holding>, owner: AccountId, id: TokenId) -> Balance {
    if exists|i: int| held_at(entries, i, owner, id) {
        entries[choose|i: int| held_at(entries, i, owner, id)].amount
    } else {
        0
    }
}

proof fn lemma_amount_at(entries: Seq<Holding>, i: int)
    requires
        distinct_keys(entries),
        0 <= i < entries.len(),
    ensures
        amount_of(entries, entries[i].owner, entries[i].id) == entries[i].amount,
{
    let owner = entries[i].owner;
    let id = entries[i].id;
    assert(held_at(entries, i, owner, id));
}

spec fn keys_of(entries: Seq<Holding>) -> Set<(AccountId, TokenId)> {
    Set::new(|key: (AccountId, TokenId)| exists|i: int| held_at(entries, i, key.0, key.1))
}

proof fn lemma_keys_finite(entries: Seq<Holding>)
    ensures
        keys_of(entries).finite(),
    decreases entries.len(),
{
    if entries.len() == 0 {
        assert(keys_of(entries) =~= Set::empty());
    } else {
        let front = entries.drop_last();
        let last = entries.last();
        lemma_keys_finite(front);
        assert forall|key: (AccountId, TokenId)| keys_of(entries).contains(key) implies keys_of(
            front,
        ).insert((last.owner, last.id)).contains(key) by {
            let i = choose|i: int| held_at(entries, i, key.0, key.1);
            if i < front.len() {
                assert(held_at(front, i, key.0, key.1));
            }
        }
        vstd::set_lib::lemma_set_subset_finite(
            keys_of(front).insert((last.owner, last.id)),
            keys_of(entries),
        );
    }
}

/// Index of the entry for (`owner`, `id`), if there is one.
fn find(entries: &Vec<Holding>, owner: &AccountId, id: &TokenId) -> (found: Option<usize>)
    ensures
        match found {
            Some(i) => held_at(entries@, i as int, *owner, *id),
            None => forall|i: int| !held_at(entries@, i, *owner, *id),
        },
{
    let mut i: usize = 0;
    while i < entries.len()
        invariant
            i <= entries.len(),
            forall|k: int| 0 <= k < i ==> !held_at(entries@, k, *owner, *id),
        decreases entries.len() - i,
    {
        if entries[i].owner == *owner && entries[i].id == *id {
            return Some(i);
        }
        i += 1;
    }
    None
}

/// Sets what (`owner`, `id`) holds to `amount`, creating the entry on the
/// first nonzero amount.
fn store(entries: &mut Vec<Holding>, owner: AccountId, id: TokenId, amount: Balance)
    requires
        distinct_keys(old(entries)@),
    ensures
        distinct_keys(final(entries)@),
        forall|o: AccountId, t: TokenId| #[trigger]
            amount_of(final(entries)@, o, t) == if o == owner && t == id {
                amount
            } else {
                amount_of(old(entries)@, o, t)
            },
{
    let ghost before = entries@;
    match find(entries, &owner, &id) {
        Some(i) => {
            entries[i] = Holding { owner, id, amount };
            proof {
                let after = entries@;
                assert forall|o: AccountId, t: TokenId| #[trigger]
                    amount_of(after, o, t) == if o == owner && t == id {
                        amount
                    } else {
                        amount_of(before, o, t)
                    } by {
                    if o == owner && t == id {
                        lemma_amount_at(after, i as int);
                    } else if exists|j: int| held_at(before, j, o, t) {
                        let j = choose|j: int| held_at(before, j, o, t);
                        lemma_amount_at(before, j);
                        lemma_amount_at(after, j);
                    } else {
                        assert forall|j: int| !held_at(after, j, o, t) by {
                            assert(!held_at(before, j, o, t));
                        }
                    }
                }
            }
        },
        None => {
            if amount > 0 {
                entries.push(Holding { owner, id, amount });
                proof {
                    let after = entries@;
                    let last = before.len() as int;
                    assert forall|a: int, b: int|
                        #![trigger after[a], after[b]]
                        0 <= a < b < after.len() implies !(after[a].owner == after[b].owner
                        && after[a].id == after[b].id) by {
                        if b == last {
                            assert(!held_at(before, a, owner, id));
                        }
                    }
                    assert forall|o: AccountId, t: TokenId| #[trigger]
                        amount_of(after, o, t) == if o == owner && t == id {
                            amount
                        } else {
                            amount_of(before, o, t)
                        } by {
                        if o == owner && t == id {
                            lemma_amount_at(after, last);
                        } else if exists|j: int| held_at(before, j, o, t) {
                            let j = choose|j: int| held_at(before, j, o, t);
                            lemma_amount_at(before, j);
                            lemma_amount_at(after, j);
                        } else {
                            assert forall|j: int| !held_at(after, j, o, t) by {
                                assert(!held_at(before, j, o, t));
                            }
                        }
                    }
                }
            }
        },
    }
}

/// Balances keyed by holder and token class.
pub struct BalanceLedger {
    entries: Vec<Holding>,
}

impl View for BalanceLedger {
    type V = Balances;

    closed spec fn view(&self) -> Balances {
        Map::total(|key: (AccountId, TokenId)| amount_of(self.entries@, key.0, key.1))
    }
}

impl BalanceLedger {
    #[verifier::type_invariant]
    spec fn well_formed(&self) -> bool {
        distinct_keys(self.entries@)
    }

    /// The balances of a ledger cover every (holder, class) pair.
    pub proof fn lemma_complete(&self)
        ensures
            is_complete(self@),
    {
    }

    /// Only finitely many (holder, class) pairs of a ledger have a nonzero
    /// balance, so every class has a supply.
    pub proof fn lemma_finitely_held(&self)
        ensures
            holdings(self@).finite(),
    {
        lemma_keys_finite(self.entries@);
        vstd::set_lib::lemma_set_subset_finite(keys_of(self.entries@), holdings(self@));
    }

    /// A ledger in which nobody holds anything.
    pub fn new() -> (ledger: BalanceLedger)
        ensures
            ledger@ == no_balances(),
    {
        let ledger = BalanceLedger { entries: Vec::new() };
        ledger
    }

    /// What `account` holds of class `id`; zero if it was never credited.
    pub fn balance_of(&self, account: &AccountId, id: &TokenId) -> (balance: Balance)
        ensures
            balance == self@[(*account, *id)],
    {
        proof {
            use_type_invariant(self);
        }
        match find(&self.entries, account, id) {
            Some(i) => {
                proof {
                    lemma_amount_at(self.entries@, i as int);
                }
                self.entries[i].amount
            },
            None => 0,
        }
    }

    /// Looks up `accounts[i]`'s balance of class `ids[i]` for each position
    /// that both inputs have, in order.
    pub fn balance_of_batch(
        &self,
        accounts: &Vec<AccountId>,
        ids: &Vec<TokenId>,
    ) -> (balances: Vec<Balance>)
        ensures
            balances@.len() == if accounts@.len() <= ids@.len() {
                accounts@.len()
            } else {
                ids@.len()
            },
            forall|i: int|
                0 <= i < balances@.len() ==> #[trigger] balances@[i] == self@[(
                    accounts@[i],
                    ids@[i],
                )],
    {
        let count: usize = if accounts.len() <= ids.len() {
            accounts.len()
        } else {
            ids.len()
        };
        let mut balances: Vec<Balance> = Vec::new();
        let mut i: usize = 0;
        while i < count
            invariant
                i <= count,
                count <= accounts@.len(),
                count <= ids@.len(),
                balances@.len() == i,
                forall|k: int|
                    0 <= k < i ==> #[trigger] balances@[k] == self@[(accounts@[k], ids@[k])],
            decreases count - i,
        {
            let balance = self.balance_of(&accounts[i], &ids[i]);
            balances.push(balance);
            i += 1;
        }
        balances
    }

    /// Adds `amount` to what `account` holds of class `id`, unless the sum
    /// would exceed the largest amount.
    pub fn credit(
        &mut self,
        account: AccountId,
        id: TokenId,
        amount: Balance,
    ) -> (outcome: Result<(), Error>)
        ensures
            outcome is Ok <==> can_credit(old(self)@, account, id, amount),
            outcome is Ok ==> final(self)@ == credited(old(self)@, account, id, amount),
            outcome is Err ==> outcome == Err::<(), Error>(Error::Overflow) && final(self)@ == old(self)@,
    {
        proof {
            use_type_invariant(&*self);
        }
        let current = self.balance_of(&account, &id);
        if amount > Balance::MAX - current {
            return Err(Error::Overflow);
        }
        let mut entries: Vec<Holding> = Vec::new();
        core::mem::swap(&mut entries, &mut self.entries);
        store(&mut entries, account, id, current + amount);
        self.entries = entries;
        Ok(())
    }

    /// Takes `amount` from what `account` holds of class `id`, unless it
    /// holds less.
    pub fn debit(
        &mut self,
        account: AccountId,
        id: TokenId,
        amount: Balance,
    ) -> (outcome: Result<(), Error>)
        ensures
            outcome is Ok <==> can_debit(old(self)@, account, id, amount),
            outcome is Ok ==> final(self)@ == debited(old(self)@, account, id, amount),
            outcome is Err ==> outcome == Err::<(), Error>(Error::InsufficientBalance) && final(self)@ == old(self)@,
    {
        proof {
            use_type_invariant(&*self);
        }
        let current = self.balance_of(&account, &id);
        if current < amount {
            return Err(Error::InsufficientBalance);
        }
        let mut entries: Vec<Holding> = Vec::new();
        core::mem::swap(&mut entries, &mut self.entries);
        store(&mut entries, account, id, current - amount);
        self.entries = entries;
        Ok(())
    }

    /// Creates `amount` new tokens of class `id` for `account`: a credit.
    pub fn mint(
        &mut self,
        account: AccountId,
        id: TokenId,
        amount: Balance,
    ) -> (outcome: Result<(), Error>)
        ensures
            outcome is Ok <==> can_credit(old(self)@, account, id, amount),
            outcome is Ok ==> final(self)@ == credited(old(self)@, account, id, amount),
            outcome is Err ==> outcome == Err::<(), Error>(Error::Overflow) && final(self)@ == old(self)@,
    {
        self.credit(account, id, amount)
    }

    /// Destroys `amount` tokens of class `id` held by `account`: a debit.
    pub fn burn(
        &mut self,
        account: AccountId,
        id: TokenId,
        amount: Balance,
    ) -> (outcome: Result<(), Error>)
        ensures
            outcome is Ok <==> can_debit(old(self)@, account, id, amount),
            outcome is Ok ==> final(self)@ == debited(old(self)@, account, id, amount),
            outcome is Err ==> outcome == Err::<(), Error>(Error::InsufficientBalance) && final(self)@ == old(self)@,
    {
        self.debit(account, id, amount)
    }
}

impl Clone for BalanceLedger {
    fn clone(&self) -> (copy: BalanceLedger)
        ensures
            copy@ == self@,
    {
        proof {
            use_type_invariant(self);
        }
        let mut entries: Vec<Holding> = Vec::new();
        let mut i: usize = 0;
        while i < self.entries.len()
            invariant
                i <= self.entries@.len(),
                entries@ == self.entries@.subrange(0, i as int),
            decreases self.entries@.len() - i,
        {
            entries.push(self.entries[i]);
            i += 1;
        }
        assert(entries@ =~= self.entries@);
        BalanceLedger { entries }
    }
}

} // verus!
