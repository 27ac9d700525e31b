//! The supply of a token class: the sum of what all accounts hold of it.
//!
//! Credits raise the supply of their class by the amount credited, debits
//! lower it by the amount debited, and nothing else changes it.  From this
//! follows that, whatever operations were applied to an empty ledger, the
//! supply of each class is what was minted of it less what was burned.

use crate::ids::{AccountId, Balance, TokenId};
use crate::approvals::Approvals;
use crate::engine::{
    burn_result, legs_moved, mint_result, move_result, moved, transfer_result,
};
use crate::error::Error;
use crate::ledger::{can_credit, can_debit, credited, debited, no_balances, Balances};
use vstd::prelude::*;

verus! {

/// The (holder, class) pairs with a nonzero balance.
pub open spec fn holdings(balances: Balances) -> Set<(AccountId, TokenId)> {
    Set::new(|key: (AccountId, TokenId)| balances[key] > 0)
}

/// The pairs of class `id` with a nonzero balance.
pub open spec fn class_holdings(balances: Balances, id: TokenId) -> Set<(AccountId, TokenId)> {
    Set::new(|key: (AccountId, TokenId)| balances[key] > 0 && key.1 == id)
}

/// Sum of the balances of the pairs in the finite set `keys`.
pub open spec fn total_over(balances: Balances, keys: Set<(AccountId, TokenId)>) -> nat
    decreases keys.len(),
    when keys.finite()
{
    if keys.len() == 0 {
        0
    } else {
        let key = keys.choose();
        balances[key] as nat + total_over(balances, keys.remove(key))
    }
}

/// Sum of what all accounts hold of class `id`.
pub open spec fn class_supply(balances: Balances, id: TokenId) -> nat {
    total_over(balances, class_holdings(balances, id))
}

/// The sum over a set is the balance of any one member plus the sum over the rest.
pub proof fn lemma_total_over_remove(
    balances: Balances,
    keys: Set<(AccountId, TokenId)>,
    key: (AccountId, TokenId),
)
    requires
        keys.finite(),
        keys.contains(key),
    ensures
        total_over(balances, keys) == balances[key] + total_over(balances, keys.remove(key)),
    decreases keys.len(),
{
    let chosen = keys.choose();
    assert(keys.len() != 0) by {
        if keys.len() == 0 {
        }
    }
    if chosen != key {
        lemma_total_over_remove(balances, keys.remove(chosen), key);
        lemma_total_over_remove(balances, keys.remove(key), chosen);
        assert(keys.remove(chosen).remove(key) =~= keys.remove(key).remove(chosen));
    }
}

/// Two ledgers that agree on every pair of a set have the same sum over it.
pub proof fn lemma_total_over_agree(a: Balances, b: Balances, keys: Set<(AccountId, TokenId)>)
    requires
        keys.finite(),
        forall|key: (AccountId, TokenId)| keys.contains(key) ==> a[key] == b[key],
    ensures
        total_over(a, keys) == total_over(b, keys),
    decreases keys.len(),
{
    if keys.len() != 0 {
        lemma_total_over_agree(a, b, keys.remove(keys.choose()));
    }
}

/// Setting one balance changes the supply of its class by the difference,
/// and the supply of no other class.
pub proof fn lemma_supply_after_set(
    balances: Balances,
    owner: AccountId,
    id: TokenId,
    amount: Balance,
    class: TokenId,
)
    requires
        holdings(balances).finite(),
    ensures
        holdings(balances.insert((owner, id), amount)).finite(),
        class_supply(balances.insert((owner, id), amount), class) == if class == id {
            class_supply(balances, class) - balances[(owner, id)] + amount
        } else {
            class_supply(balances, class) as int
        },
{
    let key = (owner, id);
    let after = balances.insert(key, amount);
    vstd::set_lib::lemma_set_subset_finite(holdings(balances).insert(key), holdings(after));
    let keys_before = class_holdings(balances, class);
    let keys_after = class_holdings(after, class);
    vstd::set_lib::lemma_set_subset_finite(holdings(balances), keys_before);
    vstd::set_lib::lemma_set_subset_finite(holdings(after), keys_after);
    if class != id {
        assert(keys_after =~= keys_before);
        lemma_total_over_agree(after, balances, keys_before);
    } else {
        let rest = keys_before.remove(key);
        assert(keys_after.remove(key) =~= rest);
        lemma_total_over_agree(after, balances, rest);
        if balances[key] > 0 {
            lemma_total_over_remove(balances, keys_before, key);
        } else {
            assert(keys_before =~= rest);
        }
        if amount > 0 {
            lemma_total_over_remove(after, keys_after, key);
        } else {
            assert(keys_after =~= rest);
        }
    }
}

/// In the empty ledger every class has supply zero.
pub proof fn lemma_empty_supply(class: TokenId)
    ensures
        holdings(no_balances()).finite(),
        class_supply(no_balances(), class) == 0,
{
    assert(holdings(no_balances()) =~= Set::empty());
    assert(class_holdings(no_balances(), class) =~= Set::empty());
}

/// A credit raises the supply of its class by the amount credited and
/// leaves every other class as it was.
pub proof fn lemma_credit_supply(
    balances: Balances,
    owner: AccountId,
    id: TokenId,
    amount: Balance,
    class: TokenId,
)
    requires
        holdings(balances).finite(),
        can_credit(balances, owner, id, amount),
    ensures
        holdings(credited(balances, owner, id, amount)).finite(),
        class_supply(credited(balances, owner, id, amount), class) == class_supply(balances, class)
            + if class == id {
            amount as nat
        } else {
            0
        },
{
    lemma_supply_after_set(
        balances,
        owner,
        id,
        (balances[(owner, id)] + amount) as Balance,
        class,
    );
}

/// A debit lowers the supply of its class by the amount debited and leaves
/// every other class as it was.
pub proof fn lemma_debit_supply(
    balances: Balances,
    owner: AccountId,
    id: TokenId,
    amount: Balance,
    class: TokenId,
)
    requires
        holdings(balances).finite(),
        can_debit(balances, owner, id, amount),
    ensures
        holdings(debited(balances, owner, id, amount)).finite(),
        class_supply(debited(balances, owner, id, amount), class) == class_supply(balances, class)
            - if class == id {
            amount as nat
        } else {
            0
        },
{
    lemma_supply_after_set(
        balances,
        owner,
        id,
        (balances[(owner, id)] - amount) as Balance,
        class,
    );
}

/// A transfer changes the supply of no class.
pub proof fn lemma_transfer_supply(
    balances: Balances,
    from: AccountId,
    to: AccountId,
    id: TokenId,
    amount: Balance,
    class: TokenId,
)
    requires
        holdings(balances).finite(),
        move_result(balances, from, to, id, amount) is Ok,
    ensures
        holdings(moved(balances, from, to, id, amount)).finite(),
        class_supply(moved(balances, from, to, id, amount), class) == class_supply(balances, class),
{
    lemma_debit_supply(balances, from, id, amount, class);
    lemma_credit_supply(debited(balances, from, id, amount), to, id, amount, class);
}

/// A batch of transfers that succeeds changes the supply of no class.
pub proof fn lemma_batch_supply(
    balances: Balances,
    from: AccountId,
    to: AccountId,
    ids: Seq<TokenId>,
    amounts: Seq<Balance>,
    count: nat,
    class: TokenId,
)
    requires
        holdings(balances).finite(),
        legs_moved(balances, from, to, ids, amounts, count) is Ok,
    ensures
        holdings(legs_moved(balances, from, to, ids, amounts, count)->Ok_0).finite(),
        class_supply(legs_moved(balances, from, to, ids, amounts, count)->Ok_0, class)
            == class_supply(balances, class),
    decreases count,
{
    if count > 0 {
        let before = (count - 1) as nat;
        lemma_batch_supply(balances, from, to, ids, amounts, before, class);
        let so_far = legs_moved(balances, from, to, ids, amounts, before)->Ok_0;
        lemma_transfer_supply(so_far, from, to, ids[count - 1], amounts[count - 1], class);
    }
}

/// A request to change balances.  Who asks and what the hook says are left
/// out: a request refused on their account changes nothing, as if it had
/// not been made.
pub enum LedgerOp {
    Mint { to: AccountId, id: TokenId, amount: Balance },
    Burn { from: AccountId, id: TokenId, amount: Balance },
    Transfer { from: AccountId, to: AccountId, id: TokenId, amount: Balance },
}

/// Whether the balances allow `op`.
pub open spec fn takes_effect(balances: Balances, op: LedgerOp) -> bool {
    match op {
        LedgerOp::Mint { to, id, amount } => can_credit(balances, to, id, amount),
        LedgerOp::Burn { from, id, amount } => can_debit(balances, from, id, amount),
        LedgerOp::Transfer { from, to, id, amount } => move_result(balances, from, to, id, amount)
            is Ok,
    }
}

/// `balances` after `op` was asked for: changed if the balances allow it,
/// untouched if not.
pub open spec fn applied(balances: Balances, op: LedgerOp) -> Balances {
    if takes_effect(balances, op) {
        match op {
            LedgerOp::Mint { to, id, amount } => credited(balances, to, id, amount),
            LedgerOp::Burn { from, id, amount } => debited(balances, from, id, amount),
            LedgerOp::Transfer { from, to, id, amount } => moved(balances, from, to, id, amount),
        }
    } else {
        balances
    }
}

/// A mint, burn or transfer that the engine lets succeed is a request that
/// takes effect, and what the engine makes of the balances is what the
/// request makes of them.
pub proof fn lemma_success_takes_effect(
    balances: Balances,
    approvals: Approvals,
    verdict: Result<(), Error>,
    caller: AccountId,
    from: AccountId,
    to: AccountId,
    id: TokenId,
    amount: Balance,
)
    ensures
        mint_result(balances, verdict, to, id, amount) is Ok ==> applied(
            balances,
            LedgerOp::Mint { to, id, amount },
        ) == credited(balances, to, id, amount),
        burn_result(balances, verdict, from, id, amount) is Ok ==> applied(
            balances,
            LedgerOp::Burn { from, id, amount },
        ) == debited(balances, from, id, amount),
        transfer_result(balances, approvals, verdict, caller, from, to, id, amount) is Ok
            ==> applied(balances, LedgerOp::Transfer { from, to, id, amount }) == moved(
            balances,
            from,
            to,
            id,
            amount,
        ),
{
}

/// The balances after `ops` were asked for, one after the other, of a
/// ledger that started empty.
pub open spec fn run(ops: Seq<LedgerOp>) -> Balances
    decreases ops.len(),
{
    if ops.len() == 0 {
        no_balances()
    } else {
        applied(run(ops.drop_last()), ops.last())
    }
}

/// What `op` mints of `class` when asked for on `balances`.
pub open spec fn mints(balances: Balances, op: LedgerOp, class: TokenId) -> nat {
    match op {
        LedgerOp::Mint { to, id, amount } => if id == class && takes_effect(balances, op) {
            amount as nat
        } else {
            0
        },
        _ => 0,
    }
}

/// What `op` burns of `class` when asked for on `balances`.
pub open spec fn burns(balances: Balances, op: LedgerOp, class: TokenId) -> nat {
    match op {
        LedgerOp::Burn { from, id, amount } => if id == class && takes_effect(balances, op) {
            amount as nat
        } else {
            0
        },
        _ => 0,
    }
}

/// All that `ops` mint of `class`, starting from an empty ledger.
pub open spec fn minted(ops: Seq<LedgerOp>, class: TokenId) -> nat
    decreases ops.len(),
{
    if ops.len() == 0 {
        0
    } else {
        minted(ops.drop_last(), class) + mints(run(ops.drop_last()), ops.last(), class)
    }
}

/// All that `ops` burn of `class`, starting from an empty ledger.
pub open spec fn burned(ops: Seq<LedgerOp>, class: TokenId) -> nat
    decreases ops.len(),
{
    if ops.len() == 0 {
        0
    } else {
        burned(ops.drop_last(), class) + burns(run(ops.drop_last()), ops.last(), class)
    }
}

/// Conservation: whatever mints, burns and transfers were asked of a ledger
/// that started empty, the supply of each class is what was minted of it
/// less what was burned.
pub proof fn lemma_conservation(ops: Seq<LedgerOp>, class: TokenId)
    ensures
        holdings(run(ops)).finite(),
        class_supply(run(ops), class) + burned(ops, class) == minted(ops, class),
    decreases ops.len(),
{
    if ops.len() == 0 {
        lemma_empty_supply(class);
    } else {
        let before = run(ops.drop_last());
        let op = ops.last();
        lemma_conservation(ops.drop_last(), class);
        if takes_effect(before, op) {
            match op {
                LedgerOp::Mint { to, id, amount } => {
                    lemma_credit_supply(before, to, id, amount, class);
                },
                LedgerOp::Burn { from, id, amount } => {
                    lemma_debit_supply(before, from, id, amount, class);
                },
                LedgerOp::Transfer { from, to, id, amount } => {
                    lemma_transfer_supply(before, from, to, id, amount, class);
                },
            }
        }
    }
}

} // verus!
