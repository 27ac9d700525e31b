//! The transfer engine: authorised, hooked, all-or-nothing movements of
//! balances, one class at a time or in batches.

use crate::approvals::{may_move, with_approval, ApprovalRegistry, Approvals};
use crate::error::Error;
use crate::events::{ApprovalForAll, TransferBatch, TransferSingle};
use crate::hook::TransferHook;
use crate::ids::{AccountId, Balance, TokenId};
use crate::ledger::{
    can_credit, can_debit, credited, debited, is_complete, no_balances, BalanceLedger, Balances,
};
use vstd::prelude::*;

verus! {

/// Whether `amount` of class `id` can move from `from` to `to`: the source
/// must hold that much, and the destination must have room for it once the
/// source has given it.  Moving to oneself needs no room.
pub open spec fn move_result(
    balances: Balances,
    from: AccountId,
    to: AccountId,
    id: TokenId,
    amount: Balance,
) -> Result<(), Error> {
    if !can_debit(balances, from, id, amount) {
        Err(Error::InsufficientBalance)
    } else if !can_credit(debited(balances, from, id, amount), to, id, amount) {
        Err(Error::Overflow)
    } else {
        Ok(())
    }
}

/// `balances` after `amount` of class `id` moved from `from` to `to`.
pub open spec fn moved(
    balances: Balances,
    from: AccountId,
    to: AccountId,
    id: TokenId,
    amount: Balance,
) -> Balances
    recommends
        move_result(balances, from, to, id, amount) is Ok,
{
    credited(debited(balances, from, id, amount), to, id, amount)
}

/// `balances` after the first `count` legs of a batch moved in order, or
/// the error of the first leg that cannot move.
pub open spec fn legs_moved(
    balances: Balances,
    from: AccountId,
    to: AccountId,
    ids: Seq<TokenId>,
    amounts: Seq<Balance>,
    count: nat,
) -> Result<Balances, Error>
    recommends
        count <= ids.len(),
        count <= amounts.len(),
    decreases count,
{
    if count == 0 {
        Ok(balances)
    } else {
        match legs_moved(balances, from, to, ids, amounts, (count - 1) as nat) {
            Err(error) => Err(error),
            Ok(so_far) => match move_result(so_far, from, to, ids[count - 1], amounts[count - 1]) {
                Err(error) => Err(error),
                Ok(()) => Ok(moved(so_far, from, to, ids[count - 1], amounts[count - 1])),
            },
        }
    }
}

/// The outcome of a single transfer asked by `caller`, given the hook's
/// `verdict`: authorisation first, then the hook, then the balances.
pub open spec fn transfer_result(
    balances: Balances,
    approvals: Approvals,
    verdict: Result<(), Error>,
    caller: AccountId,
    from: AccountId,
    to: AccountId,
    id: TokenId,
    amount: Balance,
) -> Result<(), Error> {
    if !may_move(approvals, caller, from) {
        Err(Error::UnauthorizedOperator)
    } else if verdict is Err {
        verdict
    } else {
        move_result(balances, from, to, id, amount)
    }
}

/// The outcome of a batch transfer asked by `caller`, given the hook's
/// `verdict`: the balances after all legs, or the first error in the order
/// lengths, authorisation, hook, legs.
pub open spec fn batch_result(
    balances: Balances,
    approvals: Approvals,
    verdict: Result<(), Error>,
    caller: AccountId,
    from: AccountId,
    to: AccountId,
    ids: Seq<TokenId>,
    amounts: Seq<Balance>,
) -> Result<Balances, Error> {
    if ids.len() != amounts.len() {
        Err(Error::LengthMismatch)
    } else if !may_move(approvals, caller, from) {
        Err(Error::UnauthorizedOperator)
    } else {
        match verdict {
            Err(error) => Err(error),
            Ok(()) => legs_moved(balances, from, to, ids, amounts, ids.len()),
        }
    }
}

/// The outcome of a mint, given the hook's `verdict`.
pub open spec fn mint_result(
    balances: Balances,
    verdict: Result<(), Error>,
    to: AccountId,
    id: TokenId,
    amount: Balance,
) -> Result<(), Error> {
    if verdict is Err {
        verdict
    } else if !can_credit(balances, to, id, amount) {
        Err(Error::Overflow)
    } else {
        Ok(())
    }
}

/// The outcome of a burn, given the hook's `verdict`.
pub open spec fn burn_result(
    balances: Balances,
    verdict: Result<(), Error>,
    from: AccountId,
    id: TokenId,
    amount: Balance,
) -> Result<(), Error> {
    if verdict is Err {
        verdict
    } else if !can_debit(balances, from, id, amount) {
        Err(Error::InsufficientBalance)
    } else {
        Ok(())
    }
}

/// Once a leg of a batch fails, the batch fails with that leg's error
/// however many legs follow.
pub proof fn lemma_failed_leg_fails_batch(
    balances: Balances,
    from: AccountId,
    to: AccountId,
    ids: Seq<TokenId>,
    amounts: Seq<Balance>,
    failed: nat,
    count: nat,
)
    requires
        legs_moved(balances, from, to, ids, amounts, failed) is Err,
        failed <= count,
    ensures
        legs_moved(balances, from, to, ids, amounts, count) == legs_moved(
            balances,
            from,
            to,
            ids,
            amounts,
            failed,
        ),
    decreases count,
{
    if failed < count {
        lemma_failed_leg_fails_batch(balances, from, to, ids, amounts, failed, (count - 1) as nat);
    }
}

/// A transfer that neither the hook nor the balances stand against
/// succeeds exactly when the caller is the source account or one of its
/// approved operators.
pub proof fn lemma_transfer_authorization(
    balances: Balances,
    approvals: Approvals,
    verdict: Result<(), Error>,
    caller: AccountId,
    from: AccountId,
    to: AccountId,
    id: TokenId,
    amount: Balance,
)
    requires
        verdict is Ok,
        move_result(balances, from, to, id, amount) is Ok,
    ensures
        transfer_result(balances, approvals, verdict, caller, from, to, id, amount) is Ok <==> caller
            == from || approvals.contains((from, caller)),
{
}

/// A caller that is neither the source account nor one of its approved
/// operators gets `UnauthorizedOperator`, whatever the hook and the balances
/// say, for a single transfer and for a batch of matching lengths.
pub proof fn lemma_unauthorized_is_refused(
    balances: Balances,
    approvals: Approvals,
    verdict: Result<(), Error>,
    caller: AccountId,
    from: AccountId,
    to: AccountId,
    ids: Seq<TokenId>,
    amounts: Seq<Balance>,
)
    requires
        caller != from,
        !approvals.contains((from, caller)),
    ensures
        ids.len() > 0 && amounts.len() > 0 ==> transfer_result(
            balances,
            approvals,
            verdict,
            caller,
            from,
            to,
            ids[0],
            amounts[0],
        ) == Err::<(), Error>(Error::UnauthorizedOperator),
        ids.len() == amounts.len() ==> batch_result(
            balances,
            approvals,
            verdict,
            caller,
            from,
            to,
            ids,
            amounts,
        ) == Err::<Balances, Error>(Error::UnauthorizedOperator),
{
}

/// Moving to oneself changes no balance.
pub proof fn lemma_self_transfer(
    balances: Balances,
    account: AccountId,
    id: TokenId,
    amount: Balance,
)
    requires
        is_complete(balances),
        can_debit(balances, account, id, amount),
    ensures
        move_result(balances, account, account, id, amount) is Ok,
        moved(balances, account, account, id, amount) == balances,
{
}

/// What a transfer engine holds: balances and operator approvals.
pub struct EngineState {
    pub balances: Balances,
    pub approvals: Approvals,
}

/// Balances and approvals together with the operations that move tokens.
pub struct TransferEngine {
    ledger: BalanceLedger,
    approvals: ApprovalRegistry,
}

impl View for TransferEngine {
    type V = EngineState;

    closed spec fn view(&self) -> EngineState {
        EngineState { balances: self.ledger@, approvals: self.approvals@ }
    }
}

impl TransferEngine {
    /// An engine with no balances and no approvals.
    pub fn new() -> (engine: TransferEngine)
        ensures
            engine@.balances == no_balances(),
            engine@.approvals == Set::<(AccountId, AccountId)>::empty(),
    {
        TransferEngine { ledger: BalanceLedger::new(), approvals: ApprovalRegistry::new() }
    }

    /// What `account` holds of class `id`.
    pub fn balance_of(&self, account: &AccountId, id: &TokenId) -> (balance: Balance)
        ensures
            balance == self@.balances[(*account, *id)],
    {
        self.ledger.balance_of(account, id)
    }

    /// Looks up `accounts[i]`'s balance of class `ids[i]` for each position
    /// that both inputs have, in order.
    pub fn balance_of_batch(
        &self,
        accounts: &Vec<AccountId>,
        ids: &Vec<TokenId>,
    ) -> (balances: Vec<Balance>)
        ensures
            balances@.len() == if accounts@.len() <= ids@.len() {
                accounts@.len()
            } else {
                ids@.len()
            },
            forall|i: int|
                0 <= i < balances@.len() ==> #[trigger] balances@[i] == self@.balances[(
                    accounts@[i],
                    ids@[i],
                )],
    {
        self.ledger.balance_of_batch(accounts, ids)
    }

    /// Whether `owner` has approved `operator`.
    pub fn is_approved_for_all(&self, owner: &AccountId, operator: &AccountId) -> (approved: bool)
        ensures
            approved == self@.approvals.contains((*owner, *operator)),
    {
        self.approvals.is_approved_for_all(owner, operator)
    }

    /// Sets the approval of `operator` by `owner` to `approved`.
    pub fn set_approval_for_all(
        &mut self,
        owner: AccountId,
        operator: AccountId,
        approved: bool,
    ) -> (event: ApprovalForAll)
        ensures
            final(self)@.approvals == with_approval(old(self)@.approvals, owner, operator, approved),
            final(self)@.balances == old(self)@.balances,
            event == (ApprovalForAll { owner, operator, approved }),
    {
        self.approvals.set_approval_for_all(owner, operator, approved)
    }

    /// Whether `caller` may move the tokens of `from`.
    fn authorized(&self, caller: &AccountId, from: &AccountId) -> (allowed: bool)
        ensures
            allowed == may_move(self@.approvals, *caller, *from),
    {
        *caller == *from || self.approvals.is_approved_for_all(from, caller)
    }

    /// Moves `amount` of class `id` from `from` to `to` for `caller`, or
    /// changes nothing.  On success returns the record of the transfer.
    pub fn safe_transfer<H: TransferHook>(
        &mut self,
        hook: &H,
        caller: AccountId,
        from: AccountId,
        to: AccountId,
        id: TokenId,
        amount: Balance,
        data: Vec<u8>,
    ) -> (outcome: Result<TransferSingle, Error>)
        ensures
            final(self)@.approvals == old(self)@.approvals,
            match outcome {
                Ok(event) => {
                    &&& transfer_result(
                        old(self)@.balances,
                        old(self)@.approvals,
                        hook.verdict(caller, Some(from), Some(to), seq![id], seq![amount], data@),
                        caller,
                        from,
                        to,
                        id,
                        amount,
                    ) is Ok
                    &&& final(self)@.balances == moved(old(self)@.balances, from, to, id, amount)
                    &&& event == (TransferSingle {
                        operator: caller,
                        from: Some(from),
                        to: Some(to),
                        id,
                        value: amount,
                    })
                },
                Err(error) => {
                    &&& transfer_result(
                        old(self)@.balances,
                        old(self)@.approvals,
                        hook.verdict(caller, Some(from), Some(to), seq![id], seq![amount], data@),
                        caller,
                        from,
                        to,
                        id,
                        amount,
                    ) == Err::<(), Error>(error)
                    &&& final(self)@.balances == old(self)@.balances
                },
            },
    {
        if !self.authorized(&caller, &from) {
            return Err(Error::UnauthorizedOperator);
        }
        let ids: Vec<TokenId> = vec![id];
        let amounts: Vec<Balance> = vec![amount];
        assert(ids@ =~= seq![id]);
        assert(amounts@ =~= seq![amount]);
        match hook.before_token_transfer(&caller, &Some(from), &Some(to), &ids, &amounts, &data) {
            Err(error) => {
                return Err(error);
            },
            Ok(()) => {},
        }
        proof {
            self.ledger.lemma_complete();
        }
        match self.ledger.debit(from, id, amount) {
            Err(error) => {
                return Err(error);
            },
            Ok(()) => {},
        }
        match self.ledger.credit(to, id, amount) {
            Err(error) => {
                // The source gets back what it gave.  That credit cannot fail:
                // it restores a balance that the source held a moment ago.
                match self.ledger.credit(from, id, amount) {
                    Ok(()) => Err(error),
                    Err(impossible) => {
                        assert(false);
                        Err(impossible)
                    },
                }
            },
            Ok(()) => Ok(
                TransferSingle { operator: caller, from: Some(from), to: Some(to), id, value: amount },
            ),
        }
    }

    /// Moves `amounts[i]` of class `ids[i]` from `from` to `to` for `caller`,
    /// leg by leg in the order given, or changes nothing.  On success returns
    /// the record of the batch.
    pub fn safe_batch_transfer<H: TransferHook>(
        &mut self,
        hook: &H,
        caller: AccountId,
        from: AccountId,
        to: AccountId,
        ids: Vec<TokenId>,
        amounts: Vec<Balance>,
        data: Vec<u8>,
    ) -> (outcome: Result<TransferBatch, Error>)
        ensures
            final(self)@.approvals == old(self)@.approvals,
            match outcome {
                Ok(event) => {
                    &&& batch_result(
                        old(self)@.balances,
                        old(self)@.approvals,
                        hook.verdict(caller, Some(from), Some(to), ids@, amounts@, data@),
                        caller,
                        from,
                        to,
                        ids@,
                        amounts@,
                    ) == Ok::<Balances, Error>(final(self)@.balances)
                    &&& event.operator == caller
                    &&& event.from == Some(from)
                    &&& event.to == Some(to)
                    &&& event.id@ == ids@
                    &&& event.value@ == amounts@
                },
                Err(error) => {
                    &&& batch_result(
                        old(self)@.balances,
                        old(self)@.approvals,
                        hook.verdict(caller, Some(from), Some(to), ids@, amounts@, data@),
                        caller,
                        from,
                        to,
                        ids@,
                        amounts@,
                    ) == Err::<Balances, Error>(error)
                    &&& final(self)@.balances == old(self)@.balances
                },
            },
    {
        if ids.len() != amounts.len() {
            return Err(Error::LengthMismatch);
        }
        if !self.authorized(&caller, &from) {
            return Err(Error::UnauthorizedOperator);
        }
        match hook.before_token_transfer(&caller, &Some(from), &Some(to), &ids, &amounts, &data) {
            Err(error) => {
                return Err(error);
            },
            Ok(()) => {},
        }
        // The legs run on a copy, which replaces the ledger only when every
        // leg has succeeded.
        let ghost start = self.ledger@;
        let mut work = self.ledger.clone();
        let mut i: usize = 0;
        while i < ids.len()
            invariant
                i <= ids@.len(),
                ids@.len() == amounts@.len(),
                self.ledger@ == start,
                self.approvals@ == old(self).approvals@,
                start == old(self).ledger@,
                may_move(old(self).approvals@, caller, from),
                hook.verdict(caller, Some(from), Some(to), ids@, amounts@, data@) is Ok,
                legs_moved(start, from, to, ids@, amounts@, i as nat) == Ok::<Balances, Error>(
                    work@,
                ),
            decreases ids@.len() - i,
        {
            let ghost so_far = work@;
            match work.debit(from, ids[i], amounts[i]) {
                Err(error) => {
                    proof {
                        assert(legs_moved(start, from, to, ids@, amounts@, (i + 1) as nat)
                            == Err::<Balances, Error>(error));
                        lemma_failed_leg_fails_batch(
                            start,
                            from,
                            to,
                            ids@,
                            amounts@,
                            (i + 1) as nat,
                            ids@.len(),
                        );
                    }
                    return Err(error);
                },
                Ok(()) => {},
            }
            match work.credit(to, ids[i], amounts[i]) {
                Err(error) => {
                    proof {
                        assert(legs_moved(start, from, to, ids@, amounts@, (i + 1) as nat)
                            == Err::<Balances, Error>(error));
                        lemma_failed_leg_fails_batch(
                            start,
                            from,
                            to,
                            ids@,
                            amounts@,
                            (i + 1) as nat,
                            ids@.len(),
                        );
                    }
                    return Err(error);
                },
                Ok(()) => {},
            }
            assert(legs_moved(start, from, to, ids@, amounts@, (i + 1) as nat) == Ok::<
                Balances,
                Error,
            >(work@));
            i += 1;
        }
        self.ledger = work;
        Ok(TransferBatch { operator: caller, from: Some(from), to: Some(to), id: ids, value: amounts })
    }

    /// Creates `amount` new tokens of class `id` for `to` at the request of
    /// `caller`, or changes nothing.  On success returns the record of the
    /// mint: a transfer without a source.
    pub fn mint<H: TransferHook>(
        &mut self,
        hook: &H,
        caller: AccountId,
        to: AccountId,
        id: TokenId,
        amount: Balance,
        data: Vec<u8>,
    ) -> (outcome: Result<TransferSingle, Error>)
        ensures
            final(self)@.approvals == old(self)@.approvals,
            match outcome {
                Ok(event) => {
                    &&& mint_result(
                        old(self)@.balances,
                        hook.verdict(caller, None, Some(to), seq![id], seq![amount], data@),
                        to,
                        id,
                        amount,
                    ) is Ok
                    &&& final(self)@.balances == credited(old(self)@.balances, to, id, amount)
                    &&& event == (TransferSingle {
                        operator: caller,
                        from: None,
                        to: Some(to),
                        id,
                        value: amount,
                    })
                },
                Err(error) => {
                    &&& mint_result(
                        old(self)@.balances,
                        hook.verdict(caller, None, Some(to), seq![id], seq![amount], data@),
                        to,
                        id,
                        amount,
                    ) == Err::<(), Error>(error)
                    &&& final(self)@.balances == old(self)@.balances
                },
            },
    {
        let ids: Vec<TokenId> = vec![id];
        let amounts: Vec<Balance> = vec![amount];
        assert(ids@ =~= seq![id]);
        assert(amounts@ =~= seq![amount]);
        match hook.before_token_transfer(&caller, &None, &Some(to), &ids, &amounts, &data) {
            Err(error) => {
                return Err(error);
            },
            Ok(()) => {},
        }
        match self.ledger.credit(to, id, amount) {
            Err(error) => Err(error),
            Ok(()) => Ok(
                TransferSingle { operator: caller, from: None, to: Some(to), id, value: amount },
            ),
        }
    }

    /// Destroys `amount` tokens of class `id` held by `from` at the request
    /// of `caller`, or changes nothing.  The hook sees no data.  On success
    /// returns the record of the burn: a transfer without a destination.
    pub fn burn<H: TransferHook>(
        &mut self,
        hook: &H,
        caller: AccountId,
        from: AccountId,
        id: TokenId,
        amount: Balance,
    ) -> (outcome: Result<TransferSingle, Error>)
        ensures
            final(self)@.approvals == old(self)@.approvals,
            match outcome {
                Ok(event) => {
                    &&& burn_result(
                        old(self)@.balances,
                        hook.verdict(
                            caller,
                            Some(from),
                            None,
                            seq![id],
                            seq![amount],
                            Seq::<u8>::empty(),
                        ),
                        from,
                        id,
                        amount,
                    ) is Ok
                    &&& final(self)@.balances == debited(old(self)@.balances, from, id, amount)
                    &&& event == (TransferSingle {
                        operator: caller,
                        from: Some(from),
                        to: None,
                        id,
                        value: amount,
                    })
                },
                Err(error) => {
                    &&& burn_result(
                        old(self)@.balances,
                        hook.verdict(
                            caller,
                            Some(from),
                            None,
                            seq![id],
                            seq![amount],
                            Seq::<u8>::empty(),
                        ),
                        from,
                        id,
                        amount,
                    ) == Err::<(), Error>(error)
                    &&& final(self)@.balances == old(self)@.balances
                },
            },
    {
        let ids: Vec<TokenId> = vec![id];
        let amounts: Vec<Balance> = vec![amount];
        let data: Vec<u8> = Vec::new();
        assert(ids@ =~= seq![id]);
        assert(amounts@ =~= seq![amount]);
        match hook.before_token_transfer(&caller, &Some(from), &None, &ids, &amounts, &data) {
            Err(error) => {
                return Err(error);
            },
            Ok(()) => {},
        }
        match self.ledger.debit(from, id, amount) {
            Err(error) => Err(error),
            Ok(()) => Ok(
                TransferSingle { operator: caller, from: Some(from), to: None, id, value: amount },
            ),
        }
    }
}

} // verus!
