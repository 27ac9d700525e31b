//! Operator approvals: which operator may move all tokens of which owner.

use crate::events::ApprovalForAll;
use crate::ids::AccountId;
use vstd::prelude::*;

verus! {

/// The (owner, operator) pairs for which an approval is in force.  A pair
/// that was never set is not approved.
pub type Approvals = Set<(AccountId, AccountId)>;

/// `approvals` after `owner` set its approval of `operator` to `approved`.
pub open spec fn with_approval(
    approvals: Approvals,
    owner: AccountId,
    operator: AccountId,
    approved: bool,
) -> Approvals {
    if approved {
        approvals.insert((owner, operator))
    } else {
        approvals.remove((owner, operator))
    }
}

/// Whether `caller` may move the tokens of `from`: it is `from` itself or
/// one of its approved operators.
pub open spec fn may_move(approvals: Approvals, caller: AccountId, from: AccountId) -> bool {
    caller == from || approvals.contains((from, caller))
}

/// Approving twice is the same as approving once.
pub proof fn lemma_approval_idempotent(approvals: Approvals, owner: AccountId, operator: AccountId)
    ensures
        with_approval(with_approval(approvals, owner, operator, true), owner, operator, true)
            == with_approval(approvals, owner, operator, true),
{
    assert(approvals.insert((owner, operator)).insert((owner, operator)) =~= approvals.insert(
        (owner, operator),
    ));
}

/// Approving and then revoking leaves the operator unapproved, and every
/// other pair as it was.
pub proof fn lemma_approval_revoked(approvals: Approvals, owner: AccountId, operator: AccountId)
    ensures
        !with_approval(
            with_approval(approvals, owner, operator, true),
            owner,
            operator,
            false,
        ).contains((owner, operator)),
        with_approval(with_approval(approvals, owner, operator, true), owner, operator, false)
            == approvals.remove((owner, operator)),
{
    assert(approvals.insert((owner, operator)).remove((owner, operator)) =~= approvals.remove(
        (owner, operator),
    ));
}

/// One approval in force.
#[derive(Clone, Copy)]
struct Grant {
    owner: AccountId,
    operator: AccountId,
}

spec fn granted_at(grants: Seq<Grant>, i: int, owner: AccountId, operator: AccountId) -> bool {
    0 <= i < grants.len() && grants[i].owner == owner && grants[i].operator == operator
}

spec fn distinct_grants(grants: Seq<Grant>) -> bool {
    forall|i: int, j: int|
        #![trigger grants[i], grants[j]]
        0 <= i < j < grants.len() ==> grants[i] != grants[j]
}

spec fn granted(grants: Seq<Grant>) -> Approvals {
    Set::new(
        |pair: (AccountId, AccountId)| exists|i: int| granted_at(grants, i, pair.0, pair.1),
    )
}

proof fn lemma_granted(grants: Seq<Grant>, owner: AccountId, operator: AccountId)
    ensures
        granted(grants).contains((owner, operator)) <==> exists|i: int|
            granted_at(grants, i, owner, operator),
{
    let pair = (owner, operator);
    if exists|i: int| granted_at(grants, i, owner, operator) {
        let i = choose|i: int| granted_at(grants, i, owner, operator);
        assert(granted_at(grants, i, pair.0, pair.1));
    }
}

/// Index of the grant of `owner` to `operator`, if there is one.
fn find(grants: &Vec<Grant>, owner: &AccountId, operator: &AccountId) -> (found: Option<usize>)
    ensures
        match found {
            Some(i) => granted_at(grants@, i as int, *owner, *operator),
            None => forall|i: int| !granted_at(grants@, i, *owner, *operator),
        },
{
    let mut i: usize = 0;
    while i < grants.len()
        invariant
            i <= grants.len(),
            forall|k: int| 0 <= k < i ==> !granted_at(grants@, k, *owner, *operator),
        decreases grants.len() - i,
    {
        if grants[i].owner == *owner && grants[i].operator == *operator {
            return Some(i);
        }
        i += 1;
    }
    None
}

/// Adds or removes the grant of `owner` to `operator`.
fn store(grants: &mut Vec<Grant>, owner: AccountId, operator: AccountId, approved: bool)
    requires
        distinct_grants(old(grants)@),
    ensures
        distinct_grants(final(grants)@),
        granted(final(grants)@) == with_approval(granted(old(grants)@), owner, operator, approved),
{
    let ghost before = grants@;
    let found = find(grants, &owner, &operator);
    match found {
        Some(i) => {
            if !approved {
                grants.swap_remove(i);
                proof {
                    let after = grants@;
                    let last = before.len() - 1;
                    assert forall|pair: (AccountId, AccountId)|
                        granted(after).contains(pair) <==> with_approval(
                            granted(before),
                            owner,
                            operator,
                            false,
                        ).contains(pair) by {
                        if granted(after).contains(pair) {
                            let j = choose|j: int| granted_at(after, j, pair.0, pair.1);
                            let source = if j == i { last } else { j };
                            assert(granted_at(before, source, pair.0, pair.1));
                        }
                        if granted(before).contains(pair) && pair != (owner, operator) {
                            let j = choose|j: int| granted_at(before, j, pair.0, pair.1);
                            let target = if j == last { i as int } else { j };
                            assert(granted_at(after, target, pair.0, pair.1));
                        }
                    }
                    assert(granted(after) =~= with_approval(
                        granted(before),
                        owner,
                        operator,
                        false,
                    ));
                }
            } else {
                proof {
                    lemma_granted(before, owner, operator);
                }
            }
        },
        None => {
            if approved {
                grants.push(Grant { owner, operator });
                proof {
                    let after = grants@;
                    let last = before.len() as int;
                    assert forall|a: int, b: int|
                        #![trigger after[a], after[b]]
                        0 <= a < b < after.len() implies after[a] != after[b] by {
                        if b == last {
                            assert(!granted_at(before, a, owner, operator));
                        }
                    }
                    assert forall|pair: (AccountId, AccountId)|
                        granted(after).contains(pair) <==> granted(before).insert(
                            (owner, operator),
                        ).contains(pair) by {
                        if granted(after).contains(pair) {
                            let j = choose|j: int| granted_at(after, j, pair.0, pair.1);
                            if j != last {
                                assert(granted_at(before, j, pair.0, pair.1));
                            }
                        }
                        if granted(before).contains(pair) {
                            let j = choose|j: int| granted_at(before, j, pair.0, pair.1);
                            assert(granted_at(after, j, pair.0, pair.1));
                        }
                        if pair == (owner, operator) {
                            assert(granted_at(after, last, pair.0, pair.1));
                        }
                    }
                }
            } else {
                proof {
                    lemma_granted(before, owner, operator);
                }
            }
        },
    }
}

/// Operator approvals keyed by owner and operator.
pub struct ApprovalRegistry {
    grants: Vec<Grant>,
}

impl View for ApprovalRegistry {
    type V = Approvals;

    closed spec fn view(&self) -> Approvals {
        granted(self.grants@)
    }
}

impl ApprovalRegistry {
    #[verifier::type_invariant]
    spec fn well_formed(&self) -> bool {
        distinct_grants(self.grants@)
    }

    /// A registry in which nobody approved anybody.
    pub fn new() -> (registry: ApprovalRegistry)
        ensures
            registry@ == Set::<(AccountId, AccountId)>::empty(),
    {
        let registry = ApprovalRegistry { grants: Vec::new() };
        registry
    }

    /// Whether `owner` has approved `operator`.
    pub fn is_approved_for_all(&self, owner: &AccountId, operator: &AccountId) -> (approved: bool)
        ensures
            approved == self@.contains((*owner, *operator)),
    {
        proof {
            lemma_granted(self.grants@, *owner, *operator);
        }
        match find(&self.grants, owner, operator) {
            Some(_) => true,
            None => false,
        }
    }

    /// Sets the approval of `operator` by `owner` to `approved`, whatever it
    /// was, and returns the record of the change.  An owner may name itself:
    /// the approval is stored like any other and changes nothing about what
    /// the owner may do.
    pub fn set_approval_for_all(
        &mut self,
        owner: AccountId,
        operator: AccountId,
        approved: bool,
    ) -> (event: ApprovalForAll)
        ensures
            final(self)@ == with_approval(old(self)@, owner, operator, approved),
            event == (ApprovalForAll { owner, operator, approved }),
    {
        proof {
            use_type_invariant(&*self);
        }
        let mut grants: Vec<Grant> = Vec::new();
        core::mem::swap(&mut grants, &mut self.grants);
        store(&mut grants, owner, operator, approved);
        self.grants = grants;
        ApprovalForAll { owner, operator, approved }
    }
}

} // verus!
