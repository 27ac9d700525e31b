use metis_token::erc1155::Erc1155;
use metis_token::error::Error;
use metis_token::events::{
    ApprovalForAll, OwnershipTransferred, Paused, TransferSingle, Unpaused,
};
use metis_token::ids::{AccountId, TokenId};

fn account(n: u8) -> AccountId {
    AccountId([n; 32])
}

fn class(n: u8) -> TokenId {
    TokenId::new([n; 32])
}

fn token() -> Erc1155 {
    Erc1155::new(account(1), String::from("MockErc1155Token"))
}

#[test]
fn new_works() {
    let erc1155 = Erc1155::new(account(1), String::from("MockErc1155Token"));
    let token_a = TokenId::new([0x0a; 32]);
    assert_eq!(
        String::from("MockErc1155Token"),
        erc1155.url(token_a),
        "name should be default"
    );
}

#[test]
fn new_token_is_empty_owned_and_running() {
    let t = token();
    assert_eq!(t.get_ownership(), Some(account(1)));
    assert!(!t.paused());
    assert_eq!(t.balance_of(account(1), class(1)), 0);
    assert!(!t.is_approved_for_all(account(1), account(2)));
    assert_eq!(t.url(class(7)), "MockErc1155Token");
}

#[test]
fn mint_then_transfer_then_overdraw() {
    let x = account(10);
    let y = account(11);
    let k1 = class(1);
    let mut t = token();
    let minted = t.mint_test(x, x, k1, 100, vec![]);
    assert_eq!(
        minted,
        Ok(TransferSingle { operator: x, from: None, to: Some(x), id: k1, value: 100 })
    );
    let moved = t.safe_transfer_from(x, x, y, k1, 40, vec![1, 2, 3]);
    assert_eq!(
        moved,
        Ok(TransferSingle { operator: x, from: Some(x), to: Some(y), id: k1, value: 40 })
    );
    assert_eq!(t.balance_of(x, k1), 60);
    assert_eq!(t.balance_of(y, k1), 40);
    let refused = t.safe_transfer_from(y, y, x, k1, 61, vec![]);
    assert_eq!(refused, Err(Error::InsufficientBalance));
    assert_eq!(t.balance_of(x, k1), 60);
    assert_eq!(t.balance_of(y, k1), 40);
}

#[test]
fn batch_with_one_overdrawn_leg_moves_nothing() {
    let x = account(10);
    let y = account(11);
    let k1 = class(1);
    let k2 = class(2);
    let mut t = token();
    t.mint_test(x, x, k1, 100, vec![]).unwrap();
    t.mint_test(x, x, k2, 5, vec![]).unwrap();
    let refused = t.safe_batch_transfer_from(x, x, y, vec![k1, k2], vec![10, 999999999], vec![]);
    assert_eq!(refused, Err(Error::InsufficientBalance));
    assert_eq!(t.balance_of(x, k1), 100);
    assert_eq!(t.balance_of(y, k1), 0);
    assert_eq!(t.balance_of(x, k2), 5);
    assert_eq!(t.balance_of(y, k2), 0);
}

#[test]
fn batch_moves_every_leg_in_order() {
    let x = account(10);
    let y = account(11);
    let k1 = class(1);
    let k2 = class(2);
    let mut t = token();
    t.mint_test(x, x, k1, 100, vec![]).unwrap();
    t.mint_test(x, x, k2, 50, vec![]).unwrap();
    let event = t
        .safe_batch_transfer_from(x, x, y, vec![k1, k2, k1], vec![10, 20, 30], vec![9])
        .unwrap();
    assert_eq!(event.operator, x);
    assert_eq!(event.from, Some(x));
    assert_eq!(event.to, Some(y));
    assert_eq!(event.id, vec![k1, k2, k1]);
    assert_eq!(event.value, vec![10, 20, 30]);
    assert_eq!(t.balance_of_batch(vec![x, y, x, y], vec![k1, k1, k2, k2]), vec![60, 40, 30, 20]);
}

#[test]
fn batch_counts_earlier_legs_against_later_ones() {
    let x = account(10);
    let y = account(11);
    let k1 = class(1);
    let mut t = token();
    t.mint_test(x, x, k1, 100, vec![]).unwrap();
    let refused = t.safe_batch_transfer_from(x, x, y, vec![k1, k1], vec![60, 60], vec![]);
    assert_eq!(refused, Err(Error::InsufficientBalance));
    assert_eq!(t.balance_of(x, k1), 100);
    assert_eq!(t.balance_of(y, k1), 0);
    t.safe_batch_transfer_from(x, x, y, vec![k1, k1], vec![60, 40], vec![]).unwrap();
    assert_eq!(t.balance_of(x, k1), 0);
    assert_eq!(t.balance_of(y, k1), 100);
}

#[test]
fn batch_failing_at_each_leg_moves_nothing() {
    let x = account(10);
    let y = account(11);
    let legs: usize = 5;
    for failing in 0..legs {
        let mut t = token();
        let mut ids = Vec::new();
        let mut amounts = Vec::new();
        for leg in 0..legs {
            let id = class(leg as u8 + 1);
            t.mint_test(x, x, id, 10, vec![]).unwrap();
            ids.push(id);
            amounts.push(if leg == failing { 11 } else { 10 });
        }
        let refused = t.safe_batch_transfer_from(x, x, y, ids.clone(), amounts, vec![]);
        assert_eq!(refused, Err(Error::InsufficientBalance));
        for id in ids {
            assert_eq!(t.balance_of(x, id), 10);
            assert_eq!(t.balance_of(y, id), 0);
        }
    }
}

#[test]
fn batch_overflowing_leg_moves_nothing() {
    let x = account(10);
    let y = account(11);
    let k1 = class(1);
    let k2 = class(2);
    let mut t = token();
    t.mint_test(x, x, k1, 7, vec![]).unwrap();
    t.mint_test(x, x, k2, 1, vec![]).unwrap();
    t.mint_test(x, y, k2, u128::MAX, vec![]).unwrap();
    let refused = t.safe_batch_transfer_from(x, x, y, vec![k1, k2], vec![7, 1], vec![]);
    assert_eq!(refused, Err(Error::Overflow));
    assert_eq!(t.balance_of(x, k1), 7);
    assert_eq!(t.balance_of(y, k1), 0);
    assert_eq!(t.balance_of(x, k2), 1);
    assert_eq!(t.balance_of(y, k2), u128::MAX);
}

#[test]
fn batch_of_unequal_lengths_is_refused() {
    let x = account(10);
    let y = account(11);
    let mut t = token();
    t.mint_test(x, x, class(1), 10, vec![]).unwrap();
    let refused = t.safe_batch_transfer_from(x, x, y, vec![class(1)], vec![1, 2], vec![]);
    assert_eq!(refused, Err(Error::LengthMismatch));
    // the lengths are looked at before the caller is
    let refused = t.safe_batch_transfer_from(y, x, y, vec![class(1)], vec![], vec![]);
    assert_eq!(refused, Err(Error::LengthMismatch));
    assert_eq!(t.balance_of(x, class(1)), 10);
}

#[test]
fn empty_batch_succeeds_and_moves_nothing() {
    let x = account(10);
    let y = account(11);
    let mut t = token();
    t.mint_test(x, x, class(1), 10, vec![]).unwrap();
    let event = t.safe_batch_transfer_from(x, x, y, vec![], vec![], vec![]).unwrap();
    assert!(event.id.is_empty());
    assert!(event.value.is_empty());
    assert_eq!(t.balance_of(x, class(1)), 10);
}

#[test]
fn transfer_needs_source_or_operator() {
    let a = account(20);
    let b = account(21);
    let c = account(22);
    let k = class(3);
    let mut t = token();
    t.mint_test(a, a, k, 10, vec![]).unwrap();
    assert_eq!(t.safe_transfer_from(c, a, b, k, 1, vec![]), Err(Error::UnauthorizedOperator));
    assert_eq!(t.balance_of(a, k), 10);
    assert_eq!(t.balance_of(b, k), 0);
    assert_eq!(
        t.safe_batch_transfer_from(c, a, b, vec![k], vec![1], vec![]),
        Err(Error::UnauthorizedOperator)
    );
    let approval = t.set_approval_for_all(a, c, true);
    assert_eq!(approval, ApprovalForAll { owner: a, operator: c, approved: true });
    assert!(t.safe_transfer_from(c, a, b, k, 1, vec![]).is_ok());
    assert!(t.safe_transfer_from(a, a, b, k, 1, vec![]).is_ok());
    assert_eq!(t.balance_of(a, k), 8);
    assert_eq!(t.balance_of(b, k), 2);
    // the approval runs one way only
    assert_eq!(t.safe_transfer_from(a, c, b, k, 0, vec![]), Err(Error::UnauthorizedOperator));
    t.set_approval_for_all(a, c, false);
    assert_eq!(t.safe_transfer_from(c, a, b, k, 1, vec![]), Err(Error::UnauthorizedOperator));
}

#[test]
fn unauthorized_comes_before_every_other_refusal() {
    let a = account(20);
    let b = account(21);
    let c = account(22);
    let mut t = token();
    // nothing to move, and paused as well
    t.pause(account(1)).unwrap();
    assert_eq!(t.safe_transfer_from(c, a, b, class(1), 5, vec![]), Err(Error::UnauthorizedOperator));
    assert_eq!(t.safe_transfer_from(a, a, b, class(1), 5, vec![]), Err(Error::ContractPaused));
}

#[test]
fn approving_twice_is_approving_once() {
    let a = account(20);
    let b = account(21);
    let mut t = token();
    t.set_approval_for_all(a, b, true);
    t.set_approval_for_all(a, b, true);
    assert!(t.is_approved_for_all(a, b));
    assert!(!t.is_approved_for_all(b, a));
    let revoked = t.set_approval_for_all(a, b, false);
    assert_eq!(revoked, ApprovalForAll { owner: a, operator: b, approved: false });
    assert!(!t.is_approved_for_all(a, b));
    t.set_approval_for_all(a, b, false);
    assert!(!t.is_approved_for_all(a, b));
}

#[test]
fn approving_oneself_is_stored_and_changes_nothing_else() {
    let a = account(20);
    let b = account(21);
    let k = class(1);
    let mut t = token();
    t.mint_test(a, a, k, 3, vec![]).unwrap();
    let approval = t.set_approval_for_all(a, a, true);
    assert_eq!(approval, ApprovalForAll { owner: a, operator: a, approved: true });
    assert!(t.is_approved_for_all(a, a));
    assert!(t.safe_transfer_from(a, a, b, k, 1, vec![]).is_ok());
    t.set_approval_for_all(a, a, false);
    assert!(!t.is_approved_for_all(a, a));
    assert!(t.safe_transfer_from(a, a, b, k, 1, vec![]).is_ok());
    assert_eq!(t.balance_of(b, k), 2);
}

#[test]
fn transfer_to_oneself_changes_no_balance() {
    let a = account(20);
    let k = class(1);
    let mut t = token();
    t.mint_test(a, a, k, u128::MAX, vec![]).unwrap();
    let event = t.safe_transfer_from(a, a, a, k, u128::MAX, vec![]);
    assert_eq!(
        event,
        Ok(TransferSingle { operator: a, from: Some(a), to: Some(a), id: k, value: u128::MAX })
    );
    assert_eq!(t.balance_of(a, k), u128::MAX);
    assert_eq!(t.safe_transfer_from(a, a, a, class(2), 1, vec![]), Err(Error::InsufficientBalance));
    t.pause(account(1)).unwrap();
    assert_eq!(t.safe_transfer_from(a, a, a, k, 1, vec![]), Err(Error::ContractPaused));
}

#[test]
fn transfer_that_overflows_gives_the_source_its_tokens_back() {
    let a = account(20);
    let b = account(21);
    let k = class(1);
    let mut t = token();
    t.mint_test(a, a, k, 5, vec![]).unwrap();
    t.mint_test(a, b, k, u128::MAX - 4, vec![]).unwrap();
    assert_eq!(t.safe_transfer_from(a, a, b, k, 5, vec![]), Err(Error::Overflow));
    assert_eq!(t.balance_of(a, k), 5);
    assert_eq!(t.balance_of(b, k), u128::MAX - 4);
    assert!(t.safe_transfer_from(a, a, b, k, 4, vec![]).is_ok());
    assert_eq!(t.balance_of(a, k), 1);
    assert_eq!(t.balance_of(b, k), u128::MAX);
}

#[test]
fn mint_overflow_and_burn_overdraw_are_refused() {
    let a = account(20);
    let k = class(1);
    let mut t = token();
    t.mint_test(a, a, k, u128::MAX, vec![]).unwrap();
    assert_eq!(t.mint_test(a, a, k, 1, vec![]), Err(Error::Overflow));
    assert_eq!(t.balance_of(a, k), u128::MAX);
    let burned = t.burn_test(a, a, k, u128::MAX - 1);
    assert_eq!(
        burned,
        Ok(TransferSingle { operator: a, from: Some(a), to: None, id: k, value: u128::MAX - 1 })
    );
    assert_eq!(t.burn_test(a, a, k, 2), Err(Error::InsufficientBalance));
    assert_eq!(t.balance_of(a, k), 1);
    assert!(t.burn_test(a, a, k, 1).is_ok());
    assert_eq!(t.balance_of(a, k), 0);
}

#[test]
fn supply_is_minted_less_burned() {
    let a = account(20);
    let b = account(21);
    let c = account(22);
    let k1 = class(1);
    let k2 = class(2);
    let mut t = token();
    t.mint_test(a, a, k1, 100, vec![]).unwrap();
    t.mint_test(a, b, k1, 50, vec![]).unwrap();
    t.mint_test(a, c, k2, 9, vec![]).unwrap();
    t.safe_transfer_from(a, a, c, k1, 30, vec![]).unwrap();
    t.burn_test(a, b, k1, 20).unwrap();
    assert!(t.burn_test(a, b, k1, 31).is_err());
    t.safe_batch_transfer_from(c, c, a, vec![k1, k2], vec![10, 9], vec![]).unwrap();
    let supply_k1: u128 = [a, b, c].iter().map(|who| t.balance_of(*who, k1)).sum();
    let supply_k2: u128 = [a, b, c].iter().map(|who| t.balance_of(*who, k2)).sum();
    assert_eq!(supply_k1, 100 + 50 - 20);
    assert_eq!(supply_k2, 9);
    assert_eq!(t.balance_of_batch(vec![a, b, c], vec![k1, k1, k1]), vec![80, 30, 20]);
}

#[test]
fn balance_of_batch_pairs_up_to_the_shorter_input() {
    let a = account(20);
    let b = account(21);
    let k1 = class(1);
    let k2 = class(2);
    let mut t = token();
    t.mint_test(a, a, k1, 1, vec![]).unwrap();
    t.mint_test(a, b, k2, 2, vec![]).unwrap();
    assert_eq!(t.balance_of_batch(vec![a, b], vec![k1, k2]), vec![1, 2]);
    assert_eq!(t.balance_of_batch(vec![a, b, a], vec![k2]), vec![0]);
    assert_eq!(t.balance_of_batch(vec![b], vec![k2, k1, k1]), vec![2]);
    assert_eq!(t.balance_of_batch(vec![], vec![k1]), Vec::<u128>::new());
}

#[test]
fn only_the_owner_pauses_and_resumes() {
    let owner = account(1);
    let other = account(2);
    let mut t = token();
    assert_eq!(t.pause(other), Err(Error::CallerIsNotOwner));
    assert!(!t.paused());
    assert_eq!(t.unpause(owner), Err(Error::NotPaused));
    assert_eq!(t.pause(owner), Ok(Paused { account: owner }));
    assert!(t.paused());
    assert_eq!(t.pause(owner), Err(Error::AlreadyPaused));
    assert_eq!(t.unpause(other), Err(Error::CallerIsNotOwner));
    assert!(t.paused());
    assert_eq!(t.unpause(owner), Ok(Unpaused { account: owner }));
    assert!(!t.paused());
}

#[test]
fn paused_token_moves_nothing() {
    let owner = account(1);
    let a = account(20);
    let b = account(21);
    let k = class(1);
    let mut t = token();
    t.mint_test(a, a, k, 10, vec![]).unwrap();
    t.pause(owner).unwrap();
    assert_eq!(t.mint_test(a, a, k, 1, vec![]), Err(Error::ContractPaused));
    assert_eq!(t.burn_test(a, a, k, 1), Err(Error::ContractPaused));
    assert_eq!(t.safe_transfer_from(a, a, b, k, 1, vec![]), Err(Error::ContractPaused));
    assert_eq!(
        t.safe_batch_transfer_from(a, a, b, vec![k], vec![1], vec![]),
        Err(Error::ContractPaused)
    );
    assert_eq!(t.balance_of(a, k), 10);
    // approvals are no transfers
    t.set_approval_for_all(a, b, true);
    assert!(t.is_approved_for_all(a, b));
    t.unpause(owner).unwrap();
    assert!(t.safe_transfer_from(b, a, b, k, 1, vec![]).is_ok());
    assert_eq!(t.balance_of(b, k), 1);
}

#[test]
fn ownership_passes_on_and_ends_with_renouncing() {
    let first = account(1);
    let second = account(2);
    let mut t = token();
    assert_eq!(t.transfer_ownership(second, second), Err(Error::CallerIsNotOwner));
    assert_eq!(t.get_ownership(), Some(first));
    assert_eq!(
        t.transfer_ownership(first, second),
        Ok(OwnershipTransferred { previous_owner: Some(first), new_owner: Some(second) })
    );
    assert_eq!(t.get_ownership(), Some(second));
    assert_eq!(t.pause(first), Err(Error::CallerIsNotOwner));
    assert_eq!(t.renounce_ownership(first), Err(Error::CallerIsNotOwner));
    assert_eq!(
        t.renounce_ownership(second),
        Ok(OwnershipTransferred { previous_owner: Some(second), new_owner: None })
    );
    assert_eq!(t.get_ownership(), None);
    for caller in [first, second, account(0), account(255)] {
        assert_eq!(t.pause(caller), Err(Error::CallerIsNotOwner));
        assert_eq!(t.unpause(caller), Err(Error::CallerIsNotOwner));
        assert_eq!(t.transfer_ownership(caller, first), Err(Error::CallerIsNotOwner));
        assert_eq!(t.renounce_ownership(caller), Err(Error::CallerIsNotOwner));
    }
    assert_eq!(t.get_ownership(), None);
    assert!(!t.paused());
}
