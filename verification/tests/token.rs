use votechain::address::ZERO_ADDRESS;
use votechain::gov_types::Version;
use votechain::token::{ContractError, TokenContract, TokenEvent};

fn setup() -> TokenContract {
    TokenContract::new("GTOKEN00000000000000000000000000000000000000000000000000".to_string())
}

fn addr(name: &str) -> String {
    format!("G{:0>55}", name.to_uppercase())
}

#[test]
fn test_test_initialize() {
    let mut c = setup();
    let admin = addr("admin");
    c.initialize(admin.clone(), 1_000_000).unwrap();
    assert_eq!(c.total_supply(), 1_000_000);
    assert_eq!(c.balance(&admin), 1_000_000);
}

#[test]
fn test_transfer() {
    let mut c = setup();
    let admin = addr("admin");
    let user = addr("user");
    c.initialize(admin.clone(), 1_000).unwrap();
    c.transfer(admin.clone(), user.clone(), 400).unwrap();
    assert_eq!(c.balance(&admin), 600);
    assert_eq!(c.balance(&user), 400);
}

#[test]
fn test_mint_burn() {
    let mut c = setup();
    let admin = addr("admin");
    let user = addr("user");
    c.initialize(admin.clone(), 1_000).unwrap();
    c.mint(admin.clone(), user.clone(), 500).unwrap();
    assert_eq!(c.total_supply(), 1_500);
    c.burn(admin.clone(), user.clone(), 200).unwrap();
    assert_eq!(c.total_supply(), 1_300);
}

#[test]
#[should_panic]
fn test_overdraft() {
    let mut c = setup();
    let admin = addr("admin");
    let user = addr("user");
    c.initialize(admin.clone(), 100).unwrap();
    c.transfer(admin, user, 999).unwrap();
}

#[test]
#[should_panic(expected = "not admin")]
fn test_mint_non_admin() {
    let mut c = setup();
    let admin = addr("admin");
    let user = addr("user");
    c.initialize(admin, 1_000).unwrap();
    c.mint(user.clone(), user, 500).expect("not admin");
}

#[test]
fn test_balance_of() {
    let mut c = setup();
    let admin = addr("admin");
    let user1 = addr("user1");
    let user2 = addr("user2");
    c.initialize(admin.clone(), 1_000).unwrap();
    assert_eq!(c.balance(&admin), 1_000);
    assert_eq!(c.balance(&user1), 0);
    c.transfer(admin.clone(), user1.clone(), 300).unwrap();
    assert_eq!(c.balance(&admin), 700);
    assert_eq!(c.balance(&user1), 300);
    assert_eq!(c.balance(&user2), 0);
}

#[test]
fn test_balance_of_named_function() {
    let mut c = setup();
    let admin = addr("admin");
    let user = addr("user");
    c.initialize(admin.clone(), 1_000).unwrap();
    assert_eq!(c.balance_of(&admin), 1_000);
    assert_eq!(c.balance_of(&user), 0);
    c.transfer(admin.clone(), user.clone(), 400).unwrap();
    assert_eq!(c.balance_of(&admin), 600);
    assert_eq!(c.balance_of(&user), 400);
}

#[test]
fn test_transfer_atomicity() {
    let mut c = setup();
    let admin = addr("admin");
    let user = addr("user");
    c.initialize(admin.clone(), 1_000).unwrap();
    let before_total = c.total_supply();
    c.transfer(admin.clone(), user.clone(), 400).unwrap();
    assert_eq!(c.balance(&admin) + c.balance(&user), before_total);
    assert_eq!(c.total_supply(), before_total);
}

#[test]
fn test_mint_increases_supply() {
    let mut c = setup();
    let admin = addr("admin");
    let user = addr("user");
    c.initialize(admin.clone(), 1_000).unwrap();
    assert_eq!(c.total_supply(), 1_000);
    c.mint(admin, user.clone(), 500).unwrap();
    assert_eq!(c.balance(&user), 500);
    assert_eq!(c.total_supply(), 1_500);
}

#[test]
fn test_events_mint() {
    let mut c = setup();
    let admin = addr("admin");
    let user = addr("user");
    c.initialize(admin.clone(), 0).unwrap();
    c.mint(admin, user.clone(), 300).unwrap();
    assert!(c.events().iter().any(|e| matches!(e,
        TokenEvent::Minted { to, amount } if *to == user && *amount == 300)));
}

#[test]
fn test_events_transfer() {
    let mut c = setup();
    let admin = addr("admin");
    let user = addr("user");
    c.initialize(admin.clone(), 1_000).unwrap();
    c.transfer(admin.clone(), user.clone(), 200).unwrap();
    assert!(c.events().iter().any(|e| matches!(e,
        TokenEvent::Transferred { from, to, amount }
            if *from == admin && *to == user && *amount == 200)));
}

#[test]
fn test_events_burn() {
    let mut c = setup();
    let admin = addr("admin");
    c.initialize(admin.clone(), 1_000).unwrap();
    c.burn(admin.clone(), admin.clone(), 400).unwrap();
    assert!(c.events().iter().any(|e| matches!(e,
        TokenEvent::Burned { from, amount } if *from == admin && *amount == 400)));
}

#[test]
fn test_transfer_to_self_is_noop() {
    let mut c = setup();
    let admin = addr("admin");
    c.initialize(admin.clone(), 1_000).unwrap();
    c.transfer(admin.clone(), admin.clone(), 400).unwrap();
    assert_eq!(c.balance(&admin), 1_000);
    assert_eq!(c.total_supply(), 1_000);
    assert!(!c.events().iter().any(|e| matches!(e,
        TokenEvent::Transferred { from, to, .. } if *from == admin && *to == admin)));
}

#[test]
#[should_panic]
fn test_transfer_zero_amount() {
    let mut c = setup();
    let admin = addr("admin");
    let user = addr("user");
    c.initialize(admin.clone(), 1_000).unwrap();
    c.transfer(admin, user, 0).unwrap();
}

#[test]
#[should_panic]
fn test_transfer_negative_amount() {
    let mut c = setup();
    let admin = addr("admin");
    let user = addr("user");
    c.initialize(admin.clone(), 1_000).unwrap();
    c.transfer(admin, user, -1).unwrap();
}

#[test]
fn test_initialize_zero_address_reverts() {
    let mut c = setup();
    let zero = ZERO_ADDRESS.to_string();
    assert_eq!(c.initialize(zero, 1_000), Err(ContractError::InvalidAddress));
    assert_eq!(c.total_supply(), 0);
}

#[test]
fn test_get_version() {
    let mut c = setup();
    let admin = addr("admin");
    c.initialize(admin, 1_000).unwrap();
    assert_eq!(c.get_version(), Version { major: 1, minor: 0, patch: 0 });
}

#[test]
fn test_approve_sets_allowance_and_allows_transfer_from() {
    let mut c = setup();
    let admin = addr("admin");
    let spender = addr("spender");
    let recipient = addr("recipient");
    c.initialize(admin.clone(), 1_000).unwrap();
    c.approve(admin.clone(), spender.clone(), 500).unwrap();
    assert_eq!(c.allowance(&admin, &spender), 500);
    c.transfer_from(spender.clone(), admin.clone(), recipient.clone(), 200).unwrap();
    assert_eq!(c.balance(&admin), 800);
    assert_eq!(c.balance(&recipient), 200);
    assert_eq!(c.allowance(&admin, &spender), 300);
}

#[test]
#[should_panic]
fn test_transfer_from_insufficient_allowance() {
    let mut c = setup();
    let admin = addr("admin");
    let spender = addr("spender");
    let recipient = addr("recipient");
    c.initialize(admin.clone(), 1_000).unwrap();
    c.approve(admin.clone(), spender.clone(), 100).unwrap();
    c.transfer_from(spender, admin, recipient, 200).unwrap();
}

#[test]
#[should_panic]
fn test_transfer_from_insufficient_balance() {
    let mut c = setup();
    let admin = addr("admin");
    let spender = addr("spender");
    let recipient = addr("recipient");
    c.initialize(admin.clone(), 100).unwrap();
    c.approve(admin.clone(), spender.clone(), 500).unwrap();
    c.transfer_from(spender, admin, recipient, 200).unwrap();
}

#[test]
#[should_panic]
fn test_approve_zero_address_reverts() {
    let mut c = setup();
    let admin = addr("admin");
    let zero = ZERO_ADDRESS.to_string();
    c.initialize(admin.clone(), 1_000).unwrap();
    c.approve(admin, zero, 100).unwrap();
}

#[test]
fn test_transfer_event_emitted() {
    let mut c = setup();
    let admin = addr("admin");
    let user = addr("user");
    c.initialize(admin.clone(), 1_000).unwrap();
    c.transfer(admin.clone(), user.clone(), 250).unwrap();
    assert!(c.events().iter().any(|e| matches!(e,
        TokenEvent::Transferred { from, to, amount }
            if *from == admin && *to == user && *amount == 250)));
}

#[test]
fn test_transfer_admin_success() {
    let mut c = setup();
    let admin = addr("admin");
    let new_admin = addr("newadmin");
    c.initialize(admin.clone(), 1_000).unwrap();
    c.transfer_admin(admin, new_admin.clone()).unwrap();
    let user = addr("user");
    c.mint(new_admin, user.clone(), 500).unwrap();
    assert_eq!(c.balance(&user), 500);
}

#[test]
fn test_transfer_admin_old_admin_loses_privileges() {
    let mut c = setup();
    let admin = addr("admin");
    let new_admin = addr("newadmin");
    c.initialize(admin.clone(), 1_000).unwrap();
    c.transfer_admin(admin, new_admin.clone()).unwrap();
    let user = addr("user");
    c.mint(new_admin, user.clone(), 500).unwrap();
    assert_eq!(c.balance(&user), 500);
}

#[test]
#[should_panic(expected = "not admin")]
fn test_transfer_admin_old_admin_cannot_mint() {
    let mut c = setup();
    let admin = addr("admin");
    let new_admin = addr("newadmin");
    c.initialize(admin.clone(), 1_000).unwrap();
    c.transfer_admin(admin.clone(), new_admin).unwrap();
    let user = addr("user");
    c.mint(admin, user, 100).expect("not admin");
}

#[test]
#[should_panic(expected = "not admin")]
fn test_transfer_admin_non_admin_reverts() {
    let mut c = setup();
    let admin = addr("admin");
    let non_admin = addr("nonadmin");
    let new_admin = addr("newadmin");
    c.initialize(admin, 1_000).unwrap();
    c.transfer_admin(non_admin, new_admin).expect("not admin");
}

#[test]
#[should_panic]
fn test_transfer_admin_zero_address_reverts() {
    let mut c = setup();
    let admin = addr("admin");
    c.initialize(admin.clone(), 1_000).unwrap();
    let zero = ZERO_ADDRESS.to_string();
    c.transfer_admin(admin, zero).unwrap();
}

#[test]
fn test_test_transfer_admin_emits_event() {
    let mut c = setup();
    let admin = addr("admin");
    let new_admin = addr("newadmin");
    c.initialize(admin.clone(), 1_000).unwrap();
    c.transfer_admin(admin.clone(), new_admin.clone()).unwrap();
    assert!(c.events().iter().any(|e| matches!(e,
        TokenEvent::AdminTransferred { old_admin, new_admin: n }
            if *old_admin == admin && *n == new_admin)));
}

// ── Further cases ────────────────────────────────────────────────────────────

#[test]
fn token_errors_for_each_refusal() {
    let mut c = setup();
    let admin = addr("admin");
    let user = addr("user");
    assert_eq!(c.mint(admin.clone(), user.clone(), 5), Err(ContractError::AdminNotSet));
    c.initialize(admin.clone(), 100).unwrap();
    assert_eq!(c.mint(user.clone(), user.clone(), 5), Err(ContractError::NotAdmin));
    assert_eq!(c.mint(admin.clone(), user.clone(), 0), Err(ContractError::InvalidAmount));
    assert_eq!(c.transfer(admin.clone(), user.clone(), 101), Err(ContractError::InsufficientBalance));
    assert_eq!(
        c.transfer_from(user.clone(), admin.clone(), user.clone(), 1),
        Err(ContractError::AllowanceExceeded)
    );
    assert_eq!(c.burn(admin.clone(), user.clone(), 1), Err(ContractError::InsufficientBalance));
    assert_eq!(
        c.transfer(ZERO_ADDRESS.to_string(), user.clone(), 1),
        Err(ContractError::InvalidAddress)
    );
    assert_eq!(c.balance(&admin), 100);
    assert_eq!(c.total_supply(), 100);
}

#[test]
fn token_supply_is_sum_of_balances_after_a_sequence() {
    let mut c = setup();
    let admin = addr("admin");
    let a = addr("a");
    let b = addr("b");
    c.initialize(admin.clone(), 1_000).unwrap();
    c.transfer(admin.clone(), a.clone(), 300).unwrap();
    c.mint(admin.clone(), b.clone(), 50).unwrap();
    c.approve(a.clone(), b.clone(), 100).unwrap();
    c.transfer_from(b.clone(), a.clone(), b.clone(), 60).unwrap();
    c.burn(admin.clone(), admin.clone(), 200).unwrap();
    assert_eq!(c.balance(&admin), 500);
    assert_eq!(c.balance(&a), 240);
    assert_eq!(c.balance(&b), 110);
    assert_eq!(c.allowance(&a, &b), 40);
    assert_eq!(c.total_supply(), 850);
    assert_eq!(c.balance(&admin) + c.balance(&a) + c.balance(&b), c.total_supply());
}

#[test]
fn token_approve_replaces_allowance() {
    let mut c = setup();
    let owner = addr("owner");
    let spender = addr("spender");
    c.initialize(owner.clone(), 100).unwrap();
    c.approve(owner.clone(), spender.clone(), 500).unwrap();
    c.approve(owner.clone(), spender.clone(), 20).unwrap();
    assert_eq!(c.allowance(&owner, &spender), 20);
    assert_eq!(c.allowance(&spender, &owner), 0);
    assert_eq!(c.balance(&owner), 100);
}
