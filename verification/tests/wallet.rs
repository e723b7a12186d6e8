use dabdub_contracts::addresses::Address;
use dabdub_contracts::errors::Error;
use dabdub_contracts::ledger::TokenLedger;
use dabdub_contracts::wallet::UserWallet;

#[test]
fn test_initialize() {
    let backend = Address::new(1);
    let vault = Address::new(2);
    let usdc = Address::new(3);
    let wallet_address = Address::new(4);

    let client = UserWallet::new(wallet_address, backend, vault, usdc, None);

    assert_eq!(client.get_backend(), backend);
    assert_eq!(client.get_vault(), vault);
    assert_eq!(client.get_owner(), None);
}

#[test]
fn test_with_owner() {
    let backend = Address::new(1);
    let vault = Address::new(2);
    let usdc = Address::new(3);
    let owner = Address::new(5);
    let wallet_address = Address::new(4);

    let client = UserWallet::new(wallet_address, backend, vault, usdc, Some(owner));
    assert_eq!(client.get_owner(), Some(owner));
}

#[test]
fn test_get_balance() {
    let backend = Address::new(1);
    let vault = Address::new(2);
    let usdc = Address::new(3);
    let wallet_address = Address::new(4);

    let client = UserWallet::new(wallet_address, backend, vault, usdc, None);

    let mut ledger = TokenLedger::new();
    ledger.mint(wallet_address, 10_000_000_000);

    assert_eq!(client.get_balance(&ledger), 10_000_000_000);
}

#[test]
fn test_withdraw_by_backend() {
    let backend = Address::new(1);
    let vault = Address::new(2);
    let usdc = Address::new(3);
    let wallet_address = Address::new(4);
    let recipient = Address::new(6);

    let client = UserWallet::new(wallet_address, backend, vault, usdc, None);

    let mut ledger = TokenLedger::new();
    ledger.mint(wallet_address, 10_000_000_000);

    client.withdraw(&mut ledger, backend, 5_000_000_000, recipient).unwrap();

    assert_eq!(client.get_balance(&ledger), 5_000_000_000);
    assert_eq!(ledger.balance(recipient), 5_000_000_000);
}

#[test]
fn test_withdraw_by_owner() {
    let backend = Address::new(1);
    let vault = Address::new(2);
    let usdc = Address::new(3);
    let wallet_address = Address::new(4);
    let owner = Address::new(5);
    let recipient = Address::new(6);

    let client = UserWallet::new(wallet_address, backend, vault, usdc, Some(owner));

    let mut ledger = TokenLedger::new();
    ledger.mint(wallet_address, 10_000_000_000);

    client.withdraw(&mut ledger, owner, 3_000_000_000, recipient).unwrap();

    assert_eq!(client.get_balance(&ledger), 7_000_000_000);
}

#[test]
fn test_withdraw_unauthorized() {
    let backend = Address::new(1);
    let vault = Address::new(2);
    let usdc = Address::new(3);
    let wallet_address = Address::new(4);
    let unauthorized = Address::new(7);
    let recipient = Address::new(6);

    let client = UserWallet::new(wallet_address, backend, vault, usdc, None);
    let mut ledger = TokenLedger::new();

    let r = client.withdraw(&mut ledger, unauthorized, 1_000_000_000, recipient);
    assert!(matches!(r, Err(Error::NotAuthorized)));
}

#[test]
fn test_withdraw_insufficient_balance() {
    let backend = Address::new(1);
    let vault = Address::new(2);
    let usdc = Address::new(3);
    let wallet_address = Address::new(4);
    let recipient = Address::new(6);

    let client = UserWallet::new(wallet_address, backend, vault, usdc, None);

    let mut ledger = TokenLedger::new();
    ledger.mint(wallet_address, 500_000_000);

    let r = client.withdraw(&mut ledger, backend, 1_000_000_000, recipient);
    assert!(matches!(r, Err(Error::InsufficientBalance)));
    // Nothing moved.
    assert_eq!(client.get_balance(&ledger), 500_000_000);
    assert_eq!(ledger.balance(recipient), 0);
}

#[test]
fn test_withdraw_negative_amount() {
    let backend = Address::new(1);
    let vault = Address::new(2);
    let usdc = Address::new(3);
    let wallet_address = Address::new(4);
    let recipient = Address::new(6);

    let client = UserWallet::new(wallet_address, backend, vault, usdc, None);

    let mut ledger = TokenLedger::new();
    ledger.mint(wallet_address, 500_000_000);

    let r = client.withdraw(&mut ledger, backend, -1, recipient);
    assert!(matches!(r, Err(Error::InvalidAmount)));
    assert_eq!(client.get_balance(&ledger), 500_000_000);
}

#[test]
fn test_set_owner() {
    let backend = Address::new(1);
    let vault = Address::new(2);
    let usdc = Address::new(3);
    let wallet_address = Address::new(4);
    let new_owner = Address::new(5);

    let mut client = UserWallet::new(wallet_address, backend, vault, usdc, None);

    client.set_owner(backend, new_owner).unwrap();

    assert_eq!(client.get_owner(), Some(new_owner));
}

#[test]
fn test_set_owner_not_backend() {
    let backend = Address::new(1);
    let vault = Address::new(2);
    let usdc = Address::new(3);
    let wallet_address = Address::new(4);
    let not_backend = Address::new(7);
    let new_owner = Address::new(5);

    let mut client = UserWallet::new(wallet_address, backend, vault, usdc, None);

    let r = client.set_owner(not_backend, new_owner);
    assert!(matches!(r, Err(Error::OnlyBackend)));
    assert_eq!(client.get_owner(), None);
}

#[test]
fn test_emergency_withdraw() {
    let backend = Address::new(1);
    let vault = Address::new(2);
    let usdc = Address::new(3);
    let wallet_address = Address::new(4);
    let owner = Address::new(5);

    let client = UserWallet::new(wallet_address, backend, vault, usdc, Some(owner));

    let mut ledger = TokenLedger::new();
    ledger.mint(wallet_address, 10_000_000_000);

    client.emergency_withdraw(&mut ledger, owner).unwrap();

    assert_eq!(client.get_balance(&ledger), 0);
    assert_eq!(ledger.balance(owner), 10_000_000_000);
}

#[test]
fn test_emergency_withdraw_no_owner() {
    let backend = Address::new(1);
    let vault = Address::new(2);
    let usdc = Address::new(3);
    let wallet_address = Address::new(4);
    let someone = Address::new(7);

    let client = UserWallet::new(wallet_address, backend, vault, usdc, None);
    let mut ledger = TokenLedger::new();

    let r = client.emergency_withdraw(&mut ledger, someone);
    assert!(matches!(r, Err(Error::OwnerNotSet)));
}

#[test]
fn test_emergency_withdraw_not_owner() {
    let backend = Address::new(1);
    let vault = Address::new(2);
    let usdc = Address::new(3);
    let wallet_address = Address::new(4);
    let owner = Address::new(5);
    let not_owner = Address::new(7);

    let client = UserWallet::new(wallet_address, backend, vault, usdc, Some(owner));
    let mut ledger = TokenLedger::new();

    let r = client.emergency_withdraw(&mut ledger, not_owner);
    assert!(matches!(r, Err(Error::OnlyOwner)));
}

#[test]
fn test_transfer_to_vault_by_backend() {
    let backend = Address::new(1);
    let usdc = Address::new(3);
    let wallet_address = Address::new(4);
    let vault_address = Address::new(8);

    let wallet = UserWallet::new(wallet_address, backend, vault_address, usdc, None);

    let mut ledger = TokenLedger::new();
    ledger.mint(wallet_address, 100_000_000);

    // The vault quotes 500_000 as its fee for this payment; transfer the
    // payment plus the fee in one movement.
    let total_amount = wallet
        .transfer_to_vault(&mut ledger, backend, 50_000_000, 500_000)
        .unwrap();
    assert_eq!(total_amount, 50_500_000);

    assert_eq!(ledger.balance(vault_address), 50_500_000);
    assert_eq!(ledger.balance(wallet_address), 49_500_000);
}

#[test]
fn test_transfer_to_vault_insufficient_balance_including_fee() {
    let backend = Address::new(1);
    let usdc = Address::new(3);
    let wallet_address = Address::new(4);
    let vault_address = Address::new(8);

    let wallet = UserWallet::new(wallet_address, backend, vault_address, usdc, None);

    // Only the payment amount is held, not enough for payment + fee.
    let mut ledger = TokenLedger::new();
    ledger.mint(wallet_address, 50_000_000);

    let r = wallet.transfer_to_vault(&mut ledger, backend, 50_000_000, 500_000);
    assert!(matches!(r, Err(Error::InsufficientBalance)));
    // Nothing moved.
    assert_eq!(ledger.balance(vault_address), 0);
    assert_eq!(ledger.balance(wallet_address), 50_000_000);
}

#[test]
fn test_transfer_to_vault_unauthorized() {
    let backend = Address::new(1);
    let usdc = Address::new(3);
    let wallet_address = Address::new(4);
    let vault_address = Address::new(8);
    let unauthorized = Address::new(7);

    let wallet = UserWallet::new(wallet_address, backend, vault_address, usdc, None);
    let mut ledger = TokenLedger::new();

    let r = wallet.transfer_to_vault(&mut ledger, unauthorized, 10_000_000, 500_000);
    assert!(matches!(r, Err(Error::NotAuthorized)));
}

#[test]
fn test_transfer_to_vault_by_owner() {
    let backend = Address::new(1);
    let usdc = Address::new(3);
    let wallet_address = Address::new(4);
    let vault_address = Address::new(8);
    let owner = Address::new(5);

    let wallet = UserWallet::new(wallet_address, backend, vault_address, usdc, Some(owner));

    let mut ledger = TokenLedger::new();
    ledger.mint(wallet_address, 100_000_000);

    let total_amount = wallet
        .transfer_to_vault(&mut ledger, owner, 50_000_000, 500_000)
        .unwrap();
    assert_eq!(total_amount, 50_500_000);
    assert_eq!(ledger.balance(vault_address), 50_500_000);
}

#[test]
fn test_ledger_transfer_to_self_changes_nothing() {
    let holder = Address::new(9);
    let mut ledger = TokenLedger::new();
    ledger.mint(holder, 1_000);

    ledger.transfer(holder, holder, 400).unwrap();
    assert_eq!(ledger.balance(holder), 1_000);
}

#[test]
fn test_ledger_transfer_insufficient() {
    let from = Address::new(9);
    let to = Address::new(10);
    let mut ledger = TokenLedger::new();
    ledger.mint(from, 100);

    let r = ledger.transfer(from, to, 101);
    assert!(matches!(r, Err(Error::InsufficientBalance)));
    assert_eq!(ledger.balance(from), 100);
    assert_eq!(ledger.balance(to), 0);
}
