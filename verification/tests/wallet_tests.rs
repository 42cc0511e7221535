use stablesats::wallet::{BitcoinWallet, MyBitcoinWallet};

fn wallet_with(balance: u64) -> MyBitcoinWallet {
    MyBitcoinWallet::new("my_private_key".to_string(), "my_public_key".to_string(), balance)
}

#[test]
fn test_send() {
    // Create a new wallet with a balance of 10 BTC
    let mut wallet = wallet_with(10);

    // Send 5 BTC to the recipient
    let result = wallet.send("recipient", 5);

    // Check that the result is Ok
    assert!(result.is_ok());

    // Check that the balance has been updated correctly
    assert_eq!(wallet.check_balance(), 5);
}

#[test]
fn test_send_insufficient_funds() {
    // Create a new wallet with a balance of 2 BTC
    let mut wallet = wallet_with(2);

    // Send 5 BTC to the recipient
    let result = wallet.send("recipient", 5);

    // Check that the result is Err
    assert!(result.is_err());

    // Check that the balance has not been updated
    assert_eq!(wallet.check_balance(), 2);
}

#[test]
fn wallet_send_reports_why_it_failed() {
    let mut wallet = wallet_with(2);
    assert_eq!(wallet.send("recipient", 3), Err(String::from("Insufficient funds")));
    assert_eq!(wallet.check_balance(), 2);
}

#[test]
fn wallet_can_be_emptied() {
    let mut wallet = wallet_with(100);
    assert_eq!(wallet.send("recipient", 50), Ok(()));
    assert_eq!(wallet.check_balance(), 50);
    assert_eq!(wallet.send("recipient", 50), Ok(()));
    assert_eq!(wallet.check_balance(), 0);
    assert_eq!(wallet.send("recipient", 0), Ok(()));
    assert!(wallet.send("recipient", 1).is_err());
}

#[test]
fn wallet_address_names_the_public_key() {
    let wallet = wallet_with(100);
    assert_eq!(wallet.generate_address(), "Bitcoin address for public key my_public_key");
}
