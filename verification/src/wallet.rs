//! A bitcoin wallet that keeps its balance in whole satoshis.

use vstd::prelude::*;

verus! {

/// What a bitcoin wallet can do.
pub trait BitcoinWallet {
    /// The balance in satoshis.
    spec fn balance(&self) -> nat;

    /// The text of the public key.
    spec fn public_key_text(&self) -> Seq<char>;

    /// An address made from the public key.
    fn generate_address(&self) -> (address: String)
        ensures
            address@ == "Bitcoin address for public key "@ + self.public_key_text(),
    ;

    /// Sends `amount` satoshis to `address`: the balance goes down by
    /// `amount`. Where the balance is below `amount` nothing is sent, the
    /// balance stays, and the error says so.
    fn send(&mut self, address: &str, amount: u64) -> (sent: Result<(), String>)
        ensures
            final(self).public_key_text() == old(self).public_key_text(),
            amount <= old(self).balance() ==> sent.is_ok() && final(self).balance() == old(
                self,
            ).balance() - amount,
            amount > old(self).balance() ==> sent.is_err() && sent.unwrap_err()@
                == "Insufficient funds"@ && final(self).balance() == old(self).balance(),
    ;

    /// The balance in satoshis.
    fn check_balance(&self) -> (balance: u64)
        ensures
            balance == self.balance(),
    ;
}

/// A wallet with its keys and its balance.
pub struct MyBitcoinWallet {
    private_key: String,
    public_key: String,
    balance: u64,
}

impl MyBitcoinWallet {
    /// A wallet with the given keys and `balance` satoshis.
    pub fn new(private_key: String, public_key: String, balance: u64) -> (wallet: Self)
        ensures
            wallet.balance() == balance,
            wallet.public_key_text() == public_key@,
    {
        MyBitcoinWallet { private_key, public_key, balance }
    }
}

impl BitcoinWallet for MyBitcoinWallet {
    closed spec fn balance(&self) -> nat {
        self.balance as nat
    }

    closed spec fn public_key_text(&self) -> Seq<char> {
        self.public_key@
    }

    fn generate_address(&self) -> (address: String) {
        "Bitcoin address for public key ".to_owned().concat(self.public_key.as_str())
    }

    fn send(&mut self, address: &str, amount: u64) -> (sent: Result<(), String>) {
        if self.balance < amount {
            return Err("Insufficient funds".to_owned());
        }
        self.balance = self.balance - amount;
        Ok(())
    }

    fn check_balance(&self) -> (balance: u64) {
        self.balance
    }
}

} // verus!
