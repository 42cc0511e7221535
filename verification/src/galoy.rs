//! The Galoy wallet client, without its transport: what goes into each
//! GraphQL request and what each response means.
//!
//! A caller posts each query, parses the JSON that comes back into the
//! response types below, and hands them to the function that reads them.

use vstd::prelude::*;
use vstd::utf8::encode_utf8;
use reqwest::header::HeaderMap;
use crate::header::{
    header_map_entries,
    header_map_insert,
    header_map_new,
    is_header_value,
    no_entries,
};

verus! {

/// The currency of a wallet.
#[derive(Debug)]
pub enum WalletCurrency {
    BTC,
    USD,
    Other(String),
}

/// A decimal amount that may be negative: `mantissa * 10^-scale`.
#[derive(Clone, Copy, Debug, PartialEq, Eq, Structural)]
pub struct SignedAmount {
    pub mantissa: i128,
    pub scale: u32,
}

/// The balances of the bitcoin wallet and of the dollar wallet.
#[derive(Debug)]
pub struct StablesatsWalletsBalances {
    pub btc_wallet_balance: Option<SignedAmount>,
    pub usd_wallet_balance: Option<SignedAmount>,
}

/// The transactions of the bitcoin wallet and of the dollar wallet.
#[derive(Debug)]
pub struct StablesatsWalletTransactions<T> {
    pub btc_transactions: Option<T>,
    pub usd_transactions: Option<T>,
}

/// Where the API is and who logs in.
#[derive(Debug, Clone)]
pub struct GaloyClientConfig {
    pub api: String,
    pub code: String,
    pub phone_number: String,
    pub jwt: String,
}

/// The client: its configuration, with the token of the last login.
#[derive(Debug, Clone)]
pub struct GaloyClient {
    config: GaloyClientConfig,
}

/// Why a request could not be made, or a response not be used.
#[derive(Debug)]
pub enum GaloyWalletError {
    /// The token cannot stand in a header.
    InvalidHeaderValue,
    /// The API reported an error; this is its first message.
    GrapqQlApi(String),
    /// The response lacks a part; the text says which.
    UnknownResponse(String),
}

/// An error with its texts as sequences of characters.
pub enum GaloyWalletErrorView {
    InvalidHeaderValue,
    GrapqQlApi(Seq<char>),
    UnknownResponse(Seq<char>),
}

/// The data of the response to the price query.
#[derive(Debug)]
pub struct BtcPriceData<P> {
    pub btc_price: Option<P>,
}

/// The data of the response to the request for an authentication code.
#[derive(Debug)]
pub struct AuthCodeData<A> {
    pub user_request_auth_code: A,
}

/// What a login returns: the token, where it succeeded, and the messages
/// of the errors, where it did not.
#[derive(Debug)]
pub struct UserLogin {
    pub auth_token: Option<String>,
    pub errors: Vec<String>,
}

/// The data of the response to a login.
#[derive(Debug)]
pub struct UserLoginData {
    pub user_login: UserLogin,
}

/// The input of the request for an authentication code.
#[derive(Debug)]
pub struct UserRequestAuthCodeInput {
    pub phone: String,
}

/// The input of a login.
#[derive(Debug)]
pub struct UserLoginInput {
    pub code: String,
    pub phone: String,
}

/// The variables of the transactions query.
#[derive(Debug)]
pub struct TransactionsListVariables {
    pub last: Option<i64>,
    pub first: Option<i64>,
    pub before: Option<String>,
    pub after: Option<String>,
}

/// One page of the transactions of a wallet.
#[derive(Debug)]
pub struct TransactionPage<T> {
    pub edges: Option<Vec<T>>,
}

/// A wallet as the transactions query returns it.
#[derive(Debug)]
pub struct WalletTransactions<T> {
    pub wallet_currency: WalletCurrency,
    pub transactions: Option<TransactionPage<T>>,
}

/// The data of the response to the transactions query: the wallets of the
/// default account of the user, where the response names a user.
#[derive(Debug)]
pub struct TransactionsListData<T> {
    pub me: Option<Vec<WalletTransactions<T>>>,
}

/// A wallet as the balances query returns it.
#[derive(Debug)]
pub struct WalletBalance {
    pub wallet_currency: WalletCurrency,
    pub balance: SignedAmount,
}

/// The data of the response to the balances query: the wallets of the
/// default account of the user, where the response names a user.
#[derive(Debug)]
pub struct WalletsData {
    pub me: Option<Vec<WalletBalance>>,
}

/// The response to the balances query: the messages of the errors that the
/// API reported, and the data.
#[derive(Debug)]
pub struct WalletsResponse {
    pub errors: Option<Vec<String>>,
    pub data: Option<WalletsData>,
}

impl View for GaloyWalletError {
    type V = GaloyWalletErrorView;

    open spec fn view(&self) -> GaloyWalletErrorView {
        match *self {
            GaloyWalletError::InvalidHeaderValue => GaloyWalletErrorView::InvalidHeaderValue,
            GaloyWalletError::GrapqQlApi(message) => GaloyWalletErrorView::GrapqQlApi(message@),
            GaloyWalletError::UnknownResponse(message) => GaloyWalletErrorView::UnknownResponse(
                message@,
            ),
        }
    }
}

/// Whether what a function returned is what was to come out: the same
/// value, or an error with the same texts.
pub open spec fn agrees<V>(
    returned: Result<V, GaloyWalletError>,
    outcome: Result<V, GaloyWalletErrorView>,
) -> bool {
    match (returned, outcome) {
        (Ok(value), Ok(expected)) => value == expected,
        (Err(e), Err(expected)) => e@ == expected,
        _ => false,
    }
}

/// The error for a response that lacks a part, with `text` saying which.
pub open spec fn unknown_response<V>(text: Seq<char>) -> Result<V, GaloyWalletErrorView> {
    Err(GaloyWalletErrorView::UnknownResponse(text))
}

impl WalletCurrency {
    /// Whether the two are the same currency.
    pub open spec fn same_as(self, other: WalletCurrency) -> bool {
        match (self, other) {
            (WalletCurrency::BTC, WalletCurrency::BTC) => true,
            (WalletCurrency::USD, WalletCurrency::USD) => true,
            (WalletCurrency::Other(name), WalletCurrency::Other(other_name)) => name@
                == other_name@,
            _ => false,
        }
    }

    /// Whether the two are the same currency.
    pub fn is(&self, other: &WalletCurrency) -> (same: bool)
        ensures
            same == self.same_as(*other),
    {
        match (self, other) {
            (WalletCurrency::BTC, WalletCurrency::BTC) => true,
            (WalletCurrency::USD, WalletCurrency::USD) => true,
            (WalletCurrency::Other(name), WalletCurrency::Other(other_name)) => *name
                == *other_name,
            _ => false,
        }
    }
}

/// Whether `i` is the place of the first of `currencies` that is `wanted`.
pub open spec fn is_first_match(
    currencies: Seq<WalletCurrency>,
    wanted: WalletCurrency,
    i: int,
) -> bool {
    &&& 0 <= i < currencies.len()
    &&& currencies[i].same_as(wanted)
    &&& forall|j: int| 0 <= j < i ==> !(#[trigger] currencies[j]).same_as(wanted)
}

/// The place of the first of `currencies` that is `wanted`, if there is one.
pub open spec fn first_match(currencies: Seq<WalletCurrency>, wanted: WalletCurrency) -> Option<
    int,
> {
    if exists|i: int| is_first_match(currencies, wanted, i) {
        Some(choose|i: int| is_first_match(currencies, wanted, i))
    } else {
        None
    }
}

/// Ties `first_match` to what a search from the front finds: the place
/// where it stops, or none where it runs to the end.
pub proof fn lemma_first_match(currencies: Seq<WalletCurrency>, wanted: WalletCurrency, i: int)
    ensures
        is_first_match(currencies, wanted, i) ==> first_match(currencies, wanted) == Some(i),
        i == currencies.len() && (forall|j: int|
            0 <= j < i ==> !(#[trigger] currencies[j]).same_as(wanted)) ==> first_match(
            currencies,
            wanted,
        ).is_none(),
{
}

/// The currencies of the wallets of a transactions query, in order.
pub open spec fn transaction_currencies<T>(wallets: Seq<WalletTransactions<T>>) -> Seq<
    WalletCurrency,
> {
    Seq::new(wallets.len(), |i: int| wallets[i].wallet_currency)
}

/// The currencies of the wallets of a balances query, in order.
pub open spec fn balance_currencies(wallets: Seq<WalletBalance>) -> Seq<WalletCurrency> {
    Seq::new(wallets.len(), |i: int| wallets[i].wallet_currency)
}

/// The balance of the first of `wallets` in the currency `wanted`.
pub open spec fn balance_in(wallets: Seq<WalletBalance>, wanted: WalletCurrency) -> Option<
    SignedAmount,
> {
    match first_match(balance_currencies(wallets), wanted) {
        Some(i) => Some(wallets[i].balance),
        None => None,
    }
}

/// What the response to the price query comes to: the price, where the
/// response holds one.
pub open spec fn btc_price_outcome<P>(data: Option<BtcPriceData<P>>) -> Result<
    P,
    GaloyWalletErrorView,
> {
    match data {
        Some(BtcPriceData { btc_price: Some(price) }) => Ok(price),
        _ => unknown_response("Failed to parse response data"@),
    }
}

/// What the response to the request for an authentication code comes to.
pub open spec fn authentication_code_outcome<A>(data: Option<AuthCodeData<A>>) -> Result<
    A,
    GaloyWalletErrorView,
> {
    match data {
        Some(found) => Ok(found.user_request_auth_code),
        None => unknown_response("Failed to parse response data"@),
    }
}

/// What the response to the transactions query comes to: the edges of the
/// first page of the first wallet in the currency `wanted`, or the part of
/// the response that is missing.
pub open spec fn transactions_list_outcome<T>(
    data: Option<TransactionsListData<T>>,
    wanted: WalletCurrency,
) -> Result<Vec<T>, GaloyWalletErrorView> {
    match data {
        None => unknown_response("Empty`data` response data"@),
        Some(found) => match found.me {
            None => unknown_response("Empty `me` response data"@),
            Some(wallets) => match first_match(transaction_currencies(wallets@), wanted) {
                None => unknown_response("Failed to parse response data"@),
                Some(i) => match wallets@[i].transactions {
                    None => unknown_response("Empty `transactions` response data"@),
                    Some(page) => match page.edges {
                        None => unknown_response("Empty `edges` response data"@),
                        Some(edges) => Ok(edges),
                    },
                },
            },
        },
    }
}

/// What the response to the balances query comes to: the first error that
/// the API reported; else the part of the response that is missing; else
/// the balance of the first bitcoin wallet and of the first dollar wallet.
pub open spec fn wallets_balances_outcome(response: WalletsResponse) -> Result<
    StablesatsWalletsBalances,
    GaloyWalletErrorView,
> {
    match response.errors {
        Some(errors) => Err(GaloyWalletErrorView::GrapqQlApi(errors@[0]@)),
        None => match response.data {
            None => unknown_response("Empty `data` in response data"@),
            Some(data) => match data.me {
                None => unknown_response("Empty `me` in response data"@),
                Some(wallets) => Ok(
                    StablesatsWalletsBalances {
                        btc_wallet_balance: balance_in(wallets@, WalletCurrency::BTC),
                        usd_wallet_balance: balance_in(wallets@, WalletCurrency::USD),
                    },
                ),
            },
        },
    }
}

/// The place of the first of `wallets` in the currency `wanted`.
fn find_transactions<T>(wallets: &Vec<WalletTransactions<T>>, wanted: &WalletCurrency) -> (found:
    Option<usize>)
    ensures
        match found {
            Some(i) => first_match(transaction_currencies(wallets@), *wanted) == Some(i as int),
            None => first_match(transaction_currencies(wallets@), *wanted).is_none(),
        },
{
    let mut i: usize = 0;
    while i < wallets.len()
        invariant
            i <= wallets.len(),
            forall|j: int|
                0 <= j < i ==> !(#[trigger] transaction_currencies(wallets@)[j]).same_as(*wanted),
        decreases wallets.len() - i,
    {
        if wallets[i].wallet_currency.is(wanted) {
            proof {
                lemma_first_match(transaction_currencies(wallets@), *wanted, i as int);
            }
            return Some(i);
        }
        i = i + 1;
    }
    proof {
        lemma_first_match(transaction_currencies(wallets@), *wanted, i as int);
    }
    None
}

/// The balance of the first of `wallets` in the currency `wanted`.
fn find_balance(wallets: &Vec<WalletBalance>, wanted: &WalletCurrency) -> (found: Option<
    SignedAmount,
>)
    ensures
        found == balance_in(wallets@, *wanted),
{
    let mut i: usize = 0;
    while i < wallets.len()
        invariant
            i <= wallets.len(),
            forall|j: int|
                0 <= j < i ==> !(#[trigger] balance_currencies(wallets@)[j]).same_as(*wanted),
        decreases wallets.len() - i,
    {
        if wallets[i].wallet_currency.is(wanted) {
            proof {
                lemma_first_match(balance_currencies(wallets@), *wanted, i as int);
            }
            return Some(wallets[i].balance);
        }
        i = i + 1;
    }
    proof {
        lemma_first_match(balance_currencies(wallets@), *wanted, i as int);
    }
    None
}

/// The error for a response that lacks a part.
fn unknown(text: &str) -> (e: GaloyWalletError)
    ensures
        e@ == GaloyWalletErrorView::UnknownResponse(text@),
{
    GaloyWalletError::UnknownResponse(text.to_owned())
}

impl GaloyClient {
    /// The configuration, with the token of the last login.
    pub closed spec fn config(self) -> GaloyClientConfig {
        self.config
    }

    /// A client with the given configuration.
    pub fn new(config: GaloyClientConfig) -> (client: Self)
        ensures
            client.config() == config,
    {
        GaloyClient { config }
    }

    /// The address of the API.
    pub fn api(&self) -> (api: &str)
        ensures
            api@ == self.config().api@,
    {
        self.config.api.as_str()
    }

    /// The input of the request for an authentication code: the phone
    /// number.
    pub fn authentication_code_input(&self) -> (input: UserRequestAuthCodeInput)
        ensures
            input.phone@ == self.config().phone_number@,
    {
        UserRequestAuthCodeInput { phone: self.config.phone_number.clone() }
    }

    /// The input of a login: the code and the phone number.
    pub fn login_input(&self) -> (input: UserLoginInput)
        ensures
            input.code@ == self.config().code@,
            input.phone@ == self.config().phone_number@,
    {
        UserLoginInput {
            code: self.config.code.clone(),
            phone: self.config.phone_number.clone(),
        }
    }

    /// The headers of a request that needs the token of the last login:
    /// the one that carries it.
    ///
    /// Fails with `InvalidHeaderValue` where the token cannot stand in a
    /// header.
    pub fn authorization_header(&self) -> (headers: Result<HeaderMap, GaloyWalletError>)
        ensures
            match headers {
                Ok(map) => {
                    &&& is_header_value("Bearer "@ + self.config().jwt@)
                    &&& header_map_entries(map) == no_entries().insert(
                        "authorization"@,
                        encode_utf8("Bearer "@ + self.config().jwt@),
                    )
                },
                Err(e) => !is_header_value("Bearer "@ + self.config().jwt@) && e
                    is InvalidHeaderValue,
            },
    {
        let header_value: String = "Bearer ".to_owned().concat(self.config.jwt.as_str());
        let mut header: HeaderMap = header_map_new();
        proof {
            reveal_strlit("authorization");
        }
        if header_map_insert(&mut header, "authorization", header_value.as_str()) {
            Ok(header)
        } else {
            Err(GaloyWalletError::InvalidHeaderValue)
        }
    }

    /// The variables of the query for the transactions after the cursor
    /// `last_transaction_cursor`.
    pub fn transactions_list_variables(last_transaction_cursor: String) -> (variables:
        TransactionsListVariables)
        ensures
            variables.last.is_none(),
            variables.first.is_none(),
            variables.before.is_none(),
            variables.after == Some(last_transaction_cursor),
    {
        TransactionsListVariables {
            last: None,
            first: None,
            before: None,
            after: Some(last_transaction_cursor),
        }
    }

    /// What the response to the price query says: the price, where it holds
    /// one.
    pub fn btc_price_result<P>(data: Option<BtcPriceData<P>>) -> (price: Result<
        P,
        GaloyWalletError,
    >)
        ensures
            agrees(price, btc_price_outcome(data)),
    {
        if let Some(response_data) = data {
            if let Some(result) = response_data.btc_price {
                return Ok(result);
            }
        }
        Err(unknown("Failed to parse response data"))
    }

    /// What the response to the request for an authentication code says.
    pub fn authentication_code_result<A>(data: Option<AuthCodeData<A>>) -> (code: Result<
        A,
        GaloyWalletError,
    >)
        ensures
            agrees(code, authentication_code_outcome(data)),
    {
        if let Some(response_data) = data {
            return Ok(response_data.user_request_auth_code);
        }
        Err(unknown("Failed to parse response data"))
    }

    /// Takes the response to a login in. Where it holds data, the client
    /// keeps the token from then on, or the empty text where the login
    /// gave none, and what the login returned is handed back. Where it
    /// holds none, the client stays as it is.
    pub fn login_result(&mut self, data: Option<UserLoginData>) -> (login: Result<
        UserLogin,
        GaloyWalletError,
    >)
        ensures
            final(self).config().api == old(self).config().api,
            final(self).config().code == old(self).config().code,
            final(self).config().phone_number == old(self).config().phone_number,
            match data {
                Some(found) => {
                    &&& login matches Ok(returned) && returned == found.user_login
                    &&& final(self).config().jwt@ == match found.user_login.auth_token {
                        Some(token) => token@,
                        None => Seq::<char>::empty(),
                    }
                },
                None => {
                    &&& login matches Err(e) && e@ == GaloyWalletErrorView::UnknownResponse(
                        "Failed to parse response data"@,
                    )
                    &&& final(self).config().jwt == old(self).config().jwt
                },
            },
    {
        if let Some(response_data) = data {
            let result: UserLogin = response_data.user_login;
            self.config.jwt = match &result.auth_token {
                Some(jwt) => jwt.clone(),
                None => String::new(),
            };
            return Ok(result);
        }
        Err(unknown("Failed to parse response data"))
    }

    /// What the response to the transactions query says: the transactions
    /// of the first wallet in the currency `wallet_currency`, or which part
    /// of the response is missing.
    pub fn transactions_list_result<T>(
        data: Option<TransactionsListData<T>>,
        wallet_currency: WalletCurrency,
    ) -> (transactions: Result<Vec<T>, GaloyWalletError>)
        ensures
            agrees(transactions, transactions_list_outcome(data, wallet_currency)),
    {
        let result: TransactionsListData<T> = match data {
            Some(found) => found,
            None => {
                return Err(unknown("Empty`data` response data"));
            },
        };
        let mut wallets: Vec<WalletTransactions<T>> = match result.me {
            Some(found) => found,
            None => {
                return Err(unknown("Empty `me` response data"));
            },
        };
        let place: usize = match find_transactions(&wallets, &wallet_currency) {
            Some(i) => i,
            None => {
                return Err(unknown("Failed to parse response data"));
            },
        };
        let wallet: WalletTransactions<T> = wallets.swap_remove(place);
        let page: TransactionPage<T> = match wallet.transactions {
            Some(tx) => tx,
            None => {
                return Err(unknown("Empty `transactions` response data"));
            },
        };
        match page.edges {
            Some(txs) => Ok(txs),
            None => Err(unknown("Empty `edges` response data")),
        }
    }

    /// What the response to the balances query says: the first error that
    /// the API reported; else which part of the response is missing; else
    /// the balances of the first bitcoin wallet and the first dollar
    /// wallet.
    ///
    /// A list of errors that is present holds at least one.
    pub fn wallets_balances_result(response: WalletsResponse) -> (balances: Result<
        StablesatsWalletsBalances,
        GaloyWalletError,
    >)
        requires
            response.errors.is_some() ==> response.errors.unwrap()@.len() > 0,
        ensures
            agrees(balances, wallets_balances_outcome(response)),
    {
        if let Some(errors) = response.errors {
            let mut errors = errors;
            return Err(GaloyWalletError::GrapqQlApi(errors.swap_remove(0)));
        }
        let data: WalletsData = match response.data {
            Some(found) => found,
            None => {
                return Err(unknown("Empty `data` in response data"));
            },
        };
        let wallets: Vec<WalletBalance> = match data.me {
            Some(found) => found,
            None => {
                return Err(unknown("Empty `me` in response data"));
            },
        };
        let btc_wallet_balance: Option<SignedAmount> = find_balance(&wallets, &WalletCurrency::BTC);
        let usd_wallet_balance: Option<SignedAmount> = find_balance(&wallets, &WalletCurrency::USD);
        Ok(StablesatsWalletsBalances { usd_wallet_balance, btc_wallet_balance })
    }
}

} // verus!
