use stablesats::galoy::{
    AuthCodeData, BtcPriceData, GaloyClient, GaloyClientConfig, GaloyWalletError, SignedAmount,
    StablesatsWalletTransactions, TransactionPage, TransactionsListData, UserLogin, UserLoginData,
    WalletBalance, WalletCurrency, WalletTransactions, WalletsData, WalletsResponse,
};

fn galoy_client(jwt: &str) -> GaloyClient {
    GaloyClient::new(GaloyClientConfig {
        api: "https://api.example/graphql".to_string(),
        code: "321321".to_string(),
        phone_number: "+16505554321".to_string(),
        jwt: jwt.to_string(),
    })
}

fn bearer(client: &GaloyClient) -> String {
    let headers = client.authorization_header().unwrap();
    headers.get("authorization").unwrap().to_str().unwrap().to_string()
}

fn is_unknown(error: &GaloyWalletError, text: &str) -> bool {
    matches!(error, GaloyWalletError::UnknownResponse(message) if message == text)
}

fn wallet(currency: WalletCurrency, edges: Option<Option<Vec<&'static str>>>) -> WalletTransactions<&'static str> {
    WalletTransactions {
        wallet_currency: currency,
        transactions: edges.map(|edges| TransactionPage { edges }),
    }
}

fn balance(currency: WalletCurrency, mantissa: i128) -> WalletBalance {
    WalletBalance { wallet_currency: currency, balance: SignedAmount { mantissa, scale: 0 } }
}

#[test]
fn galoy_currencies_compare_by_name() {
    assert!(WalletCurrency::BTC.is(&WalletCurrency::BTC));
    assert!(WalletCurrency::USD.is(&WalletCurrency::USD));
    assert!(!WalletCurrency::BTC.is(&WalletCurrency::USD));
    assert!(WalletCurrency::Other("EUR".to_string()).is(&WalletCurrency::Other("EUR".to_string())));
    assert!(!WalletCurrency::Other("EUR".to_string()).is(&WalletCurrency::Other("CHF".to_string())));
    assert!(!WalletCurrency::Other("BTC".to_string()).is(&WalletCurrency::BTC));
}

#[test]
fn galoy_inputs_come_from_the_configuration() {
    let client = galoy_client("");
    assert_eq!(client.api(), "https://api.example/graphql");
    assert_eq!(client.authentication_code_input().phone, "+16505554321");
    let login = client.login_input();
    assert_eq!(login.code, "321321");
    assert_eq!(login.phone, "+16505554321");
    let variables = GaloyClient::transactions_list_variables("cursor-9".to_string());
    assert_eq!(variables.after.as_deref(), Some("cursor-9"));
    assert!(variables.last.is_none() && variables.first.is_none() && variables.before.is_none());
}

#[test]
fn galoy_authorization_header_carries_the_token() {
    let headers = galoy_client("abc.def.ghi").authorization_header().unwrap();
    assert_eq!(headers.len(), 1);
    assert_eq!(headers.get(reqwest::header::AUTHORIZATION).unwrap(), "Bearer abc.def.ghi");
    assert_eq!(bearer(&galoy_client("")), "Bearer ");
    assert!(matches!(
        galoy_client("abc\ndef").authorization_header(),
        Err(GaloyWalletError::InvalidHeaderValue)
    ));
}

#[test]
fn galoy_btc_price_needs_data_and_price() {
    assert_eq!(
        GaloyClient::btc_price_result(Some(BtcPriceData { btc_price: Some(1_700_000u64) })).unwrap(),
        1_700_000
    );
    let no_price: Option<BtcPriceData<u64>> = Some(BtcPriceData { btc_price: None });
    assert!(is_unknown(
        &GaloyClient::btc_price_result(no_price).unwrap_err(),
        "Failed to parse response data"
    ));
    let no_data: Option<BtcPriceData<u64>> = None;
    assert!(is_unknown(
        &GaloyClient::btc_price_result(no_data).unwrap_err(),
        "Failed to parse response data"
    ));
}

#[test]
fn galoy_authentication_code_needs_data() {
    assert_eq!(
        GaloyClient::authentication_code_result(Some(AuthCodeData { user_request_auth_code: true })).unwrap(),
        true
    );
    let no_data: Option<AuthCodeData<bool>> = None;
    assert!(is_unknown(
        &GaloyClient::authentication_code_result(no_data).unwrap_err(),
        "Failed to parse response data"
    ));
}

#[test]
fn galoy_login_keeps_the_token() {
    let mut client = galoy_client("old");
    let login = client
        .login_result(Some(UserLoginData {
            user_login: UserLogin { auth_token: Some("new-token".to_string()), errors: vec![] },
        }))
        .unwrap();
    assert_eq!(login.auth_token.as_deref(), Some("new-token"));
    assert_eq!(bearer(&client), "Bearer new-token");
    assert_eq!(client.login_input().code, "321321");
    assert_eq!(client.api(), "https://api.example/graphql");
}

#[test]
fn galoy_login_without_token_clears_it() {
    let mut client = galoy_client("old");
    let login = client
        .login_result(Some(UserLoginData {
            user_login: UserLogin { auth_token: None, errors: vec!["wrong code".to_string()] },
        }))
        .unwrap();
    assert_eq!(login.auth_token, None);
    assert_eq!(login.errors, vec!["wrong code".to_string()]);
    assert_eq!(bearer(&client), "Bearer ");
}

#[test]
fn galoy_login_without_data_changes_nothing() {
    let mut client = galoy_client("old");
    let error = client.login_result(None).unwrap_err();
    assert!(is_unknown(&error, "Failed to parse response data"));
    assert_eq!(bearer(&client), "Bearer old");
}

#[test]
fn galoy_transactions_are_those_of_the_first_wallet_in_the_currency() {
    let data = TransactionsListData {
        me: Some(vec![
            wallet(WalletCurrency::USD, Some(Some(vec!["usd-1"]))),
            wallet(WalletCurrency::BTC, Some(Some(vec!["btc-1", "btc-2"]))),
            wallet(WalletCurrency::BTC, Some(Some(vec!["btc-3"]))),
        ]),
    };
    assert_eq!(
        GaloyClient::transactions_list_result(Some(data), WalletCurrency::BTC).unwrap(),
        vec!["btc-1", "btc-2"]
    );
    let data = TransactionsListData {
        me: Some(vec![
            wallet(WalletCurrency::USD, Some(Some(vec![]))),
            wallet(WalletCurrency::BTC, Some(Some(vec!["btc-1"]))),
        ]),
    };
    let empty: Vec<&str> = vec![];
    assert_eq!(GaloyClient::transactions_list_result(Some(data), WalletCurrency::USD).unwrap(), empty);
}

#[test]
fn galoy_transactions_say_which_part_is_missing() {
    let no_data: Option<TransactionsListData<&str>> = None;
    assert!(is_unknown(
        &GaloyClient::transactions_list_result(no_data, WalletCurrency::BTC).unwrap_err(),
        "Empty`data` response data"
    ));
    let no_me: TransactionsListData<&str> = TransactionsListData { me: None };
    assert!(is_unknown(
        &GaloyClient::transactions_list_result(Some(no_me), WalletCurrency::BTC).unwrap_err(),
        "Empty `me` response data"
    ));
    let no_wallet = TransactionsListData { me: Some(vec![wallet(WalletCurrency::USD, Some(Some(vec!["usd-1"])))]) };
    assert!(is_unknown(
        &GaloyClient::transactions_list_result(Some(no_wallet), WalletCurrency::BTC).unwrap_err(),
        "Failed to parse response data"
    ));
    let no_wallets: TransactionsListData<&str> = TransactionsListData { me: Some(vec![]) };
    assert!(is_unknown(
        &GaloyClient::transactions_list_result(Some(no_wallets), WalletCurrency::USD).unwrap_err(),
        "Failed to parse response data"
    ));
    // Only the first wallet in the currency counts, even where a later one
    // is complete.
    let no_transactions = TransactionsListData {
        me: Some(vec![
            wallet(WalletCurrency::BTC, None),
            wallet(WalletCurrency::BTC, Some(Some(vec!["btc-1"]))),
        ]),
    };
    assert!(is_unknown(
        &GaloyClient::transactions_list_result(Some(no_transactions), WalletCurrency::BTC).unwrap_err(),
        "Empty `transactions` response data"
    ));
    let no_edges = TransactionsListData { me: Some(vec![wallet(WalletCurrency::BTC, Some(None))]) };
    assert!(is_unknown(
        &GaloyClient::transactions_list_result(Some(no_edges), WalletCurrency::BTC).unwrap_err(),
        "Empty `edges` response data"
    ));
}

#[test]
fn galoy_balances_are_those_of_the_first_wallet_of_each_currency() {
    let response = WalletsResponse {
        errors: None,
        data: Some(WalletsData {
            me: Some(vec![
                balance(WalletCurrency::Other("EUR".to_string()), 1),
                balance(WalletCurrency::USD, -250),
                balance(WalletCurrency::BTC, 100_000),
                balance(WalletCurrency::BTC, 7),
                balance(WalletCurrency::USD, 8),
            ]),
        }),
    };
    let balances = GaloyClient::wallets_balances_result(response).unwrap();
    assert_eq!(balances.btc_wallet_balance, Some(SignedAmount { mantissa: 100_000, scale: 0 }));
    assert_eq!(balances.usd_wallet_balance, Some(SignedAmount { mantissa: -250, scale: 0 }));
}

#[test]
fn galoy_balances_may_lack_a_wallet() {
    let response = WalletsResponse {
        errors: None,
        data: Some(WalletsData { me: Some(vec![balance(WalletCurrency::USD, 5)]) }),
    };
    let balances = GaloyClient::wallets_balances_result(response).unwrap();
    assert_eq!(balances.btc_wallet_balance, None);
    assert_eq!(balances.usd_wallet_balance, Some(SignedAmount { mantissa: 5, scale: 0 }));
    let response = WalletsResponse { errors: None, data: Some(WalletsData { me: Some(vec![]) }) };
    let balances = GaloyClient::wallets_balances_result(response).unwrap();
    assert_eq!(balances.btc_wallet_balance, None);
    assert_eq!(balances.usd_wallet_balance, None);
}

#[test]
fn galoy_balances_report_the_first_api_error() {
    let response = WalletsResponse {
        errors: Some(vec!["not authorized".to_string(), "second".to_string()]),
        data: Some(WalletsData { me: Some(vec![balance(WalletCurrency::USD, 5)]) }),
    };
    let error = GaloyClient::wallets_balances_result(response).unwrap_err();
    assert!(matches!(error, GaloyWalletError::GrapqQlApi(message) if message == "not authorized"));
}

#[test]
fn galoy_balances_say_which_part_is_missing() {
    let response = WalletsResponse { errors: None, data: None };
    assert!(is_unknown(
        &GaloyClient::wallets_balances_result(response).unwrap_err(),
        "Empty `data` in response data"
    ));
    let response = WalletsResponse { errors: None, data: Some(WalletsData { me: None }) };
    assert!(is_unknown(
        &GaloyClient::wallets_balances_result(response).unwrap_err(),
        "Empty `me` in response data"
    ));
}

#[test]
fn galoy_wallet_transactions_hold_both_currencies() {
    let transactions = StablesatsWalletTransactions { btc_transactions: Some(vec![1, 2]), usd_transactions: None };
    assert_eq!(transactions.btc_transactions, Some(vec![1, 2]));
    assert!(transactions.usd_transactions.is_none());
}
