//! The OKEx funding client, without its transport: how a request is signed
//! and laid out, and what a response means.
//!
//! A caller sends each request over HTTPS as it is laid out here, parses the
//! JSON that comes back into an `OkexResponse`, and hands that to the
//! function that reads it.

use vstd::prelude::*;
use vstd::utf8::encode_utf8;
use std::collections::HashMap;
use reqwest::header::HeaderMap;
use crate::header::{
    header_map_entries,
    header_map_insert,
    header_map_new,
    is_header_value,
    is_plain_header_name,
    no_entries,
};

verus! {

/// An address to deposit bitcoin to.
#[derive(Debug, PartialEq)]
pub struct DepositAddress {
    pub value: String,
}

/// The identifier of a transfer between accounts.
#[derive(Debug)]
pub struct TransferId {
    pub value: String,
}

/// The balance that can be moved out of the funding account.
#[derive(Debug)]
pub struct AvailableBalance {
    pub value: String,
}

/// How far a transfer has come.
pub struct TransferState {
    pub value: String,
}

/// The credentials of an API user.
pub struct OkexClientConfig {
    pub api_key: String,
    pub passphrase: String,
    pub secret_key: String,
}

/// `serde_json::Error`, as `serde_json::to_string` returns it.
#[verifier::external_type_specification]
#[verifier::external_body]
pub struct ExSerdeJsonError(serde_json::Error);

/// Why a request could not be made, or a response not be used.
#[derive(Debug)]
pub enum OkexClientError {
    /// A header value holds a character that no header may carry.
    InvalidHeaderValue,
    /// The body of a request could not be written as JSON.
    SerdeJson(serde_json::Error),
    /// The exchange answered without the data that was asked for.
    UnexpectedResponse { msg: String, code: String },
}

/// The two request methods in use.
#[derive(Clone, Copy, Debug, PartialEq, Eq, Structural)]
pub enum HttpMethod {
    Get,
    Post,
}

/// A request, ready to be sent.
#[derive(Debug)]
pub struct OkexRequest {
    pub method: HttpMethod,
    pub url: String,
    pub headers: HeaderMap,
    pub body: String,
}

/// One element of the data of a response, with the field that is read.
#[derive(Debug)]
pub enum OkexResponseData {
    DepositAddress { addr: String },
    Transfer { trans_id: String },
    Balance { avail_bal: String },
    TransferState { state: String },
}

/// A response of the exchange.
#[derive(Debug)]
pub enum OkexResponse {
    WithData { code: String, msg: String, data: Vec<OkexResponseData> },
    WithoutData { code: String, msg: String },
}

/// The client: the credentials that requests are signed with.
pub struct OkexClient {
    config: OkexClientConfig,
}

/// Keys and messages of this many bytes or more are not signed.
pub const SIGNED_BYTES_LIMIT: u64 = 0x1000_0000_0000_0000;

/// The HMAC-SHA256 tag of `message` under `key`.
pub uninterp spec fn hmac_sha256(key: Seq<u8>, message: Seq<u8>) -> Seq<u8>;

/// The padded base64 text of `bytes`.
pub uninterp spec fn base64_text(bytes: Seq<u8>) -> Seq<char>;

/// Whether `c` is a letter, a digit, `+`, `/` or `=`.
pub open spec fn is_base64_char(c: char) -> bool {
    ||| 'A' as u32 <= c as u32 <= 'Z' as u32
    ||| 'a' as u32 <= c as u32 <= 'z' as u32
    ||| '0' as u32 <= c as u32 <= '9' as u32
    ||| c == '+'
    ||| c == '/'
    ||| c == '='
}

/// The name of a request method as it stands in a signed message.
pub open spec fn method_text(method: HttpMethod) -> Seq<char> {
    match method {
        HttpMethod::Get => "GET"@,
        HttpMethod::Post => "POST"@,
    }
}

/// The message that is signed for a request: timestamp, method, path and
/// body, one after the other.
pub open spec fn pre_hash_text(
    timestamp: Seq<char>,
    method: HttpMethod,
    request_path: Seq<char>,
    body: Seq<char>,
) -> Seq<char> {
    timestamp + method_text(method) + request_path + body
}

/// The signature of `pre_hash` under `secret_key`: the base64 text of its
/// HMAC-SHA256 tag.
pub open spec fn signature_text(secret_key: Seq<char>, pre_hash: Seq<char>) -> Seq<char> {
    base64_text(hmac_sha256(encode_utf8(secret_key), encode_utf8(pre_hash)))
}

/// Whether `pre_hash` can be signed under `secret_key`: both are short of
/// the limit.
pub open spec fn is_signable(secret_key: Seq<char>, pre_hash: Seq<char>) -> bool {
    encode_utf8(secret_key).len() < SIGNED_BYTES_LIMIT && encode_utf8(pre_hash).len()
        < SIGNED_BYTES_LIMIT
}

/// The bytes that a timestamp and the name of a method take up in a signed
/// message at most.
pub const SIGNED_FRAME_BYTES: u64 = 144;

/// Whether `c` is a digit or one of `-`, `+`, `T`, `:`, `.` and `Z`.
pub open spec fn is_clock_char(c: char) -> bool {
    ||| '0' as u32 <= c as u32 <= '9' as u32
    ||| c == '-'
    ||| c == '+'
    ||| c == 'T'
    ||| c == ':'
    ||| c == '.'
    ||| c == 'Z'
}

/// Whether `text` has the shape of a timestamp as the clock writes it: 24
/// to 32 digits and separators.
pub open spec fn is_clock_text(text: Seq<char>) -> bool {
    &&& 24 <= text.len() <= 32
    &&& forall|i: int| 0 <= i < text.len() ==> is_clock_char(#[trigger] text[i])
}

/// Whether a request of `request_path` and `body` can be signed under
/// `secret_key` whatever the clock says: the key is short of the limit, and
/// so are path and body together with the room that timestamp and method
/// take.
pub open spec fn fits_signing(
    secret_key: Seq<char>,
    request_path: Seq<char>,
    body: Seq<char>,
) -> bool {
    &&& encode_utf8(secret_key).len() < SIGNED_BYTES_LIMIT
    &&& encode_utf8(request_path).len() + encode_utf8(body).len() + SIGNED_FRAME_BYTES
        < SIGNED_BYTES_LIMIT
}

/// Whether no two of `fields` have the same name.
pub open spec fn has_distinct_names(fields: Seq<(Seq<char>, Seq<char>)>) -> bool {
    forall|i: int, j: int|
        0 <= i < j < fields.len() ==> (#[trigger] fields[i]).0 != (#[trigger] fields[j]).0
}

/// The text of the JSON object that holds `fields`, each name with its
/// value as a string, in this order.
pub uninterp spec fn json_object_text(fields: Seq<(Seq<char>, Seq<char>)>) -> Seq<char>;

/// The bytes of two texts in a row are the bytes of the one and then the
/// bytes of the other.
proof fn lemma_bytes_of_joined(first: Seq<char>, second: Seq<char>)
    ensures
        encode_utf8(first + second) == encode_utf8(first) + encode_utf8(second),
    decreases first.len(),
{
    if first.len() == 0 {
        assert(first + second =~= second);
        assert(encode_utf8(first) + encode_utf8(second) =~= encode_utf8(second));
    } else {
        assert((first + second).drop_first() =~= first.drop_first() + second);
        lemma_bytes_of_joined(first.drop_first(), second);
        assert(encode_utf8(first + second) =~= encode_utf8(first) + encode_utf8(second));
    }
}

/// A text takes up four bytes for each character at most.
proof fn lemma_bytes_of_text(text: Seq<char>)
    ensures
        encode_utf8(text).len() <= 4 * text.len(),
    decreases text.len(),
{
    if text.len() > 0 {
        lemma_bytes_of_text(text.drop_first());
    }
}

/// A timestamp of the clock is a header value, and a request that fits
/// signing can be signed at it.
proof fn lemma_clock_text(
    secret_key: Seq<char>,
    timestamp: Seq<char>,
    method: HttpMethod,
    request_path: Seq<char>,
    body: Seq<char>,
)
    requires
        is_clock_text(timestamp),
    ensures
        is_header_value(timestamp),
        fits_signing(secret_key, request_path, body) ==> is_signable(
            secret_key,
            pre_hash_text(timestamp, method, request_path, body),
        ),
{
    reveal_strlit("GET");
    reveal_strlit("POST");
    lemma_bytes_of_text(timestamp);
    lemma_bytes_of_text(method_text(method));
    lemma_bytes_of_joined(timestamp, method_text(method));
    lemma_bytes_of_joined(timestamp + method_text(method), request_path);
    lemma_bytes_of_joined(timestamp + method_text(method) + request_path, body);
}

/// The five headers of a request: under each name the bytes of its value.
pub open spec fn signed_headers(
    api_key: Seq<char>,
    signature: Seq<char>,
    timestamp: Seq<char>,
    passphrase: Seq<char>,
) -> Map<Seq<char>, Seq<u8>> {
    no_entries().insert("content-type"@, encode_utf8("application/json"@)).insert(
        "ok-access-key"@,
        encode_utf8(api_key),
    ).insert("ok-access-sign"@, encode_utf8(signature)).insert(
        "ok-access-timestamp"@,
        encode_utf8(timestamp),
    ).insert("ok-access-passphrase"@, encode_utf8(passphrase))
}

/// The names of the five headers are header names.
proof fn lemma_header_names()
    ensures
        is_plain_header_name("content-type"@),
        is_plain_header_name("ok-access-key"@),
        is_plain_header_name("ok-access-sign"@),
        is_plain_header_name("ok-access-timestamp"@),
        is_plain_header_name("ok-access-passphrase"@),
{
    reveal_strlit("content-type");
    reveal_strlit("ok-access-key");
    reveal_strlit("ok-access-sign");
    reveal_strlit("ok-access-timestamp");
    reveal_strlit("ok-access-passphrase");
}

/// Computes an HMAC-SHA256 tag with `ring`: the key is made by
/// `ring::hmac::Key::new` for `ring::hmac::HMAC_SHA256`, and the tag by
/// `ring::hmac::sign`. The tag depends on key and message alone and is 32
/// bytes long. `ring` panics on inputs of 2^61 bytes and more; they are left
/// out here.
#[verifier::external_body]
fn hmac_sha256_tag(key: &[u8], message: &[u8]) -> (tag: Vec<u8>)
    requires
        key@.len() < SIGNED_BYTES_LIMIT,
        message@.len() < SIGNED_BYTES_LIMIT,
    ensures
        tag@ == hmac_sha256(key@, message@),
        tag@.len() == 32,
{
    let key = ring::hmac::Key::new(ring::hmac::HMAC_SHA256, key);
    ring::hmac::sign(&key, message).as_ref().to_vec()
}

/// Encodes bytes with `data_encoding::BASE64.encode`: padded base64 in the
/// standard alphabet. The text depends on the bytes alone, has four
/// characters for every three bytes begun, and holds only characters of the
/// alphabet and the padding. The encoder panics on inputs longer than the
/// largest `usize` divided by 512; they are left out here.
#[verifier::external_body]
fn base64_encode(bytes: &[u8]) -> (text: String)
    requires
        bytes@.len() <= 8_388_607,
    ensures
        text@ == base64_text(bytes@),
        text@.len() == 4 * ((bytes@.len() + 2) / 3),
        forall|i: int| 0 <= i < text@.len() ==> is_base64_char(#[trigger] text@[i]),
{
    data_encoding::BASE64.encode(bytes)
}

/// Writes fields as a JSON object with `serde_json::to_string`, from the
/// map that holds each name with its value. The map is walked in an order
/// that differs from run to run, so the text is that of the fields in some
/// order: each of them once, as no two have the same name.
#[verifier::external_body]
fn json_text(fields: &Vec<(String, String)>) -> (text: Result<String, serde_json::Error>)
    requires
        has_distinct_names(field_pairs(fields@)),
    ensures
        text matches Ok(written) ==> exists|order: Seq<(Seq<char>, Seq<char>)>|
            order.to_multiset() == field_pairs(fields@).to_multiset() && written@
                == #[trigger] json_object_text(order),
{
    let map: HashMap<String, String> = fields.iter().cloned().collect();
    serde_json::to_string(&map)
}

/// Reads the system clock through `chrono::Utc::now` and writes it out with
/// `to_rfc3339_opts`, to the millisecond and with `Z` for the offset: the
/// year in four digits, or with a sign and up to six, then month, day,
/// hour, minute and second in two digits each and the milliseconds in
/// three, with `-`, `T`, `:` and `.` between them. Which time it is, is
/// whatever the machine's clock says. `chrono` panics where that clock is
/// set before the Unix epoch.
#[verifier::external_body]
fn clock_rfc3339_millis() -> (timestamp: String)
    ensures
        is_clock_text(timestamp@),
{
    chrono::Utc::now().to_rfc3339_opts(chrono::SecondsFormat::Millis, true)
}

/// The address of the API.
pub fn okex_api_url() -> (url: &'static str)
    ensures
        url@ == "https://www.okex.com"@,
{
    "https://www.okex.com"
}

/// The path of the deposit address query.
pub fn deposit_address_path() -> (path: &'static str)
    ensures
        path@ == "/api/v5/asset/deposit-address?ccy=BTC"@,
{
    "/api/v5/asset/deposit-address?ccy=BTC"
}

/// The path of a transfer between accounts.
pub fn transfer_path() -> (path: &'static str)
    ensures
        path@ == "/api/v5/asset/transfer"@,
{
    "/api/v5/asset/transfer"
}

/// The path of the funding balance query.
pub fn balance_path() -> (path: &'static str)
    ensures
        path@ == "/api/v5/asset/balances?ccy=BTC"@,
{
    "/api/v5/asset/balances?ccy=BTC"
}

/// The path of the query for the state of the transfer `transfer_id`.
pub fn transfer_state_path(transfer_id: &TransferId) -> (path: String)
    ensures
        path@ == "/api/v5/asset/transfer-state?ccy=BTC&transId="@ + transfer_id.value@,
{
    "/api/v5/asset/transfer-state?ccy=BTC&transId=".to_owned().concat(transfer_id.value.as_str())
}

/// The message to sign for a request.
pub fn pre_hash(timestamp: &str, method: HttpMethod, request_path: &str, body: &str) -> (text:
    String)
    ensures
        text@ == pre_hash_text(timestamp@, method, request_path@, body@),
{
    let method_name: &str = match method {
        HttpMethod::Get => "GET",
        HttpMethod::Post => "POST",
    };
    timestamp.to_owned().concat(method_name).concat(request_path).concat(body)
}

/// The fields of the body of a transfer of `amt` bitcoin from the account
/// numbered `from` to the account numbered `to`.
pub open spec fn transfer_fields_text(amt: Seq<char>, from: Seq<char>, to: Seq<char>) -> Seq<
    (Seq<char>, Seq<char>),
> {
    seq![("ccy"@, "BTC"@), ("amt"@, amt), ("from"@, from), ("to"@, to)]
}

/// Names and values of a list of fields.
pub open spec fn field_pairs(fields: Seq<(String, String)>) -> Seq<(Seq<char>, Seq<char>)> {
    Seq::new(fields.len(), |i: int| (fields[i].0@, fields[i].1@))
}

/// The four fields of a transfer have four names.
pub proof fn lemma_transfer_fields_are_distinct(amt: Seq<char>, from: Seq<char>, to: Seq<char>)
    ensures
        has_distinct_names(transfer_fields_text(amt, from, to)),
{
    reveal_strlit("ccy");
    reveal_strlit("amt");
    reveal_strlit("from");
    reveal_strlit("to");
    let fields = transfer_fields_text(amt, from, to);
    assert(fields[0].0.len() == 3 && fields[0].0[0] == 'c');
    assert(fields[1].0.len() == 3 && fields[1].0[0] == 'a');
    assert(fields[2].0.len() == 4);
    assert(fields[3].0.len() == 2);
}

fn transfer_fields(amt: &str, from: &str, to: &str) -> (fields: Vec<(String, String)>)
    ensures
        field_pairs(fields@) == transfer_fields_text(amt@, from@, to@),
{
    let mut fields: Vec<(String, String)> = Vec::new();
    fields.push(("ccy".to_owned(), "BTC".to_owned()));
    fields.push(("amt".to_owned(), amt.to_owned()));
    fields.push(("from".to_owned(), from.to_owned()));
    fields.push(("to".to_owned(), to.to_owned()));
    fields
}

/// The fields of the body of a transfer of `amt` bitcoin from the funding
/// account to the trading account.
pub fn transfer_funding_to_trading_fields(amt: &str) -> (fields: Vec<(String, String)>)
    ensures
        field_pairs(fields@) == transfer_fields_text(amt@, "6"@, "18"@),
{
    transfer_fields(amt, "6", "18")
}

/// The fields of the body of a transfer of `amt` bitcoin from the trading
/// account to the funding account.
pub fn transfer_trading_to_funding_fields(amt: &str) -> (fields: Vec<(String, String)>)
    ensures
        field_pairs(fields@) == transfer_fields_text(amt@, "18"@, "6"@),
{
    transfer_fields(amt, "18", "6")
}

impl OkexResponse {
    /// The error that stands for a response without the data asked for: it
    /// carries the response's message and code.
    pub open spec fn unexpected(self) -> OkexClientError {
        match self {
            OkexResponse::WithData { code, msg, data } => OkexClientError::UnexpectedResponse {
                msg,
                code,
            },
            OkexResponse::WithoutData { code, msg } => OkexClientError::UnexpectedResponse {
                msg,
                code,
            },
        }
    }

    /// The first element of the data, where there is one.
    pub open spec fn first_data(self) -> Option<OkexResponseData> {
        match self {
            OkexResponse::WithData { code, msg, data } => if data@.len() > 0 {
                Some(data@[0])
            } else {
                None
            },
            OkexResponse::WithoutData { code, msg } => None,
        }
    }

    /// Takes the response apart: the first element of its data, or the
    /// error that stands for it.
    fn into_first_data(self) -> (first: Result<(OkexResponseData, OkexClientError), OkexClientError>)
        ensures
            match first {
                Ok((data, unexpected)) => self.first_data() == Some(data) && unexpected
                    == self.unexpected(),
                Err(unexpected) => self.first_data().is_none() && unexpected == self.unexpected(),
            },
    {
        match self {
            OkexResponse::WithoutData { code, msg } => Err(
                OkexClientError::UnexpectedResponse { msg, code },
            ),
            OkexResponse::WithData { code, msg, data } => {
                let mut data = data;
                let unexpected = OkexClientError::UnexpectedResponse { msg, code };
                if data.len() > 0 {
                    let first: OkexResponseData = data.swap_remove(0);
                    Ok((first, unexpected))
                } else {
                    Err(unexpected)
                }
            },
        }
    }

    /// What the response says of the deposit address.
    pub open spec fn deposit_address(self) -> Result<DepositAddress, OkexClientError> {
        match self.first_data() {
            Some(OkexResponseData::DepositAddress { addr }) => Ok(DepositAddress { value: addr }),
            _ => Err(self.unexpected()),
        }
    }

    /// What the response says of the transfer that was asked for.
    pub open spec fn transfer_id(self) -> Result<TransferId, OkexClientError> {
        match self.first_data() {
            Some(OkexResponseData::Transfer { trans_id }) => Ok(TransferId { value: trans_id }),
            _ => Err(self.unexpected()),
        }
    }

    /// What the response says of the funding balance.
    pub open spec fn available_balance(self) -> Result<AvailableBalance, OkexClientError> {
        match self.first_data() {
            Some(OkexResponseData::Balance { avail_bal }) => Ok(
                AvailableBalance { value: avail_bal },
            ),
            _ => Err(self.unexpected()),
        }
    }

    /// What the response says of the state of a transfer.
    pub open spec fn transfer_state(self) -> Result<TransferState, OkexClientError> {
        match self.first_data() {
            Some(OkexResponseData::TransferState { state }) => Ok(TransferState { value: state }),
            _ => Err(self.unexpected()),
        }
    }
}

impl OkexClient {
    /// The credentials.
    pub closed spec fn config(self) -> OkexClientConfig {
        self.config
    }

    /// The request that the client makes of `method`, `request_path` and
    /// `body` at the time `timestamp`, where its header values are valid.
    pub open spec fn lays_out(
        self,
        request: OkexRequest,
        method: HttpMethod,
        request_path: Seq<char>,
        body: Seq<char>,
        timestamp: Seq<char>,
    ) -> bool {
        &&& request.method == method
        &&& request.url@ == "https://www.okex.com"@ + request_path
        &&& request.body@ == body
        &&& header_map_entries(request.headers) == signed_headers(
            self.config().api_key@,
            signature_text(
                self.config().secret_key@,
                pre_hash_text(timestamp, method, request_path, body),
            ),
            timestamp,
            self.config().passphrase@,
        )
    }

    /// Whether the header values that the credentials and `timestamp` give
    /// are valid.
    pub open spec fn has_valid_headers(self, timestamp: Seq<char>) -> bool {
        &&& is_header_value(self.config().api_key@)
        &&& is_header_value(timestamp)
        &&& is_header_value(self.config().passphrase@)
    }

    /// What making a request of `method`, `request_path` and `body` at the
    /// time `timestamp` comes to.
    pub open spec fn request_outcome(
        self,
        outcome: Result<OkexRequest, OkexClientError>,
        method: HttpMethod,
        request_path: Seq<char>,
        body: Seq<char>,
        timestamp: Seq<char>,
    ) -> bool {
        match outcome {
            Ok(request) => self.has_valid_headers(timestamp) && self.lays_out(
                request,
                method,
                request_path,
                body,
                timestamp,
            ),
            Err(e) => !self.has_valid_headers(timestamp) && e is InvalidHeaderValue,
        }
    }

    /// A client with the given credentials.
    pub fn new(config: OkexClientConfig) -> (client: Self)
        ensures
            client.config() == config,
    {
        OkexClient { config }
    }

    /// The signature of `pre_hash`: the base64 text of its HMAC-SHA256 tag
    /// under the secret key.
    pub fn sign_okex_request(&self, pre_hash: &str) -> (signature: String)
        requires
            is_signable(self.config().secret_key@, pre_hash@),
        ensures
            signature@ == signature_text(self.config().secret_key@, pre_hash@),
            signature@.len() == 44,
            forall|i: int| 0 <= i < signature@.len() ==> is_base64_char(#[trigger] signature@[i]),
            is_header_value(signature@),
    {
        let tag: Vec<u8> = hmac_sha256_tag(
            self.config.secret_key.as_str().as_bytes(),
            pre_hash.as_bytes(),
        );
        base64_encode(tag.as_slice())
    }

    /// The headers of a request that is signed over `pre_hash` and made at
    /// `formatted_timestamp`.
    ///
    /// Fails with `InvalidHeaderValue` where the API key, the timestamp or
    /// the passphrase cannot be a header value.
    pub fn request_headers(&self, formatted_timestamp: &str, pre_hash: &str) -> (headers: Result<
        HeaderMap,
        OkexClientError,
    >)
        requires
            is_signable(self.config().secret_key@, pre_hash@),
        ensures
            match headers {
                Ok(map) => self.has_valid_headers(formatted_timestamp@) && header_map_entries(map)
                    == signed_headers(
                    self.config().api_key@,
                    signature_text(self.config().secret_key@, pre_hash@),
                    formatted_timestamp@,
                    self.config().passphrase@,
                ),
                Err(e) => !self.has_valid_headers(formatted_timestamp@) && e is InvalidHeaderValue,
            },
    {
        let sign_base64: String = self.sign_okex_request(pre_hash);
        let mut headers: HeaderMap = header_map_new();
        proof {
            lemma_header_names();
            reveal_strlit("application/json");
        }
        if !header_map_insert(&mut headers, "content-type", "application/json") {
            return Err(OkexClientError::InvalidHeaderValue);
        }
        if !header_map_insert(&mut headers, "ok-access-key", self.config.api_key.as_str()) {
            return Err(OkexClientError::InvalidHeaderValue);
        }
        if !header_map_insert(&mut headers, "ok-access-sign", sign_base64.as_str()) {
            return Err(OkexClientError::InvalidHeaderValue);
        }
        if !header_map_insert(&mut headers, "ok-access-timestamp", formatted_timestamp) {
            return Err(OkexClientError::InvalidHeaderValue);
        }
        if !header_map_insert(&mut headers, "ok-access-passphrase", self.config.passphrase.as_str()) {
            return Err(OkexClientError::InvalidHeaderValue);
        }
        Ok(headers)
    }

    /// The request of `method`, `request_path` and `body`, signed and laid
    /// out as made at `timestamp`.
    pub fn signed_request_at(
        &self,
        method: HttpMethod,
        request_path: &str,
        body: String,
        timestamp: &str,
    ) -> (request: Result<OkexRequest, OkexClientError>)
        requires
            is_signable(
                self.config().secret_key@,
                pre_hash_text(timestamp@, method, request_path@, body@),
            ),
        ensures
            self.request_outcome(request, method, request_path@, body@, timestamp@),
    {
        let pre_hash: String = pre_hash(timestamp, method, request_path, body.as_str());
        match self.request_headers(timestamp, pre_hash.as_str()) {
            Err(e) => Err(e),
            Ok(headers) => Ok(
                OkexRequest {
                    method,
                    url: okex_api_url().to_owned().concat(request_path),
                    headers,
                    body,
                },
            ),
        }
    }

    /// Whether `pre_hash` can be signed under the secret key.
    pub fn can_sign(&self, pre_hash: &str) -> (signable: bool)
        ensures
            signable == is_signable(self.config().secret_key@, pre_hash@),
    {
        let key_bytes: usize = self.config.secret_key.as_str().as_bytes().len();
        let message_bytes: usize = pre_hash.as_bytes().len();
        (key_bytes as u64) < SIGNED_BYTES_LIMIT && (message_bytes as u64) < SIGNED_BYTES_LIMIT
    }

    /// The request of `method`, `request_path` and `body` as made at
    /// `timestamp`, or `None` where key or message are too long to sign.
    pub fn checked_request_at(
        &self,
        method: HttpMethod,
        request_path: &str,
        body: String,
        timestamp: &str,
    ) -> (request: Option<Result<OkexRequest, OkexClientError>>)
        ensures
            self.checked_outcome(request, method, request_path@, body@, timestamp@),
    {
        let pre_hash: String = pre_hash(timestamp, method, request_path, body.as_str());
        if self.can_sign(pre_hash.as_str()) {
            Some(self.signed_request_at(method, request_path, body, timestamp))
        } else {
            None
        }
    }

    /// What making a request comes to where the length of key and message
    /// is tested first.
    pub open spec fn checked_outcome(
        self,
        outcome: Option<Result<OkexRequest, OkexClientError>>,
        method: HttpMethod,
        request_path: Seq<char>,
        body: Seq<char>,
        timestamp: Seq<char>,
    ) -> bool {
        match outcome {
            None => !is_signable(
                self.config().secret_key@,
                pre_hash_text(timestamp, method, request_path, body),
            ),
            Some(made) => is_signable(
                self.config().secret_key@,
                pre_hash_text(timestamp, method, request_path, body),
            ) && self.request_outcome(made, method, request_path, body, timestamp),
        }
    }

    /// Whether API key and passphrase can stand in headers.
    pub open spec fn has_valid_credentials(self) -> bool {
        is_header_value(self.config().api_key@) && is_header_value(self.config().passphrase@)
    }

    /// What making a request of `method`, `request_path` and `body` now
    /// comes to: what it comes to at some timestamp of the clock.
    pub open spec fn made_now(
        self,
        outcome: Option<Result<OkexRequest, OkexClientError>>,
        method: HttpMethod,
        request_path: Seq<char>,
        body: Seq<char>,
    ) -> bool {
        exists|timestamp: Seq<char>|
            is_clock_text(timestamp) && #[trigger] self.checked_outcome(
                outcome,
                method,
                request_path,
                body,
                timestamp,
            )
    }

    /// The request of `method`, `request_path` and `body`, made now. With
    /// credentials that can stand in headers, and a key, a path and a body
    /// that fit signing, there is a request.
    fn request_now(&self, method: HttpMethod, request_path: &str, body: String) -> (request: Option<
        Result<OkexRequest, OkexClientError>,
    >)
        ensures
            self.made_now(request, method, request_path@, body@),
            self.has_valid_credentials() && fits_signing(
                self.config().secret_key@,
                request_path@,
                body@,
            ) ==> request matches Some(Ok(_)),
    {
        let timestamp: String = clock_rfc3339_millis();
        proof {
            lemma_clock_text(self.config().secret_key@, timestamp@, method, request_path@, body@);
        }
        self.checked_request_at(method, request_path, body, timestamp.as_str())
    }

    /// The request for the deposit address of the funding account, made
    /// now: a `GET` without a body, with the timestamp read from the system
    /// clock. With credentials that can stand in headers and a key short
    /// enough to sign with, there is a request.
    pub fn get_funding_deposit_address_request(&self) -> (request: Option<
        Result<OkexRequest, OkexClientError>,
    >)
        ensures
            self.made_now(
                request,
                HttpMethod::Get,
                "/api/v5/asset/deposit-address?ccy=BTC"@,
                Seq::<char>::empty(),
            ),
            self.has_valid_credentials() && encode_utf8(self.config().secret_key@).len()
                < SIGNED_BYTES_LIMIT ==> request matches Some(Ok(_)),
    {
        proof {
            reveal_strlit("/api/v5/asset/deposit-address?ccy=BTC");
            lemma_bytes_of_text("/api/v5/asset/deposit-address?ccy=BTC"@);
        }
        self.request_now(HttpMethod::Get, deposit_address_path(), String::new())
    }

    /// The request for a transfer between accounts, made now: a `POST`
    /// with `request_body`, with the timestamp read from the system clock.
    /// With credentials that can stand in headers, and a key and a body
    /// that fit signing, there is a request.
    pub fn transfer_request(&self, request_body: String) -> (request: Option<
        Result<OkexRequest, OkexClientError>,
    >)
        ensures
            self.made_now(request, HttpMethod::Post, "/api/v5/asset/transfer"@, request_body@),
            self.has_valid_credentials() && fits_signing(
                self.config().secret_key@,
                "/api/v5/asset/transfer"@,
                request_body@,
            ) ==> request matches Some(Ok(_)),
    {
        self.request_now(HttpMethod::Post, transfer_path(), request_body)
    }

    /// What making a transfer request with `fields` now comes to: a request
    /// whose body is the JSON object of the fields in some order, made at
    /// some timestamp of the clock, unless the body could not be written.
    /// With credentials that can stand in headers, and a key and a body
    /// that fit signing in whichever order the fields come, it is a request
    /// or that failure.
    pub open spec fn transfer_outcome(
        self,
        outcome: Option<Result<OkexRequest, OkexClientError>>,
        fields: Seq<(Seq<char>, Seq<char>)>,
    ) -> bool {
        &&& (outcome matches Some(Err(OkexClientError::SerdeJson(_)))) || exists|
            order: Seq<(Seq<char>, Seq<char>)>,
            timestamp: Seq<char>,
        |
            order.to_multiset() == fields.to_multiset() && is_clock_text(timestamp)
                && #[trigger] self.checked_outcome(
                outcome,
                HttpMethod::Post,
                "/api/v5/asset/transfer"@,
                json_object_text(order),
                timestamp,
            )
        &&& self.has_valid_credentials() && (forall|order: Seq<(Seq<char>, Seq<char>)>|
            order.to_multiset() == fields.to_multiset() ==> fits_signing(
                self.config().secret_key@,
                "/api/v5/asset/transfer"@,
                #[trigger] json_object_text(order),
            )) ==> (outcome matches Some(Ok(_))) || (outcome matches Some(
            Err(OkexClientError::SerdeJson(_)),
        ))
    }

    /// The request for a transfer with the given fields, made now.
    fn transfer_request_of(&self, fields: Vec<(String, String)>) -> (request: Option<
        Result<OkexRequest, OkexClientError>,
    >)
        requires
            has_distinct_names(field_pairs(fields@)),
        ensures
            self.transfer_outcome(request, field_pairs(fields@)),
    {
        match json_text(&fields) {
            Err(e) => Some(Err(OkexClientError::SerdeJson(e))),
            Ok(request_body) => {
                let ghost order = choose|order: Seq<(Seq<char>, Seq<char>)>|
                    order.to_multiset() == field_pairs(fields@).to_multiset() && request_body@
                        == #[trigger] json_object_text(order);
                let request = self.transfer_request(request_body);
                proof {
                    let timestamp = choose|timestamp: Seq<char>|
                        is_clock_text(timestamp) && #[trigger] self.checked_outcome(
                            request,
                            HttpMethod::Post,
                            "/api/v5/asset/transfer"@,
                            json_object_text(order),
                            timestamp,
                        );
                    assert(self.checked_outcome(
                        request,
                        HttpMethod::Post,
                        "/api/v5/asset/transfer"@,
                        json_object_text(order),
                        timestamp,
                    ));
                }
                request
            },
        }
    }

    /// The request for a transfer of `amt` bitcoin from the funding account
    /// to the trading account, made now: a `POST` whose body is the JSON
    /// object of `ccy`, `amt`, `from` and `to`, from account 6 to account
    /// 18, with the timestamp read from the system clock.
    pub fn transfer_funding_to_trading_request(&self, amt: &str) -> (request: Option<
        Result<OkexRequest, OkexClientError>,
    >)
        ensures
            self.transfer_outcome(request, transfer_fields_text(amt@, "6"@, "18"@)),
    {
        proof {
            lemma_transfer_fields_are_distinct(amt@, "6"@, "18"@);
        }
        self.transfer_request_of(transfer_funding_to_trading_fields(amt))
    }

    /// The request for a transfer of `amt` bitcoin from the trading account
    /// to the funding account, made now: a `POST` whose body is the JSON
    /// object of `ccy`, `amt`, `from` and `to`, from account 18 to account
    /// 6, with the timestamp read from the system clock.
    pub fn transfer_trading_to_funding_request(&self, amt: &str) -> (request: Option<
        Result<OkexRequest, OkexClientError>,
    >)
        ensures
            self.transfer_outcome(request, transfer_fields_text(amt@, "18"@, "6"@)),
    {
        proof {
            lemma_transfer_fields_are_distinct(amt@, "18"@, "6"@);
        }
        self.transfer_request_of(transfer_trading_to_funding_fields(amt))
    }

    /// The request for the balance of the funding account, made now: a
    /// `GET` without a body, with the timestamp read from the system clock.
    /// With credentials that can stand in headers and a key short enough to
    /// sign with, there is a request.
    pub fn funding_account_balance_request(&self) -> (request: Option<
        Result<OkexRequest, OkexClientError>,
    >)
        ensures
            self.made_now(
                request,
                HttpMethod::Get,
                "/api/v5/asset/balances?ccy=BTC"@,
                Seq::<char>::empty(),
            ),
            self.has_valid_credentials() && encode_utf8(self.config().secret_key@).len()
                < SIGNED_BYTES_LIMIT ==> request matches Some(Ok(_)),
    {
        proof {
            reveal_strlit("/api/v5/asset/balances?ccy=BTC");
            lemma_bytes_of_text("/api/v5/asset/balances?ccy=BTC"@);
        }
        self.request_now(HttpMethod::Get, balance_path(), String::new())
    }

    /// The request for the state of the transfer `transfer_id`, made now: a
    /// `GET` without a body, with the timestamp read from the system clock.
    /// With credentials that can stand in headers, and a key and an
    /// identifier that fit signing, there is a request.
    pub fn funding_to_trading_transfer_state_request(&self, transfer_id: &TransferId) -> (request:
        Option<Result<OkexRequest, OkexClientError>>)
        ensures
            self.made_now(
                request,
                HttpMethod::Get,
                "/api/v5/asset/transfer-state?ccy=BTC&transId="@ + transfer_id.value@,
                Seq::<char>::empty(),
            ),
            self.has_valid_credentials() && fits_signing(
                self.config().secret_key@,
                "/api/v5/asset/transfer-state?ccy=BTC&transId="@ + transfer_id.value@,
                Seq::<char>::empty(),
            ) ==> request matches Some(Ok(_)),
    {
        let request_path: String = transfer_state_path(transfer_id);
        self.request_now(HttpMethod::Get, request_path.as_str(), String::new())
    }

    /// What the exchange said of the deposit address: the address in the
    /// first element of the data, or the response's message and code where
    /// that is missing or of another kind.
    pub fn get_funding_deposit_address_result(response: OkexResponse) -> (address: Result<
        DepositAddress,
        OkexClientError,
    >)
        ensures
            address == response.deposit_address(),
    {
        match response.into_first_data() {
            Ok((OkexResponseData::DepositAddress { addr }, _)) => Ok(
                DepositAddress { value: addr },
            ),
            Ok((_, unexpected)) => Err(unexpected),
            Err(unexpected) => Err(unexpected),
        }
    }

    /// What the exchange said of a transfer that was asked for: its
    /// identifier in the first element of the data, or the response's
    /// message and code where that is missing or of another kind.
    pub fn transfer_result(response: OkexResponse) -> (transfer: Result<
        TransferId,
        OkexClientError,
    >)
        ensures
            transfer == response.transfer_id(),
    {
        match response.into_first_data() {
            Ok((OkexResponseData::Transfer { trans_id }, _)) => Ok(TransferId { value: trans_id }),
            Ok((_, unexpected)) => Err(unexpected),
            Err(unexpected) => Err(unexpected),
        }
    }

    /// What the exchange said of the funding balance: the available
    /// balance in the first element of the data, or the response's message
    /// and code where that is missing or of another kind.
    pub fn funding_account_balance_result(response: OkexResponse) -> (balance: Result<
        AvailableBalance,
        OkexClientError,
    >)
        ensures
            balance == response.available_balance(),
    {
        match response.into_first_data() {
            Ok((OkexResponseData::Balance { avail_bal }, _)) => Ok(
                AvailableBalance { value: avail_bal },
            ),
            Ok((_, unexpected)) => Err(unexpected),
            Err(unexpected) => Err(unexpected),
        }
    }

    /// What the exchange said of the state of a transfer: the state in the
    /// first element of the data, or the response's message and code where
    /// that is missing or of another kind.
    pub fn funding_to_trading_transfer_state_result(response: OkexResponse) -> (state: Result<
        TransferState,
        OkexClientError,
    >)
        ensures
            state == response.transfer_state(),
    {
        match response.into_first_data() {
            Ok((OkexResponseData::TransferState { state }, _)) => Ok(
                TransferState { value: state },
            ),
            Ok((_, unexpected)) => Err(unexpected),
            Err(unexpected) => Err(unexpected),
        }
    }
}


} // verus!
