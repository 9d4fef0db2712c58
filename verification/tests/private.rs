use coinbase_rs::error::{CBError, DecodeError};
use coinbase_rs::pagination::{Page, Reply};
use coinbase_rs::private::{Account, Private, Transaction};
use coinbase_rs::request::Method;
use coinbase_rs::values::Uuid;
use coinbase_rs::MAIN_URL;
use jwt_simple::algorithms::{ECDSAP256PublicKeyLike, ES256KeyPair};

type Custom = serde_json::Map<String, serde_json::Value>;

fn client() -> (Private, ES256KeyPair) {
    let pair = ES256KeyPair::generate();
    let secret = p256::SecretKey::from_slice(&pair.to_bytes()).unwrap();
    let pem = secret.to_sec1_pem(Default::default()).unwrap().to_string();
    (Private::new(MAIN_URL, "key-name", &pem), pair)
}

fn signed_uri(pair: &ES256KeyPair, bearer: &str) -> String {
    let token = bearer.strip_prefix("Bearer ").unwrap();
    let claims = pair.public_key().verify_token::<Custom>(token, None).unwrap();
    claims.custom.get("uri").unwrap().as_str().unwrap().to_string()
}

const ACCOUNT: Uuid = Uuid { bits: 0xf1bb8f61_7f5d_4f04_9552_bcbafdf856b7 };

#[test]
fn accounts_are_listed_from_the_first_page() {
    let (client, pair) = client();
    let mut pager = client.accounts();
    let request = pager.next_request().unwrap().unwrap();
    assert_eq!(request.method(), Method::Get);
    assert_eq!(request.uri().as_str(), "https://api.coinbase.com/v2/accounts");
    assert!(request.body().is_empty());
    let bearer = request.headers().get("Authorization").unwrap();
    assert_eq!(signed_uri(&pair, bearer), "GET api.coinbase.com/v2/accounts");
    let body = br#"{"pagination":{"next_starting_after":null},"data":[]}"#;
    let accounts: Vec<Account> = pager.on_body(body).unwrap().unwrap();
    assert!(accounts.is_empty());
    assert!(pager.next_request().is_none());
}

#[test]
fn each_page_request_is_signed_for_its_own_target() {
    let (client, pair) = client();
    let mut pager = client.accounts();
    pager.next_request().unwrap().unwrap();
    let reply: Reply<Account> =
        Reply::Page(Page { items: Vec::new(), next_cursor: Some("c-1".to_string()) });
    pager.on_reply(reply).unwrap().unwrap();
    let request = pager.next_request().unwrap().unwrap();
    assert_eq!(request.uri().as_str(), "https://api.coinbase.com/v2/accounts?starting_after=c-1");
    let bearer = request.headers().get("Authorization").unwrap();
    assert_eq!(signed_uri(&pair, bearer), "GET api.coinbase.com/v2/accounts?starting_after=c-1");
}

#[test]
fn transactions_are_listed_a_hundred_to_the_page() {
    let (client, pair) = client();
    let mut pager = client.transactions(&ACCOUNT);
    let request = pager.next_request().unwrap().unwrap();
    assert_eq!(
        request.uri().as_str(),
        "https://api.coinbase.com/v2/accounts/f1bb8f61-7f5d-4f04-9552-bcbafdf856b7/transactions?limit=100"
    );
    let bearer = request.headers().get("Authorization").unwrap();
    assert_eq!(
        signed_uri(&pair, bearer),
        "GET api.coinbase.com/v2/accounts/f1bb8f61-7f5d-4f04-9552-bcbafdf856b7/transactions?limit=100"
    );
    let body = br#"{"pagination":{"next_starting_after":"t9"},"data":[]}"#;
    let transactions: Vec<Transaction> = pager.on_body(body).unwrap().unwrap();
    assert!(transactions.is_empty());
    let request = pager.next_request().unwrap().unwrap();
    assert_eq!(
        request.uri().as_str(),
        "https://api.coinbase.com/v2/accounts/f1bb8f61-7f5d-4f04-9552-bcbafdf856b7/transactions?limit=100&starting_after=t9"
    );
}

#[test]
fn addresses_are_listed_for_one_account() {
    let (client, _) = client();
    let mut pager = client.list_addresses(&ACCOUNT);
    let request = pager.next_request().unwrap().unwrap();
    assert_eq!(
        request.uri().as_str(),
        "https://api.coinbase.com/v2/accounts/f1bb8f61-7f5d-4f04-9552-bcbafdf856b7/addresses"
    );
}

#[test]
fn payment_methods_are_asked_for_with_a_signed_get() {
    let (client, pair) = client();
    let request = client.list_payment_methods().unwrap();
    assert_eq!(request.method(), Method::Get);
    assert_eq!(request.uri().as_str(), "https://api.coinbase.com/api/v3/brokerage/payment_methods");
    let bearer = request.headers().get("Authorization").unwrap();
    assert_eq!(signed_uri(&pair, bearer), "GET api.coinbase.com/api/v3/brokerage/payment_methods");
}

#[test]
fn payment_methods_are_read_from_the_reply() {
    let body = br#"{"payment_methods":[
      {"id":"pm-a","type":"ACH","name":"Bank","currency":"USD","verified":true,"allow_buy":true,
       "allow_sell":false,"allow_deposit":true,"allow_withdraw":true,
       "created_at":"2021-01-02T03:04:05Z","updated_at":"2021-01-02T03:04:05Z"}]}"#;
    let methods = Private::payment_methods(body).unwrap();
    assert_eq!(methods.len(), 1);
    assert_eq!(methods[0].name, "Bank");
    let refusal = br#"{"errors":[{"id":"unauthorized","message":"No"}]}"#;
    assert!(matches!(
        Private::payment_methods(refusal),
        Err(CBError::RemoteError(r)) if r.errors[0].id == "unauthorized"
    ));
    assert!(matches!(
        Private::payment_methods(b"{\"payment_methods\":[{]}"),
        Err(CBError::MalformedResponse(DecodeError::Syntax(_)))
    ));
    assert!(matches!(
        Private::payment_methods(b"{\"payment_methods\":7}"),
        Err(CBError::MalformedResponse(DecodeError::Shape))
    ));
}

#[test]
fn a_withdrawal_is_posted_with_its_order() {
    let (client, pair) = client();
    let method = Uuid { bits: 0x83562370_3e5c_51db_87da_752af5ab9559 };
    let request =
        client.withdrawals(&ACCOUNT, "10.00".to_string(), "USD".to_string(), method).unwrap();
    assert_eq!(request.method(), Method::Post);
    assert_eq!(
        request.uri().as_str(),
        "https://api.coinbase.com/v2/accounts/f1bb8f61-7f5d-4f04-9552-bcbafdf856b7/withdrawals"
    );
    assert_eq!(
        std::str::from_utf8(request.body()).unwrap(),
        r#"{"amount":"10.00","currency":"USD","payment_method":"83562370-3e5c-51db-87da-752af5ab9559","commit":true}"#
    );
    let bearer = request.headers().get("Authorization").unwrap();
    assert_eq!(
        signed_uri(&pair, bearer),
        "POST api.coinbase.com/v2/accounts/f1bb8f61-7f5d-4f04-9552-bcbafdf856b7/withdrawals"
    );
}

#[test]
fn a_withdrawal_reply_is_a_transfer_or_a_refusal() {
    let refusal = br#"{"errors":[{"id":"validation_error","message":"Too much"}]}"#;
    assert!(matches!(
        Private::withdrawal(refusal),
        Err(CBError::RemoteError(r)) if r.errors[0].message == "Too much"
    ));
    assert!(matches!(
        Private::withdrawal(b"{\"id\":"),
        Err(CBError::MalformedResponse(DecodeError::Syntax(_)))
    ));
    assert!(matches!(
        Private::withdrawal(b"{\"id\":\"t1\"}"),
        Err(CBError::MalformedResponse(DecodeError::Shape))
    ));
}

#[test]
fn a_client_without_a_usable_address_cannot_ask() {
    let client = Private::new("api coinbase", "k", "s");
    assert!(matches!(client.list_payment_methods(), Err(CBError::MissingAuthority)));
    let client = Private::new("", "k", "s");
    assert!(matches!(client.list_payment_methods(), Err(CBError::MissingAuthority)));
    let mut pager = client.accounts();
    assert!(matches!(pager.next_request(), Some(Err(CBError::MissingAuthority))));
    assert!(pager.next_request().is_none());
}

#[test]
fn a_client_with_a_bad_key_cannot_sign() {
    let client = Private::new(MAIN_URL, "k", "not a key");
    assert!(matches!(client.list_payment_methods(), Err(CBError::KeyLoad)));
    let method = Uuid { bits: 1 };
    assert!(matches!(
        client.withdrawals(&ACCOUNT, "1".to_string(), "USD".to_string(), method),
        Err(CBError::KeyLoad)
    ));
}
