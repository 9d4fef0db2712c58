//! The account of one user: its records as the service writes them, and the requests that
//! fetch them.

use crate::error::{CBError, CBErrorView, DecodeError, DecodeErrorView};
use crate::headers::pairs_of;
use crate::json::{
    field, json_document, json_text, optional_field, read_field, read_optional_field, FromJson,
    Json, JsonValue,
};
use crate::pagination::{
    answer_of, answer_view, is_request_failure, read_answer, request_for, request_outcome,
    requests, Pager, PagerView, StreamStateView, QUERY,
};
use crate::request::{Builder, BuilderView, Method, Request};
use crate::text::same_text;
use crate::uri::{address_of, resolve, Uri, UriView};
use crate::values::{uuid_text, DateTime, Decimal, DecimalView, Uuid};
use vstd::prelude::*;

verus! {

/// The client of one user, whose requests are signed with the user's key.
pub struct Private {
    uri: String,
    key: String,
    secret: String,
}

/// What a [`Private`] holds.
pub struct PrivateView {
    /// The address of the service, before the path of a resource.
    pub uri: Seq<char>,
    /// The name of the key.
    pub key: Seq<char>,
    /// The PEM text of the key.
    pub secret: Seq<char>,
}

impl View for Private {
    type V = PrivateView;

    closed spec fn view(&self) -> PrivateView {
        PrivateView { uri: self.uri@, key: self.key@, secret: self.secret@ }
    }
}

/// The path of the list of accounts.
pub const ACCOUNTS: &'static str = "/v2/accounts";

/// The template of the path of the transactions of an account.
pub const TRANSACTIONS: &'static str = "/v2/accounts/{account}/transactions";

/// The template of the path of the addresses of an account.
pub const ADDRESSES: &'static str = "/v2/accounts/{account}/addresses";

/// The path of the list of payment methods.
pub const PAYMENT_METHODS: &'static str = "/api/v3/brokerage/payment_methods";

/// The template of the path of the withdrawals of an account.
pub const WITHDRAWALS: &'static str = "/v2/accounts/{account}/withdrawals";

/// The name of the template variable that holds the identifier of an account.
pub const ACCOUNT: &'static str = "account";

/// The member of a page under which its items stand.
pub const DATA: &'static str = "data";

/// How many transactions a page is asked to hold.
pub const TRANSACTIONS_PER_PAGE: usize = 100;

/// The variables of a template that speaks of one account.
pub open spec fn account_scalars(account: Uuid) -> Seq<(Seq<char>, Seq<char>)> {
    seq![(ACCOUNT@, uuid_text(account.bits))]
}

/// The variables of a template that speaks of one account.
fn scalars_of(account: &Uuid) -> (r: Vec<(String, String)>)
    ensures
        pairs_of(r@) == account_scalars(*account),
{
    let mut scalars: Vec<(String, String)> = Vec::new();
    scalars.push((ACCOUNT.to_owned(), account.to_text()));
    assert(pairs_of(scalars@) =~= account_scalars(*account));
    scalars
}

impl PrivateView {
    /// The builder of this client's requests as it starts out.
    pub open spec fn builder(self) -> BuilderView {
        BuilderView::start(Some((self.key, self.secret)))
    }

    /// The walk through the list at `template`.
    pub open spec fn pager(
        self,
        template: Seq<char>,
        scalars: Seq<(Seq<char>, Seq<char>)>,
        page_size: Option<usize>,
    ) -> PagerView {
        PagerView {
            builder: self.builder(),
            base: self.uri,
            template,
            scalars,
            page_size,
            resource: DATA@,
            state: StreamStateView::start(),
        }
    }

    /// The address of the resource at `template`.
    pub open spec fn address(self, template: Seq<char>, scalars: Seq<(Seq<char>, Seq<char>)>)
        -> Option<UriView> {
        address_of(self.uri, template, scalars, QUERY@, Seq::empty())
    }
}

impl Private {
    /// A client of the service at `uri` that signs with the key `secret`, a PEM-encoded SEC1
    /// private key named `key`.
    pub fn new(uri: &str, key: &str, secret: &str) -> (r: Self)
        ensures
            r@ == (PrivateView { uri: uri@, key: key@, secret: secret@ }),
    {
        Self { uri: uri.to_owned(), key: key.to_owned(), secret: secret.to_owned() }
    }

    /// **List accounts**
    ///
    /// Lists current user's accounts to which the authentication method has access to.
    ///
    /// https://developers.coinbase.com/api/v2#list-accounts
    pub fn accounts(&self) -> (r: Pager)
        ensures
            r@ == self@.pager(ACCOUNTS@, Seq::empty(), None),
    {
        let scalars: Vec<(String, String)> = Vec::new();
        assert(pairs_of(scalars@) =~= Seq::empty());
        self.pager(ACCOUNTS, scalars, None)
    }

    /// **List transactions**
    ///
    /// Lists account's transactions.
    ///
    /// https://developers.coinbase.com/api/v2#list-transactions
    pub fn transactions(&self, account_id: &Uuid) -> (r: Pager)
        ensures
            r@ == self@.pager(
                TRANSACTIONS@,
                account_scalars(*account_id),
                Some(TRANSACTIONS_PER_PAGE),
            ),
    {
        self.pager(TRANSACTIONS, scalars_of(account_id), Some(TRANSACTIONS_PER_PAGE))
    }

    /// **List addresses**
    ///
    /// Lists addresses for an account.
    ///
    /// https://docs.cloud.coinbase.com/sign-in-with-coinbase/docs/api-addresses#list-addresses
    pub fn list_addresses(&self, account_id: &Uuid) -> (r: Pager)
        ensures
            r@ == self@.pager(ADDRESSES@, account_scalars(*account_id), None),
    {
        self.pager(ADDRESSES, scalars_of(account_id), None)
    }

    /// The request that lists the payment methods of the user. Its reply is read by
    /// [`Private::payment_methods`].
    pub fn list_payment_methods(&self) -> (r: Result<Request, CBError>)
        ensures
            requests(
                self@.builder(),
                self@.address(PAYMENT_METHODS@, Seq::empty()),
                request_outcome(r),
            ),
            r matches Err(error) ==> is_request_failure(error),
    {
        let scalars: Vec<(String, String)> = Vec::new();
        assert(pairs_of(scalars@) =~= Seq::empty());
        let address = self.address(PAYMENT_METHODS, &scalars);
        request_for(self.request(), address)
    }

    /// The payment methods that the reply to [`Private::list_payment_methods`] holds.
    pub fn payment_methods(body: &[u8]) -> (r: Result<Vec<PaymentMethod>, CBError>)
        ensures
            match json_document(body@) {
                Some(value) => match answer_of::<PaymentMethods>(Ok(value)) {
                    Ok(answer) => r matches Ok(methods) && methods.deep_view()
                        == answer.payment_methods,
                    Err(error) => r matches Err(e) && e.deep_view() == error,
                },
                None => r matches Err(e) && e.deep_view() matches CBErrorView::MalformedResponse(
                    DecodeErrorView::Syntax(_),
                ),
            },
    {
        match read_answer::<PaymentMethods>(body) {
            Ok(answer) => Ok(answer.payment_methods),
            Err(error) => Err(error),
        }
    }

    /// The request that withdraws `amount` of `currency` from the account `account_id` to the
    /// payment method `payment_method`, and commits the withdrawal. Its reply is read by
    /// [`Private::withdrawal`].
    pub fn withdrawals(
        &self,
        account_id: &Uuid,
        amount: String,
        currency: String,
        payment_method: Uuid,
    ) -> (r: Result<Request, CBError>)
        ensures
            match self@.address(WITHDRAWALS@, account_scalars(*account_id)) {
                None => r matches Err(CBError::MissingAuthority),
                Some(uri) => match json_text(
                    Withdrawal::committed(amount@, currency@, uuid_text(payment_method.bits)),
                ) {
                    None => r matches Err(
                        CBError::MalformedResponse(DecodeError::Syntax(_)),
                    ),
                    Some(body) => (BuilderView {
                        uri,
                        method: Method::Post,
                        body,
                        ..self@.builder()
                    }).builds(request_outcome(r)) && (r matches Err(error) ==> is_request_failure(
                        error,
                    )),
                },
            },
    {
        let address = match self.address(WITHDRAWALS, &scalars_of(account_id)) {
            Some(uri) => uri,
            None => {
                return Err(CBError::MissingAuthority);
            },
        };
        let order = Withdrawal {
            amount,
            currency,
            payment_method: payment_method.to_text(),
            commit: true,
        };
        let body = match order.to_json().to_bytes() {
            Ok(body) => body,
            Err(complaint) => {
                return Err(CBError::MalformedResponse(DecodeError::Syntax(complaint)));
            },
        };
        let builder = self.request().method(Method::Post).body(body.as_slice());
        request_for(builder, Some(address))
    }

    /// The transfer that the reply to [`Private::withdrawals`] holds.
    pub fn withdrawal(body: &[u8]) -> (r: Result<Transfer, CBError>)
        ensures
            match json_document(body@) {
                Some(value) => answer_view(r) == answer_of::<Transfer>(Ok(value)),
                None => answer_view(r) matches Err(
                    CBErrorView::MalformedResponse(DecodeErrorView::Syntax(_)),
                ),
            },
    {
        read_answer::<Transfer>(body)
    }

    /// The builder of this client's requests as it starts out.
    fn request(&self) -> (r: Builder)
        ensures
            r@ == self@.builder(),
    {
        Builder::new_with_auth(self.key.as_str(), self.secret.as_str())
    }

    /// The address of the resource at `template`.
    fn address(&self, template: &str, scalars: &Vec<(String, String)>) -> (r: Option<Uri>)
        ensures
            match self@.address(template@, pairs_of(scalars@)) {
                Some(uri) => r matches Some(found) && found@ == uri,
                None => r is None,
            },
    {
        let query: Vec<(String, String)> = Vec::new();
        assert(pairs_of(query@) =~= Seq::empty());
        resolve(self.uri.as_str(), template, scalars, QUERY, &query)
    }

    /// The walk through the list at `template`.
    fn pager(&self, template: &str, scalars: Vec<(String, String)>, page_size: Option<usize>) -> (r:
        Pager)
        ensures
            r@ == self@.pager(template@, pairs_of(scalars@), page_size),
    {
        Pager::paginate(self.request(), self.uri.as_str(), template, scalars, page_size, DATA)
    }
}

/// An account of the user.
#[derive(Debug)]
pub struct Account {
    pub id: String,
    /// The member `type`.
    pub kind: String,
    pub created_at: Option<DateTime>,
    pub updated_at: Option<DateTime>,
    pub resource: String,
    pub resource_path: String,
    pub name: String,
    pub primary: bool,
    pub currency: Currency,
    pub balance: Balance,
    pub allow_deposits: bool,
    pub allow_withdrawals: bool,
}

/// What an [`Account`] holds.
pub struct AccountView {
    pub id: Seq<char>,
    pub kind: Seq<char>,
    pub created_at: Option<DateTime>,
    pub updated_at: Option<DateTime>,
    pub resource: Seq<char>,
    pub resource_path: Seq<char>,
    pub name: Seq<char>,
    pub primary: bool,
    pub currency: CurrencyView,
    pub balance: BalanceView,
    pub allow_deposits: bool,
    pub allow_withdrawals: bool,
}

impl DeepView for Account {
    type V = AccountView;

    open spec fn deep_view(&self) -> AccountView {
        AccountView {
            id: self.id.deep_view(),
            kind: self.kind.deep_view(),
            created_at: self.created_at.deep_view(),
            updated_at: self.updated_at.deep_view(),
            resource: self.resource.deep_view(),
            resource_path: self.resource_path.deep_view(),
            name: self.name.deep_view(),
            primary: self.primary.deep_view(),
            currency: self.currency.deep_view(),
            balance: self.balance.deep_view(),
            allow_deposits: self.allow_deposits.deep_view(),
            allow_withdrawals: self.allow_withdrawals.deep_view(),
        }
    }
}

impl FromJson for Account {
    open spec fn decoded(value: JsonValue) -> Option<AccountView> {
        if value is Object
            && field::<String>(value, "id"@) is Some
            && field::<String>(value, "type"@) is Some
            && optional_field::<DateTime>(value, "created_at"@) is Some
            && optional_field::<DateTime>(value, "updated_at"@) is Some
            && field::<String>(value, "resource"@) is Some
            && field::<String>(value, "resource_path"@) is Some
            && field::<String>(value, "name"@) is Some
            && field::<bool>(value, "primary"@) is Some
            && field::<Currency>(value, "currency"@) is Some
            && field::<Balance>(value, "balance"@) is Some
            && field::<bool>(value, "allow_deposits"@) is Some
            && field::<bool>(value, "allow_withdrawals"@) is Some
        {
            Some(
                AccountView {
                    id: field::<String>(value, "id"@)->0,
                    kind: field::<String>(value, "type"@)->0,
                    created_at: optional_field::<DateTime>(value, "created_at"@)->0,
                    updated_at: optional_field::<DateTime>(value, "updated_at"@)->0,
                    resource: field::<String>(value, "resource"@)->0,
                    resource_path: field::<String>(value, "resource_path"@)->0,
                    name: field::<String>(value, "name"@)->0,
                    primary: field::<bool>(value, "primary"@)->0,
                    currency: field::<Currency>(value, "currency"@)->0,
                    balance: field::<Balance>(value, "balance"@)->0,
                    allow_deposits: field::<bool>(value, "allow_deposits"@)->0,
                    allow_withdrawals: field::<bool>(value, "allow_withdrawals"@)->0,
                },
            )
        } else {
            None
        }
    }

    fn from_json(tree: &Json) -> (r: Option<Account>) {
        if !tree.is_object() {
            return None;
        }
        let id = match read_field::<String>(tree, "id") {
            Some(x) => x,
            None => {
                return None;
            },
        };
        let kind = match read_field::<String>(tree, "type") {
            Some(x) => x,
            None => {
                return None;
            },
        };
        let created_at = match read_optional_field::<DateTime>(tree, "created_at") {
            Some(x) => x,
            None => {
                return None;
            },
        };
        let updated_at = match read_optional_field::<DateTime>(tree, "updated_at") {
            Some(x) => x,
            None => {
                return None;
            },
        };
        let resource = match read_field::<String>(tree, "resource") {
            Some(x) => x,
            None => {
                return None;
            },
        };
        let resource_path = match read_field::<String>(tree, "resource_path") {
            Some(x) => x,
            None => {
                return None;
            },
        };
        let name = match read_field::<String>(tree, "name") {
            Some(x) => x,
            None => {
                return None;
            },
        };
        let primary = match read_field::<bool>(tree, "primary") {
            Some(x) => x,
            None => {
                return None;
            },
        };
        let currency = match read_field::<Currency>(tree, "currency") {
            Some(x) => x,
            None => {
                return None;
            },
        };
        let balance = match read_field::<Balance>(tree, "balance") {
            Some(x) => x,
            None => {
                return None;
            },
        };
        let allow_deposits = match read_field::<bool>(tree, "allow_deposits") {
            Some(x) => x,
            None => {
                return None;
            },
        };
        let allow_withdrawals = match read_field::<bool>(tree, "allow_withdrawals") {
            Some(x) => x,
            None => {
                return None;
            },
        };
        Some(
            Account {
                id,
                kind,
                created_at,
                updated_at,
                resource,
                resource_path,
                name,
                primary,
                currency,
                balance,
                allow_deposits,
                allow_withdrawals,
            },
        )
    }
}

/// An amount of money in one currency.
#[derive(Debug)]
pub struct Balance {
    pub amount: Decimal,
    pub currency: String,
}

/// What a [`Balance`] holds.
pub struct BalanceView {
    pub amount: DecimalView,
    pub currency: Seq<char>,
}

impl DeepView for Balance {
    type V = BalanceView;

    open spec fn deep_view(&self) -> BalanceView {
        BalanceView {
            amount: self.amount.deep_view(),
            currency: self.currency.deep_view(),
        }
    }
}

impl FromJson for Balance {
    open spec fn decoded(value: JsonValue) -> Option<BalanceView> {
        if value is Object
            && field::<Decimal>(value, "amount"@) is Some
            && field::<String>(value, "currency"@) is Some
        {
            Some(
                BalanceView {
                    amount: field::<Decimal>(value, "amount"@)->0,
                    currency: field::<String>(value, "currency"@)->0,
                },
            )
        } else {
            None
        }
    }

    fn from_json(tree: &Json) -> (r: Option<Balance>) {
        if !tree.is_object() {
            return None;
        }
        let amount = match read_field::<Decimal>(tree, "amount") {
            Some(x) => x,
            None => {
                return None;
            },
        };
        let currency = match read_field::<String>(tree, "currency") {
            Some(x) => x,
            None => {
                return None;
            },
        };
        Some(Balance { amount, currency })
    }
}

/// An address that an account receives funds at.
#[derive(Debug)]
pub struct Address {
    pub id: String,
    pub address: String,
    pub name: Option<String>,
    pub created_at: Option<DateTime>,
    pub updated_at: Option<DateTime>,
    pub network: String,
    pub resource: String,
    pub resource_path: String,
}

/// What an [`Address`] holds.
pub struct AddressView {
    pub id: Seq<char>,
    pub address: Seq<char>,
    pub name: Option<Seq<char>>,
    pub created_at: Option<DateTime>,
    pub updated_at: Option<DateTime>,
    pub network: Seq<char>,
    pub resource: Seq<char>,
    pub resource_path: Seq<char>,
}

impl DeepView for Address {
    type V = AddressView;

    open spec fn deep_view(&self) -> AddressView {
        AddressView {
            id: self.id.deep_view(),
            address: self.address.deep_view(),
            name: self.name.deep_view(),
            created_at: self.created_at.deep_view(),
            updated_at: self.updated_at.deep_view(),
            network: self.network.deep_view(),
            resource: self.resource.deep_view(),
            resource_path: self.resource_path.deep_view(),
        }
    }
}

impl FromJson for Address {
    open spec fn decoded(value: JsonValue) -> Option<AddressView> {
        if value is Object
            && field::<String>(value, "id"@) is Some
            && field::<String>(value, "address"@) is Some
            && optional_field::<String>(value, "name"@) is Some
            && optional_field::<DateTime>(value, "created_at"@) is Some
            && optional_field::<DateTime>(value, "updated_at"@) is Some
            && field::<String>(value, "network"@) is Some
            && field::<String>(value, "resource"@) is Some
            && field::<String>(value, "resource_path"@) is Some
        {
            Some(
                AddressView {
                    id: field::<String>(value, "id"@)->0,
                    address: field::<String>(value, "address"@)->0,
                    name: optional_field::<String>(value, "name"@)->0,
                    created_at: optional_field::<DateTime>(value, "created_at"@)->0,
                    updated_at: optional_field::<DateTime>(value, "updated_at"@)->0,
                    network: field::<String>(value, "network"@)->0,
                    resource: field::<String>(value, "resource"@)->0,
                    resource_path: field::<String>(value, "resource_path"@)->0,
                },
            )
        } else {
            None
        }
    }

    fn from_json(tree: &Json) -> (r: Option<Address>) {
        if !tree.is_object() {
            return None;
        }
        let id = match read_field::<String>(tree, "id") {
            Some(x) => x,
            None => {
                return None;
            },
        };
        let address = match read_field::<String>(tree, "address") {
            Some(x) => x,
            None => {
                return None;
            },
        };
        let name = match read_optional_field::<String>(tree, "name") {
            Some(x) => x,
            None => {
                return None;
            },
        };
        let created_at = match read_optional_field::<DateTime>(tree, "created_at") {
            Some(x) => x,
            None => {
                return None;
            },
        };
        let updated_at = match read_optional_field::<DateTime>(tree, "updated_at") {
            Some(x) => x,
            None => {
                return None;
            },
        };
        let network = match read_field::<String>(tree, "network") {
            Some(x) => x,
            None => {
                return None;
            },
        };
        let resource = match read_field::<String>(tree, "resource") {
            Some(x) => x,
            None => {
                return None;
            },
        };
        let resource_path = match read_field::<String>(tree, "resource_path") {
            Some(x) => x,
            None => {
                return None;
            },
        };
        Some(
            Address {
                id,
                address,
                name,
                created_at,
                updated_at,
                network,
                resource,
                resource_path,
            },
        )
    }
}

/// A movement of funds on an account.
#[derive(Debug)]
pub struct Transaction {
    pub id: Uuid,
    pub created_at: Option<DateTime>,
    pub updated_at: Option<DateTime>,
    /// The member `type`.
    pub kind: String,
    pub resource: String,
    pub resource_path: String,
    pub status: String,
    pub amount: Balance,
    pub native_amount: Balance,
    pub instant_exchange: bool,
    pub network: Option<Network>,
    pub from: Option<From>,
    pub details: TransactionDetails,
}

/// What a [`Transaction`] holds.
pub struct TransactionView {
    pub id: Uuid,
    pub created_at: Option<DateTime>,
    pub updated_at: Option<DateTime>,
    pub kind: Seq<char>,
    pub resource: Seq<char>,
    pub resource_path: Seq<char>,
    pub status: Seq<char>,
    pub amount: BalanceView,
    pub native_amount: BalanceView,
    pub instant_exchange: bool,
    pub network: Option<NetworkView>,
    pub from: Option<FromView>,
    pub details: TransactionDetailsView,
}

impl DeepView for Transaction {
    type V = TransactionView;

    open spec fn deep_view(&self) -> TransactionView {
        TransactionView {
            id: self.id.deep_view(),
            created_at: self.created_at.deep_view(),
            updated_at: self.updated_at.deep_view(),
            kind: self.kind.deep_view(),
            resource: self.resource.deep_view(),
            resource_path: self.resource_path.deep_view(),
            status: self.status.deep_view(),
            amount: self.amount.deep_view(),
            native_amount: self.native_amount.deep_view(),
            instant_exchange: self.instant_exchange.deep_view(),
            network: self.network.deep_view(),
            from: self.from.deep_view(),
            details: self.details.deep_view(),
        }
    }
}

impl FromJson for Transaction {
    open spec fn decoded(value: JsonValue) -> Option<TransactionView> {
        if value is Object
            && field::<Uuid>(value, "id"@) is Some
            && optional_field::<DateTime>(value, "created_at"@) is Some
            && optional_field::<DateTime>(value, "updated_at"@) is Some
            && field::<String>(value, "type"@) is Some
            && field::<String>(value, "resource"@) is Some
            && field::<String>(value, "resource_path"@) is Some
            && field::<String>(value, "status"@) is Some
            && field::<Balance>(value, "amount"@) is Some
            && field::<Balance>(value, "native_amount"@) is Some
            && field::<bool>(value, "instant_exchange"@) is Some
            && optional_field::<Network>(value, "network"@) is Some
            && optional_field::<From>(value, "from"@) is Some
            && field::<TransactionDetails>(value, "details"@) is Some
        {
            Some(
                TransactionView {
                    id: field::<Uuid>(value, "id"@)->0,
                    created_at: optional_field::<DateTime>(value, "created_at"@)->0,
                    updated_at: optional_field::<DateTime>(value, "updated_at"@)->0,
                    kind: field::<String>(value, "type"@)->0,
                    resource: field::<String>(value, "resource"@)->0,
                    resource_path: field::<String>(value, "resource_path"@)->0,
                    status: field::<String>(value, "status"@)->0,
                    amount: field::<Balance>(value, "amount"@)->0,
                    native_amount: field::<Balance>(value, "native_amount"@)->0,
                    instant_exchange: field::<bool>(value, "instant_exchange"@)->0,
                    network: optional_field::<Network>(value, "network"@)->0,
                    from: optional_field::<From>(value, "from"@)->0,
                    details: field::<TransactionDetails>(value, "details"@)->0,
                },
            )
        } else {
            None
        }
    }

    fn from_json(tree: &Json) -> (r: Option<Transaction>) {
        if !tree.is_object() {
            return None;
        }
        let id = match read_field::<Uuid>(tree, "id") {
            Some(x) => x,
            None => {
                return None;
            },
        };
        let created_at = match read_optional_field::<DateTime>(tree, "created_at") {
            Some(x) => x,
            None => {
                return None;
            },
        };
        let updated_at = match read_optional_field::<DateTime>(tree, "updated_at") {
            Some(x) => x,
            None => {
                return None;
            },
        };
        let kind = match read_field::<String>(tree, "type") {
            Some(x) => x,
            None => {
                return None;
            },
        };
        let resource = match read_field::<String>(tree, "resource") {
            Some(x) => x,
            None => {
                return None;
            },
        };
        let resource_path = match read_field::<String>(tree, "resource_path") {
            Some(x) => x,
            None => {
                return None;
            },
        };
        let status = match read_field::<String>(tree, "status") {
            Some(x) => x,
            None => {
                return None;
            },
        };
        let amount = match read_field::<Balance>(tree, "amount") {
            Some(x) => x,
            None => {
                return None;
            },
        };
        let native_amount = match read_field::<Balance>(tree, "native_amount") {
            Some(x) => x,
            None => {
                return None;
            },
        };
        let instant_exchange = match read_field::<bool>(tree, "instant_exchange") {
            Some(x) => x,
            None => {
                return None;
            },
        };
        let network = match read_optional_field::<Network>(tree, "network") {
            Some(x) => x,
            None => {
                return None;
            },
        };
        let from = match read_optional_field::<From>(tree, "from") {
            Some(x) => x,
            None => {
                return None;
            },
        };
        let details = match read_field::<TransactionDetails>(tree, "details") {
            Some(x) => x,
            None => {
                return None;
            },
        };
        Some(
            Transaction {
                id,
                created_at,
                updated_at,
                kind,
                resource,
                resource_path,
                status,
                amount,
                native_amount,
                instant_exchange,
                network,
                from,
                details,
            },
        )
    }
}

/// How a transaction stands on its network.
#[derive(Debug)]
pub struct Network {
    pub status: String,
}

/// What a [`Network`] holds.
pub struct NetworkView {
    pub status: Seq<char>,
}

impl DeepView for Network {
    type V = NetworkView;

    open spec fn deep_view(&self) -> NetworkView {
        NetworkView {
            status: self.status.deep_view(),
        }
    }
}

impl FromJson for Network {
    open spec fn decoded(value: JsonValue) -> Option<NetworkView> {
        if value is Object
            && field::<String>(value, "status"@) is Some
        {
            Some(
                NetworkView {
                    status: field::<String>(value, "status"@)->0,
                },
            )
        } else {
            None
        }
    }

    fn from_json(tree: &Json) -> (r: Option<Network>) {
        if !tree.is_object() {
            return None;
        }
        let status = match read_field::<String>(tree, "status") {
            Some(x) => x,
            None => {
                return None;
            },
        };
        Some(Network { status })
    }
}

/// Where the funds of a transaction came from.
#[derive(Debug)]
pub struct From {
    pub id: Option<Uuid>,
    pub resource: String,
    pub resource_path: Option<String>,
    pub currency: String,
}

/// What a [`From`] holds.
pub struct FromView {
    pub id: Option<Uuid>,
    pub resource: Seq<char>,
    pub resource_path: Option<Seq<char>>,
    pub currency: Seq<char>,
}

impl DeepView for From {
    type V = FromView;

    open spec fn deep_view(&self) -> FromView {
        FromView {
            id: self.id.deep_view(),
            resource: self.resource.deep_view(),
            resource_path: self.resource_path.deep_view(),
            currency: self.currency.deep_view(),
        }
    }
}

impl FromJson for From {
    open spec fn decoded(value: JsonValue) -> Option<FromView> {
        if value is Object
            && optional_field::<Uuid>(value, "id"@) is Some
            && field::<String>(value, "resource"@) is Some
            && optional_field::<String>(value, "resource_path"@) is Some
            && field::<String>(value, "currency"@) is Some
        {
            Some(
                FromView {
                    id: optional_field::<Uuid>(value, "id"@)->0,
                    resource: field::<String>(value, "resource"@)->0,
                    resource_path: optional_field::<String>(value, "resource_path"@)->0,
                    currency: field::<String>(value, "currency"@)->0,
                },
            )
        } else {
            None
        }
    }

    fn from_json(tree: &Json) -> (r: Option<From>) {
        if !tree.is_object() {
            return None;
        }
        let id = match read_optional_field::<Uuid>(tree, "id") {
            Some(x) => x,
            None => {
                return None;
            },
        };
        let resource = match read_field::<String>(tree, "resource") {
            Some(x) => x,
            None => {
                return None;
            },
        };
        let resource_path = match read_optional_field::<String>(tree, "resource_path") {
            Some(x) => x,
            None => {
                return None;
            },
        };
        let currency = match read_field::<String>(tree, "currency") {
            Some(x) => x,
            None => {
                return None;
            },
        };
        Some(From { id, resource, resource_path, currency })
    }
}

/// A transaction in words.
#[derive(Debug)]
pub struct TransactionDetails {
    pub title: String,
    pub subtitle: String,
}

/// What a [`TransactionDetails`] holds.
pub struct TransactionDetailsView {
    pub title: Seq<char>,
    pub subtitle: Seq<char>,
}

impl DeepView for TransactionDetails {
    type V = TransactionDetailsView;

    open spec fn deep_view(&self) -> TransactionDetailsView {
        TransactionDetailsView {
            title: self.title.deep_view(),
            subtitle: self.subtitle.deep_view(),
        }
    }
}

impl FromJson for TransactionDetails {
    open spec fn decoded(value: JsonValue) -> Option<TransactionDetailsView> {
        if value is Object
            && field::<String>(value, "title"@) is Some
            && field::<String>(value, "subtitle"@) is Some
        {
            Some(
                TransactionDetailsView {
                    title: field::<String>(value, "title"@)->0,
                    subtitle: field::<String>(value, "subtitle"@)->0,
                },
            )
        } else {
            None
        }
    }

    fn from_json(tree: &Json) -> (r: Option<TransactionDetails>) {
        if !tree.is_object() {
            return None;
        }
        let title = match read_field::<String>(tree, "title") {
            Some(x) => x,
            None => {
                return None;
            },
        };
        let subtitle = match read_field::<String>(tree, "subtitle") {
            Some(x) => x,
            None => {
                return None;
            },
        };
        Some(TransactionDetails { title, subtitle })
    }
}

/// A currency and how its amounts are written.
#[derive(Debug)]
pub struct Currency {
    pub code: String,
    pub name: String,
    pub exponent: usize,
    /// The member `type`.
    pub kind: String,
}

/// What a [`Currency`] holds.
pub struct CurrencyView {
    pub code: Seq<char>,
    pub name: Seq<char>,
    pub exponent: usize,
    pub kind: Seq<char>,
}

impl DeepView for Currency {
    type V = CurrencyView;

    open spec fn deep_view(&self) -> CurrencyView {
        CurrencyView {
            code: self.code.deep_view(),
            name: self.name.deep_view(),
            exponent: self.exponent.deep_view(),
            kind: self.kind.deep_view(),
        }
    }
}

impl FromJson for Currency {
    open spec fn decoded(value: JsonValue) -> Option<CurrencyView> {
        if value is Object
            && field::<String>(value, "code"@) is Some
            && field::<String>(value, "name"@) is Some
            && field::<usize>(value, "exponent"@) is Some
            && field::<String>(value, "type"@) is Some
        {
            Some(
                CurrencyView {
                    code: field::<String>(value, "code"@)->0,
                    name: field::<String>(value, "name"@)->0,
                    exponent: field::<usize>(value, "exponent"@)->0,
                    kind: field::<String>(value, "type"@)->0,
                },
            )
        } else {
            None
        }
    }

    fn from_json(tree: &Json) -> (r: Option<Currency>) {
        if !tree.is_object() {
            return None;
        }
        let code = match read_field::<String>(tree, "code") {
            Some(x) => x,
            None => {
                return None;
            },
        };
        let name = match read_field::<String>(tree, "name") {
            Some(x) => x,
            None => {
                return None;
            },
        };
        let exponent = match read_field::<usize>(tree, "exponent") {
            Some(x) => x,
            None => {
                return None;
            },
        };
        let kind = match read_field::<String>(tree, "type") {
            Some(x) => x,
            None => {
                return None;
            },
        };
        Some(Currency { code, name, exponent, kind })
    }
}

/// The order of a list.
#[derive(Clone, Copy, Debug, PartialEq, Eq, Structural)]
pub enum Order {
    /// Written `asc`.
    Ascending,
    /// Written `desc`.
    Descending,
}

impl DeepView for Order {
    type V = Order;

    open spec fn deep_view(&self) -> Order {
        *self
    }
}

impl FromJson for Order {
    open spec fn decoded(value: JsonValue) -> Option<Order> {
        match value {
            JsonValue::Text(t) => if t == "asc"@ {
                Some(Order::Ascending)
            } else if t == "desc"@ {
                Some(Order::Descending)
            } else {
                None
            },
            _ => None,
        }
    }

    fn from_json(tree: &Json) -> (r: Option<Order>) {
        match tree {
            Json::Text(t) => if same_text(t.as_str(), "asc") {
                Some(Order::Ascending)
            } else if same_text(t.as_str(), "desc") {
                Some(Order::Descending)
            } else {
                None
            },
            _ => None,
        }
    }
}

/// Where a page stands in its list.
#[derive(Debug)]
pub struct Pagination {
    pub ending_before: Option<DateTime>,
    pub starting_after: Option<DateTime>,
    pub previous_ending_before: Option<String>,
    pub next_starting_after: Option<String>,
    pub limit: usize,
    pub order: Order,
    pub previous_uri: Option<String>,
    pub next_uri: Option<String>,
}

/// What a [`Pagination`] holds.
pub struct PaginationView {
    pub ending_before: Option<DateTime>,
    pub starting_after: Option<DateTime>,
    pub previous_ending_before: Option<Seq<char>>,
    pub next_starting_after: Option<Seq<char>>,
    pub limit: usize,
    pub order: Order,
    pub previous_uri: Option<Seq<char>>,
    pub next_uri: Option<Seq<char>>,
}

impl DeepView for Pagination {
    type V = PaginationView;

    open spec fn deep_view(&self) -> PaginationView {
        PaginationView {
            ending_before: self.ending_before.deep_view(),
            starting_after: self.starting_after.deep_view(),
            previous_ending_before: self.previous_ending_before.deep_view(),
            next_starting_after: self.next_starting_after.deep_view(),
            limit: self.limit.deep_view(),
            order: self.order.deep_view(),
            previous_uri: self.previous_uri.deep_view(),
            next_uri: self.next_uri.deep_view(),
        }
    }
}

impl FromJson for Pagination {
    open spec fn decoded(value: JsonValue) -> Option<PaginationView> {
        if value is Object
            && optional_field::<DateTime>(value, "ending_before"@) is Some
            && optional_field::<DateTime>(value, "starting_after"@) is Some
            && optional_field::<String>(value, "previous_ending_before"@) is Some
            && optional_field::<String>(value, "next_starting_after"@) is Some
            && field::<usize>(value, "limit"@) is Some
            && field::<Order>(value, "order"@) is Some
            && optional_field::<String>(value, "previous_uri"@) is Some
            && optional_field::<String>(value, "next_uri"@) is Some
        {
            Some(
                PaginationView {
                    ending_before: optional_field::<DateTime>(value, "ending_before"@)->0,
                    starting_after: optional_field::<DateTime>(value, "starting_after"@)->0,
                    previous_ending_before: optional_field::<String>(value, "previous_ending_before"@)->0,
                    next_starting_after: optional_field::<String>(value, "next_starting_after"@)->0,
                    limit: field::<usize>(value, "limit"@)->0,
                    order: field::<Order>(value, "order"@)->0,
                    previous_uri: optional_field::<String>(value, "previous_uri"@)->0,
                    next_uri: optional_field::<String>(value, "next_uri"@)->0,
                },
            )
        } else {
            None
        }
    }

    fn from_json(tree: &Json) -> (r: Option<Pagination>) {
        if !tree.is_object() {
            return None;
        }
        let ending_before = match read_optional_field::<DateTime>(tree, "ending_before") {
            Some(x) => x,
            None => {
                return None;
            },
        };
        let starting_after = match read_optional_field::<DateTime>(tree, "starting_after") {
            Some(x) => x,
            None => {
                return None;
            },
        };
        let previous_ending_before = match read_optional_field::<String>(tree, "previous_ending_before") {
            Some(x) => x,
            None => {
                return None;
            },
        };
        let next_starting_after = match read_optional_field::<String>(tree, "next_starting_after") {
            Some(x) => x,
            None => {
                return None;
            },
        };
        let limit = match read_field::<usize>(tree, "limit") {
            Some(x) => x,
            None => {
                return None;
            },
        };
        let order = match read_field::<Order>(tree, "order") {
            Some(x) => x,
            None => {
                return None;
            },
        };
        let previous_uri = match read_optional_field::<String>(tree, "previous_uri") {
            Some(x) => x,
            None => {
                return None;
            },
        };
        let next_uri = match read_optional_field::<String>(tree, "next_uri") {
            Some(x) => x,
            None => {
                return None;
            },
        };
        Some(
            Pagination {
                ending_before,
                starting_after,
                previous_ending_before,
                next_starting_after,
                limit,
                order,
                previous_uri,
                next_uri,
            },
        )
    }
}

/// A way to pay in or to pay out.
#[derive(Debug)]
pub struct PaymentMethod {
    pub id: String,
    /// The member `type`.
    pub kind: String,
    pub name: String,
    pub currency: String,
    pub verified: bool,
    pub allow_buy: bool,
    pub allow_sell: bool,
    pub allow_deposit: bool,
    pub allow_withdraw: bool,
    pub created_at: DateTime,
    pub updated_at: DateTime,
}

/// What a [`PaymentMethod`] holds.
pub struct PaymentMethodView {
    pub id: Seq<char>,
    pub kind: Seq<char>,
    pub name: Seq<char>,
    pub currency: Seq<char>,
    pub verified: bool,
    pub allow_buy: bool,
    pub allow_sell: bool,
    pub allow_deposit: bool,
    pub allow_withdraw: bool,
    pub created_at: DateTime,
    pub updated_at: DateTime,
}

impl DeepView for PaymentMethod {
    type V = PaymentMethodView;

    open spec fn deep_view(&self) -> PaymentMethodView {
        PaymentMethodView {
            id: self.id.deep_view(),
            kind: self.kind.deep_view(),
            name: self.name.deep_view(),
            currency: self.currency.deep_view(),
            verified: self.verified.deep_view(),
            allow_buy: self.allow_buy.deep_view(),
            allow_sell: self.allow_sell.deep_view(),
            allow_deposit: self.allow_deposit.deep_view(),
            allow_withdraw: self.allow_withdraw.deep_view(),
            created_at: self.created_at.deep_view(),
            updated_at: self.updated_at.deep_view(),
        }
    }
}

impl FromJson for PaymentMethod {
    open spec fn decoded(value: JsonValue) -> Option<PaymentMethodView> {
        if value is Object
            && field::<String>(value, "id"@) is Some
            && field::<String>(value, "type"@) is Some
            && field::<String>(value, "name"@) is Some
            && field::<String>(value, "currency"@) is Some
            && field::<bool>(value, "verified"@) is Some
            && field::<bool>(value, "allow_buy"@) is Some
            && field::<bool>(value, "allow_sell"@) is Some
            && field::<bool>(value, "allow_deposit"@) is Some
            && field::<bool>(value, "allow_withdraw"@) is Some
            && field::<DateTime>(value, "created_at"@) is Some
            && field::<DateTime>(value, "updated_at"@) is Some
        {
            Some(
                PaymentMethodView {
                    id: field::<String>(value, "id"@)->0,
                    kind: field::<String>(value, "type"@)->0,
                    name: field::<String>(value, "name"@)->0,
                    currency: field::<String>(value, "currency"@)->0,
                    verified: field::<bool>(value, "verified"@)->0,
                    allow_buy: field::<bool>(value, "allow_buy"@)->0,
                    allow_sell: field::<bool>(value, "allow_sell"@)->0,
                    allow_deposit: field::<bool>(value, "allow_deposit"@)->0,
                    allow_withdraw: field::<bool>(value, "allow_withdraw"@)->0,
                    created_at: field::<DateTime>(value, "created_at"@)->0,
                    updated_at: field::<DateTime>(value, "updated_at"@)->0,
                },
            )
        } else {
            None
        }
    }

    fn from_json(tree: &Json) -> (r: Option<PaymentMethod>) {
        if !tree.is_object() {
            return None;
        }
        let id = match read_field::<String>(tree, "id") {
            Some(x) => x,
            None => {
                return None;
            },
        };
        let kind = match read_field::<String>(tree, "type") {
            Some(x) => x,
            None => {
                return None;
            },
        };
        let name = match read_field::<String>(tree, "name") {
            Some(x) => x,
            None => {
                return None;
            },
        };
        let currency = match read_field::<String>(tree, "currency") {
            Some(x) => x,
            None => {
                return None;
            },
        };
        let verified = match read_field::<bool>(tree, "verified") {
            Some(x) => x,
            None => {
                return None;
            },
        };
        let allow_buy = match read_field::<bool>(tree, "allow_buy") {
            Some(x) => x,
            None => {
                return None;
            },
        };
        let allow_sell = match read_field::<bool>(tree, "allow_sell") {
            Some(x) => x,
            None => {
                return None;
            },
        };
        let allow_deposit = match read_field::<bool>(tree, "allow_deposit") {
            Some(x) => x,
            None => {
                return None;
            },
        };
        let allow_withdraw = match read_field::<bool>(tree, "allow_withdraw") {
            Some(x) => x,
            None => {
                return None;
            },
        };
        let created_at = match read_field::<DateTime>(tree, "created_at") {
            Some(x) => x,
            None => {
                return None;
            },
        };
        let updated_at = match read_field::<DateTime>(tree, "updated_at") {
            Some(x) => x,
            None => {
                return None;
            },
        };
        Some(
            PaymentMethod {
                id,
                kind,
                name,
                currency,
                verified,
                allow_buy,
                allow_sell,
                allow_deposit,
                allow_withdraw,
                created_at,
                updated_at,
            },
        )
    }
}

/// The payment methods of the user.
#[derive(Debug)]
pub struct PaymentMethods {
    pub payment_methods: Vec<PaymentMethod>,
}

/// What a [`PaymentMethods`] holds.
pub struct PaymentMethodsView {
    pub payment_methods: Seq<PaymentMethodView>,
}

impl DeepView for PaymentMethods {
    type V = PaymentMethodsView;

    open spec fn deep_view(&self) -> PaymentMethodsView {
        PaymentMethodsView {
            payment_methods: self.payment_methods.deep_view(),
        }
    }
}

impl FromJson for PaymentMethods {
    open spec fn decoded(value: JsonValue) -> Option<PaymentMethodsView> {
        if value is Object
            && field::<Vec<PaymentMethod>>(value, "payment_methods"@) is Some
        {
            Some(
                PaymentMethodsView {
                    payment_methods: field::<Vec<PaymentMethod>>(value, "payment_methods"@)->0,
                },
            )
        } else {
            None
        }
    }

    fn from_json(tree: &Json) -> (r: Option<PaymentMethods>) {
        if !tree.is_object() {
            return None;
        }
        let payment_methods = match read_field::<Vec<PaymentMethod>>(tree, "payment_methods") {
            Some(x) => x,
            None => {
                return None;
            },
        };
        Some(PaymentMethods { payment_methods })
    }
}

/// A withdrawal or deposit as the service records it.
#[derive(Debug)]
pub struct Transfer {
    pub user_entered_amount: Amount,
    pub amount: Amount,
    pub total: Amount,
    pub subtotal: Amount,
    pub idem: String,
    pub committed: bool,
    pub id: String,
    pub instant: bool,
    pub source: Source,
    pub target: Target,
    pub payout_at: DateTime,
    pub status: String,
    pub user_reference: String,
    /// The member `type`.
    pub kind: String,
    pub created_at: Option<DateTime>,
    pub updated_at: Option<DateTime>,
    pub user_warnings: Vec<String>,
    pub fees: Vec<String>,
    pub total_fee: Fee,
    pub cancellation_reason: Option<String>,
    pub hold_days: usize,
    #[allow(non_snake_case)]
    pub nextStep: Option<String>,
    pub checkout_url: String,
    pub requires_completion_step: bool,
}

/// What a [`Transfer`] holds.
pub struct TransferView {
    pub user_entered_amount: AmountView,
    pub amount: AmountView,
    pub total: AmountView,
    pub subtotal: AmountView,
    pub idem: Seq<char>,
    pub committed: bool,
    pub id: Seq<char>,
    pub instant: bool,
    pub source: SourceView,
    pub target: TargetView,
    pub payout_at: DateTime,
    pub status: Seq<char>,
    pub user_reference: Seq<char>,
    pub kind: Seq<char>,
    pub created_at: Option<DateTime>,
    pub updated_at: Option<DateTime>,
    pub user_warnings: Seq<Seq<char>>,
    pub fees: Seq<Seq<char>>,
    pub total_fee: FeeView,
    pub cancellation_reason: Option<Seq<char>>,
    pub hold_days: usize,
    #[allow(non_snake_case)]
    pub nextStep: Option<Seq<char>>,
    pub checkout_url: Seq<char>,
    pub requires_completion_step: bool,
}

impl DeepView for Transfer {
    type V = TransferView;

    open spec fn deep_view(&self) -> TransferView {
        TransferView {
            user_entered_amount: self.user_entered_amount.deep_view(),
            amount: self.amount.deep_view(),
            total: self.total.deep_view(),
            subtotal: self.subtotal.deep_view(),
            idem: self.idem.deep_view(),
            committed: self.committed.deep_view(),
            id: self.id.deep_view(),
            instant: self.instant.deep_view(),
            source: self.source.deep_view(),
            target: self.target.deep_view(),
            payout_at: self.payout_at.deep_view(),
            status: self.status.deep_view(),
            user_reference: self.user_reference.deep_view(),
            kind: self.kind.deep_view(),
            created_at: self.created_at.deep_view(),
            updated_at: self.updated_at.deep_view(),
            user_warnings: self.user_warnings.deep_view(),
            fees: self.fees.deep_view(),
            total_fee: self.total_fee.deep_view(),
            cancellation_reason: self.cancellation_reason.deep_view(),
            hold_days: self.hold_days.deep_view(),
            nextStep: self.nextStep.deep_view(),
            checkout_url: self.checkout_url.deep_view(),
            requires_completion_step: self.requires_completion_step.deep_view(),
        }
    }
}

impl FromJson for Transfer {
    open spec fn decoded(value: JsonValue) -> Option<TransferView> {
        if value is Object
            && field::<Amount>(value, "user_entered_amount"@) is Some
            && field::<Amount>(value, "amount"@) is Some
            && field::<Amount>(value, "total"@) is Some
            && field::<Amount>(value, "subtotal"@) is Some
            && field::<String>(value, "idem"@) is Some
            && field::<bool>(value, "committed"@) is Some
            && field::<String>(value, "id"@) is Some
            && field::<bool>(value, "instant"@) is Some
            && field::<Source>(value, "source"@) is Some
            && field::<Target>(value, "target"@) is Some
            && field::<DateTime>(value, "payout_at"@) is Some
            && field::<String>(value, "status"@) is Some
            && field::<String>(value, "user_reference"@) is Some
            && field::<String>(value, "type"@) is Some
            && optional_field::<DateTime>(value, "created_at"@) is Some
            && optional_field::<DateTime>(value, "updated_at"@) is Some
            && field::<Vec<String>>(value, "user_warnings"@) is Some
            && field::<Vec<String>>(value, "fees"@) is Some
            && field::<Fee>(value, "total_fee"@) is Some
            && optional_field::<String>(value, "cancellation_reason"@) is Some
            && field::<usize>(value, "hold_days"@) is Some
            && optional_field::<String>(value, "nextStep"@) is Some
            && field::<String>(value, "checkout_url"@) is Some
            && field::<bool>(value, "requires_completion_step"@) is Some
        {
            Some(
                TransferView {
                    user_entered_amount: field::<Amount>(value, "user_entered_amount"@)->0,
                    amount: field::<Amount>(value, "amount"@)->0,
                    total: field::<Amount>(value, "total"@)->0,
                    subtotal: field::<Amount>(value, "subtotal"@)->0,
                    idem: field::<String>(value, "idem"@)->0,
                    committed: field::<bool>(value, "committed"@)->0,
                    id: field::<String>(value, "id"@)->0,
                    instant: field::<bool>(value, "instant"@)->0,
                    source: field::<Source>(value, "source"@)->0,
                    target: field::<Target>(value, "target"@)->0,
                    payout_at: field::<DateTime>(value, "payout_at"@)->0,
                    status: field::<String>(value, "status"@)->0,
                    user_reference: field::<String>(value, "user_reference"@)->0,
                    kind: field::<String>(value, "type"@)->0,
                    created_at: optional_field::<DateTime>(value, "created_at"@)->0,
                    updated_at: optional_field::<DateTime>(value, "updated_at"@)->0,
                    user_warnings: field::<Vec<String>>(value, "user_warnings"@)->0,
                    fees: field::<Vec<String>>(value, "fees"@)->0,
                    total_fee: field::<Fee>(value, "total_fee"@)->0,
                    cancellation_reason: optional_field::<String>(value, "cancellation_reason"@)->0,
                    hold_days: field::<usize>(value, "hold_days"@)->0,
                    nextStep: optional_field::<String>(value, "nextStep"@)->0,
                    checkout_url: field::<String>(value, "checkout_url"@)->0,
                    requires_completion_step: field::<bool>(value, "requires_completion_step"@)->0,
                },
            )
        } else {
            None
        }
    }

    fn from_json(tree: &Json) -> (r: Option<Transfer>) {
        if !tree.is_object() {
            return None;
        }
        let user_entered_amount = match read_field::<Amount>(tree, "user_entered_amount") {
            Some(x) => x,
            None => {
                return None;
            },
        };
        let amount = match read_field::<Amount>(tree, "amount") {
            Some(x) => x,
            None => {
                return None;
            },
        };
        let total = match read_field::<Amount>(tree, "total") {
            Some(x) => x,
            None => {
                return None;
            },
        };
        let subtotal = match read_field::<Amount>(tree, "subtotal") {
            Some(x) => x,
            None => {
                return None;
            },
        };
        let idem = match read_field::<String>(tree, "idem") {
            Some(x) => x,
            None => {
                return None;
            },
        };
        let committed = match read_field::<bool>(tree, "committed") {
            Some(x) => x,
            None => {
                return None;
            },
        };
        let id = match read_field::<String>(tree, "id") {
            Some(x) => x,
            None => {
                return None;
            },
        };
        let instant = match read_field::<bool>(tree, "instant") {
            Some(x) => x,
            None => {
                return None;
            },
        };
        let source = match read_field::<Source>(tree, "source") {
            Some(x) => x,
            None => {
                return None;
            },
        };
        let target = match read_field::<Target>(tree, "target") {
            Some(x) => x,
            None => {
                return None;
            },
        };
        let payout_at = match read_field::<DateTime>(tree, "payout_at") {
            Some(x) => x,
            None => {
                return None;
            },
        };
        let status = match read_field::<String>(tree, "status") {
            Some(x) => x,
            None => {
                return None;
            },
        };
        let user_reference = match read_field::<String>(tree, "user_reference") {
            Some(x) => x,
            None => {
                return None;
            },
        };
        let kind = match read_field::<String>(tree, "type") {
            Some(x) => x,
            None => {
                return None;
            },
        };
        let created_at = match read_optional_field::<DateTime>(tree, "created_at") {
            Some(x) => x,
            None => {
                return None;
            },
        };
        let updated_at = match read_optional_field::<DateTime>(tree, "updated_at") {
            Some(x) => x,
            None => {
                return None;
            },
        };
        let user_warnings = match read_field::<Vec<String>>(tree, "user_warnings") {
            Some(x) => x,
            None => {
                return None;
            },
        };
        let fees = match read_field::<Vec<String>>(tree, "fees") {
            Some(x) => x,
            None => {
                return None;
            },
        };
        let total_fee = match read_field::<Fee>(tree, "total_fee") {
            Some(x) => x,
            None => {
                return None;
            },
        };
        let cancellation_reason = match read_optional_field::<String>(tree, "cancellation_reason") {
            Some(x) => x,
            None => {
                return None;
            },
        };
        let hold_days = match read_field::<usize>(tree, "hold_days") {
            Some(x) => x,
            None => {
                return None;
            },
        };
        let next = match read_optional_field::<String>(tree, "nextStep") {
            Some(x) => x,
            None => {
                return None;
            },
        };
        let checkout_url = match read_field::<String>(tree, "checkout_url") {
            Some(x) => x,
            None => {
                return None;
            },
        };
        let requires_completion_step = match read_field::<bool>(tree, "requires_completion_step") {
            Some(x) => x,
            None => {
                return None;
            },
        };
        Some(
            Transfer {
                user_entered_amount,
                amount,
                total,
                subtotal,
                idem,
                committed,
                id,
                instant,
                source,
                target,
                payout_at,
                status,
                user_reference,
                kind,
                created_at,
                updated_at,
                user_warnings,
                fees,
                total_fee,
                cancellation_reason,
                hold_days,
                nextStep: next,
                checkout_url,
                requires_completion_step,
            },
        )
    }
}

/// An amount as the service writes it.
#[derive(Debug)]
pub struct Amount {
    pub value: String,
    pub currency: String,
}

/// What an [`Amount`] holds.
pub struct AmountView {
    pub value: Seq<char>,
    pub currency: Seq<char>,
}

impl DeepView for Amount {
    type V = AmountView;

    open spec fn deep_view(&self) -> AmountView {
        AmountView {
            value: self.value.deep_view(),
            currency: self.currency.deep_view(),
        }
    }
}

impl FromJson for Amount {
    open spec fn decoded(value: JsonValue) -> Option<AmountView> {
        if value is Object
            && field::<String>(value, "value"@) is Some
            && field::<String>(value, "currency"@) is Some
        {
            Some(
                AmountView {
                    value: field::<String>(value, "value"@)->0,
                    currency: field::<String>(value, "currency"@)->0,
                },
            )
        } else {
            None
        }
    }

    fn from_json(tree: &Json) -> (r: Option<Amount>) {
        if !tree.is_object() {
            return None;
        }
        let value = match read_field::<String>(tree, "value") {
            Some(x) => x,
            None => {
                return None;
            },
        };
        let currency = match read_field::<String>(tree, "currency") {
            Some(x) => x,
            None => {
                return None;
            },
        };
        Some(Amount { value, currency })
    }
}

/// Where a transfer takes its funds.
#[derive(Debug)]
pub struct Source {
    /// The member `type`.
    pub kind: String,
    pub network: String,
    pub payment_method_id: String,
    pub ledger_account: LedgerAccount,
}

/// What a [`Source`] holds.
pub struct SourceView {
    pub kind: Seq<char>,
    pub network: Seq<char>,
    pub payment_method_id: Seq<char>,
    pub ledger_account: LedgerAccountView,
}

impl DeepView for Source {
    type V = SourceView;

    open spec fn deep_view(&self) -> SourceView {
        SourceView {
            kind: self.kind.deep_view(),
            network: self.network.deep_view(),
            payment_method_id: self.payment_method_id.deep_view(),
            ledger_account: self.ledger_account.deep_view(),
        }
    }
}

impl FromJson for Source {
    open spec fn decoded(value: JsonValue) -> Option<SourceView> {
        if value is Object
            && field::<String>(value, "type"@) is Some
            && field::<String>(value, "network"@) is Some
            && field::<String>(value, "payment_method_id"@) is Some
            && field::<LedgerAccount>(value, "ledger_account"@) is Some
        {
            Some(
                SourceView {
                    kind: field::<String>(value, "type"@)->0,
                    network: field::<String>(value, "network"@)->0,
                    payment_method_id: field::<String>(value, "payment_method_id"@)->0,
                    ledger_account: field::<LedgerAccount>(value, "ledger_account"@)->0,
                },
            )
        } else {
            None
        }
    }

    fn from_json(tree: &Json) -> (r: Option<Source>) {
        if !tree.is_object() {
            return None;
        }
        let kind = match read_field::<String>(tree, "type") {
            Some(x) => x,
            None => {
                return None;
            },
        };
        let network = match read_field::<String>(tree, "network") {
            Some(x) => x,
            None => {
                return None;
            },
        };
        let payment_method_id = match read_field::<String>(tree, "payment_method_id") {
            Some(x) => x,
            None => {
                return None;
            },
        };
        let ledger_account = match read_field::<LedgerAccount>(tree, "ledger_account") {
            Some(x) => x,
            None => {
                return None;
            },
        };
        Some(Source { kind, network, payment_method_id, ledger_account })
    }
}

/// Where a transfer puts its funds.
#[derive(Debug)]
pub struct Target {
    /// The member `type`.
    pub kind: String,
    pub network: String,
    pub payment_method_id: String,
    pub external_payment_method: ExternalPaymentMethod,
}

/// What a [`Target`] holds.
pub struct TargetView {
    pub kind: Seq<char>,
    pub network: Seq<char>,
    pub payment_method_id: Seq<char>,
    pub external_payment_method: ExternalPaymentMethodView,
}

impl DeepView for Target {
    type V = TargetView;

    open spec fn deep_view(&self) -> TargetView {
        TargetView {
            kind: self.kind.deep_view(),
            network: self.network.deep_view(),
            payment_method_id: self.payment_method_id.deep_view(),
            external_payment_method: self.external_payment_method.deep_view(),
        }
    }
}

impl FromJson for Target {
    open spec fn decoded(value: JsonValue) -> Option<TargetView> {
        if value is Object
            && field::<String>(value, "type"@) is Some
            && field::<String>(value, "network"@) is Some
            && field::<String>(value, "payment_method_id"@) is Some
            && field::<ExternalPaymentMethod>(value, "external_payment_method"@) is Some
        {
            Some(
                TargetView {
                    kind: field::<String>(value, "type"@)->0,
                    network: field::<String>(value, "network"@)->0,
                    payment_method_id: field::<String>(value, "payment_method_id"@)->0,
                    external_payment_method: field::<ExternalPaymentMethod>(value, "external_payment_method"@)->0,
                },
            )
        } else {
            None
        }
    }

    fn from_json(tree: &Json) -> (r: Option<Target>) {
        if !tree.is_object() {
            return None;
        }
        let kind = match read_field::<String>(tree, "type") {
            Some(x) => x,
            None => {
                return None;
            },
        };
        let network = match read_field::<String>(tree, "network") {
            Some(x) => x,
            None => {
                return None;
            },
        };
        let payment_method_id = match read_field::<String>(tree, "payment_method_id") {
            Some(x) => x,
            None => {
                return None;
            },
        };
        let external_payment_method = match read_field::<ExternalPaymentMethod>(tree, "external_payment_method") {
            Some(x) => x,
            None => {
                return None;
            },
        };
        Some(Target { kind, network, payment_method_id, external_payment_method })
    }
}

/// A fee on a transfer.
#[derive(Debug)]
pub struct Fee {
    pub title: String,
    pub description: String,
    pub amount: Amount,
    /// The member `type`.
    pub kind: String,
}

/// What a [`Fee`] holds.
pub struct FeeView {
    pub title: Seq<char>,
    pub description: Seq<char>,
    pub amount: AmountView,
    pub kind: Seq<char>,
}

impl DeepView for Fee {
    type V = FeeView;

    open spec fn deep_view(&self) -> FeeView {
        FeeView {
            title: self.title.deep_view(),
            description: self.description.deep_view(),
            amount: self.amount.deep_view(),
            kind: self.kind.deep_view(),
        }
    }
}

impl FromJson for Fee {
    open spec fn decoded(value: JsonValue) -> Option<FeeView> {
        if value is Object
            && field::<String>(value, "title"@) is Some
            && field::<String>(value, "description"@) is Some
            && field::<Amount>(value, "amount"@) is Some
            && field::<String>(value, "type"@) is Some
        {
            Some(
                FeeView {
                    title: field::<String>(value, "title"@)->0,
                    description: field::<String>(value, "description"@)->0,
                    amount: field::<Amount>(value, "amount"@)->0,
                    kind: field::<String>(value, "type"@)->0,
                },
            )
        } else {
            None
        }
    }

    fn from_json(tree: &Json) -> (r: Option<Fee>) {
        if !tree.is_object() {
            return None;
        }
        let title = match read_field::<String>(tree, "title") {
            Some(x) => x,
            None => {
                return None;
            },
        };
        let description = match read_field::<String>(tree, "description") {
            Some(x) => x,
            None => {
                return None;
            },
        };
        let amount = match read_field::<Amount>(tree, "amount") {
            Some(x) => x,
            None => {
                return None;
            },
        };
        let kind = match read_field::<String>(tree, "type") {
            Some(x) => x,
            None => {
                return None;
            },
        };
        Some(Fee { title, description, amount, kind })
    }
}

/// An account in the ledger of the service.
#[derive(Debug)]
pub struct LedgerAccount {
    pub account_id: String,
    pub currency: String,
    pub owner: Owner,
}

/// What a [`LedgerAccount`] holds.
pub struct LedgerAccountView {
    pub account_id: Seq<char>,
    pub currency: Seq<char>,
    pub owner: OwnerView,
}

impl DeepView for LedgerAccount {
    type V = LedgerAccountView;

    open spec fn deep_view(&self) -> LedgerAccountView {
        LedgerAccountView {
            account_id: self.account_id.deep_view(),
            currency: self.currency.deep_view(),
            owner: self.owner.deep_view(),
        }
    }
}

impl FromJson for LedgerAccount {
    open spec fn decoded(value: JsonValue) -> Option<LedgerAccountView> {
        if value is Object
            && field::<String>(value, "account_id"@) is Some
            && field::<String>(value, "currency"@) is Some
            && field::<Owner>(value, "owner"@) is Some
        {
            Some(
                LedgerAccountView {
                    account_id: field::<String>(value, "account_id"@)->0,
                    currency: field::<String>(value, "currency"@)->0,
                    owner: field::<Owner>(value, "owner"@)->0,
                },
            )
        } else {
            None
        }
    }

    fn from_json(tree: &Json) -> (r: Option<LedgerAccount>) {
        if !tree.is_object() {
            return None;
        }
        let account_id = match read_field::<String>(tree, "account_id") {
            Some(x) => x,
            None => {
                return None;
            },
        };
        let currency = match read_field::<String>(tree, "currency") {
            Some(x) => x,
            None => {
                return None;
            },
        };
        let owner = match read_field::<Owner>(tree, "owner") {
            Some(x) => x,
            None => {
                return None;
            },
        };
        Some(LedgerAccount { account_id, currency, owner })
    }
}

/// A payment method outside the service.
#[derive(Debug)]
pub struct ExternalPaymentMethod {
    pub payment_method_id: String,
}

/// What an [`ExternalPaymentMethod`] holds.
pub struct ExternalPaymentMethodView {
    pub payment_method_id: Seq<char>,
}

impl DeepView for ExternalPaymentMethod {
    type V = ExternalPaymentMethodView;

    open spec fn deep_view(&self) -> ExternalPaymentMethodView {
        ExternalPaymentMethodView {
            payment_method_id: self.payment_method_id.deep_view(),
        }
    }
}

impl FromJson for ExternalPaymentMethod {
    open spec fn decoded(value: JsonValue) -> Option<ExternalPaymentMethodView> {
        if value is Object
            && field::<String>(value, "payment_method_id"@) is Some
        {
            Some(
                ExternalPaymentMethodView {
                    payment_method_id: field::<String>(value, "payment_method_id"@)->0,
                },
            )
        } else {
            None
        }
    }

    fn from_json(tree: &Json) -> (r: Option<ExternalPaymentMethod>) {
        if !tree.is_object() {
            return None;
        }
        let payment_method_id = match read_field::<String>(tree, "payment_method_id") {
            Some(x) => x,
            None => {
                return None;
            },
        };
        Some(ExternalPaymentMethod { payment_method_id })
    }
}

/// Who owns a ledger account.
#[derive(Debug)]
pub struct Owner {
    pub id: String,
    pub uuid: String,
    pub user_uuid: String,
    /// The member `type`.
    pub kind: String,
}

/// What an [`Owner`] holds.
pub struct OwnerView {
    pub id: Seq<char>,
    pub uuid: Seq<char>,
    pub user_uuid: Seq<char>,
    pub kind: Seq<char>,
}

impl DeepView for Owner {
    type V = OwnerView;

    open spec fn deep_view(&self) -> OwnerView {
        OwnerView {
            id: self.id.deep_view(),
            uuid: self.uuid.deep_view(),
            user_uuid: self.user_uuid.deep_view(),
            kind: self.kind.deep_view(),
        }
    }
}

impl FromJson for Owner {
    open spec fn decoded(value: JsonValue) -> Option<OwnerView> {
        if value is Object
            && field::<String>(value, "id"@) is Some
            && field::<String>(value, "uuid"@) is Some
            && field::<String>(value, "user_uuid"@) is Some
            && field::<String>(value, "type"@) is Some
        {
            Some(
                OwnerView {
                    id: field::<String>(value, "id"@)->0,
                    uuid: field::<String>(value, "uuid"@)->0,
                    user_uuid: field::<String>(value, "user_uuid"@)->0,
                    kind: field::<String>(value, "type"@)->0,
                },
            )
        } else {
            None
        }
    }

    fn from_json(tree: &Json) -> (r: Option<Owner>) {
        if !tree.is_object() {
            return None;
        }
        let id = match read_field::<String>(tree, "id") {
            Some(x) => x,
            None => {
                return None;
            },
        };
        let uuid = match read_field::<String>(tree, "uuid") {
            Some(x) => x,
            None => {
                return None;
            },
        };
        let user_uuid = match read_field::<String>(tree, "user_uuid") {
            Some(x) => x,
            None => {
                return None;
            },
        };
        let kind = match read_field::<String>(tree, "type") {
            Some(x) => x,
            None => {
                return None;
            },
        };
        Some(Owner { id, uuid, user_uuid, kind })
    }
}

/// An order to withdraw funds, as it is sent to the service.
#[derive(Debug)]
pub struct Withdrawal {
    pub amount: String,
    pub currency: String,
    pub payment_method: String,
    pub commit: bool,
}

impl Withdrawal {
    /// The object that orders a withdrawal and commits it.
    pub open spec fn committed(
        amount: Seq<char>,
        currency: Seq<char>,
        payment_method: Seq<char>,
    ) -> JsonValue {
        JsonValue::Object(
            seq![
                ("amount"@, JsonValue::Text(amount)),
                ("currency"@, JsonValue::Text(currency)),
                ("payment_method"@, JsonValue::Text(payment_method)),
                ("commit"@, JsonValue::Bool(true)),
            ],
        )
    }

    /// The object that is sent for this order: its four members, in this order.
    pub open spec fn document(self) -> JsonValue {
        JsonValue::Object(
            seq![
                ("amount"@, JsonValue::Text(self.amount@)),
                ("currency"@, JsonValue::Text(self.currency@)),
                ("payment_method"@, JsonValue::Text(self.payment_method@)),
                ("commit"@, JsonValue::Bool(self.commit)),
            ],
        )
    }

    /// The object that is sent for this order.
    pub fn to_json(&self) -> (r: Json)
        ensures
            r@ == self.document(),
    {
        let amount = Json::Text(self.amount.clone());
        let currency = Json::Text(self.currency.clone());
        let payment_method = Json::Text(self.payment_method.clone());
        let commit = Json::Bool(self.commit);
        assert(amount@ == JsonValue::Text(self.amount@));
        assert(currency@ == JsonValue::Text(self.currency@));
        assert(payment_method@ == JsonValue::Text(self.payment_method@));
        assert(commit@ == JsonValue::Bool(self.commit));
        let mut members: Vec<(String, Json)> = Vec::new();
        members.push(("amount".to_owned(), amount));
        members.push(("currency".to_owned(), currency));
        members.push(("payment_method".to_owned(), payment_method));
        members.push(("commit".to_owned(), commit));
        let r = Json::Object(members);
        assert(r@->Object_0 =~= self.document()->Object_0);
        r
    }
}

} // verus!
