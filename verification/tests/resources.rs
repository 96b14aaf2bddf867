use coinbase::accounts::{Account, AccountCurrency, AccountType};
use coinbase::client::{PagedResponse, Pagination, Response, SortOrder};
use coinbase::time::Timestamp;
use coinbase::transactions::{Money, Transaction, TransactionStatus, TransactionType};
use coinbase::users::{Auth, User};

fn account(id: &str) -> Account {
    Account {
        id: id.to_string(),
        resource: "account".to_string(),
        resource_path: format!("/v2/accounts/{}", id),
        name: "My Wallet".to_string(),
        primary: true,
        kind: AccountType::Wallet,
        currency: AccountCurrency {
            code: "BTC".to_string(),
            name: "Bitcoin".to_string(),
            color: "#F7931A".to_string(),
            sort_index: 100,
            exponent: 8,
            kind: "crypto".to_string(),
            address_regex: "^.*$".to_string(),
            asset_id: "asset-1".to_string(),
            slug: "bitcoin".to_string(),
        },
        balance: Money {
            amount: "39.59000000".to_string(),
            currency: "BTC".to_string(),
        },
        created_at: Timestamp {
            seconds: 1422737342,
            nanoseconds: 0,
        },
        updated_at: Timestamp {
            seconds: 1422737342,
            nanoseconds: 500,
        },
    }
}

#[test]
fn a_page_of_accounts_keeps_its_items_and_cursor() {
    let page = PagedResponse {
        pagination: Pagination {
            ending_before: None,
            starting_before: None,
            limit: 25,
            order: "desc".to_string(),
            previous_uri: None,
            next_uri: Some("/v2/accounts?starting_after=a-2".to_string()),
        },
        data: vec![account("a-1"), account("a-2")],
    };
    assert!(page.has_next_page());
    assert_eq!(page.data.len(), 2);
    assert_eq!(page.data[1].id, "a-2");
    assert_eq!(page.data[0].balance.amount, "39.59000000");
    assert!(matches!(page.data[0].kind, AccountType::Wallet));
    assert_eq!(page.data[0].created_at.seconds, 1422737342);
    assert_eq!(page.data[0].updated_at.nanoseconds, 500);
    let copy = page.clone();
    assert_eq!(copy.data[0].currency.exponent, 8);
    assert_eq!(copy.pagination.limit, 25);
}

#[test]
fn a_single_transaction_keeps_its_fields() {
    let moment = Timestamp {
        seconds: -1,
        nanoseconds: 999_999_999,
    };
    let found = Response {
        data: Transaction {
            id: "t-1".to_string(),
            resource: "transaction".to_string(),
            resource_path: "/v2/accounts/a-1/transactions/t-1".to_string(),
            kind: TransactionType::FiatDeposit,
            status: TransactionStatus::WaitingForClearing,
            amount: Money {
                amount: "1.00".to_string(),
                currency: "BTC".to_string(),
            },
            native_amount: Money {
                amount: "10.00".to_string(),
                currency: "USD".to_string(),
            },
            description: None,
            created_at: moment,
            updated_at: moment,
        },
    };
    assert!(matches!(found.data.kind, TransactionType::FiatDeposit));
    assert!(matches!(found.data.status, TransactionStatus::WaitingForClearing));
    assert_eq!(found.data.native_amount.currency, "USD");
    assert_eq!(found.data.created_at, moment);
    assert!(found.data.description.is_none());
}

#[test]
fn users_and_authorizations_keep_their_fields() {
    let user = User {
        id: "u-1".to_string(),
        resource: "user".to_string(),
        resource_path: "/v2/user".to_string(),
        name: Some("Alice".to_string()),
        username: None,
        profile_location: None,
        profile_bio: None,
        profile_url: None,
        avatar_url: "https://example.com/a.png".to_string(),
    };
    assert_eq!(user.clone().name.as_deref(), Some("Alice"));
    let auth = Auth {
        method: "api_key".to_string(),
        scopes: vec!["wallet:user:read".to_string()],
    };
    assert_eq!(auth.scopes.len(), 1);
    assert!(matches!(SortOrder::Asc, SortOrder::Asc));
    assert!(matches!(SortOrder::Desc.clone(), SortOrder::Desc));
}
