//! Accounts, and the requests that read them.

use crate::client::{Client, PaginationOptions, SignedRequest};
use crate::signing::Method;
use crate::time::Timestamp;
use crate::transactions::Money;
use vstd::prelude::*;

verus! {

/// Account resource represents all of a user's accounts, including bitcoin, bitcoin cash, litecoin and ethereum wallets, fiat currency accounts, and vaults. This is represented in the type field. It's important to note that new types can be added over time so you want to make sure this won't break your implementation.
/// User can only have one primary account and its type can only be wallet.
#[derive(Debug, Clone)]
pub struct Account {
    /// Resource ID
    pub id: String,
    /// constant `"account"`
    pub resource: String,
    pub resource_path: String,
    /// User or system defined name
    pub name: String,
    /// Primary account
    pub primary: bool,
    /// Account's type. Available values: wallet, fiat, vault
    pub kind: AccountType,
    /// Account's currency
    pub currency: AccountCurrency,
    /// Balance in BTC or ETH
    pub balance: Money,
    pub created_at: Timestamp,
    pub updated_at: Timestamp,
}

#[derive(Debug, Clone)]
pub enum AccountType {
    Wallet,
    Fiat,
    Vault,
}

#[derive(Debug, Clone)]
pub struct AccountCurrency {
    pub code: String,
    pub name: String,
    pub color: String,
    pub sort_index: i32,
    pub exponent: i32,
    pub kind: String,
    pub address_regex: String,
    pub asset_id: String,
    pub slug: String,
}

/// The relative path of an account.
pub open spec fn account_path(account_id: Seq<char>) -> Seq<char> {
    "accounts/"@ + account_id
}

impl Client {
    /// List accounts
    ///
    /// Prepares the request that lists the current user's accounts to which
    /// the key has access, with the query of `pagination` behind the path.
    pub fn list_accounts(&self, pagination: &PaginationOptions) -> (r: SignedRequest)
        ensures
            self.prepares(Method::Get, "accounts"@ + pagination.query_text(), None, r),
    {
        let mut path = "accounts".to_owned();
        let query = pagination.get_query();
        path.append(query.as_str());
        self.send_request(Method::Get, path.as_str(), None)
    }

    /// Show an account
    ///
    /// Prepares the request that shows one account of the current user. To
    /// reach the primary account of a currency, a currency code (BTC or
    /// ETH) can stand in place of the account's ID.
    pub fn get_account(&self, account_id: &str) -> (r: SignedRequest)
        ensures
            self.prepares(Method::Get, account_path(account_id@), None, r),
    {
        let mut path = "accounts/".to_owned();
        path.append(account_id);
        self.send_request(Method::Get, path.as_str(), None)
    }
}

} // verus!
