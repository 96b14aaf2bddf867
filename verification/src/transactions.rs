//! Transactions of an account, and the requests that read them.

use crate::client::{Client, PaginationOptions, SignedRequest};
use crate::signing::Method;
use crate::time::Timestamp;
use vstd::prelude::*;

verus! {

#[derive(Debug, Clone)]
pub struct Transaction {
    /// Resource ID
    pub id: String,
    /// constant `"transaction"`
    pub resource: String,
    pub resource_path: String,
    /// Transaction type
    pub kind: TransactionType,
    /// Status
    pub status: TransactionStatus,
    /// Amount in bitcoin, bitcoin cash, litecoin or ethereum
    pub amount: Money,
    /// Amount in user's native currency
    pub native_amount: Money,
    /// User defined description
    pub description: Option<String>,
    pub created_at: Timestamp,
    pub updated_at: Timestamp,
}

#[derive(Debug, Clone)]
pub enum TransactionType {
    /// Sent bitcoin/bitcoin cash/litecoin/ethereum to a bitcoin/bitcoin cash/litecoin/ethereum address or email
    Send,
    /// Requested bitcoin/bitcoin cash/litecoin/ethereum from a user or email
    Request,
    /// Transfered funds between two of a user's accounts
    Transfer,
    /// Bought bitcoin, bitcoin cash, litecoin or ethereum
    Buy,
    /// Sold bitcoin, bitcoin cash, litecoin or ethereum
    Sell,
    /// Deposited funds into a fiat account from a financial institution
    FiatDeposit,
    /// Withdrew funds from a fiat account
    FiatWithdrawal,
    /// Deposited money into Coinbase Pro
    ExchangeDeposit,
    /// Withdrew money from Coinbase Pro
    ExchangeWithdrawal,
    /// Withdrew funds from a vault account
    VaultWithdrawal,
    /// Deposited money into Coinbase Pro
    ProDeposit,
    /// Withdrew money from Coinbase Pro
    ProWithdrawal,
    InflationReward,
}

/// Transactions statuses vary based on the type of the transaction.
#[derive(Debug, Clone)]
pub enum TransactionStatus {
    /// Pending transactions (e.g. a send or a buy)
    Pending,
    /// Completed transactions (e.g. a send or a buy)
    Completed,
    /// Failed transactions (e.g. failed buy)
    Failed,
    /// Conditional transaction expired due to external factors
    Expired,
    /// Transaction was canceled
    Canceled,
    /// Vault withdrawal is waiting for approval
    WaitingForSignature,
    /// Vault withdrawal is waiting to be cleared
    WaitingForClearing,
}

#[derive(Debug, Clone)]
pub struct Money {
    pub amount: String,
    pub currency: String,
}

#[derive(Debug, Clone)]
pub struct AccountCurrency {
    pub code: String,
    pub name: String,
    pub color: String,
    pub sort_index: i32,
    pub exponent: i32,
    pub kind: String,
    pub address_regex: String,
    pub asset_id: String,
    pub slug: String,
}

/// The relative path of an account's transactions.
pub open spec fn transactions_path(account_id: Seq<char>) -> Seq<char> {
    "accounts/"@ + account_id + "/transactions"@
}

/// The relative path of one transaction of an account.
pub open spec fn transaction_path(account_id: Seq<char>, transaction_id: Seq<char>) -> Seq<char> {
    "accounts/"@ + account_id + "/transactions/"@ + transaction_id
}

impl Client {
    /// List transactions
    ///
    /// Prepares the request that lists an account's transactions, with the
    /// query of `pagination` behind the path.
    pub fn list_transactions(&self, account_id: &str, pagination: &PaginationOptions) -> (r:
        SignedRequest)
        ensures
            self.prepares(
                Method::Get,
                transactions_path(account_id@) + pagination.query_text(),
                None,
                r,
            ),
    {
        let mut path = "accounts/".to_owned();
        path.append(account_id);
        path.append("/transactions");
        let query = pagination.get_query();
        path.append(query.as_str());
        self.send_request(Method::Get, path.as_str(), None)
    }

    /// Show a transaction
    ///
    /// Prepares the request that shows one transaction of an account.
    pub fn get_transaction(&self, account_id: &str, transaction_id: &str) -> (r: SignedRequest)
        ensures
            self.prepares(Method::Get, transaction_path(account_id@, transaction_id@), None, r),
    {
        let mut path = "accounts/".to_owned();
        path.append(account_id);
        path.append("/transactions/");
        path.append(transaction_id);
        self.send_request(Method::Get, path.as_str(), None)
    }
}

} // verus!
