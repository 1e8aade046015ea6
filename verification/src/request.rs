use vstd::prelude::*;

verus! {

/// The ordering directive carried by a request: `Unspecified` sends no
/// ordering parameter at all and lets the server pick its default.
#[derive(Clone, Copy, Debug, PartialEq, Eq)]
pub enum Order {
    Unspecified,
    Ascending,
    Descending,
}

/// An asset selector: either the native asset, or a credit asset named
/// by its code and the account id of its issuer.
#[derive(Debug, PartialEq, Eq)]
pub enum Asset {
    Native,
    Credit { code: String, issuer: String },
}

/// The resource-specific part of a request: which endpoint is queried
/// and with which identifiers and flags, before any paging is applied.
#[derive(Debug, PartialEq, Eq)]
pub enum Endpoint {
    Root,
    Account { account_id: String },
    ClaimableBalance { balance_id: String },
    ClaimableBalancesByAsset { asset: Asset },
    ClaimableBalancesByClaimant { claimant_id: String },
    ClaimableBalancesBySponsor { sponsor_id: String },
    Effects,
    EffectsForAccount { account_id: String },
    EffectsForLedger { ledger_id: i32 },
    EffectsForOperation { operation_id: String },
    EffectsForTransaction { transaction_id: String },
    Ledgers,
    Ledger { ledger_id: i32 },
    Operations { include_failed: bool },
    Operation { operation_id: String },
    OperationsForAccount { account_id: String, include_failed: bool },
    OperationsForLedger { ledger_id: i32, include_failed: bool },
    Payments { include_failed: bool },
    PaymentsForAccount { account_id: String, include_failed: bool },
    PaymentsForLedger { ledger_id: i32, include_failed: bool },
    PaymentsForTransaction { transaction_id: String },
    Trades,
    TradesForAccount { account_id: String },
    TradesForOffer { offer_id: i64 },
    Transactions { include_failed: bool },
    Transaction { transaction_id: String },
    TransactionsForAccount { account_id: String, include_failed: bool },
    TransactionsForLedger { ledger_id: i32, include_failed: bool },
}

/// A full request descriptor: an endpoint together with the paging
/// fields that may be attached to it before submission.
#[derive(Debug, PartialEq, Eq)]
pub struct Descriptor {
    pub endpoint: Endpoint,
    pub cursor: Option<String>,
    pub limit: Option<u64>,
    pub order: Order,
}

/// A descriptor for the endpoint with no paging attached.
pub open spec fn fresh(endpoint: Endpoint) -> Descriptor {
    Descriptor { endpoint, cursor: None, limit: None, order: Order::Unspecified }
}

impl Descriptor {
    /// Wraps the endpoint into a descriptor with no paging attached.
    pub fn new(endpoint: Endpoint) -> (d: Descriptor)
        ensures
            d == fresh(endpoint),
    {
        Descriptor { endpoint, cursor: None, limit: None, order: Order::Unspecified }
    }
}

impl Clone for Asset {
    fn clone(&self) -> (res: Asset)
        ensures
            res == *self,
    {
        match self {
            Asset::Native => Asset::Native,
            Asset::Credit { code, issuer } => Asset::Credit {
                code: code.clone(),
                issuer: issuer.clone(),
            },
        }
    }
}

impl Clone for Endpoint {
    fn clone(&self) -> (res: Endpoint)
        ensures
            res == *self,
    {
        match self {
            Endpoint::Root => Endpoint::Root,
            Endpoint::Account { account_id } => Endpoint::Account {
                account_id: account_id.clone(),
            },
            Endpoint::ClaimableBalance { balance_id } => Endpoint::ClaimableBalance {
                balance_id: balance_id.clone(),
            },
            Endpoint::ClaimableBalancesByAsset { asset } => Endpoint::ClaimableBalancesByAsset {
                asset: asset.clone(),
            },
            Endpoint::ClaimableBalancesByClaimant { claimant_id } => {
                Endpoint::ClaimableBalancesByClaimant { claimant_id: claimant_id.clone() }
            },
            Endpoint::ClaimableBalancesBySponsor { sponsor_id } => {
                Endpoint::ClaimableBalancesBySponsor { sponsor_id: sponsor_id.clone() }
            },
            Endpoint::Effects => Endpoint::Effects,
            Endpoint::EffectsForAccount { account_id } => Endpoint::EffectsForAccount {
                account_id: account_id.clone(),
            },
            Endpoint::EffectsForLedger { ledger_id } => Endpoint::EffectsForLedger {
                ledger_id: *ledger_id,
            },
            Endpoint::EffectsForOperation { operation_id } => Endpoint::EffectsForOperation {
                operation_id: operation_id.clone(),
            },
            Endpoint::EffectsForTransaction { transaction_id } => {
                Endpoint::EffectsForTransaction { transaction_id: transaction_id.clone() }
            },
            Endpoint::Ledgers => Endpoint::Ledgers,
            Endpoint::Ledger { ledger_id } => Endpoint::Ledger { ledger_id: *ledger_id },
            Endpoint::Operations { include_failed } => Endpoint::Operations {
                include_failed: *include_failed,
            },
            Endpoint::Operation { operation_id } => Endpoint::Operation {
                operation_id: operation_id.clone(),
            },
            Endpoint::OperationsForAccount { account_id, include_failed } => {
                Endpoint::OperationsForAccount {
                    account_id: account_id.clone(),
                    include_failed: *include_failed,
                }
            },
            Endpoint::OperationsForLedger { ledger_id, include_failed } => {
                Endpoint::OperationsForLedger {
                    ledger_id: *ledger_id,
                    include_failed: *include_failed,
                }
            },
            Endpoint::Payments { include_failed } => Endpoint::Payments {
                include_failed: *include_failed,
            },
            Endpoint::PaymentsForAccount { account_id, include_failed } => {
                Endpoint::PaymentsForAccount {
                    account_id: account_id.clone(),
                    include_failed: *include_failed,
                }
            },
            Endpoint::PaymentsForLedger { ledger_id, include_failed } => {
                Endpoint::PaymentsForLedger {
                    ledger_id: *ledger_id,
                    include_failed: *include_failed,
                }
            },
            Endpoint::PaymentsForTransaction { transaction_id } => {
                Endpoint::PaymentsForTransaction { transaction_id: transaction_id.clone() }
            },
            Endpoint::Trades => Endpoint::Trades,
            Endpoint::TradesForAccount { account_id } => Endpoint::TradesForAccount {
                account_id: account_id.clone(),
            },
            Endpoint::TradesForOffer { offer_id } => Endpoint::TradesForOffer {
                offer_id: *offer_id,
            },
            Endpoint::Transactions { include_failed } => Endpoint::Transactions {
                include_failed: *include_failed,
            },
            Endpoint::Transaction { transaction_id } => Endpoint::Transaction {
                transaction_id: transaction_id.clone(),
            },
            Endpoint::TransactionsForAccount { account_id, include_failed } => {
                Endpoint::TransactionsForAccount {
                    account_id: account_id.clone(),
                    include_failed: *include_failed,
                }
            },
            Endpoint::TransactionsForLedger { ledger_id, include_failed } => {
                Endpoint::TransactionsForLedger {
                    ledger_id: *ledger_id,
                    include_failed: *include_failed,
                }
            },
        }
    }
}

impl Clone for Descriptor {
    fn clone(&self) -> (res: Descriptor)
        ensures
            res == *self,
    {
        Descriptor {
            endpoint: self.endpoint.clone(),
            cursor: self.cursor.clone(),
            limit: self.limit,
            order: self.order,
        }
    }
}

} // verus!
