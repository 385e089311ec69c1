//! What the provider hands over, and what the resolver hands on.

use crate::address::{valid_address, Address};
use crate::balance::Balance;
use vstd::prelude::*;

verus! {

/// The provider's answer in the shape the upstream client isolates: a balance
/// and the transaction identifiers in the order the provider listed them.
#[derive(Debug, PartialEq, Eq)]
pub struct ProviderResponse {
    pub balance: Balance,
    pub transactions: Vec<String>,
}

/// The mathematical content of a [`ProviderResponse`].
pub struct ResponseModel {
    pub balance: u64,
    pub transactions: Seq<Seq<char>>,
}

impl View for ProviderResponse {
    type V = ResponseModel;

    open spec fn view(&self) -> ResponseModel {
        ResponseModel {
            balance: self.balance@,
            transactions: self.transactions.deep_view(),
        }
    }
}

impl Clone for ProviderResponse {
    fn clone(&self) -> (copy: ProviderResponse)
        ensures
            copy@ == self@,
    {
        let transactions = self.transactions.clone();
        assert(transactions.deep_view() =~= self.transactions.deep_view());
        ProviderResponse { balance: self.balance, transactions }
    }
}

/// The mathematical content of a [`WalletSnapshot`].
pub struct SnapshotModel {
    pub address: Seq<char>,
    pub balance: u64,
    pub transactions: Seq<Seq<char>>,
}

/// The snapshot that a response yields for an address: the balance and the
/// transactions carried over untouched, in order, duplicates included.
pub open spec fn snapshot_of(address: Seq<char>, response: ResponseModel) -> SnapshotModel {
    SnapshotModel {
        address,
        balance: response.balance,
        transactions: response.transactions,
    }
}

/// A point-in-time read of one wallet. Built once per request and never
/// changed afterwards.
#[derive(Debug, PartialEq, Eq)]
pub struct WalletSnapshot {
    address: Address,
    balance: Balance,
    transactions: Vec<String>,
}

impl View for WalletSnapshot {
    type V = SnapshotModel;

    closed spec fn view(&self) -> SnapshotModel {
        SnapshotModel {
            address: self.address@,
            balance: self.balance@,
            transactions: self.transactions.deep_view(),
        }
    }
}

impl Clone for WalletSnapshot {
    fn clone(&self) -> (copy: WalletSnapshot)
        ensures
            copy@ == self@,
    {
        let transactions = self.transactions.clone();
        assert(transactions.deep_view() =~= self.transactions.deep_view());
        WalletSnapshot { address: self.address.clone(), balance: self.balance, transactions }
    }
}

impl WalletSnapshot {
    /// Builds the snapshot of `address` from the provider's `response`.
    pub fn assemble(address: Address, response: ProviderResponse) -> (snapshot: WalletSnapshot)
        ensures
            snapshot@ == snapshot_of(address@, response@),
    {
        WalletSnapshot {
            address,
            balance: response.balance,
            transactions: response.transactions,
        }
    }

    /// The wallet this snapshot describes.
    pub fn address(&self) -> (text: &str)
        ensures
            text@ == self@.address,
            valid_address(text@),
    {
        self.address.as_str()
    }

    /// The balance as the provider reported it.
    pub fn balance(&self) -> (balance: Balance)
        ensures
            balance@ == self@.balance,
    {
        self.balance
    }

    /// The transaction identifiers, oldest first as the provider listed them.
    pub fn transactions(&self) -> (list: &Vec<String>)
        ensures
            list.deep_view() == self@.transactions,
    {
        &self.transactions
    }
}

} // verus!
