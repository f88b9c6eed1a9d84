//! Core value types of the registry and their mathematical views.
//!
//! Principals and denominations are plain strings; amounts are unsigned
//! 128-bit integers. Each executable type has a view struct over `Seq<char>`
//! that the contracts speak of.

use vstd::prelude::*;

verus! {

/// A quantity of one denomination of coin.
#[derive(Debug, Clone, PartialEq, Eq)]
pub struct Coin {
    pub denom: String,
    pub amount: u128,
}

/// Mathematical view of a [`Coin`].
#[verifier::ext_equal]
pub struct CoinView {
    pub denom: Seq<char>,
    pub amount: u128,
}

impl View for Coin {
    type V = CoinView;

    open spec fn view(&self) -> CoinView {
        CoinView { denom: self.denom@, amount: self.amount }
    }
}

impl Coin {
    /// An explicit copy whose view equals the original's.
    pub fn dup(&self) -> (r: Coin)
        ensures
            r@ == self@,
    {
        Coin { denom: self.denom.clone(), amount: self.amount }
    }
}

/// The views of a vector of coins, in order.
pub open spec fn coin_views(v: Seq<Coin>) -> Seq<CoinView> {
    v.map_values(|c: Coin| c@)
}

/// When an approval stops being honoured: never, at a block height, or at a
/// block time in nanoseconds.
#[derive(Debug, Clone, Copy, PartialEq, Eq, Structural)]
pub enum Expiry {
    Never,
    AtHeight(u64),
    AtTime(u64),
}

/// The point in chain history a query is answered at.
#[derive(Debug, Clone, Copy, PartialEq, Eq, Structural)]
pub struct BlockInfo {
    pub height: u64,
    pub time_nanos: u64,
}

/// Whether an approval with expiry `e` has lapsed at block `b`.
pub open spec fn spec_expired(e: Expiry, b: BlockInfo) -> bool {
    match e {
        Expiry::Never => false,
        Expiry::AtHeight(h) => b.height >= h,
        Expiry::AtTime(t) => b.time_nanos >= t,
    }
}

impl Expiry {
    /// Whether this expiry has lapsed at block `b`.
    pub fn is_expired(&self, b: &BlockInfo) -> (r: bool)
        ensures
            r == spec_expired(*self, *b),
    {
        match self {
            Expiry::Never => false,
            Expiry::AtHeight(h) => b.height >= *h,
            Expiry::AtTime(t) => b.time_nanos >= *t,
        }
    }
}

/// One spender allowed to act on a token, with the expiry of that right.
#[derive(Debug, Clone, PartialEq, Eq)]
pub struct ApprovalRecord {
    pub spender: String,
    pub expires: Expiry,
}

/// Mathematical view of an [`ApprovalRecord`].
#[verifier::ext_equal]
pub struct ApprovalView {
    pub spender: Seq<char>,
    pub expires: Expiry,
}

impl View for ApprovalRecord {
    type V = ApprovalView;

    open spec fn view(&self) -> ApprovalView {
        ApprovalView { spender: self.spender@, expires: self.expires }
    }
}

impl ApprovalRecord {
    /// An explicit copy whose view equals the original's.
    pub fn dup(&self) -> (r: ApprovalRecord)
        ensures
            r@ == self@,
    {
        ApprovalRecord { spender: self.spender.clone(), expires: self.expires }
    }
}

/// The canonical record of one token: its owner, descriptive metadata, and
/// the spenders currently approved on it.
#[derive(Debug, Clone, PartialEq, Eq)]
pub struct TokenRecord {
    pub owner: String,
    pub name: String,
    pub description: String,
    pub image: Option<String>,
    pub approvals: Vec<ApprovalRecord>,
}

/// Mathematical view of a [`TokenRecord`].
#[verifier::ext_equal]
pub struct TokenView {
    pub owner: Seq<char>,
    pub name: Seq<char>,
    pub description: Seq<char>,
    pub image: Option<Seq<char>>,
    pub approvals: Seq<ApprovalView>,
}

impl View for TokenRecord {
    type V = TokenView;

    open spec fn view(&self) -> TokenView {
        TokenView {
            owner: self.owner@,
            name: self.name@,
            description: self.description@,
            image: match self.image {
                Some(s) => Some(s@),
                None => None,
            },
            approvals: self.approvals@.map_values(|a: ApprovalRecord| a@),
        }
    }
}

/// A key/value pair attached to a command's observable event.
#[derive(Debug, Clone, PartialEq, Eq)]
pub struct Attribute {
    pub key: String,
    pub value: String,
}

/// Mathematical view of an [`Attribute`].
#[verifier::ext_equal]
pub struct AttributeView {
    pub key: Seq<char>,
    pub value: Seq<char>,
}

impl View for Attribute {
    type V = AttributeView;

    open spec fn view(&self) -> AttributeView {
        AttributeView { key: self.key@, value: self.value@ }
    }
}

/// An instruction to the execution host to move funds to an address.
#[derive(Debug, Clone, PartialEq, Eq)]
pub struct BankTransfer {
    pub to_address: String,
    pub amount: Vec<Coin>,
}

/// Mathematical view of a [`BankTransfer`].
#[verifier::ext_equal]
pub struct BankTransferView {
    pub to_address: Seq<char>,
    pub amount: Seq<CoinView>,
}

impl View for BankTransfer {
    type V = BankTransferView;

    open spec fn view(&self) -> BankTransferView {
        BankTransferView {
            to_address: self.to_address@,
            amount: self.amount@.map_values(|c: Coin| c@),
        }
    }
}

/// The structured result of a successful command: fund-transfer instructions
/// for the host, and attributes for external indexers.
#[derive(Debug, Clone, PartialEq, Eq)]
pub struct Response {
    pub messages: Vec<BankTransfer>,
    pub attributes: Vec<Attribute>,
}

/// Mathematical view of a [`Response`].
#[verifier::ext_equal]
pub struct ResponseView {
    pub messages: Seq<BankTransferView>,
    pub attributes: Seq<AttributeView>,
}

impl View for Response {
    type V = ResponseView;

    open spec fn view(&self) -> ResponseView {
        ResponseView {
            messages: self.messages@.map_values(|m: BankTransfer| m@),
            attributes: self.attributes@.map_values(|a: Attribute| a@),
        }
    }
}

} // verus!
