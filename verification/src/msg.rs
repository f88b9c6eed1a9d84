//! The command and query surface of the registry, as closed sum types, and
//! the response shapes the queries answer with.

use vstd::prelude::*;

use crate::types::{ApprovalRecord, ApprovalView, Coin, CoinView, Expiry};

verus! {

/// Initial contract metadata.
#[derive(Debug, Clone, PartialEq, Eq)]
pub struct InstantiateMsg {
    /// Name of the NFT contract.
    pub name: String,
    /// Symbol of the NFT contract.
    pub symbol: String,
}

/// Mathematical view of an [`InstantiateMsg`].
#[verifier::ext_equal]
pub struct InstantiateMsgView {
    pub name: Seq<char>,
    pub symbol: Seq<char>,
}

impl View for InstantiateMsg {
    type V = InstantiateMsgView;

    open spec fn view(&self) -> InstantiateMsgView {
        InstantiateMsgView { name: self.name@, symbol: self.symbol@ }
    }
}

/// Everything a mint supplies: the token's identity, the content fingerprint
/// with its derived sub-identifiers, descriptive metadata, and the licensing
/// terms the token starts with.
#[derive(Debug, Clone, PartialEq, Eq)]
pub struct MintMsg {
    /// Unique id of the NFT.
    pub token_id: String,
    /// Content fingerprint (ISCC code).
    pub iscc_code: String,
    /// Derived meta identifier.
    pub meta_id: String,
    /// Derived data identifier.
    pub data_id: String,
    /// Derived instance identifier.
    pub instance_id: String,
    /// Top hash over the derived identifiers.
    pub tophash: String,
    /// The owner named in the mint event.
    pub owner: String,
    /// Name of the asset the NFT represents.
    pub name: String,
    /// Description of the asset (may be empty).
    pub description: String,
    /// URI of an image representing the asset.
    pub image: String,
    /// Where the license text lives.
    pub license_url: String,
    /// Price to license the asset.
    pub license_price: Coin,
}

/// Mathematical view of a [`MintMsg`].
#[verifier::ext_equal]
pub struct MintMsgView {
    pub token_id: Seq<char>,
    pub iscc_code: Seq<char>,
    pub meta_id: Seq<char>,
    pub data_id: Seq<char>,
    pub instance_id: Seq<char>,
    pub tophash: Seq<char>,
    pub owner: Seq<char>,
    pub name: Seq<char>,
    pub description: Seq<char>,
    pub image: Seq<char>,
    pub license_url: Seq<char>,
    pub license_price: CoinView,
}

impl View for MintMsg {
    type V = MintMsgView;

    open spec fn view(&self) -> MintMsgView {
        MintMsgView {
            token_id: self.token_id@,
            iscc_code: self.iscc_code@,
            meta_id: self.meta_id@,
            data_id: self.data_id@,
            instance_id: self.instance_id@,
            tophash: self.tophash@,
            owner: self.owner@,
            name: self.name@,
            description: self.description@,
            image: self.image@,
            license_url: self.license_url@,
            license_price: self.license_price@,
        }
    }
}

/// A command to the registry. Mint and License are the core workflows; the
/// remaining variants form the capability interface through which the
/// external token-ownership module writes the owner and approval fields.
#[derive(Debug, Clone, PartialEq, Eq)]
pub enum ExecuteMsg {
    /// Mint a new NFT.
    Mint(MintMsg),
    /// Move a token to another account.
    TransferNft { recipient: String, token_id: String },
    /// Move a token to a contract account; the payload is forwarded to it.
    SendNft { contract: String, token_id: String, msg: Vec<u8> },
    /// Allow a spender to act on one token, with an optional expiry.
    Approve { spender: String, token_id: String, expires: Option<Expiry> },
    /// Remove a previously granted approval.
    Revoke { spender: String, token_id: String },
    /// Allow an operator to act on all of the sender's tokens.
    ApproveAll { operator: String, expires: Option<Expiry> },
    /// Remove a previously granted operator.
    RevokeAll { operator: String },
    /// Buy a license for a token at its recorded terms.
    License { token_id: String },
}

/// A read-only question to the registry.
#[derive(Debug, Clone, PartialEq, Eq)]
pub enum QueryMsg {
    /// Owner of a token, with its approvals; expired ones are filtered out
    /// unless `include_expired` is set.
    OwnerOf { token_id: String, include_expired: Option<bool> },
    /// Operators that may act on all of the owner's tokens, paginated.
    ApprovedForAll {
        owner: String,
        include_expired: Option<bool>,
        start_after: Option<String>,
        limit: Option<u32>,
    },
    /// Total number of tokens issued.
    NumTokens {},
    /// Top-level metadata about the contract.
    ContractInfo {},
    /// Metadata about one token.
    NftInfo { token_id: String },
    /// `NftInfo` and `OwnerOf` combined.
    AllNftInfo { token_id: String, include_expired: Option<bool> },
    /// Token ids owned by the given address, paginated.
    Tokens { owner: String, start_after: Option<String>, limit: Option<u32> },
    /// All token ids, paginated.
    AllTokens { start_after: Option<String>, limit: Option<u32> },
    /// Resolve a content fingerprint to the full composite record.
    GetByIsccCode { iscc_code: String },
}

/// Top-level contract metadata.
#[derive(Debug, Clone, PartialEq, Eq)]
pub struct ContractInfoResponse {
    pub name: String,
    pub symbol: String,
}

/// Mathematical view of a [`ContractInfoResponse`].
#[verifier::ext_equal]
pub struct ContractInfoResponseView {
    pub name: Seq<char>,
    pub symbol: Seq<char>,
}

impl View for ContractInfoResponse {
    type V = ContractInfoResponseView;

    open spec fn view(&self) -> ContractInfoResponseView {
        ContractInfoResponseView { name: self.name@, symbol: self.symbol@ }
    }
}

/// Metadata of one token.
#[derive(Debug, Clone, PartialEq, Eq)]
pub struct NftInfoResponse {
    pub name: String,
    pub description: String,
    pub image: Option<String>,
}

/// Mathematical view of an [`NftInfoResponse`].
#[verifier::ext_equal]
pub struct NftInfoResponseView {
    pub name: Seq<char>,
    pub description: Seq<char>,
    pub image: Option<Seq<char>>,
}

impl View for NftInfoResponse {
    type V = NftInfoResponseView;

    open spec fn view(&self) -> NftInfoResponseView {
        NftInfoResponseView {
            name: self.name@,
            description: self.description@,
            image: match self.image {
                Some(s) => Some(s@),
                None => None,
            },
        }
    }
}

/// Owner of a token and the approvals on it that pass the expiry filter.
#[derive(Debug, Clone, PartialEq, Eq)]
pub struct OwnerOfResponse {
    pub owner: String,
    pub approvals: Vec<ApprovalRecord>,
}

/// Mathematical view of an [`OwnerOfResponse`].
#[verifier::ext_equal]
pub struct OwnerOfResponseView {
    pub owner: Seq<char>,
    pub approvals: Seq<ApprovalView>,
}

impl View for OwnerOfResponse {
    type V = OwnerOfResponseView;

    open spec fn view(&self) -> OwnerOfResponseView {
        OwnerOfResponseView {
            owner: self.owner@,
            approvals: self.approvals@.map_values(|a: ApprovalRecord| a@),
        }
    }
}

/// `OwnerOf` and `NftInfo` answered together.
#[derive(Debug, Clone, PartialEq, Eq)]
pub struct AllNftInfoResponse {
    pub access: OwnerOfResponse,
    pub info: NftInfoResponse,
}

/// Mathematical view of an [`AllNftInfoResponse`].
#[verifier::ext_equal]
pub struct AllNftInfoResponseView {
    pub access: OwnerOfResponseView,
    pub info: NftInfoResponseView,
}

impl View for AllNftInfoResponse {
    type V = AllNftInfoResponseView;

    open spec fn view(&self) -> AllNftInfoResponseView {
        AllNftInfoResponseView { access: self.access@, info: self.info@ }
    }
}

/// Operators of an owner that pass the expiry filter, one page of them.
#[derive(Debug, Clone, PartialEq, Eq)]
pub struct ApprovedForAllResponse {
    pub operators: Vec<ApprovalRecord>,
}

/// Mathematical view of an [`ApprovedForAllResponse`].
#[verifier::ext_equal]
pub struct ApprovedForAllResponseView {
    pub operators: Seq<ApprovalView>,
}

impl View for ApprovedForAllResponse {
    type V = ApprovedForAllResponseView;

    open spec fn view(&self) -> ApprovedForAllResponseView {
        ApprovedForAllResponseView {
            operators: self.operators@.map_values(|a: ApprovalRecord| a@),
        }
    }
}

/// Total number of tokens issued.
#[derive(Debug, Clone, Copy, PartialEq, Eq, Structural)]
pub struct NumTokensResponse {
    pub count: u64,
}

/// One page of token ids, in ascending order.
#[derive(Debug, Clone, PartialEq, Eq)]
pub struct TokensResponse {
    pub tokens: Vec<String>,
}

/// Mathematical view of a [`TokensResponse`].
#[verifier::ext_equal]
pub struct TokensResponseView {
    pub tokens: Seq<Seq<char>>,
}

impl View for TokensResponse {
    type V = TokensResponseView;

    open spec fn view(&self) -> TokensResponseView {
        TokensResponseView { tokens: self.tokens@.map_values(|s: String| s@) }
    }
}

/// The composite record a content fingerprint resolves to: the token, its
/// metadata, the ISCC-derived sub-identifiers, and the licensing terms.
#[derive(Debug, Clone, PartialEq, Eq)]
pub struct TokenResponse {
    pub token_id: String,
    pub owner: String,
    pub name: String,
    pub description: Option<String>,
    pub image: Option<String>,
    pub meta_id: String,
    pub iscc_code: String,
    pub data_id: String,
    pub instance_id: String,
    pub tophash: String,
    pub license_url: String,
    pub license_price: Coin,
}

/// Mathematical view of a [`TokenResponse`].
#[verifier::ext_equal]
pub struct TokenResponseView {
    pub token_id: Seq<char>,
    pub owner: Seq<char>,
    pub name: Seq<char>,
    pub description: Option<Seq<char>>,
    pub image: Option<Seq<char>>,
    pub meta_id: Seq<char>,
    pub iscc_code: Seq<char>,
    pub data_id: Seq<char>,
    pub instance_id: Seq<char>,
    pub tophash: Seq<char>,
    pub license_url: Seq<char>,
    pub license_price: CoinView,
}

impl View for TokenResponse {
    type V = TokenResponseView;

    open spec fn view(&self) -> TokenResponseView {
        TokenResponseView {
            token_id: self.token_id@,
            owner: self.owner@,
            name: self.name@,
            description: match self.description {
                Some(s) => Some(s@),
                None => None,
            },
            image: match self.image {
                Some(s) => Some(s@),
                None => None,
            },
            meta_id: self.meta_id@,
            iscc_code: self.iscc_code@,
            data_id: self.data_id@,
            instance_id: self.instance_id@,
            tophash: self.tophash@,
            license_url: self.license_url@,
            license_price: self.license_price@,
        }
    }
}

/// The answer to one [`QueryMsg`], one variant per query shape.
#[derive(Debug, Clone, PartialEq, Eq)]
pub enum QueryAnswer {
    OwnerOf(OwnerOfResponse),
    ApprovedForAll(ApprovedForAllResponse),
    NumTokens(NumTokensResponse),
    ContractInfo(ContractInfoResponse),
    NftInfo(NftInfoResponse),
    AllNftInfo(AllNftInfoResponse),
    Tokens(TokensResponse),
    AllTokens(TokensResponse),
    Resolved(Option<TokenResponse>),
}

} // verus!
