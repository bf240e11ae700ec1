use vstd::prelude::*;

use crate::state::PollyaAttributes;

verus! {

/// An error carrying a human-readable message.
#[derive(Clone, Debug)]
pub struct NFTError {
    message: String,
}

impl View for NFTError {
    type V = Seq<char>;

    closed spec fn view(&self) -> Seq<char> {
        self.message@
    }
}

impl NFTError {
    pub fn new(message: String) -> (e: NFTError)
        ensures
            e@ == message@,
    {
        NFTError { message }
    }

    /// The text that the error displays: its message, as it is.
    pub fn message(&self) -> (s: String)
        ensures
            s@ == self@,
    {
        self.message.clone()
    }
}

/// The token extension: optional free-form data, and the holder's DID and
/// wallet, as the minting example of the project's documentation gives them.
#[derive(Clone, Debug)]
pub struct Metadata {
    pub data: Option<String>,
    pub did: Option<String>,
    pub wallet: Option<String>,
}

impl Default for Metadata {
    fn default() -> (m: Self)
        ensures
            m.data is None,
            m.did is None,
            m.wallet is None,
    {
        Metadata { data: None, did: None, wallet: None }
    }
}

pub struct InstantiateMsg {
    pub admin: Option<String>,
    pub admin_pub_key: Option<String>,
    pub name: String,
    pub symbol: String,
    pub minter: String,
}

/// The message that the underlying NFT contract is instantiated with.
pub struct Cw721InstantiateMsg {
    pub name: String,
    pub symbol: String,
    pub minter: String,
}

/// When an approval or a pending ownership transfer expires.
#[derive(Clone, Copy, Debug, PartialEq, Eq, Structural)]
pub enum Expiration {
    /// At the given block height.
    AtHeight(u64),
    /// At the given block time, in nanoseconds.
    AtTime(u64),
    Never,
}

/// A change of the contract's ownership.
#[derive(Clone, Debug)]
pub enum OwnershipAction {
    TransferOwnership { new_owner: String, expiry: Option<Expiration> },
    AcceptOwnership,
    RenounceOwnership,
}

#[derive(Clone, Debug)]
pub enum QueryMsg {
    Admin,
    OwnerOf { token_id: String, include_expired: Option<bool> },
    Approval { token_id: String, spender: String, include_expired: Option<bool> },
    Approvals { token_id: String, include_expired: Option<bool> },
    AllOperators {
        owner: String,
        include_expired: Option<bool>,
        start_after: Option<String>,
        limit: Option<u32>,
    },
    NumTokens,
    ContractInfo,
    NftInfo { token_id: String },
    PollyaNftInfo { token_id: String },
    AllNftInfo { token_id: String, include_expired: Option<bool> },
    Tokens { owner: String, start_after: Option<String>, limit: Option<u32> },
    AllTokens { start_after: Option<String>, limit: Option<u32> },
    Minter,
}

/// The queries that are answered by the underlying NFT contract.
#[derive(Clone, Debug)]
pub enum Cw721QueryMsg {
    OwnerOf { token_id: String, include_expired: Option<bool> },
    NumTokens,
    ContractInfo,
    NftInfo { token_id: String },
    AllNftInfo { token_id: String, include_expired: Option<bool> },
    Tokens { owner: String, start_after: Option<String>, limit: Option<u32> },
    AllTokens { start_after: Option<String>, limit: Option<u32> },
    Minter,
}

impl Cw721QueryMsg {
    /// The contract's own query that this one stands for: the variant of
    /// the same name, with the same fields.
    pub open spec fn as_query(self) -> QueryMsg {
        match self {
            Cw721QueryMsg::OwnerOf { token_id, include_expired } => QueryMsg::OwnerOf {
                token_id,
                include_expired,
            },
            Cw721QueryMsg::NumTokens => QueryMsg::NumTokens,
            Cw721QueryMsg::ContractInfo => QueryMsg::ContractInfo,
            Cw721QueryMsg::NftInfo { token_id } => QueryMsg::NftInfo { token_id },
            Cw721QueryMsg::AllNftInfo { token_id, include_expired } => QueryMsg::AllNftInfo {
                token_id,
                include_expired,
            },
            Cw721QueryMsg::Tokens { owner, start_after, limit } => QueryMsg::Tokens {
                owner,
                start_after,
                limit,
            },
            Cw721QueryMsg::AllTokens { start_after, limit } => QueryMsg::AllTokens {
                start_after,
                limit,
            },
            Cw721QueryMsg::Minter => QueryMsg::Minter,
        }
    }
}

/// Forwarding a query to the underlying NFT contract loses nothing: the
/// forwarded query stands for exactly the query it came from, so every
/// field, such as the page of a listing, is kept. Exactly the standard
/// queries are forwarded.
pub proof fn lemma_cw721_counterpart_keeps_query(q: QueryMsg)
    ensures
        q.cw721_counterpart() matches Some(b) ==> b.as_query() == q,
        q.has_cw721_counterpart() <==> q.is_standard_query(),
{
}

impl QueryMsg {
    /// The queries that stand for the underlying NFT contract's queries:
    /// all but the contract's own (admin, points) and the approval and
    /// operator queries.
    pub open spec fn is_standard_query(self) -> bool {
        !(self is Admin || self is PollyaNftInfo || self is Approval || self is Approvals
            || self is AllOperators)
    }

    /// The same query as the underlying NFT contract's query message, where
    /// it has one: the variant of the same name, with the same fields.
    pub open spec fn cw721_counterpart(self) -> Option<Cw721QueryMsg> {
        match self {
            QueryMsg::OwnerOf { token_id, include_expired } => Some(
                Cw721QueryMsg::OwnerOf { token_id, include_expired },
            ),
            QueryMsg::NumTokens => Some(Cw721QueryMsg::NumTokens),
            QueryMsg::ContractInfo => Some(Cw721QueryMsg::ContractInfo),
            QueryMsg::NftInfo { token_id } => Some(Cw721QueryMsg::NftInfo { token_id }),
            QueryMsg::AllNftInfo { token_id, include_expired } => Some(
                Cw721QueryMsg::AllNftInfo { token_id, include_expired },
            ),
            QueryMsg::Tokens { owner, start_after, limit } => Some(
                Cw721QueryMsg::Tokens { owner, start_after, limit },
            ),
            QueryMsg::AllTokens { start_after, limit } => Some(
                Cw721QueryMsg::AllTokens { start_after, limit },
            ),
            QueryMsg::Minter => Some(Cw721QueryMsg::Minter),
            _ => None,
        }
    }

    pub open spec fn has_cw721_counterpart(self) -> bool {
        self.cw721_counterpart() is Some
    }

    pub fn is_cw721_query(&self) -> (b: bool)
        ensures
            b == self.has_cw721_counterpart(),
            b == self.is_standard_query(),
    {
        match self {
            QueryMsg::OwnerOf { .. } | QueryMsg::NumTokens | QueryMsg::ContractInfo
            | QueryMsg::NftInfo { .. } | QueryMsg::AllNftInfo { .. } | QueryMsg::Tokens { .. }
            | QueryMsg::AllTokens { .. } | QueryMsg::Minter => true,
            _ => false,
        }
    }

    /// The same query, as the underlying NFT contract's query message.
    pub fn to_cw721_query(self) -> (q: Cw721QueryMsg)
        requires
            self.has_cw721_counterpart(),
        ensures
            self.cw721_counterpart() == Some(q),
            q.as_query() == self,
    {
        match self {
            QueryMsg::OwnerOf { token_id, include_expired } => Cw721QueryMsg::OwnerOf {
                token_id,
                include_expired,
            },
            QueryMsg::NumTokens => Cw721QueryMsg::NumTokens,
            QueryMsg::ContractInfo => Cw721QueryMsg::ContractInfo,
            QueryMsg::NftInfo { token_id } => Cw721QueryMsg::NftInfo { token_id },
            QueryMsg::AllNftInfo { token_id, include_expired } => Cw721QueryMsg::AllNftInfo {
                token_id,
                include_expired,
            },
            QueryMsg::Tokens { owner, start_after, limit } => Cw721QueryMsg::Tokens {
                owner,
                start_after,
                limit,
            },
            QueryMsg::AllTokens { start_after, limit } => Cw721QueryMsg::AllTokens {
                start_after,
                limit,
            },
            QueryMsg::Minter => Cw721QueryMsg::Minter,
            _ => {
                assert(false);
                Cw721QueryMsg::Minter
            },
        }
    }
}

#[derive(Clone, Copy, Debug, PartialEq, Eq, Structural)]
pub enum ExtensionMessageType {
    AddPoints,
    ChangeAdmin,
    FinalizeChangeAdmin,
}

#[derive(Clone, Copy, Debug, PartialEq, Eq, Structural)]
pub enum PointsType {
    PollCreated,
    PollVoted,
}

#[derive(Clone, Copy, Debug, PartialEq, Eq, Structural)]
pub struct AddPointsMsg {
    pub points: u128,
    pub points_type: PointsType,
}

#[derive(Clone, Debug)]
pub struct ChangeAdminMsg {
    pub new_admin_public_key: String,
    pub action: OwnershipAction,
}

#[derive(Clone, Debug)]
pub struct FinalizeChangeAdminMsg {
    pub action: OwnershipAction,
}

/// A message of this contract's own, carried inside the NFT contract's
/// `Extension` execute message. `value` holds the JSON text of the
/// message that `message_type` names.
#[derive(Clone, Debug)]
pub struct ExtensionMsg {
    pub message_type: ExtensionMessageType,
    pub token_id: Option<String>,
    pub value: String,
    pub signature: Option<String>,
    pub signed_by: Option<String>,
}

impl ExtensionMsg {
    /// A grant of points names its token, its signature and its signer.
    pub open spec fn has_grant_fields(self) -> bool {
        self.message_type == ExtensionMessageType::AddPoints ==> {
            &&& self.token_id is Some
            &&& self.signature is Some
            &&& self.signed_by is Some
        }
    }

    pub fn carries_grant_fields(&self) -> (b: bool)
        ensures
            b == self.has_grant_fields(),
    {
        match self.message_type {
            ExtensionMessageType::AddPoints => self.token_id.is_some() && self.signature.is_some()
                && self.signed_by.is_some(),
            _ => true,
        }
    }
}

/// The execute messages of the contract: those of the underlying NFT
/// contract, with this contract's extension message.
#[derive(Clone, Debug)]
pub enum ExecuteMsg {
    TransferNft { recipient: String, token_id: String },
    SendNft { contract: String, token_id: String, msg: Vec<u8> },
    Approve { spender: String, token_id: String, expires: Option<Expiration> },
    Revoke { spender: String, token_id: String },
    ApproveAll { operator: String, expires: Option<Expiration> },
    RevokeAll { operator: String },
    Mint { token_id: String, owner: String, token_uri: Option<String>, extension: Option<Metadata> },
    Burn { token_id: String },
    Extension { msg: ExtensionMsg },
    UpdateOwnership(OwnershipAction),
}

#[derive(Clone, Debug)]
pub struct AdminResponse {
    pub admin: Option<String>,
}

/// What the underlying NFT contract answers about one token.
#[derive(Clone, Debug)]
pub struct NftInfoResponse {
    pub token_uri: Option<String>,
    pub extension: Option<Metadata>,
}

#[derive(Clone, Debug)]
pub struct PollyaNFTInfoResponse {
    pub nft: NftInfoResponse,
    pub pollya_attributes: PollyaAttributes,
}

} // verus!
