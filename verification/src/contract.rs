use vstd::prelude::*;

use crate::encoding::{decimal, hex_encode, hex_lower, sha256, sha256_digest, u128_to_decimal};
use crate::helpers::{decoded_text, from_base64, is_base64};
use crate::msg::{
    AddPointsMsg, AdminResponse, Cw721InstantiateMsg, Cw721QueryMsg, ExecuteMsg, ExtensionMessageType,
    ExtensionMsg, FinalizeChangeAdminMsg, ChangeAdminMsg, InstantiateMsg, Metadata, NftInfoResponse,
    OwnershipAction, PointsType, PollyaNFTInfoResponse, QueryMsg,
};
use crate::state::{Config, PollyaAttributes};
use vstd::utf8::encode_utf8;

verus! {

/// The name under which the contract records its version.
pub const CONTRACT_NAME: &'static str = "crates.io:cw721-non-transferable";

/// An error of the contract's own extension messages.
#[derive(Clone, Debug)]
pub enum ExtensionError {
    GenericErr { msg: String },
}

impl ExtensionError {
    /// This is a generic error with the given text.
    pub open spec fn has_text(self, text: Seq<char>) -> bool {
        match self {
            ExtensionError::GenericErr { msg } => msg@ == text,
        }
    }
}

/// `sender` is the admin.
pub open spec fn is_admin(admin: Option<String>, sender: String) -> bool {
    admin matches Some(a) && a@ == sender@
}

/// The configuration that the contract starts with.
pub fn instantiate(msg: InstantiateMsg, admin: Option<String>) -> (r: (Config, Cw721InstantiateMsg))
    ensures
        r.0.admin == admin,
        r.0.admin_pub_key == msg.admin_pub_key,
        r.0.transition_admin_pub_key is None,
        r.1.name == msg.name,
        r.1.symbol == msg.symbol,
        r.1.minter == msg.minter,
{
    let config = Config {
        admin,
        admin_pub_key: msg.admin_pub_key,
        transition_admin_pub_key: None,
    };
    let base = Cw721InstantiateMsg { name: msg.name, symbol: msg.symbol, minter: msg.minter };
    (config, base)
}

/// Where an execute message goes.
#[derive(Clone, Debug)]
pub enum ExecuteRoute {
    /// Handled as one of the contract's own extension messages.
    Extension(ExtensionMsg),
    /// Handed to the underlying NFT contract as it is.
    Cw721(ExecuteMsg),
    /// Handed to the underlying NFT contract's minting.
    Mint { token_id: String, owner: String, token_uri: Option<String>, extension: Option<Metadata> },
    /// Refused: the sender may not do this.
    NotOwner,
}

/// Routes an execute message from `sender`, where `admin` is the configured
/// admin. Extension messages are always handled. Every other message
/// reaches the NFT contract only from the admin; with no admin
/// configured, minting is the only other message that is let through.
pub fn execute(admin: &Option<String>, sender: &String, msg: ExecuteMsg) -> (r: ExecuteRoute)
    ensures
        match msg {
            ExecuteMsg::Extension { msg: ext } => r == ExecuteRoute::Extension(ext),
            ExecuteMsg::Mint { token_id, owner, token_uri, extension } => if is_admin(
                *admin,
                *sender,
            ) {
                r == ExecuteRoute::Cw721(msg)
            } else if admin is None {
                r == ExecuteRoute::Mint { token_id, owner, token_uri, extension }
            } else {
                r == ExecuteRoute::NotOwner
            },
            _ => if is_admin(*admin, *sender) {
                r == ExecuteRoute::Cw721(msg)
            } else {
                r == ExecuteRoute::NotOwner
            },
        },
        r is Cw721 ==> is_admin(*admin, *sender),
        r is Mint ==> admin is None,
{
    let from_admin = match admin {
        Some(a) => *a == *sender,
        None => false,
    };
    match msg {
        ExecuteMsg::Extension { msg: ext } => ExecuteRoute::Extension(ext),
        other => {
            if from_admin {
                ExecuteRoute::Cw721(other)
            } else if admin.is_none() {
                match other {
                    ExecuteMsg::Mint { token_id, owner, token_uri, extension } => ExecuteRoute::Mint {
                        token_id,
                        owner,
                        token_uri,
                        extension,
                    },
                    _ => ExecuteRoute::NotOwner,
                }
            } else {
                ExecuteRoute::NotOwner
            }
        },
    }
}

/// What an extension message asks for. Each kind carries the JSON text of
/// its own message, which the host parses.
#[derive(Clone, Debug)]
pub enum ExtensionAction {
    AddPoints { value: String, token_id: String, signature: String, signed_by: String },
    ChangeAdmin { value: String },
    FinalizeChangeAdmin { value: String },
}

/// Dispatches an extension message on its type. A grant of points must
/// name its token, signature and signer.
pub fn execute_extension_msg(msg: ExtensionMsg) -> (r: ExtensionAction)
    requires
        msg.has_grant_fields(),
    ensures
        match msg.message_type {
            ExtensionMessageType::AddPoints => r == ExtensionAction::AddPoints {
                value: msg.value,
                token_id: msg.token_id->0,
                signature: msg.signature->0,
                signed_by: msg.signed_by->0,
            },
            ExtensionMessageType::ChangeAdmin => r == ExtensionAction::ChangeAdmin {
                value: msg.value,
            },
            ExtensionMessageType::FinalizeChangeAdmin => r == ExtensionAction::FinalizeChangeAdmin {
                value: msg.value,
            },
        },
{
    match msg.message_type {
        ExtensionMessageType::AddPoints => match (msg.token_id, msg.signature, msg.signed_by) {
            (Some(token_id), Some(signature), Some(signed_by)) => ExtensionAction::AddPoints {
                value: msg.value,
                token_id,
                signature,
                signed_by,
            },
            _ => {
                assert(false);
                ExtensionAction::ChangeAdmin { value: msg.value }
            },
        },
        ExtensionMessageType::ChangeAdmin => ExtensionAction::ChangeAdmin { value: msg.value },
        ExtensionMessageType::FinalizeChangeAdmin => ExtensionAction::FinalizeChangeAdmin {
            value: msg.value,
        },
    }
}

/// The text whose UTF-8 bytes the admin signs to grant points: a prefix
/// for the kind of points (`setup` or `vote`), then the sender, the
/// contract's address, the token and the decimal number of points.
pub open spec fn points_message(
    points_type: PointsType,
    sender: Seq<char>,
    contract_address: Seq<char>,
    token_id: Seq<char>,
    points: u128,
) -> Seq<char> {
    let prefix = match points_type {
        PointsType::PollCreated => "setup"@,
        PointsType::PollVoted => "vote"@,
    };
    prefix + sender + contract_address + token_id + decimal(points as nat)
}

/// The key that a grant signed by `signed_by` is checked against: the
/// admin's key where it is that one, else the key of the admin being
/// installed where it is that one; `None` where it is neither.
pub open spec fn signer_key(config: Config, signed_by: Seq<char>) -> Option<String> {
    if config.admin_pub_key is Some && config.admin_pub_key->0@ == signed_by {
        config.admin_pub_key
    } else if config.transition_admin_pub_key is Some && config.transition_admin_pub_key->0@
        == signed_by {
        config.transition_admin_pub_key
    } else {
        None
    }
}

/// The inputs on which granting points cannot go on: a counter would
/// overflow, the signature is not base64, no admin key is configured, the
/// signer is not the admin and no key is being installed, or the key
/// that signed is not base64.
pub open spec fn add_points_aborts(
    config: Config,
    current: PollyaAttributes,
    msg: AddPointsMsg,
    signature: Seq<char>,
    signed_by: Seq<char>,
) -> bool {
    ||| !current.can_add(msg)
    ||| decoded_text(signature) is None
    ||| config.admin_pub_key is None
    ||| (config.admin_pub_key is Some && config.admin_pub_key->0@ != signed_by
        && config.transition_admin_pub_key is None)
    ||| (signer_key(config, signed_by) matches Some(k) && decoded_text(k@) is None)
}

/// A grant of points that awaits the check of its signature: the digest
/// that was signed, the signature, the signer's public key, and the points
/// that are stored once the check is passed.
#[derive(Clone, Debug)]
pub struct SignatureCheck {
    pub hash: Vec<u8>,
    pub signature: Vec<u8>,
    pub public_key: Vec<u8>,
    pub updated: PollyaAttributes,
}

impl SignatureCheck {
    /// This is the check of the grant of `msg` to `token_id`: the digest of
    /// the signed text, the decoded signature, the decoded key of the
    /// signer, and the points with `msg` added.
    pub open spec fn prepares(
        self,
        sender: Seq<char>,
        contract_address: Seq<char>,
        config: Config,
        token_id: Seq<char>,
        current: PollyaAttributes,
        msg: AddPointsMsg,
        signature: Seq<char>,
        signed_by: Seq<char>,
    ) -> bool {
        &&& self.hash@ == sha256_digest(
            encode_utf8(points_message(msg.points_type, sender, contract_address, token_id, msg.points)),
        )
        &&& self.signature@ == decoded_text(signature).unwrap()
        &&& self.public_key@ == decoded_text(signer_key(config, signed_by).unwrap()@).unwrap()
        &&& self.updated == current.added(msg)
    }
}

/// Prepares a grant of points to `token_id`, on behalf of `sender`, to the
/// contract at `contract_address`; `current` holds the token's points so
/// far. The grant is refused when `signed_by` is neither the admin's key
/// nor the key of the admin being installed.
pub fn add_points(
    sender: &String,
    contract_address: &String,
    config: &Config,
    token_id: &String,
    current: &PollyaAttributes,
    msg: &AddPointsMsg,
    signature: &String,
    signed_by: &String,
) -> (r: Result<SignatureCheck, ExtensionError>)
    requires
        !add_points_aborts(*config, *current, *msg, signature@, signed_by@),
    ensures
        r is Ok <==> signer_key(*config, signed_by@) is Some,
        r matches Ok(check) ==> check.prepares(
            sender@,
            contract_address@,
            *config,
            token_id@,
            *current,
            *msg,
            signature@,
            signed_by@,
        ),
        r matches Err(e) ==> e.has_text("Unexpected signer public key"@),
        config.admin_pub_key is Some && config.admin_pub_key->0@ == signed_by@ ==> (r matches Ok(check)
            && check.public_key@ == decoded_text(config.admin_pub_key->0@).unwrap()),
        config.admin_pub_key is Some && config.admin_pub_key->0@ != signed_by@
            && config.transition_admin_pub_key is Some && config.transition_admin_pub_key->0@ == signed_by@ ==> (r matches Ok(
            check,
        ) && check.public_key@ == decoded_text(config.transition_admin_pub_key->0@).unwrap()),
        config.admin_pub_key is Some && config.admin_pub_key->0@ != signed_by@
            && config.transition_admin_pub_key is Some && config.transition_admin_pub_key->0@ != signed_by@ ==> r is Err,
{
    let updated = current.with_points(msg);
    let mut message = match msg.points_type {
        PointsType::PollCreated => "setup".to_owned(),
        PointsType::PollVoted => "vote".to_owned(),
    };
    message.append(sender.as_str());
    message.append(contract_address.as_str());
    message.append(token_id.as_str());
    let points_text = u128_to_decimal(msg.points);
    message.append(points_text.as_str());
    let hash = sha256(message.as_str().as_bytes());
    let sig = from_base64(signature);
    let admin_key = match &config.admin_pub_key {
        Some(k) => k,
        None => {
            assert(false);
            signed_by
        },
    };
    let key = if *admin_key == *signed_by {
        admin_key
    } else {
        match &config.transition_admin_pub_key {
            Some(t) => {
                if *t == *signed_by {
                    t
                } else {
                    return Err(
                        ExtensionError::GenericErr {
                            msg: "Unexpected signer public key".to_owned(),
                        },
                    );
                }
            },
            None => {
                assert(false);
                signed_by
            },
        }
    };
    let public_key = from_base64(key);
    Ok(SignatureCheck { hash, signature: sig, public_key, updated })
}


/// Prepares a grant of points as `add_points` does, where the grant can
/// go on; `None` on the inputs that `add_points_aborts` names.
pub fn try_add_points(
    sender: &String,
    contract_address: &String,
    config: &Config,
    token_id: &String,
    current: &PollyaAttributes,
    msg: &AddPointsMsg,
    signature: &String,
    signed_by: &String,
) -> (r: Option<Result<SignatureCheck, ExtensionError>>)
    ensures
        r is None <==> add_points_aborts(*config, *current, *msg, signature@, signed_by@),
        r matches Some(res) ==> {
            &&& res is Ok <==> signer_key(*config, signed_by@) is Some
            &&& res matches Ok(check) ==> check.prepares(
                sender@,
                contract_address@,
                *config,
                token_id@,
                *current,
                *msg,
                signature@,
                signed_by@,
            )
            &&& res matches Err(e) ==> e.has_text("Unexpected signer public key"@)
        },
        r is None <==> {
            ||| current.total_points + msg.points > u128::MAX
            ||| (msg.points_type == PointsType::PollCreated && current.poll_creation_points
                + msg.points > u128::MAX)
            ||| (msg.points_type == PointsType::PollVoted && current.poll_vote_points + msg.points
                > u128::MAX)
            ||| decoded_text(signature@) is None
            ||| config.admin_pub_key is None
            ||| (config.admin_pub_key is Some && config.admin_pub_key->0@ == signed_by@ && decoded_text(config.admin_pub_key->0@) is None)
            ||| (config.admin_pub_key is Some && config.admin_pub_key->0@ != signed_by@
                && config.transition_admin_pub_key is None)
            ||| (config.admin_pub_key is Some && config.admin_pub_key->0@ != signed_by@
                && config.transition_admin_pub_key is Some && config.transition_admin_pub_key->0@ == signed_by@
                && decoded_text(config.transition_admin_pub_key->0@) is None)
        },
        r matches Some(res) ==> {
            &&& (config.admin_pub_key is Some && config.admin_pub_key->0@ == signed_by@ ==> (res matches Ok(
                check,
            ) && check.public_key@ == decoded_text(config.admin_pub_key->0@).unwrap()))
            &&& (config.admin_pub_key is Some && config.admin_pub_key->0@ != signed_by@
                && config.transition_admin_pub_key is Some && config.transition_admin_pub_key->0@ == signed_by@ ==> (
            res matches Ok(check) && check.public_key@ == decoded_text(config.transition_admin_pub_key->0@).unwrap()))
            &&& (config.admin_pub_key is Some && config.admin_pub_key->0@ != signed_by@
                && config.transition_admin_pub_key is Some && config.transition_admin_pub_key->0@ != signed_by@
                ==> res is Err)
        },
{
    if !current.can_add_points(msg) || !is_base64(signature) {
        return None;
    }
    let admin_key = match &config.admin_pub_key {
        Some(k) => k,
        None => {
            return None;
        },
    };
    let key = if *admin_key == *signed_by {
        Some(admin_key)
    } else {
        match &config.transition_admin_pub_key {
            Some(t) => if *t == *signed_by {
                Some(t)
            } else {
                None
            },
            None => {
                return None;
            },
        }
    };
    if let Some(k) = key {
        if !is_base64(k) {
            return None;
        }
    }
    Some(
        add_points(sender, contract_address, config, token_id, current, msg, signature, signed_by),
    )
}

/// What is stored after the signature of a grant was checked: the host's
/// check either returned (`Ok`, whatever its verdict) and the updated
/// points are stored, or it failed with the given error text, and the
/// grant fails with that text followed by the quoted hexadecimal digest
/// and public key.
pub fn finish_add_points(check: &SignatureCheck, verification: Result<bool, String>) -> (r: Result<
    PollyaAttributes,
    ExtensionError,
>)
    ensures
        verification is Ok ==> r == Ok::<PollyaAttributes, ExtensionError>(check.updated),
        verification matches Err(text) ==> r matches Err(e) && e.has_text(
            text@ + " \""@ + hex_lower(check.hash@) + "\", \""@ + hex_lower(check.public_key@)
                + "\""@,
        ),
{
    match verification {
        Ok(_) => Ok(check.updated),
        Err(text) => {
            let mut msg = text;
            msg.append(" \"");
            let hash_hex = hex_encode(check.hash.as_slice());
            msg.append(hash_hex.as_str());
            msg.append("\", \"");
            let key_hex = hex_encode(check.public_key.as_slice());
            msg.append(key_hex.as_str());
            msg.append("\"");
            Err(ExtensionError::GenericErr { msg })
        },
    }
}


/// The signer's key is looked up in order: the admin's key is accepted
/// whenever it is the signer's, whatever key is being installed; only
/// otherwise is the key being installed accepted; any other signer is
/// unknown.
pub proof fn lemma_signer_key_order(config: Config, signed_by: Seq<char>)
    ensures
        config.admin_pub_key is Some && config.admin_pub_key->0@ == signed_by ==> signer_key(config, signed_by)
            == config.admin_pub_key,
        !(config.admin_pub_key is Some && config.admin_pub_key->0@ == signed_by)
            && config.transition_admin_pub_key is Some && config.transition_admin_pub_key->0@ == signed_by ==> signer_key(
            config,
            signed_by,
        ) == config.transition_admin_pub_key,
        !(config.admin_pub_key is Some && config.admin_pub_key->0@ == signed_by) && !(
        config.transition_admin_pub_key is Some && config.transition_admin_pub_key->0@ == signed_by) ==> signer_key(
            config,
            signed_by,
        ) is None,
{
}

/// A grant aborts exactly when a counter would overflow, the signature is
/// not base64, no admin key is configured, the signer is not the admin and
/// no key is being installed, or the accepted signer's key is not base64.
/// A grant signed by the admin's key or by the key being installed, with
/// base64 signature and keys and no overflow, goes on.
pub proof fn lemma_grant_aborts(
    config: Config,
    current: PollyaAttributes,
    msg: AddPointsMsg,
    signature: Seq<char>,
    signed_by: Seq<char>,
)
    ensures
        add_points_aborts(config, current, msg, signature, signed_by) <==> {
            ||| current.total_points + msg.points > u128::MAX
            ||| (msg.points_type == PointsType::PollCreated && current.poll_creation_points
                + msg.points > u128::MAX)
            ||| (msg.points_type == PointsType::PollVoted && current.poll_vote_points + msg.points
                > u128::MAX)
            ||| decoded_text(signature) is None
            ||| config.admin_pub_key is None
            ||| (config.admin_pub_key is Some && config.admin_pub_key->0@ == signed_by && decoded_text(config.admin_pub_key->0@) is None)
            ||| (config.admin_pub_key is Some && config.admin_pub_key->0@ != signed_by
                && config.transition_admin_pub_key is None)
            ||| (config.admin_pub_key is Some && config.admin_pub_key->0@ != signed_by
                && config.transition_admin_pub_key is Some && config.transition_admin_pub_key->0@ == signed_by
                && decoded_text(config.transition_admin_pub_key->0@) is None)
        },
{
}

/// A change of admin proposed by the current owner of the contract: the
/// proposed admin's key is recorded as the key being installed, and the
/// ownership change in `msg` is to be applied.
pub fn change_admin(config: Config, owner: &Option<String>, sender: &String, msg: ChangeAdminMsg) -> (r: (
    Config,
    OwnershipAction,
))
    requires
        owner matches Some(o) && o@ == sender@,
    ensures
        r.0 == config.with_transition_key(msg.new_admin_public_key),
        r.0.admin == config.admin,
        r.0.admin_pub_key == config.admin_pub_key,
        r.0.transition_admin_pub_key == Some(msg.new_admin_public_key),
        r.1 == msg.action,
{
    let mut config = config;
    config.transition_admin_pub_key = Some(msg.new_admin_public_key);
    (config, msg.action)
}

/// The pending owner takes over: it becomes the admin, the key being
/// installed becomes the admin's key, and the acceptance of ownership is to
/// be applied.
pub fn finalize_change_admin(
    config: Config,
    pending_owner: &Option<String>,
    sender: &String,
    msg: FinalizeChangeAdminMsg,
) -> (r: (Config, OwnershipAction))
    requires
        pending_owner matches Some(p) && p@ == sender@,
        msg.action is AcceptOwnership,
    ensures
        r.0 == config.handed_over_to(*sender),
        r.1 == msg.action,
{
    let mut config = config;
    config.admin_pub_key = config.transition_admin_pub_key;
    config.admin = Some(sender.clone());
    config.transition_admin_pub_key = None;
    (config, msg.action)
}

/// Proposing a new admin key touches neither the admin nor the admin's
/// key: only the key being installed is replaced, whatever was proposed
/// before.
pub proof fn lemma_proposal_keeps_admin(config: Config, key: String)
    ensures
        config.with_transition_key(key).admin == config.admin,
        config.with_transition_key(key).admin_pub_key == config.admin_pub_key,
        config.with_transition_key(key).transition_admin_pub_key == Some(key),
{
}

/// A change of admin proposed with `key` and then taken over by
/// `new_admin` leaves `new_admin` as the admin, `key` as the admin's key,
/// and no key being installed.
pub proof fn lemma_admin_handover(config: Config, key: String, new_admin: String)
    ensures
        config.with_transition_key(key).handed_over_to(new_admin).admin == Some(new_admin),
        config.with_transition_key(key).handed_over_to(new_admin).admin_pub_key == Some(key),
        config.with_transition_key(key).handed_over_to(new_admin).transition_admin_pub_key is None,
{
}

/// The result of an extension message once the ownership change was
/// applied: `true` where it was applied; where it failed, an error whose
/// text is the failure's debug text wrapped in `Some(..)`.
pub fn ownership_update_outcome(result: Result<(), String>) -> (r: Result<bool, ExtensionError>)
    ensures
        result is Ok ==> r == Ok::<bool, ExtensionError>(true),
        result matches Err(text) ==> r matches Err(e) && e.has_text("Some("@ + text@ + ")"@),
{
    match result {
        Ok(()) => Ok(true),
        Err(text) => {
            let mut msg = "Some(".to_owned();
            msg.append(text.as_str());
            msg.append(")");
            Err(ExtensionError::GenericErr { msg })
        },
    }
}

/// Where a query goes.
#[derive(Clone, Debug)]
pub enum QueryRoute {
    /// Answered with the configured admin.
    Admin,
    /// Answered with the token's information and its points.
    PollyaNftInfo { token_id: String },
    /// Answered by the underlying NFT contract.
    Cw721(Cw721QueryMsg),
}

/// The contract answers every query but the approval and operator ones:
/// its own admin and points queries, and every standard query.
pub proof fn lemma_answered_queries(q: QueryMsg)
    ensures
        q.is_answered() <==> !(q is Approval || q is Approvals || q is AllOperators),
        q is PollyaNftInfo ==> q.is_answered(),
        q is Admin ==> q.is_answered(),
{
}

impl QueryMsg {
    /// The queries that the contract answers; the others abort.
    pub open spec fn is_answered(self) -> bool {
        self is Admin || self is PollyaNftInfo || self.has_cw721_counterpart()
    }

    pub fn is_answerable(&self) -> (b: bool)
        ensures
            b == self.is_answered(),
            b <==> !(self is Approval || self is Approvals || self is AllOperators),
    {
        match self {
            QueryMsg::Admin | QueryMsg::PollyaNftInfo { .. } => true,
            _ => self.is_cw721_query(),
        }
    }
}

/// Routes a query: the admin and the points of a token are answered here,
/// the others by the underlying NFT contract, as the same query.
pub fn query(msg: QueryMsg) -> (r: QueryRoute)
    requires
        msg.is_answered(),
    ensures
        msg is Admin ==> r is Admin,
        msg is PollyaNftInfo ==> (r matches QueryRoute::PollyaNftInfo { token_id } && token_id
            == msg->PollyaNftInfo_token_id),
        msg.has_cw721_counterpart() ==> (r matches QueryRoute::Cw721(q) && Some(q)
            == msg.cw721_counterpart()),
        r matches QueryRoute::Cw721(q) ==> q.as_query() == msg,
{
    match msg {
        QueryMsg::Admin => QueryRoute::Admin,
        QueryMsg::PollyaNftInfo { token_id } => QueryRoute::PollyaNftInfo { token_id },
        other => QueryRoute::Cw721(other.to_cw721_query()),
    }
}

/// The answer to the admin query: the configured admin.
pub fn admin_response(config: &Config) -> (r: AdminResponse)
    ensures
        r.admin == config.admin,
{
    AdminResponse { admin: config.admin.clone() }
}

/// The answer to a token's points query: the token's information and its
/// stored points, or no points where none are stored.
pub fn pollya_nft_info(nft: NftInfoResponse, stored: Option<PollyaAttributes>) -> (r:
    PollyaNFTInfoResponse)
    ensures
        r.nft == nft,
        stored matches Some(a) ==> r.pollya_attributes == a,
        stored is None ==> r.pollya_attributes.total_points == 0
            && r.pollya_attributes.poll_creation_points == 0
            && r.pollya_attributes.poll_vote_points == 0,
{
    let pollya_attributes = match stored {
        Some(a) => a,
        None => PollyaAttributes::default(),
    };
    PollyaNFTInfoResponse { nft, pollya_attributes }
}

} // verus!
