use cw721_non_transferable::contract::{
    add_points, admin_response, change_admin, execute, execute_extension_msg, finalize_change_admin,
    finish_add_points, instantiate, ownership_update_outcome, pollya_nft_info, query,
    try_add_points, ExecuteRoute, ExtensionAction, ExtensionError, QueryRoute, SignatureCheck,
};
use cw721_non_transferable::helpers::to_base64;
use cw721_non_transferable::msg::{
    AddPointsMsg, ChangeAdminMsg, Cw721QueryMsg, ExecuteMsg, ExtensionMessageType, ExtensionMsg,
    FinalizeChangeAdminMsg, InstantiateMsg, Metadata, NFTError, NftInfoResponse, OwnershipAction, PointsType,
    QueryMsg,
};
use cw721_non_transferable::state::{Config, PollyaAttributes};
use sha2::{Digest, Sha256};

fn s(text: &str) -> String {
    text.to_string()
}

fn sha(text: &str) -> Vec<u8> {
    let mut h = Sha256::default();
    h.update(text.as_bytes());
    h.finalize().to_vec()
}

fn ext_msg() -> ExtensionMsg {
    ExtensionMsg {
        message_type: ExtensionMessageType::AddPoints,
        token_id: Some(s("tkn-1")),
        value: s("{\"points\":\"5\",\"points_type\":\"poll_voted\"}"),
        signature: Some(s("AQID")),
        signed_by: Some(s("key")),
    }
}

fn burn() -> ExecuteMsg {
    ExecuteMsg::Burn { token_id: s("tkn-1") }
}

fn mint() -> ExecuteMsg {
    ExecuteMsg::Mint { token_id: s("tkn-1"), owner: s("alice"), token_uri: None, extension: None }
}

#[test]
fn instantiate_starts_without_transition_key() {
    let msg = InstantiateMsg {
        admin: Some(s("adm")),
        admin_pub_key: Some(s("pk")),
        name: s("PollyaNFT"),
        symbol: s("PN"),
        minter: s("minter"),
    };
    let (config, base) = instantiate(msg, Some(s("adm")));
    assert_eq!(config.admin, Some(s("adm")));
    assert_eq!(config.admin_pub_key, Some(s("pk")));
    assert_eq!(config.transition_admin_pub_key, None);
    assert_eq!(base.name, "PollyaNFT");
    assert_eq!(base.symbol, "PN");
    assert_eq!(base.minter, "minter");
}

#[test]
fn admin_messages_reach_the_nft_contract() {
    let r = execute(&Some(s("adm")), &s("adm"), burn());
    assert!(matches!(r, ExecuteRoute::Cw721(ExecuteMsg::Burn { .. })));
    let r = execute(
        &Some(s("adm")),
        &s("adm"),
        ExecuteMsg::TransferNft { recipient: s("bob"), token_id: s("tkn-1") },
    );
    assert!(matches!(r, ExecuteRoute::Cw721(ExecuteMsg::TransferNft { .. })));
    let r = execute(&Some(s("adm")), &s("adm"), mint());
    assert!(matches!(r, ExecuteRoute::Cw721(ExecuteMsg::Mint { .. })));
}

#[test]
fn others_cannot_transfer() {
    let r = execute(
        &Some(s("adm")),
        &s("mallory"),
        ExecuteMsg::TransferNft { recipient: s("bob"), token_id: s("tkn-1") },
    );
    assert!(matches!(r, ExecuteRoute::NotOwner));
    let r = execute(&Some(s("adm")), &s("mallory"), mint());
    assert!(matches!(r, ExecuteRoute::NotOwner));
}

#[test]
fn without_admin_only_minting_goes_through() {
    match execute(&None, &s("anyone"), mint()) {
        ExecuteRoute::Mint { token_id, owner, token_uri, extension } => {
            assert_eq!(token_id, "tkn-1");
            assert_eq!(owner, "alice");
            assert!(token_uri.is_none());
            assert!(extension.is_none());
        },
        _ => panic!("expected a mint"),
    }
    assert!(matches!(execute(&None, &s("anyone"), burn()), ExecuteRoute::NotOwner));
}

#[test]
fn extension_messages_are_always_handled() {
    for admin in [None, Some(s("adm"))] {
        let r = execute(&admin, &s("anyone"), ExecuteMsg::Extension { msg: ext_msg() });
        match r {
            ExecuteRoute::Extension(m) => assert_eq!(m.value, ext_msg().value),
            _ => panic!("expected the extension"),
        }
    }
}

#[test]
fn grants_must_name_token_signature_and_signer() {
    assert!(ext_msg().carries_grant_fields());
    let mut m = ext_msg();
    m.token_id = None;
    assert!(!m.carries_grant_fields());
    let mut m = ext_msg();
    m.signature = None;
    assert!(!m.carries_grant_fields());
    let mut m = ext_msg();
    m.signed_by = None;
    assert!(!m.carries_grant_fields());
    m.message_type = ExtensionMessageType::ChangeAdmin;
    assert!(m.carries_grant_fields());
}

#[test]
fn readme_mint_with_did_and_wallet() {
    let a = s("poll1a4mp7kedzuquntnqtfd2yjulk9t53c66mqgyx6");
    let extension = Metadata { data: None, did: Some(s("test-did")), wallet: Some(s("wall")) };
    let msg = ExecuteMsg::Mint {
        token_id: s("tkn-1"),
        owner: a.clone(),
        token_uri: None,
        extension: Some(extension),
    };
    match execute(&Some(a.clone()), &a, msg) {
        ExecuteRoute::Cw721(ExecuteMsg::Mint { token_id, owner, extension, .. }) => {
            assert_eq!(token_id, "tkn-1");
            assert_eq!(owner, a);
            let e = extension.unwrap();
            assert_eq!(e.did, Some(s("test-did")));
            assert_eq!(e.wallet, Some(s("wall")));
        },
        _ => panic!("expected the mint to reach the NFT contract"),
    }
}

#[test]
fn extension_dispatch() {
    match execute_extension_msg(ext_msg()) {
        ExtensionAction::AddPoints { value, token_id, signature, signed_by } => {
            assert_eq!(value, ext_msg().value);
            assert_eq!(token_id, "tkn-1");
            assert_eq!(signature, "AQID");
            assert_eq!(signed_by, "key");
        },
        _ => panic!("expected add points"),
    }
    let mut m = ext_msg();
    m.message_type = ExtensionMessageType::ChangeAdmin;
    assert!(matches!(execute_extension_msg(m), ExtensionAction::ChangeAdmin { .. }));
    let mut m = ext_msg();
    m.message_type = ExtensionMessageType::FinalizeChangeAdmin;
    match execute_extension_msg(m) {
        ExtensionAction::FinalizeChangeAdmin { value } => assert_eq!(value, ext_msg().value),
        _ => panic!("expected finalize"),
    }
}

fn config_with_keys(admin_key: &str, transition: Option<&str>) -> Config {
    Config {
        admin: Some(s("adm")),
        admin_pub_key: Some(s(admin_key)),
        transition_admin_pub_key: transition.map(s),
    }
}

#[test]
fn add_points_prepares_signed_grant() {
    let admin_key = to_base64(vec![2, 7, 9]);
    let config = config_with_keys(&admin_key, None);
    let current = PollyaAttributes { total_points: 10, poll_creation_points: 4, poll_vote_points: 6 };
    let msg = AddPointsMsg { points: 1234, points_type: PointsType::PollCreated };
    let check = add_points(
        &s("sender"),
        &s("contract"),
        &config,
        &s("tkn-1"),
        &current,
        &msg,
        &s("AQID"),
        &admin_key,
    )
    .unwrap();
    assert_eq!(check.hash, sha("setupsendercontracttkn-11234"));
    assert_eq!(check.signature, vec![1, 2, 3]);
    assert_eq!(check.public_key, vec![2, 7, 9]);
    assert_eq!(
        check.updated,
        PollyaAttributes { total_points: 1244, poll_creation_points: 1238, poll_vote_points: 6 }
    );
}

#[test]
fn add_points_vote_uses_transition_key() {
    let config = config_with_keys("AAAA", Some("BwgJ"));
    let current = PollyaAttributes::default();
    let msg = AddPointsMsg { points: 0, points_type: PointsType::PollVoted };
    let check = add_points(
        &s("u"),
        &s("c"),
        &config,
        &s("t"),
        &current,
        &msg,
        &s("AQID"),
        &s("BwgJ"),
    )
    .unwrap();
    assert_eq!(check.hash, sha("voteuct0"));
    assert_eq!(check.public_key, vec![7, 8, 9]);
    assert_eq!(check.updated, PollyaAttributes::default());
}

#[test]
fn add_points_refuses_unknown_signer() {
    let config = config_with_keys("AAAA", Some("BwgJ"));
    let msg = AddPointsMsg { points: 3, points_type: PointsType::PollVoted };
    let r = add_points(
        &s("u"),
        &s("c"),
        &config,
        &s("t"),
        &PollyaAttributes::default(),
        &msg,
        &s("AQID"),
        &s("other"),
    );
    match r {
        Err(ExtensionError::GenericErr { msg }) => assert_eq!(msg, "Unexpected signer public key"),
        Ok(_) => panic!("expected an error"),
    }
}

#[test]
fn try_add_points_aborts_where_the_grant_cannot_go_on() {
    let config = config_with_keys("AAAA", None);
    let msg = AddPointsMsg { points: 3, points_type: PointsType::PollVoted };
    let cur = PollyaAttributes::default();
    let call = |config: &Config, cur: &PollyaAttributes, sig: &str, by: &str| {
        try_add_points(&s("u"), &s("c"), config, &s("t"), cur, &msg, &s(sig), &s(by))
    };
    // signature is not base64
    assert!(call(&config, &cur, "%%", "AAAA").is_none());
    // not the admin's key and no key being installed
    assert!(call(&config, &cur, "AQID", "BwgJ").is_none());
    // no admin key at all
    let no_key = Config { admin: None, admin_pub_key: None, transition_admin_pub_key: None };
    assert!(call(&no_key, &cur, "AQID", "AAAA").is_none());
    // the signer's key is not base64
    let bad_key = config_with_keys("A", None);
    assert!(call(&bad_key, &cur, "AQID", "A").is_none());
    // overflow
    let full = PollyaAttributes { total_points: u128::MAX, poll_creation_points: 0, poll_vote_points: u128::MAX };
    assert!(call(&config, &full, "AQID", "AAAA").is_none());
    // and a grant that goes on
    let ok = call(&config, &cur, "AQID", "AAAA");
    let check = ok.unwrap().unwrap();
    assert_eq!(check.updated.poll_vote_points, 3);
    assert_eq!(check.updated.total_points, 3);
    // an unknown signer with a key being installed is an error, not an abort
    let config2 = config_with_keys("AAAA", Some("BwgJ"));
    let r = call(&config2, &cur, "AQID", "zz").unwrap();
    assert!(r.is_err());
}

fn a_check() -> SignatureCheck {
    SignatureCheck {
        hash: vec![0xab, 0x01],
        signature: vec![1],
        public_key: vec![0x0f, 0xf0],
        updated: PollyaAttributes { total_points: 2, poll_creation_points: 2, poll_vote_points: 0 },
    }
}

#[test]
fn finish_add_points_stores_when_the_check_returns() {
    assert_eq!(finish_add_points(&a_check(), Ok(true)).unwrap(), a_check().updated);
    assert_eq!(finish_add_points(&a_check(), Ok(false)).unwrap(), a_check().updated);
}

#[test]
fn finish_add_points_reports_failure() {
    match finish_add_points(&a_check(), Err(s("Invalid signature format"))) {
        Err(ExtensionError::GenericErr { msg }) => {
            assert_eq!(msg, "Invalid signature format \"ab01\", \"0ff0\"")
        },
        Ok(_) => panic!("expected an error"),
    }
}

#[test]
fn admin_handover() {
    let config = config_with_keys("old", None);
    let (changed, action) = change_admin(
        config,
        &Some(s("owner")),
        &s("owner"),
        ChangeAdminMsg {
            new_admin_public_key: s("new"),
            action: OwnershipAction::TransferOwnership { new_owner: s("bob"), expiry: None },
        },
    );
    assert_eq!(changed.admin, Some(s("adm")));
    assert_eq!(changed.admin_pub_key, Some(s("old")));
    assert_eq!(changed.transition_admin_pub_key, Some(s("new")));
    assert!(matches!(action, OwnershipAction::TransferOwnership { .. }));
    let (done, action) = finalize_change_admin(
        changed,
        &Some(s("bob")),
        &s("bob"),
        FinalizeChangeAdminMsg { action: OwnershipAction::AcceptOwnership },
    );
    assert_eq!(done.admin, Some(s("bob")));
    assert_eq!(done.admin_pub_key, Some(s("new")));
    assert_eq!(done.transition_admin_pub_key, None);
    assert!(matches!(action, OwnershipAction::AcceptOwnership));
}

#[test]
fn ownership_update_outcomes() {
    assert_eq!(ownership_update_outcome(Ok(())).unwrap(), true);
    match ownership_update_outcome(Err(s("Ownership(NotOwner)"))) {
        Err(ExtensionError::GenericErr { msg }) => assert_eq!(msg, "Some(Ownership(NotOwner))"),
        Ok(_) => panic!("expected an error"),
    }
}

#[test]
fn query_routes() {
    assert!(matches!(query(QueryMsg::Admin), QueryRoute::Admin));
    match query(QueryMsg::PollyaNftInfo { token_id: s("t") }) {
        QueryRoute::PollyaNftInfo { token_id } => assert_eq!(token_id, "t"),
        _ => panic!("expected the points query"),
    }
    match query(QueryMsg::Tokens { owner: s("o"), start_after: Some(s("a")), limit: Some(3) }) {
        QueryRoute::Cw721(Cw721QueryMsg::Tokens { owner, start_after, limit }) => {
            assert_eq!(owner, "o");
            assert_eq!(start_after, Some(s("a")));
            assert_eq!(limit, Some(3));
        },
        _ => panic!("expected the tokens query"),
    }
    assert!(matches!(query(QueryMsg::Minter), QueryRoute::Cw721(Cw721QueryMsg::Minter)));
}

#[test]
fn approval_queries_are_not_answered() {
    let q = QueryMsg::Approval { token_id: s("t"), spender: s("x"), include_expired: None };
    assert!(!q.is_answerable());
    assert!(!q.is_cw721_query());
    let q = QueryMsg::AllOperators { owner: s("o"), include_expired: None, start_after: None, limit: None };
    assert!(!q.is_answerable());
    let q = QueryMsg::Approvals { token_id: s("t"), include_expired: Some(true) };
    assert!(!q.is_answerable());
    assert!(QueryMsg::NumTokens.is_answerable());
    assert!(QueryMsg::Admin.is_answerable());
    assert!(!QueryMsg::Admin.is_cw721_query());
}

#[test]
fn query_conversion_keeps_fields() {
    match (QueryMsg::OwnerOf { token_id: s("t"), include_expired: Some(false) }).to_cw721_query() {
        Cw721QueryMsg::OwnerOf { token_id, include_expired } => {
            assert_eq!(token_id, "t");
            assert_eq!(include_expired, Some(false));
        },
        _ => panic!("expected owner of"),
    }
}

#[test]
fn responses() {
    let config = config_with_keys("k", None);
    assert_eq!(admin_response(&config).admin, Some(s("adm")));
    let nft = NftInfoResponse { token_uri: Some(s("uri")), extension: None };
    let r = pollya_nft_info(nft.clone(), None);
    assert_eq!(r.pollya_attributes, PollyaAttributes::default());
    assert_eq!(r.nft.token_uri, Some(s("uri")));
    let a = PollyaAttributes { total_points: 3, poll_creation_points: 1, poll_vote_points: 2 };
    assert_eq!(pollya_nft_info(nft, Some(a)).pollya_attributes, a);
}

#[test]
fn nft_error_message() {
    assert_eq!(NFTError::new(s("boom")).message(), "boom");
}
