use uplay_auth::denuvo::{
    game_token_from, ownership_list_token_from, DenuvoConnection, TokenCall, TokenDownstream,
    TokenRsp, RESULT_SUCCESS,
};
use uplay_auth::error::AuthError;
use uplay_auth::ownership::{
    collect_owned_add_ons, contains_id, find_product, owned_games_from, ownership_token_from,
    InitializeRsp, OwnedGame, OwnershipCall, OwnershipConnection, OwnershipDownstream,
    OwnershipRsp, OwnershipTokenRsp, OWNERSHIP_PROTO_VERSION,
};

fn game(product_id: u32, owned: Option<bool>, assoc: Vec<u32>) -> OwnedGame {
    OwnedGame { product_id, owned, product_associations: assoc }
}

#[test]
fn owned_add_ons_of_target() {
    let records = vec![
        game(1, Some(true), vec![10, 11]),
        game(10, Some(true), vec![]),
        game(11, Some(false), vec![]),
    ];
    let i = find_product(&records, 1).unwrap();
    assert_eq!(i, 0);
    assert_eq!(collect_owned_add_ons(&records, &records[i]), vec![10]);
}

#[test]
fn owned_add_ons_skip_unknown_ownership_and_unassociated() {
    let records = vec![
        game(3, None, vec![]),
        game(1, Some(true), vec![3, 4, 5]),
        game(4, Some(true), vec![]),
        game(5, Some(true), vec![]),
        game(6, Some(true), vec![]),
    ];
    let target = &records[find_product(&records, 1).unwrap()];
    assert_eq!(collect_owned_add_ons(&records, target), vec![4, 5]);
    assert_eq!(find_product(&records, 99), None);
    assert!(contains_id(&vec![1, 2], 2));
    assert!(!contains_id(&vec![], 2));
}

#[test]
fn ownership_requests_carry_identity_and_count() {
    let mut c = OwnershipConnection::new(4, "tkt".to_string(), "sid".to_string());
    let q = c.initialize_request();
    assert_eq!(q.request_id, 1);
    assert_eq!(q.ubi_ticket, "tkt");
    assert_eq!(q.ubi_session_id, "sid");
    match q.call {
        OwnershipCall::Initialize { get_associations, proto_version, use_staging } => {
            assert!(get_associations);
            assert_eq!(proto_version, OWNERSHIP_PROTO_VERSION);
            assert!(!use_staging);
        }
        _ => panic!("wrong call"),
    }
    let q = c.ownership_token_request(1234);
    assert_eq!(q.request_id, 2);
    assert!(matches!(q.call, OwnershipCall::OwnershipToken { product_id: 1234 }));
    assert_eq!(c.next_id, 3);
    assert_eq!(c.connection_id, 4);
}

#[test]
fn owned_games_reply() {
    let d = OwnershipDownstream {
        response: Some(OwnershipRsp {
            initialize_rsp: Some(InitializeRsp { owned_games: Some(vec![game(1, Some(true), vec![])]) }),
            ownership_token_rsp: None,
        }),
    };
    let g = owned_games_from(d).unwrap();
    assert_eq!(g.len(), 1);
    assert_eq!(g[0].product_id, 1);
    let d = OwnershipDownstream {
        response: Some(OwnershipRsp {
            initialize_rsp: Some(InitializeRsp { owned_games: None }),
            ownership_token_rsp: None,
        }),
    };
    assert_eq!(owned_games_from(d).unwrap().len(), 0);
    assert!(matches!(
        owned_games_from(OwnershipDownstream { response: None }),
        Err(AuthError::UnexpectedResponse)
    ));
}

#[test]
fn ownership_token_reply_defaults() {
    let d = |token: Option<String>, expiration: Option<u64>| OwnershipDownstream {
        response: Some(OwnershipRsp {
            initialize_rsp: None,
            ownership_token_rsp: Some(OwnershipTokenRsp { token, expiration }),
        }),
    };
    assert_eq!(
        ownership_token_from(d(Some("own".to_string()), Some(99))).unwrap(),
        ("own".to_string(), 99)
    );
    assert_eq!(ownership_token_from(d(None, None)).unwrap(), (String::new(), 0));
    let no_token = OwnershipDownstream {
        response: Some(OwnershipRsp { initialize_rsp: None, ownership_token_rsp: None }),
    };
    assert!(matches!(ownership_token_from(no_token), Err(AuthError::UnexpectedResponse)));
}

#[test]
fn token_requests_pass_tokens_through() {
    let mut c = DenuvoConnection::new(8);
    let q = c.game_token_request("own", "req+/=");
    assert_eq!(q.request_id, 1);
    match q.call {
        TokenCall::GameToken { ownership_token, request_token } => {
            assert_eq!(ownership_token, "own");
            assert_eq!(request_token, b"req+/=".to_vec());
        }
        _ => panic!("wrong call"),
    }
    let q = c.ownership_list_token_request(5, "gt", vec![10, 11]);
    assert_eq!(q.request_id, 2);
    match q.call {
        TokenCall::OwnershipListToken { product_id, game_token, addons_to_validate } => {
            assert_eq!(product_id, 5);
            assert_eq!(game_token, b"gt".to_vec());
            assert_eq!(addons_to_validate, vec![10, 11]);
        }
        _ => panic!("wrong call"),
    }
}

fn token_reply(result: i32, game: Option<Vec<u8>>, list: Option<Vec<u8>>) -> TokenDownstream {
    TokenDownstream {
        response: Some(TokenRsp { result, game_token: game, ownership_list_token: list }),
    }
}

#[test]
fn token_replies() {
    assert_eq!(
        game_token_from(token_reply(RESULT_SUCCESS, Some(b"access".to_vec()), None)).unwrap(),
        "access"
    );
    assert_eq!(
        ownership_list_token_from(token_reply(RESULT_SUCCESS, None, Some("é!".as_bytes().to_vec())))
            .unwrap(),
        "é!"
    );
    assert_eq!(
        game_token_from(token_reply(3, Some(b"x".to_vec()), None)),
        Err(AuthError::ServiceResult(3))
    );
    assert_eq!(
        ownership_list_token_from(token_reply(RESULT_SUCCESS, Some(b"x".to_vec()), None)),
        Err(AuthError::UnexpectedResponse)
    );
    assert_eq!(
        game_token_from(token_reply(RESULT_SUCCESS, Some(vec![0xff, 0xfe]), None)),
        Err(AuthError::InvalidText)
    );
    assert_eq!(game_token_from(TokenDownstream { response: None }), Err(AuthError::UnexpectedResponse));
}
