use flake::{
    accept_and_settle_request, accept_request, create_pair, reject_request, submit_request,
    AcceptAndSettleRequest, AcceptRequest, Address, Authority, CreatePair, CreatePairParams,
    CurveModel, Effect, Factory, FactoryError, Pair, RejectRequest, Request, RequestAccepted,
    RequestConfig, RequestStatus, RequestSubmitted, SubmitRequest,
};

fn id(b: u8) -> Address {
    Address::new([b; 32])
}

fn pair_with_catalog() -> Pair {
    let mut ctx = CreatePair {
        factory: Factory { authority: id(1), fee_recipient: id(2), protocol_fee: 0, pairs_count: 4 },
        pair: Pair::default(),
        pair_key: id(10),
        bump: 253,
        creator: id(11),
        attention_token_mint: id(12),
        creator_token_account: id(13),
        vault: id(14),
    };
    let params = CreatePairParams {
        base_price: 7,
        curve_model: CurveModel::BoundedQuadratic,
        requests: vec![
            RequestConfig { price: 24, description: "shoutout".to_string() },
            RequestConfig { price: 500, description: "banner".to_string() },
        ],
        ..CreatePairParams::default()
    };
    create_pair(&mut ctx, params).unwrap();
    ctx.pair
}

fn submission(pair: Pair) -> SubmitRequest {
    SubmitRequest {
        pair,
        pair_key: id(10),
        user: id(20),
        user_token_account: id(21),
        escrow_token_account: id(30),
        timestamp: 1_700_000_000,
    }
}

fn pair_with_request() -> Pair {
    let mut ctx = submission(pair_with_catalog());
    submit_request(&mut ctx, 0, "hello".to_string()).unwrap();
    ctx.pair
}

fn as_pair() -> Authority {
    Authority::Pair { creator: id(11), creation_number: 4, bump: 253 }
}

fn acceptance(pair: Pair, caller: Address) -> AcceptRequest {
    AcceptRequest { pair, creator: caller, escrow_token_account: id(30), timestamp: 1_700_000_100 }
}

fn rejection(pair: Pair, caller: Address) -> RejectRequest {
    RejectRequest {
        pair,
        creator: caller,
        escrow_token_account: id(30),
        user_token_account: id(21),
    }
}

fn settlement(pair: Pair, caller: Address, vault_balance: u64) -> AcceptAndSettleRequest {
    AcceptAndSettleRequest {
        pair,
        pair_key: id(10),
        creator: caller,
        escrow_token_account: id(30),
        vault_bump: 250,
        vault_balance,
    }
}

#[test]
fn submit_escrows_the_price_and_records_the_request() {
    let mut ctx = submission(pair_with_catalog());
    let done = submit_request(&mut ctx, 1, "buy my ad".to_string()).unwrap();
    assert_eq!(
        done.effects,
        vec![Effect::Transfer {
            amount: 500,
            from: id(21),
            to: id(30),
            authority: Authority::Holder { account: id(20) },
        }]
    );
    assert_eq!(
        done.event,
        RequestSubmitted {
            pair_key: id(10),
            user: id(20),
            request_index: 1,
            ad_text: "buy my ad".to_string(),
            timestamp: 1_700_000_000,
        }
    );
    assert_eq!(
        ctx.pair.pending_requests,
        vec![Request {
            user: id(20),
            request_index: 1,
            ad_text: "buy my ad".to_string(),
            timestamp: 1_700_000_000,
            status: RequestStatus::Pending,
        }]
    );
    assert!(ctx.pair.is_well_formed());
}

#[test]
fn submit_against_a_missing_offer_is_refused() {
    let mut ctx = submission(pair_with_catalog());
    let before = ctx.clone();
    assert_eq!(
        submit_request(&mut ctx, 2, "x".to_string()).unwrap_err(),
        FactoryError::InvalidRequestIndex
    );
    assert_eq!(
        submit_request(&mut ctx, 255, "x".to_string()).unwrap_err(),
        FactoryError::InvalidRequestIndex
    );
    assert_eq!(ctx, before);
}

#[test]
fn submit_with_a_text_of_281_bytes_is_refused() {
    let mut ctx = submission(pair_with_catalog());
    let before = ctx.clone();
    assert_eq!(
        submit_request(&mut ctx, 0, "t".repeat(281)).unwrap_err(),
        FactoryError::AdTextTooLong
    );
    assert_eq!(ctx, before);
    assert!(submit_request(&mut ctx, 0, "t".repeat(280)).is_ok());
}

#[test]
fn submit_checks_the_offer_before_the_text() {
    let mut ctx = submission(pair_with_catalog());
    assert_eq!(
        submit_request(&mut ctx, 9, "t".repeat(281)).unwrap_err(),
        FactoryError::InvalidRequestIndex
    );
}

#[test]
fn submit_beyond_capacity_is_refused() {
    let mut ctx = submission(pair_with_catalog());
    for i in 0..10 {
        assert!(submit_request(&mut ctx, 0, format!("request {}", i)).is_ok());
    }
    let before = ctx.clone();
    assert_eq!(
        submit_request(&mut ctx, 0, "one too many".to_string()).unwrap_err(),
        FactoryError::RequestCapacityExceeded
    );
    assert_eq!(ctx, before);
    assert_eq!(ctx.pair.pending_requests.len(), 10);
    assert_eq!(ctx.pair.pending_requests[9].ad_text, "request 9");
}

#[test]
fn accept_releases_the_escrow_to_the_creator() {
    let mut ctx = acceptance(pair_with_request(), id(11));
    let done = accept_request(&mut ctx, 0).unwrap();
    assert_eq!(
        done.effects,
        vec![Effect::Transfer { amount: 24, from: id(30), to: id(13), authority: as_pair() }]
    );
    assert_eq!(
        done.event,
        RequestAccepted {
            creator: id(11),
            request_index: 0,
            user: id(20),
            timestamp: 1_700_000_100,
        }
    );
    assert_eq!(ctx.pair.pending_requests[0].status, RequestStatus::Accepted);
    assert_eq!(ctx.pair.pending_requests[0].ad_text, "hello");
    assert!(ctx.pair.is_well_formed());
}

#[test]
fn accept_twice_fails_the_second_time() {
    let mut ctx = acceptance(pair_with_request(), id(11));
    assert!(accept_request(&mut ctx, 0).is_ok());
    let before = ctx.clone();
    assert_eq!(
        accept_request(&mut ctx, 0).unwrap_err(),
        FactoryError::RequestAlreadyProcessed
    );
    assert_eq!(ctx, before);
}

#[test]
fn reject_twice_fails_the_second_time() {
    let mut ctx = rejection(pair_with_request(), id(11));
    assert!(reject_request(&mut ctx, 0).is_ok());
    let before = ctx.clone();
    assert_eq!(reject_request(&mut ctx, 0), Err(FactoryError::RequestAlreadyProcessed));
    assert_eq!(ctx, before);
}

#[test]
fn a_decided_request_takes_no_other_decision() {
    let mut accepted = acceptance(pair_with_request(), id(11));
    accept_request(&mut accepted, 0).unwrap();
    let mut ctx = rejection(accepted.pair.clone(), id(11));
    assert_eq!(reject_request(&mut ctx, 0), Err(FactoryError::RequestAlreadyProcessed));
    let mut ctx = settlement(accepted.pair, id(11), u64::MAX);
    assert_eq!(
        accept_and_settle_request(&mut ctx, 0),
        Err(FactoryError::RequestAlreadyProcessed)
    );
}

#[test]
fn accept_by_a_stranger_is_refused() {
    let mut ctx = acceptance(pair_with_request(), id(20));
    let before = ctx.clone();
    assert_eq!(accept_request(&mut ctx, 0).unwrap_err(), FactoryError::UnauthorizedCaller);
    assert_eq!(accept_request(&mut ctx, 7).unwrap_err(), FactoryError::UnauthorizedCaller);
    assert_eq!(ctx, before);
}

#[test]
fn accept_of_a_missing_request_is_refused() {
    let mut ctx = acceptance(pair_with_request(), id(11));
    let before = ctx.clone();
    assert_eq!(accept_request(&mut ctx, 1).unwrap_err(), FactoryError::RequestNotFound);
    assert_eq!(ctx, before);
    let mut ctx = acceptance(pair_with_catalog(), id(11));
    assert_eq!(accept_request(&mut ctx, 0).unwrap_err(), FactoryError::RequestNotFound);
}

#[test]
fn reject_returns_the_escrow_to_the_requester() {
    let mut ctx = rejection(pair_with_request(), id(11));
    assert_eq!(
        reject_request(&mut ctx, 0),
        Ok(vec![Effect::Transfer { amount: 24, from: id(30), to: id(21), authority: as_pair() }])
    );
    assert_eq!(ctx.pair.pending_requests[0].status, RequestStatus::Rejected);
    assert_eq!(ctx.pair.s0, 0);
}

#[test]
fn reject_by_a_stranger_is_refused() {
    let mut ctx = rejection(pair_with_request(), id(21));
    let before = ctx.clone();
    assert_eq!(reject_request(&mut ctx, 0), Err(FactoryError::UnauthorizedCaller));
    assert_eq!(ctx, before);
}

#[test]
fn decisions_reach_each_request_by_its_position() {
    let mut ctx = submission(pair_with_catalog());
    submit_request(&mut ctx, 0, "first".to_string()).unwrap();
    submit_request(&mut ctx, 0, "second".to_string()).unwrap();
    submit_request(&mut ctx, 1, "third".to_string()).unwrap();
    let mut accepting = acceptance(ctx.pair, id(11));
    let done = accept_request(&mut accepting, 2).unwrap();
    assert_eq!(done.event.request_index, 1);
    assert_eq!(
        done.effects,
        vec![Effect::Transfer { amount: 500, from: id(30), to: id(13), authority: as_pair() }]
    );
    assert!(accept_request(&mut accepting, 1).is_ok());
    let statuses: Vec<RequestStatus> =
        accepting.pair.pending_requests.iter().map(|r| r.status).collect();
    assert_eq!(
        statuses,
        vec![RequestStatus::Pending, RequestStatus::Accepted, RequestStatus::Accepted]
    );
}

#[test]
fn settle_burns_the_escrow_and_pays_the_creator() {
    let mut pair = pair_with_request();
    pair.s0 = 24;
    let mut ctx = settlement(pair, id(11), 960_000);
    assert_eq!(
        accept_and_settle_request(&mut ctx, 0),
        Ok(vec![
            Effect::Burn { mint: id(12), amount: 24, from: id(30), authority: as_pair() },
            Effect::MoveBaseAsset {
                amount: 960_000,
                from: id(14),
                to: id(11),
                authority: Authority::Vault { pair: id(10), bump: 250 },
            },
        ])
    );
    assert_eq!(ctx.pair.pending_requests[0].status, RequestStatus::Completed);
    assert_eq!(ctx.pair.s0, 0);
    assert!(ctx.pair.is_well_formed());
    let before = ctx.clone();
    assert_eq!(
        accept_and_settle_request(&mut ctx, 0),
        Err(FactoryError::RequestAlreadyProcessed)
    );
    assert_eq!(ctx, before);
}

#[test]
fn settle_never_overdraws_the_vault() {
    let mut pair = pair_with_request();
    pair.s0 = 24;
    let mut ctx = settlement(pair, id(11), 959_999);
    let before = ctx.clone();
    assert_eq!(accept_and_settle_request(&mut ctx, 0), Err(FactoryError::InsufficientLiquidity));
    assert_eq!(ctx, before);
}

#[test]
fn settle_of_more_than_the_supply_is_refused() {
    let mut pair = pair_with_request();
    pair.s0 = 23;
    let mut ctx = settlement(pair, id(11), u64::MAX);
    let before = ctx.clone();
    assert_eq!(accept_and_settle_request(&mut ctx, 0), Err(FactoryError::InsufficientTokens));
    assert_eq!(ctx, before);
}

#[test]
fn settle_by_a_stranger_or_of_a_missing_request_is_refused() {
    let mut pair = pair_with_request();
    pair.s0 = 24;
    let mut ctx = settlement(pair.clone(), id(20), u64::MAX);
    assert_eq!(accept_and_settle_request(&mut ctx, 0), Err(FactoryError::UnauthorizedCaller));
    let mut ctx = settlement(pair, id(11), u64::MAX);
    assert_eq!(accept_and_settle_request(&mut ctx, 3), Err(FactoryError::RequestNotFound));
}
